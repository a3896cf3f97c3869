//! The bodies of a simulation, each under the id it was created with. Ids are handed out in
//! increasing order starting at 1, and never twice until the registry is reset. The body
//! data `B` (position, velocity, mass, thrust) is carried, not read.

use vstd::prelude::*;

use crate::small_body::BodyId;
use crate::error::ProjectError;

verus! {

/// Whether body `id` appears among `entries`.
pub open spec fn spec_has_id<B>(entries: Seq<(BodyId, B)>, id: BodyId) -> bool {
    exists|i: int| 0 <= i < entries.len() && #[trigger] entries[i].0 == id
}

/// The bodies of a simulation, in creation order, with the id each was created under.
pub struct BodyRegistry<B> {
    bodies: Vec<(BodyId, B)>,
    next_id: u32,
}

impl<B> BodyRegistry<B> {
    /// The registered bodies in creation order, each with its id.
    pub closed spec fn entries(&self) -> Seq<(BodyId, B)> {
        self.bodies@
    }

    /// The id that the next created body will get.
    pub closed spec fn spec_next_id(&self) -> u32 {
        self.next_id
    }

    /// Ids are distinct, increase in creation order, and all lie below the next id, which is
    /// at least 1.
    pub open spec fn wf(&self) -> bool {
        &&& self.spec_next_id() >= 1
        &&& forall|i: int|
            0 <= i < self.entries().len() ==> 1 <= #[trigger] self.entries()[i].0.0
                < self.spec_next_id()
        &&& forall|i: int, j: int|
            0 <= i < j < self.entries().len() ==> #[trigger] self.entries()[i].0.0
                < #[trigger] self.entries()[j].0.0
    }

    /// An empty registry whose first body will get id 1.
    pub fn new() -> (r: Self)
        ensures
            r.wf(),
            r.entries() == Seq::<(BodyId, B)>::empty(),
            r.spec_next_id() == 1,
    {
        BodyRegistry { bodies: Vec::new(), next_id: 1 }
    }

    /// The id that the next created body will get.
    pub fn next_id(&self) -> (r: u32)
        ensures
            r == self.spec_next_id(),
    {
        self.next_id
    }

    /// Number of registered bodies.
    pub fn len(&self) -> (r: usize)
        ensures
            r == self.entries().len(),
    {
        self.bodies.len()
    }

    /// Registers `body` under the next id and returns that id.
    pub fn insert(&mut self, body: B) -> (r: BodyId)
        requires
            old(self).wf(),
            old(self).spec_next_id() < u32::MAX,
        ensures
            final(self).wf(),
            r == BodyId(old(self).spec_next_id()),
            !spec_has_id(old(self).entries(), r),
            final(self).entries() == old(self).entries().push((r, body)),
            final(self).spec_next_id() == old(self).spec_next_id() + 1,
    {
        let id = BodyId(self.next_id);
        proof {
            assert forall|i: int| 0 <= i < old(self).entries().len() implies #[trigger] old(
                self,
            ).entries()[i].0 != id by {
                assert(old(self).entries()[i].0.0 < old(self).spec_next_id());
            }
        }
        self.next_id = self.next_id + 1;
        self.bodies.push((id, body));
        proof {
            let e = self.bodies@;
            assert forall|i: int, j: int| 0 <= i < j < e.len() implies #[trigger] e[i].0.0
                < #[trigger] e[j].0.0 by {
                if j == e.len() - 1 {
                    assert(e[i] == old(self).entries()[i]);
                    assert(old(self).entries()[i].0.0 < old(self).spec_next_id());
                } else {
                    assert(e[i] == old(self).entries()[i]);
                    assert(e[j] == old(self).entries()[j]);
                }
            }
            assert forall|i: int| 0 <= i < e.len() implies 1 <= #[trigger] e[i].0.0
                < self.next_id by {
                if i < e.len() - 1 {
                    assert(e[i] == old(self).entries()[i]);
                    assert(old(self).entries()[i].0.0 < old(self).spec_next_id());
                }
            }
        }
        id
    }

    /// Position of body `id` in creation order, or `BodyNotFound` when no body has that id.
    pub fn index_of(&self, id: BodyId) -> (r: Result<usize, ProjectError>)
        requires
            self.wf(),
        ensures
            match r {
                Ok(i) => i < self.entries().len() && self.entries()[i as int].0 == id,
                Err(e) => e == ProjectError::BodyNotFound(id.0) && !spec_has_id(
                    self.entries(),
                    id,
                ),
            },
    {
        let mut i: usize = 0;
        while i < self.bodies.len()
            invariant
                0 <= i <= self.bodies.len(),
                forall|j: int| 0 <= j < i ==> (#[trigger] self.bodies@[j]).0 != id,
            decreases self.bodies.len() - i,
        {
            if self.bodies[i].0.0 == id.0 {
                return Ok(i);
            }
            i = i + 1;
        }
        Err(ProjectError::BodyNotFound(id.0))
    }

    /// The id of the `index`-th body in creation order.
    pub fn id_at(&self, index: usize) -> (r: BodyId)
        requires
            index < self.entries().len(),
        ensures
            r == self.entries()[index as int].0,
    {
        self.bodies[index].0
    }

    /// The `index`-th body in creation order.
    pub fn body(&self, index: usize) -> (r: &B)
        requires
            index < self.entries().len(),
        ensures
            *r == self.entries()[index as int].1,
    {
        &self.bodies[index].1
    }

    /// Mutable access to the `index`-th body; its id stays as it was.
    pub fn body_mut(&mut self, index: usize) -> (r: &mut B)
        requires
            index < old(self).entries().len(),
        ensures
            *r == old(self).entries()[index as int].1,
            final(self).entries() == old(self).entries().update(
                index as int,
                (old(self).entries()[index as int].0, *final(r)),
            ),
            final(self).spec_next_id() == old(self).spec_next_id(),
            old(self).wf() ==> final(self).wf(),
    {
        &mut self.bodies[index].1
    }

    /// Removes all bodies; ids start again at 1.
    pub fn clear(&mut self)
        ensures
            final(self).wf(),
            final(self).entries() == Seq::<(BodyId, B)>::empty(),
            final(self).spec_next_id() == 1,
    {
        self.bodies.clear();
        self.next_id = 1;
    }
}

/// No two bodies share an id, so a lookup by id finds at most one body.
pub proof fn lemma_ids_are_unique<B>(registry: BodyRegistry<B>, i: int, j: int)
    requires
        registry.wf(),
        0 <= i < registry.entries().len(),
        0 <= j < registry.entries().len(),
        registry.entries()[i].0 == registry.entries()[j].0,
    ensures
        i == j,
{
    let e = registry.entries();
    assert(forall|a: int, b: int|
        0 <= a < b < e.len() ==> #[trigger] e[a].0.0 < #[trigger] e[b].0.0);
    if i < j {
        assert(e[i].0.0 < e[j].0.0);
    } else if j < i {
        assert(e[j].0.0 < e[i].0.0);
    }
}

/// Registering a body keeps every earlier body findable under its id, makes the new body
/// findable under the new id, and adds no other id.
pub proof fn lemma_insert_keeps_bodies<B>(entries: Seq<(BodyId, B)>, new_id: BodyId, body: B, id: BodyId)
    ensures
        spec_has_id(entries.push((new_id, body)), id) <==> (spec_has_id(entries, id) || id
            == new_id),
{
    let pushed = entries.push((new_id, body));
    if spec_has_id(entries, id) {
        let i = choose|i: int| 0 <= i < entries.len() && #[trigger] entries[i].0 == id;
        assert(pushed[i].0 == id);
    }
    if id == new_id {
        assert(pushed[entries.len() as int].0 == id);
    }
    if spec_has_id(pushed, id) {
        let i = choose|i: int| 0 <= i < pushed.len() && #[trigger] pushed[i].0 == id;
        if i < entries.len() {
            assert(entries[i].0 == id);
        }
    }
}

} // verus!
