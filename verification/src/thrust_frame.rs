//! Semantic thrust directions in the local orbital frame and their bit-flag encoding.

use vstd::prelude::*;

use crate::error::ProjectError;
use crate::thrust_flags;

verus! {

/// Semantic thrust directions in the local orbital reference frame.
///
/// Frame convention (right-handed, relative to motion):
/// - **Prograde / Retrograde**: along / against instantaneous velocity.
/// - **Left / Right**: normal to the orbital plane (`left = radial × prograde`, along +h).
/// - **Up / Down**: radial outward from / inward toward the planet center.
#[derive(Debug, Clone, Copy, PartialEq, Eq, Structural)]
pub enum ThrustDirection {
    /// Along velocity.
    Prograde,
    /// Against velocity.
    Retrograde,
    /// Left of travel (along orbital angular momentum, `r × v`).
    Left,
    /// Right of travel (opposite angular momentum).
    Right,
    /// Radial outward from planet center.
    Up,
    /// Radial inward toward planet center.
    Down,
}

/// The bit flag of each direction.
pub open spec fn spec_bit(d: ThrustDirection) -> u32 {
    match d {
        ThrustDirection::Prograde => 1,
        ThrustDirection::Retrograde => 2,
        ThrustDirection::Left => 4,
        ThrustDirection::Right => 8,
        ThrustDirection::Up => 16,
        ThrustDirection::Down => 32,
    }
}

/// All directions in display order.
pub open spec fn spec_all_directions() -> Seq<ThrustDirection> {
    seq![
        ThrustDirection::Prograde,
        ThrustDirection::Retrograde,
        ThrustDirection::Left,
        ThrustDirection::Right,
        ThrustDirection::Up,
        ThrustDirection::Down,
    ]
}

/// Whether `flags` selects direction `d`.
pub open spec fn spec_selects(flags: u32, d: ThrustDirection) -> bool {
    flags & spec_bit(d) != 0
}

/// The directions that `flags` selects, in display order.
pub open spec fn spec_selected_directions(flags: u32) -> Seq<ThrustDirection> {
    spec_all_directions().filter(|d: ThrustDirection| spec_selects(flags, d))
}

/// The direction whose bit flag is `bit`, if any.
pub open spec fn spec_from_bit(bit: u32) -> Option<ThrustDirection> {
    if bit == 1 {
        Some(ThrustDirection::Prograde)
    } else if bit == 2 {
        Some(ThrustDirection::Retrograde)
    } else if bit == 4 {
        Some(ThrustDirection::Left)
    } else if bit == 8 {
        Some(ThrustDirection::Right)
    } else if bit == 16 {
        Some(ThrustDirection::Up)
    } else if bit == 32 {
        Some(ThrustDirection::Down)
    } else {
        None
    }
}

impl ThrustDirection {
    /// All directions in display order.
    pub fn all() -> (r: [ThrustDirection; 6])
        ensures
            r@ == spec_all_directions(),
    {
        let r = [
            ThrustDirection::Prograde,
            ThrustDirection::Retrograde,
            ThrustDirection::Left,
            ThrustDirection::Right,
            ThrustDirection::Up,
            ThrustDirection::Down,
        ];
        assert(r@ =~= spec_all_directions());
        r
    }

    /// The bit flag of this direction (see [`thrust_flags`]).
    pub fn bit(self) -> (r: u32)
        ensures
            r == spec_bit(self),
    {
        match self {
            ThrustDirection::Prograde => thrust_flags::PROGRADE,
            ThrustDirection::Retrograde => thrust_flags::RETROGRADE,
            ThrustDirection::Left => thrust_flags::LEFT,
            ThrustDirection::Right => thrust_flags::RIGHT,
            ThrustDirection::Up => thrust_flags::UP,
            ThrustDirection::Down => thrust_flags::DOWN,
        }
    }

    /// Parses a single direction from a bit flag value.
    pub fn from_bit(bit: u32) -> (r: Option<Self>)
        ensures
            r == spec_from_bit(bit),
    {
        match bit {
            1 => Some(ThrustDirection::Prograde),
            2 => Some(ThrustDirection::Retrograde),
            4 => Some(ThrustDirection::Left),
            8 => Some(ThrustDirection::Right),
            16 => Some(ThrustDirection::Up),
            32 => Some(ThrustDirection::Down),
            _ => None,
        }
    }
}

/// The directions selected by `flags`, in display order, ready to be combined into one
/// burn direction in the local frame. Bits that name no direction are ignored; no flag at
/// all is an error.
pub fn thrust_directions_from_flags(flags: u32) -> (r: Result<Vec<ThrustDirection>, ProjectError>)
    ensures
        flags == 0 ==> r == Err::<Vec<ThrustDirection>, ProjectError>(
            ProjectError::InvalidVector("at least one thrust direction flag is required"),
        ),
        flags != 0 ==> (r matches Ok(v) && v@ == spec_selected_directions(flags)),
{
    if flags == 0 {
        return Err(ProjectError::InvalidVector("at least one thrust direction flag is required"));
    }
    let all = ThrustDirection::all();
    let ghost pred = |d: ThrustDirection| spec_selects(flags, d);
    let mut selected: Vec<ThrustDirection> = Vec::new();
    let mut i: usize = 0;
    while i < 6
        invariant
            0 <= i <= 6,
            all@ == spec_all_directions(),
            pred == (|d: ThrustDirection| spec_selects(flags, d)),
            selected@ == all@.take(i as int).filter(pred),
        decreases 6 - i,
    {
        let direction = all[i];
        proof {
            reveal(Seq::filter);
            assert(all@.take(i + 1).drop_last() =~= all@.take(i as int));
        }
        if flags & direction.bit() != 0 {
            selected.push(direction);
        }
        i = i + 1;
    }
    proof {
        assert(all@.take(6) =~= all@);
    }
    Ok(selected)
}

/// Each direction's flag is a single bit of its own: which of the six flags a value
/// holds decides, bit by bit, which directions it selects.
proof fn lemma_direction_bits(x: u32)
    by (bit_vector)
    ensures
        x == 1 ==> (x & 1 != 0 && x & 2 == 0 && x & 4 == 0 && x & 8 == 0 && x & 16 == 0 && x & 32
            == 0),
        x == 2 ==> (x & 1 == 0 && x & 2 != 0 && x & 4 == 0 && x & 8 == 0 && x & 16 == 0 && x & 32
            == 0),
        x == 4 ==> (x & 1 == 0 && x & 2 == 0 && x & 4 != 0 && x & 8 == 0 && x & 16 == 0 && x & 32
            == 0),
        x == 8 ==> (x & 1 == 0 && x & 2 == 0 && x & 4 == 0 && x & 8 != 0 && x & 16 == 0 && x & 32
            == 0),
        x == 16 ==> (x & 1 == 0 && x & 2 == 0 && x & 4 == 0 && x & 8 == 0 && x & 16 != 0 && x
            & 32 == 0),
        x == 32 ==> (x & 1 == 0 && x & 2 == 0 && x & 4 == 0 && x & 8 == 0 && x & 16 == 0 && x
            & 32 != 0),
{
}

/// The selection in closed form: each direction in display order, kept when its bit is set.
proof fn lemma_selected_closed_form(flags: u32)
    ensures
        spec_selected_directions(flags) == (if spec_selects(flags, ThrustDirection::Prograde) {
            seq![ThrustDirection::Prograde]
        } else {
            Seq::empty()
        }) + (if spec_selects(flags, ThrustDirection::Retrograde) {
            seq![ThrustDirection::Retrograde]
        } else {
            Seq::empty()
        }) + (if spec_selects(flags, ThrustDirection::Left) {
            seq![ThrustDirection::Left]
        } else {
            Seq::empty()
        }) + (if spec_selects(flags, ThrustDirection::Right) {
            seq![ThrustDirection::Right]
        } else {
            Seq::empty()
        }) + (if spec_selects(flags, ThrustDirection::Up) {
            seq![ThrustDirection::Up]
        } else {
            Seq::empty()
        }) + (if spec_selects(flags, ThrustDirection::Down) {
            seq![ThrustDirection::Down]
        } else {
            Seq::empty()
        }),
{
    reveal_with_fuel(Seq::filter, 7);
    let all = spec_all_directions();
    assert(all.drop_last().drop_last().drop_last().drop_last().drop_last().drop_last()
        =~= Seq::<ThrustDirection>::empty());
    assert(all.drop_last().drop_last().drop_last().drop_last().drop_last() =~= seq![
        ThrustDirection::Prograde,
    ]);
    assert(all.drop_last().drop_last().drop_last().drop_last() =~= seq![
        ThrustDirection::Prograde,
        ThrustDirection::Retrograde,
    ]);
    assert(all.drop_last().drop_last().drop_last() =~= seq![
        ThrustDirection::Prograde,
        ThrustDirection::Retrograde,
        ThrustDirection::Left,
    ]);
    assert(all.drop_last().drop_last() =~= seq![
        ThrustDirection::Prograde,
        ThrustDirection::Retrograde,
        ThrustDirection::Left,
        ThrustDirection::Right,
    ]);
    assert(all.drop_last() =~= seq![
        ThrustDirection::Prograde,
        ThrustDirection::Retrograde,
        ThrustDirection::Left,
        ThrustDirection::Right,
        ThrustDirection::Up,
    ]);
    let pick = |d: ThrustDirection|
        if spec_selects(flags, d) {
            seq![d]
        } else {
            Seq::<ThrustDirection>::empty()
        };
    assert(spec_selected_directions(flags) =~= pick(ThrustDirection::Prograde) + pick(
        ThrustDirection::Retrograde,
    ) + pick(ThrustDirection::Left) + pick(ThrustDirection::Right) + pick(ThrustDirection::Up)
        + pick(ThrustDirection::Down));
}

/// A bit flag parses back to the direction it encodes, and only the six flags parse.
pub proof fn lemma_bit_round_trip(d: ThrustDirection, bit: u32)
    ensures
        spec_from_bit(spec_bit(d)) == Some(d),
        spec_from_bit(bit) matches Some(e) ==> spec_bit(e) == bit,
        spec_from_bit(bit) is None <==> (forall|e: ThrustDirection| spec_bit(e) != bit),
{
    if spec_from_bit(bit) is None {
        assert forall|e: ThrustDirection| spec_bit(e) != bit by {
            match e {
                ThrustDirection::Prograde => {},
                ThrustDirection::Retrograde => {},
                ThrustDirection::Left => {},
                ThrustDirection::Right => {},
                ThrustDirection::Up => {},
                ThrustDirection::Down => {},
            }
        }
    } else {
        let e = spec_from_bit(bit)->0;
        assert(spec_bit(e) == bit);
    }
}

/// The named flag constants are the directions' bit flags.
pub proof fn lemma_flag_constants()
    ensures
        thrust_flags::PROGRADE == spec_bit(ThrustDirection::Prograde),
        thrust_flags::RETROGRADE == spec_bit(ThrustDirection::Retrograde),
        thrust_flags::LEFT == spec_bit(ThrustDirection::Left),
        thrust_flags::RIGHT == spec_bit(ThrustDirection::Right),
        thrust_flags::UP == spec_bit(ThrustDirection::Up),
        thrust_flags::DOWN == spec_bit(ThrustDirection::Down),
{
}

/// A direction is combined exactly when its bit is set, each at most once, in display
/// order, so no more than six directions are ever combined.
pub proof fn lemma_selected_directions(flags: u32, d: ThrustDirection)
    ensures
        spec_selected_directions(flags).contains(d) <==> spec_selects(flags, d),
        spec_selected_directions(flags).no_duplicates(),
        spec_selected_directions(flags).len() <= 6,
{
    lemma_selected_closed_form(flags);
    let s = spec_selected_directions(flags);
    if spec_selects(flags, d) {
        let i = match d {
            ThrustDirection::Prograde => 0int,
            ThrustDirection::Retrograde => 1,
            ThrustDirection::Left => 2,
            ThrustDirection::Right => 3,
            ThrustDirection::Up => 4,
            ThrustDirection::Down => 5,
        };
        assert(spec_all_directions()[i] == d);
        reveal(Seq::filter);
        spec_all_directions().lemma_filter_contains(|e: ThrustDirection| spec_selects(flags, e), i);
    } else {
        if s.contains(d) {
            let k = choose|k: int| 0 <= k < s.len() && s[k] == d;
            spec_all_directions().lemma_filter_pred(|e: ThrustDirection| spec_selects(flags, e), k);
        }
    }
}

proof fn lemma_or_selects(a: u32, b: u32, m: u32)
    by (bit_vector)
    ensures
        ((a | b) & m != 0) == ((a & m != 0) || (b & m != 0)),
{
}

/// Flags combine with bitwise OR: the union of two flag sets selects a direction exactly
/// when either set does.
pub proof fn lemma_flags_combine_by_or(a: u32, b: u32, d: ThrustDirection)
    ensures
        spec_selected_directions(a | b).contains(d) <==> (spec_selected_directions(a).contains(d)
            || spec_selected_directions(b).contains(d)),
{
    lemma_selected_directions(a | b, d);
    lemma_selected_directions(a, d);
    lemma_selected_directions(b, d);
    lemma_or_selects(a, b, spec_bit(d));
}

/// A single flag selects exactly its own direction.
pub proof fn lemma_single_flag_selects_its_direction(d: ThrustDirection)
    ensures
        spec_selected_directions(spec_bit(d)) == seq![d],
{
    lemma_selected_closed_form(spec_bit(d));
    lemma_direction_bits(spec_bit(d));
    assert(spec_selected_directions(spec_bit(d)) =~= seq![d]);
}

} // verus!
