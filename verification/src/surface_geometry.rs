//! Structure of the polylines and meshes laid over the planet surface: which interpolation
//! samples a subdivided polyline emits, and the triangle connectivity of the visibility
//! corridor mesh.
//!
//! The corridor's vertices form `along_count` rows (stations along the ground track) of
//! `cross_subdivisions + 1` vertices each (port to starboard), row after row. Each pair of
//! neighbouring rows is joined by `cross_subdivisions` quads of two triangles; a closed track
//! also joins its last row back to the first.

use vstd::prelude::*;

verus! {

/// Number of row-to-row segments: one per row on a closed track, one fewer on an open one;
/// none when there are fewer than two rows.
pub open spec fn spec_segment_count(along_count: int, closed: bool) -> int {
    if along_count < 2 {
        0
    } else if closed {
        along_count
    } else {
        along_count - 1
    }
}

/// Vertex index of corner `slot` (0..6) of the two triangles of quad `cross` on segment
/// `seg`: `(a, b, a+1)` and `(a+1, b, b+1)`, where `a` and `b` are the quad's vertices on
/// this row and on the next row (the first row again after the last).
pub open spec fn spec_quad_corner(along_count: int, row_stride: int, seg: int, cross: int, slot: int) -> int {
    let row_a = seg * row_stride;
    let row_b = ((seg + 1) % along_count) * row_stride;
    if slot == 0 {
        row_a + cross
    } else if slot == 1 {
        row_b + cross
    } else if slot == 2 {
        row_a + cross + 1
    } else if slot == 3 {
        row_a + cross + 1
    } else if slot == 4 {
        row_b + cross
    } else {
        row_b + cross + 1
    }
}

/// Position of corner `slot` of quad `cross` on segment `seg` in the index list.
pub open spec fn spec_slot_position(cross_subdivisions: int, seg: int, cross: int, slot: int) -> int {
    6 * (seg * cross_subdivisions + cross) + slot
}

proof fn lemma_slot_position_bounds(cross_subdivisions: int, seg: int, cross: int, slot: int, segs: int)
    requires
        0 <= seg < segs,
        0 <= cross < cross_subdivisions,
        0 <= slot < 6,
    ensures
        0 <= spec_slot_position(cross_subdivisions, seg, cross, slot) < 6 * (segs
            * cross_subdivisions),
        spec_slot_position(cross_subdivisions, seg, cross, slot) < 6 * (seg * cross_subdivisions
            + cross) + 6,
        6 * (seg * cross_subdivisions + cross) <= spec_slot_position(
            cross_subdivisions,
            seg,
            cross,
            slot,
        ),
{
    assert(0 <= seg * cross_subdivisions) by (nonlinear_arith)
        requires
            0 <= seg,
            0 <= cross_subdivisions,
    ;
    assert(seg * cross_subdivisions + cross < segs * cross_subdivisions) by (nonlinear_arith)
        requires
            0 <= seg < segs,
            0 <= cross < cross_subdivisions,
    ;
}

proof fn lemma_row_bounds(along_count: int, row_stride: int, seg: int)
    requires
        2 <= along_count,
        1 <= row_stride,
        0 <= seg < along_count,
    ensures
        seg * row_stride + row_stride <= along_count * row_stride,
        ((seg + 1) % along_count) * row_stride + row_stride <= along_count * row_stride,
        0 <= seg * row_stride,
        0 <= ((seg + 1) % along_count) * row_stride,
{
    let next = (seg + 1) % along_count;
    assert(0 <= next < along_count);
    assert(seg * row_stride + row_stride <= along_count * row_stride) by (nonlinear_arith)
        requires
            0 <= seg < along_count,
            1 <= row_stride,
    ;
    assert(next * row_stride + row_stride <= along_count * row_stride) by (nonlinear_arith)
        requires
            0 <= next < along_count,
            1 <= row_stride,
    ;
    assert(0 <= seg * row_stride) by (nonlinear_arith)
        requires
            0 <= seg,
            1 <= row_stride,
    ;
    assert(0 <= next * row_stride) by (nonlinear_arith)
        requires
            0 <= next,
            1 <= row_stride,
    ;
}

/// Triangle indices (groups of three) of the corridor mesh with `along_count` rows of
/// `cross_subdivisions + 1` vertices, closed back to the first row when `closed`. Each index is
/// emitted as a `u32`.
pub fn corridor_triangle_indices(along_count: usize, cross_subdivisions: usize, closed: bool) -> (r: Vec<u32>)
    requires
        along_count * (cross_subdivisions + 1) <= usize::MAX,
    ensures
        r.len() == 6 * (spec_segment_count(along_count as int, closed) * cross_subdivisions),
        forall|seg: int, cross: int, slot: int|
            0 <= seg < spec_segment_count(along_count as int, closed) && 0 <= cross
                < cross_subdivisions && 0 <= slot < 6 ==> #[trigger] r@[spec_slot_position(
                cross_subdivisions as int,
                seg,
                cross,
                slot,
            )] == spec_quad_corner(
                along_count as int,
                cross_subdivisions + 1,
                seg,
                cross,
                slot,
            ) as u32,
{
    let mut indices: Vec<u32> = Vec::new();
    if along_count < 2 {
        return indices;
    }
    proof {
        assert(cross_subdivisions + 1 <= along_count * (cross_subdivisions + 1)) by (nonlinear_arith)
            requires
                2 <= along_count,
        ;
    }
    let row_stride = cross_subdivisions + 1;
    let along_segment_count = if closed { along_count } else { along_count - 1 };
    let ghost segs = spec_segment_count(along_count as int, closed);
    let ghost stride = row_stride as int;
    let ghost n = along_count as int;
    let mut along_index: usize = 0;
    while along_index < along_segment_count
        invariant
            2 <= along_count,
            row_stride == cross_subdivisions + 1,
            along_count * (cross_subdivisions + 1) <= usize::MAX,
            along_segment_count == segs,
            segs == spec_segment_count(along_count as int, closed),
            segs <= along_count,
            stride == row_stride,
            n == along_count,
            0 <= along_index <= along_segment_count,
            indices.len() == 6 * (along_index * cross_subdivisions),
            forall|seg: int, cross: int, slot: int|
                0 <= seg < along_index && 0 <= cross < cross_subdivisions && 0 <= slot < 6
                    ==> #[trigger] indices@[spec_slot_position(
                    cross_subdivisions as int,
                    seg,
                    cross,
                    slot,
                )] == spec_quad_corner(n, stride, seg, cross, slot) as u32,
        decreases along_segment_count - along_index,
    {
        let next_along = (along_index + 1) % along_count;
        proof {
            lemma_row_bounds(n, stride, along_index as int);
            assert(next_along == (along_index + 1) % n);
        }
        let row_a = along_index * row_stride;
        let row_b = next_along * row_stride;
        let mut cross_index: usize = 0;
        while cross_index < cross_subdivisions
            invariant
                2 <= along_count,
                row_stride == cross_subdivisions + 1,
                along_count * (cross_subdivisions + 1) <= usize::MAX,
                segs == spec_segment_count(along_count as int, closed),
                along_segment_count == segs,
                stride == row_stride,
                n == along_count,
                0 <= along_index < along_segment_count,
                segs <= along_count,
                next_along == (along_index + 1) % n,
                row_a == along_index * stride,
                row_b == next_along * stride,
                row_a + row_stride <= along_count * row_stride,
                row_b + row_stride <= along_count * row_stride,
                0 <= cross_index <= cross_subdivisions,
                indices.len() == 6 * (along_index * cross_subdivisions + cross_index),
                forall|seg: int, cross: int, slot: int|
                    (0 <= seg < along_index && 0 <= cross < cross_subdivisions || seg
                        == along_index && 0 <= cross < cross_index) && 0 <= slot < 6
                        ==> #[trigger] indices@[spec_slot_position(
                        cross_subdivisions as int,
                        seg,
                        cross,
                        slot,
                    )] == spec_quad_corner(n, stride, seg, cross, slot) as u32,
            decreases cross_subdivisions - cross_index,
        {
            let i00 = row_a + cross_index;
            let i01 = row_a + cross_index + 1;
            let i10 = row_b + cross_index;
            let i11 = row_b + cross_index + 1;
            let ghost before = indices@;
            indices.push(i00 as u32);
            indices.push(i10 as u32);
            indices.push(i01 as u32);
            indices.push(i01 as u32);
            indices.push(i10 as u32);
            indices.push(i11 as u32);
            proof {
                let base = 6 * (along_index * cross_subdivisions + cross_index);
                assert(base == spec_slot_position(
                    cross_subdivisions as int,
                    along_index as int,
                    cross_index as int,
                    0,
                ));
                assert forall|seg: int, cross: int, slot: int|
                    (0 <= seg < along_index && 0 <= cross < cross_subdivisions || seg
                        == along_index && 0 <= cross < cross_index + 1) && 0 <= slot
                        < 6 implies #[trigger] indices@[spec_slot_position(
                    cross_subdivisions as int,
                    seg,
                    cross,
                    slot,
                )] == spec_quad_corner(n, stride, seg, cross, slot) as u32 by {
                    if seg == along_index && cross == cross_index {
                        assert(spec_slot_position(cross_subdivisions as int, seg, cross, slot)
                            == base + slot);
                    } else {
                        if seg < along_index {
                            lemma_slot_position_bounds(
                                cross_subdivisions as int,
                                seg,
                                cross,
                                slot,
                                along_index as int,
                            );
                            assert(6 * (along_index * cross_subdivisions) <= base);
                        } else {
                            lemma_slot_position_bounds(
                                cross_subdivisions as int,
                                seg,
                                cross,
                                slot,
                                seg + 1,
                            );
                        }
                        assert(indices@[spec_slot_position(
                            cross_subdivisions as int,
                            seg,
                            cross,
                            slot,
                        )] == before[spec_slot_position(
                            cross_subdivisions as int,
                            seg,
                            cross,
                            slot,
                        )]);
                    }
                }
            }
            cross_index = cross_index + 1;
        }
        proof {
            assert(6 * (along_index * cross_subdivisions + cross_subdivisions) == 6 * ((
            along_index + 1) * cross_subdivisions)) by (nonlinear_arith);
        }
        along_index = along_index + 1;
    }
    indices
}

/// Every index of the corridor mesh names one of its `along_count * (cross_subdivisions + 1)`
/// vertices, and while there are no more than 2^32 vertices the `u32` index is the vertex
/// number itself; the list always holds whole triangles.
pub proof fn lemma_corridor_indices_name_vertices(
    along_count: int,
    cross_subdivisions: int,
    closed: bool,
    seg: int,
    cross: int,
    slot: int,
)
    requires
        0 <= cross_subdivisions,
        0 <= seg < spec_segment_count(along_count, closed),
        0 <= cross < cross_subdivisions,
        0 <= slot < 6,
    ensures
        0 <= spec_quad_corner(along_count, cross_subdivisions + 1, seg, cross, slot) < along_count
            * (cross_subdivisions + 1),
        along_count * (cross_subdivisions + 1) <= u32::MAX + 1 ==> spec_quad_corner(
            along_count,
            cross_subdivisions + 1,
            seg,
            cross,
            slot,
        ) as u32 == spec_quad_corner(along_count, cross_subdivisions + 1, seg, cross, slot),
        (6 * (spec_segment_count(along_count, closed) * cross_subdivisions)) % 3 == 0,
{
    lemma_row_bounds(along_count, cross_subdivisions + 1, seg);
}

/// Each quad of segment `seg` joins row `seg` to the next row, `(seg + 1) mod along_count`
/// (the first row again after the last): the triangle corners at slots 0, 2, 3 lie on row
/// `seg` and those at slots 1, 4, 5 on the next row, in columns `cross` (slots 0, 1, 4) and
/// `cross + 1` (slots 2, 3, 5). So every triangle has three distinct vertices and no two
/// rows are skipped or joined to themselves.
pub proof fn lemma_corridor_quads_join_consecutive_rows(
    along_count: int,
    cross_subdivisions: int,
    closed: bool,
    seg: int,
    cross: int,
)
    requires
        0 <= cross_subdivisions,
        0 <= seg < spec_segment_count(along_count, closed),
        0 <= cross < cross_subdivisions,
    ensures
        ({
            let stride = cross_subdivisions + 1;
            let next = (seg + 1) % along_count;
            let c = |slot: int| spec_quad_corner(along_count, stride, seg, cross, slot);
            &&& next != seg
            &&& (closed || next == seg + 1)
            &&& c(0) / stride == seg && c(0) % stride == cross
            &&& c(1) / stride == next && c(1) % stride == cross
            &&& c(2) / stride == seg && c(2) % stride == cross + 1
            &&& c(3) / stride == seg && c(3) % stride == cross + 1
            &&& c(4) / stride == next && c(4) % stride == cross
            &&& c(5) / stride == next && c(5) % stride == cross + 1
            &&& c(0) != c(1) && c(1) != c(2) && c(0) != c(2)
            &&& c(3) != c(4) && c(4) != c(5) && c(3) != c(5)
        }),
{
    let stride = cross_subdivisions + 1;
    let next = (seg + 1) % along_count;
    assert(2 <= along_count);
    assert(0 <= next < along_count);
    if seg + 1 < along_count {
        vstd::arithmetic::div_mod::lemma_fundamental_div_mod_converse(
            seg + 1,
            along_count,
            0,
            seg + 1,
        );
    } else {
        vstd::arithmetic::div_mod::lemma_fundamental_div_mod_converse(
            seg + 1,
            along_count,
            1,
            0,
        );
    }
    lemma_row_bounds(along_count, stride, seg);
    vstd::arithmetic::div_mod::lemma_fundamental_div_mod_converse(
        seg * stride + cross,
        stride,
        seg,
        cross,
    );
    vstd::arithmetic::div_mod::lemma_fundamental_div_mod_converse(
        seg * stride + cross + 1,
        stride,
        seg,
        cross + 1,
    );
    vstd::arithmetic::div_mod::lemma_fundamental_div_mod_converse(
        next * stride + cross,
        stride,
        next,
        cross,
    );
    vstd::arithmetic::div_mod::lemma_fundamental_div_mod_converse(
        next * stride + cross + 1,
        stride,
        next,
        cross + 1,
    );
}

/// An open corridor joins exactly the row pairs `(r, r + 1)` for `r < along_count - 1`; a
/// closed one joins those and `(along_count - 1, 0)`; fewer than two rows give no segments.
/// Quads are listed segment after segment and, within a segment, column after column, each
/// as six consecutive corners: the list positions follow that order without gaps.
pub proof fn lemma_corridor_segments_and_order(
    along_count: int,
    cross_subdivisions: int,
    closed: bool,
    seg: int,
    cross: int,
    slot: int,
)
    requires
        0 <= cross_subdivisions,
    ensures
        along_count < 2 ==> spec_segment_count(along_count, closed) == 0,
        along_count >= 2 && !closed ==> spec_segment_count(along_count, closed) + 1
            == along_count,
        along_count >= 2 && closed ==> spec_segment_count(along_count, closed) == along_count,
        spec_slot_position(cross_subdivisions, 0, 0, 0) == 0,
        0 <= slot < 5 ==> spec_slot_position(cross_subdivisions, seg, cross, slot) + 1
            == spec_slot_position(cross_subdivisions, seg, cross, slot + 1),
        spec_slot_position(cross_subdivisions, seg, cross, 5) + 1 == spec_slot_position(
            cross_subdivisions,
            seg,
            cross + 1,
            0,
        ),
        spec_slot_position(cross_subdivisions, seg, cross_subdivisions - 1, 5) + 1
            == spec_slot_position(cross_subdivisions, seg + 1, 0, 0),
{
    assert((seg + 1) * cross_subdivisions == seg * cross_subdivisions + cross_subdivisions)
        by (nonlinear_arith);
}

/// First interpolation step emitted on segment `index`: an open polyline starts every
/// segment after the first at step 1, since step 0 repeats the previous segment's end.
pub open spec fn spec_first_step(index: int, closed: bool) -> int {
    if index == 0 || closed {
        0
    } else {
        1
    }
}

/// The samples `(segment, step)` emitted on segment `index` subdivided into `steps` steps.
pub open spec fn spec_segment_samples(index: int, steps: int, closed: bool) -> Seq<(usize, usize)> {
    let start = spec_first_step(index, closed);
    if steps <= start {
        Seq::empty()
    } else {
        Seq::new((steps - start) as nat, |k: int| (index as usize, (start + k) as usize))
    }
}

/// The samples of all segments, segment after segment.
pub open spec fn spec_polyline_samples(segment_steps: Seq<usize>, closed: bool) -> Seq<(usize, usize)>
    decreases segment_steps.len(),
{
    if segment_steps.len() == 0 {
        Seq::empty()
    } else {
        spec_polyline_samples(segment_steps.drop_last(), closed) + spec_segment_samples(
            segment_steps.len() - 1,
            segment_steps.last() as int,
            closed,
        )
    }
}

/// Number of samples that segment `index` contributes.
pub open spec fn spec_segment_sample_count(index: int, steps: int, closed: bool) -> int {
    let start = spec_first_step(index, closed);
    if steps <= start {
        0
    } else {
        steps - start
    }
}

/// Total number of samples over all segments.
pub open spec fn spec_total_sample_count(segment_steps: Seq<usize>, closed: bool) -> int
    decreases segment_steps.len(),
{
    if segment_steps.len() == 0 {
        0
    } else {
        spec_total_sample_count(segment_steps.drop_last(), closed) + spec_segment_sample_count(
            segment_steps.len() - 1,
            segment_steps.last() as int,
            closed,
        )
    }
}

/// Each segment contributes its steps less the skipped first one; every sample lies on an
/// existing segment, strictly before that segment's last step (the segment's end is the next
/// segment's start), and at or after its first emitted step.
pub proof fn lemma_polyline_samples_structure(segment_steps: Seq<usize>, closed: bool)
    requires
        segment_steps.len() <= usize::MAX,
    ensures
        spec_polyline_samples(segment_steps, closed).len() == spec_total_sample_count(
            segment_steps,
            closed,
        ),
        forall|i: int|
            0 <= i < spec_polyline_samples(segment_steps, closed).len() ==> {
                let (seg, step) = #[trigger] spec_polyline_samples(segment_steps, closed)[i];
                &&& seg < segment_steps.len()
                &&& spec_first_step(seg as int, closed) <= step < segment_steps[seg as int]
            },
    decreases segment_steps.len(),
{
    if segment_steps.len() > 0 {
        let init = segment_steps.drop_last();
        lemma_polyline_samples_structure(init, closed);
        let prefix = spec_polyline_samples(init, closed);
        let last = spec_segment_samples(
            segment_steps.len() - 1,
            segment_steps.last() as int,
            closed,
        );
        let all = spec_polyline_samples(segment_steps, closed);
        assert(all == prefix + last);
        assert forall|i: int| 0 <= i < all.len() implies {
            let (seg, step) = #[trigger] all[i];
            &&& seg < segment_steps.len()
            &&& spec_first_step(seg as int, closed) <= step < segment_steps[seg as int]
        } by {
            if i < prefix.len() {
                assert(all[i] == prefix[i]);
                let (seg, step) = prefix[i];
                assert(init[seg as int] == segment_steps[seg as int]);
            } else {
                let j = i - prefix.len();
                let start = spec_first_step(segment_steps.len() - 1, closed);
                assert(all[i] == last[j]);
                assert(segment_steps.last() as int > start);
                assert(last[j] == ((segment_steps.len() - 1) as usize, (start + j) as usize));
            }
        }
    }
}

/// Samples along a subdivided polyline: `(seg, step)` is emitted exactly when `seg` is one of
/// the segments and `step` runs from 0 (on the first segment, and on every segment of a
/// closed polyline) or from 1 (on the later segments of an open one, whose step 0 is the
/// previous segment's end) up to, not including, the segment's step count. The samples come
/// in strictly increasing order of `(segment, step)`, so each appears once and the line is
/// walked forward.
pub proof fn lemma_polyline_samples_in_order(segment_steps: Seq<usize>, closed: bool, seg: usize, step: usize)
    requires
        segment_steps.len() <= usize::MAX,
    ensures
        spec_polyline_samples(segment_steps, closed).contains((seg, step)) <==> (seg
            < segment_steps.len() && (if seg == 0 || closed {
            0int
        } else {
            1int
        }) <= step < segment_steps[seg as int]),
        forall|i: int, j: int|
            0 <= i < j < spec_polyline_samples(segment_steps, closed).len() ==> {
                let a = #[trigger] spec_polyline_samples(segment_steps, closed)[i];
                let b = #[trigger] spec_polyline_samples(segment_steps, closed)[j];
                a.0 < b.0 || (a.0 == b.0 && a.1 < b.1)
            },
    decreases segment_steps.len(),
{
    lemma_polyline_samples_structure(segment_steps, closed);
    if segment_steps.len() > 0 {
        let n = segment_steps.len();
        let init = segment_steps.drop_last();
        lemma_polyline_samples_in_order(init, closed, seg, step);
        lemma_polyline_samples_structure(init, closed);
        let prefix = spec_polyline_samples(init, closed);
        let last = spec_segment_samples(n - 1, segment_steps.last() as int, closed);
        let all = spec_polyline_samples(segment_steps, closed);
        let start = spec_first_step(n - 1, closed);
        assert(all == prefix + last);
        assert forall|k: int| 0 <= k < last.len() implies #[trigger] last[k] == (
            (n - 1) as usize,
            (start + k) as usize,
        ) && last[k].0 == n - 1 && last[k].1 == start + k by {}
        // membership
        if all.contains((seg, step)) {
            let i = choose|i: int| 0 <= i < all.len() && all[i] == (seg, step);
            if i < prefix.len() {
                assert(prefix[i] == (seg, step));
                assert(prefix.contains((seg, step)));
                assert(init[seg as int] == segment_steps[seg as int]);
            } else {
                assert(last[i - prefix.len()] == (seg, step));
            }
        }
        let lo = if seg == 0 || closed {
            0int
        } else {
            1int
        };
        if seg < n && lo <= step < segment_steps[seg as int] {
            if seg < n - 1 {
                assert(init[seg as int] == segment_steps[seg as int]);
                assert(prefix.contains((seg, step)));
                let i = choose|i: int| 0 <= i < prefix.len() && prefix[i] == (seg, step);
                assert(all[i] == (seg, step));
            } else {
                let k = step - start;
                assert(last[k] == (seg, step));
                assert(all[prefix.len() + k] == (seg, step));
            }
        }
        // order
        assert forall|i: int, j: int| 0 <= i < j < all.len() implies {
            let a = #[trigger] all[i];
            let b = #[trigger] all[j];
            a.0 < b.0 || (a.0 == b.0 && a.1 < b.1)
        } by {
            if j < prefix.len() {
                assert(all[i] == prefix[i]);
                assert(all[j] == prefix[j]);
            } else if i < prefix.len() {
                assert(all[i] == prefix[i]);
                assert(prefix[i].0 < init.len());
                assert(all[j] == last[j - prefix.len()]);
            } else {
                assert(all[i] == last[i - prefix.len()]);
                assert(all[j] == last[j - prefix.len()]);
            }
        }
    }
}

/// Interpolation samples of a polyline subdivided on the sphere: for each segment (in
/// order) the pairs `(segment, step)` with `step` running up to the segment's step count,
/// each sample at weight `step / steps` between the segment's endpoints. On an open polyline
/// every segment after the first skips step 0, which would repeat the previous segment's end.
pub fn spherical_polyline_samples(segment_steps: &Vec<usize>, closed: bool) -> (r: Vec<(usize, usize)>)
    ensures
        r@ == spec_polyline_samples(segment_steps@, closed),
{
    let mut samples: Vec<(usize, usize)> = Vec::new();
    let mut index: usize = 0;
    while index < segment_steps.len()
        invariant
            0 <= index <= segment_steps.len(),
            samples@ == spec_polyline_samples(segment_steps@.take(index as int), closed),
        decreases segment_steps.len() - index,
    {
        let steps = segment_steps[index];
        let start_step: usize = if index == 0 || closed { 0 } else { 1 };
        let ghost before = samples@;
        let mut step = start_step;
        while step < steps
            invariant
                start_step == spec_first_step(index as int, closed),
                start_step <= step || steps <= start_step,
                step <= steps || steps <= start_step,
                steps <= start_step ==> step == start_step,
                samples@ == before + (if steps <= start_step {
                    Seq::empty()
                } else {
                    spec_segment_samples(index as int, steps as int, closed).take(step - start_step)
                }),
            decreases steps - step,
        {
            let ghost prev = samples@;
            samples.push((index, step));
            proof {
                let seg = spec_segment_samples(index as int, steps as int, closed);
                assert(seg.take(step + 1 - start_step) =~= seg.take(step - start_step).push(
                    (index, step),
                ));
            }
            step = step + 1;
        }
        proof {
            let seg = spec_segment_samples(index as int, steps as int, closed);
            if steps > start_step {
                assert(seg.take(steps - start_step) =~= seg);
            } else {
                assert(seg =~= Seq::<(usize, usize)>::empty());
            }
            assert(segment_steps@.take(index + 1).drop_last() =~= segment_steps@.take(
                index as int,
            ));
            assert(samples@ =~= spec_polyline_samples(segment_steps@.take(index + 1), closed));
        }
        index = index + 1;
    }
    proof {
        assert(segment_steps@.take(segment_steps.len() as int) =~= segment_steps@);
    }
    samples
}

} // verus!
