//! Line segments between transformed vertices, for the orbital paths:
//! uniform stepping along the longer pixel axis, with linearly
//! interpolated depth and the start vertex's color.

use crate::fixed::{
    abs_s, div_trunc, fdiv1000, fdiv1000_s, lemma_fx_mul_le, lemma_tdiv_bound, max_s, tdiv,
};
use crate::fragment::Fragment;
use crate::vertex::{vertex_wf, Vertex};
use vstd::prelude::*;

verus! {

/// Pixel column of a vertex's screen position.
pub open spec fn px_of_s(v: Vertex) -> int {
    fdiv1000_s(v.transformed_position.x as int)
}

/// Pixel row of a vertex's screen position.
pub open spec fn py_of_s(v: Vertex) -> int {
    fdiv1000_s(v.transformed_position.y as int)
}

/// Number of steps the segment is divided into: the longer pixel span.
pub open spec fn line_steps_s(v1: Vertex, v2: Vertex) -> int {
    max_s(abs_s(px_of_s(v2) - px_of_s(v1)), abs_s(py_of_s(v2) - py_of_s(v1)))
}

/// The fragment placed at one step along the segment.
pub open spec fn line_frag_s(v1: Vertex, v2: Vertex, k: int) -> Fragment {
    let st = max_s(line_steps_s(v1, v2), 1);
    let x0 = px_of_s(v1);
    let y0 = py_of_s(v1);
    Fragment {
        x: (x0 + tdiv((px_of_s(v2) - x0) * k, st)) as i64,
        y: (y0 + tdiv((py_of_s(v2) - y0) * k, st)) as i64,
        color: v1.color,
        depth: (v1.transformed_position.z + tdiv(
            (v2.transformed_position.z - v1.transformed_position.z) * k,
            st,
        )) as i64,
        intensity: 1000,
    }
}

/// The full output of the line rasterizer, as a sequence.
pub open spec fn line_seq_s(v1: Vertex, v2: Vertex) -> Seq<Fragment> {
    Seq::new((line_steps_s(v1, v2) + 1) as nat, |k: int| line_frag_s(v1, v2, k))
}

/// Rasterize the segment from `v1` to `v2`: one fragment per step along
/// the longer axis, endpoints included.
pub fn line(v1: &Vertex, v2: &Vertex) -> (fragments: Vec<Fragment>)
    requires
        vertex_wf(*v1),
        vertex_wf(*v2),
    ensures
        fragments@ == line_seq_s(*v1, *v2),
        fragments@.len() == line_steps_s(*v1, *v2) + 1,
        forall|k: int|
            0 <= k <= line_steps_s(*v1, *v2) ==> #[trigger] fragments@[k] == line_frag_s(
                *v1,
                *v2,
                k,
            ),
        forall|k: int|
            0 <= k < fragments@.len() ==> -3_000_000 <= (#[trigger] fragments@[k]).x <= 3_000_000
                && -3_000_000 <= fragments@[k].y <= 3_000_000,
{
    let x0 = fdiv1000(v1.transformed_position.x);
    let y0 = fdiv1000(v1.transformed_position.y);
    let x1 = fdiv1000(v2.transformed_position.x);
    let y1 = fdiv1000(v2.transformed_position.y);
    proof {
        vstd::arithmetic::div_mod::lemma_div_multiples_vanish(-1_000_000, 1000);
        vstd::arithmetic::div_mod::lemma_div_multiples_vanish(1_000_000, 1000);
        vstd::arithmetic::div_mod::lemma_div_is_ordered(
            -1_000_000_000,
            v1.transformed_position.x as int,
            1000,
        );
        vstd::arithmetic::div_mod::lemma_div_is_ordered(
            v1.transformed_position.x as int,
            1_000_000_000,
            1000,
        );
        vstd::arithmetic::div_mod::lemma_div_is_ordered(
            -1_000_000_000,
            v1.transformed_position.y as int,
            1000,
        );
        vstd::arithmetic::div_mod::lemma_div_is_ordered(
            v1.transformed_position.y as int,
            1_000_000_000,
            1000,
        );
        vstd::arithmetic::div_mod::lemma_div_is_ordered(
            -1_000_000_000,
            v2.transformed_position.x as int,
            1000,
        );
        vstd::arithmetic::div_mod::lemma_div_is_ordered(
            v2.transformed_position.x as int,
            1_000_000_000,
            1000,
        );
        vstd::arithmetic::div_mod::lemma_div_is_ordered(
            -1_000_000_000,
            v2.transformed_position.y as int,
            1000,
        );
        vstd::arithmetic::div_mod::lemma_div_is_ordered(
            v2.transformed_position.y as int,
            1_000_000_000,
            1000,
        );
        assert(-1_000_000 <= x0 <= 1_000_000 && -1_000_000 <= y0 <= 1_000_000 && -1_000_000 <= x1
            <= 1_000_000 && -1_000_000 <= y1 <= 1_000_000);
    }
    let adx = if x1 >= x0 {
        x1 - x0
    } else {
        x0 - x1
    };
    let ady = if y1 >= y0 {
        y1 - y0
    } else {
        y0 - y1
    };
    let steps = if adx > ady {
        adx
    } else {
        ady
    };
    let st = if steps == 0 {
        1
    } else {
        steps
    };
    let dx = x1 - x0;
    let dy = y1 - y0;
    let dz = v2.transformed_position.z - v1.transformed_position.z;
    let mut fragments: Vec<Fragment> = Vec::new();
    let mut k: i64 = 0;
    while k <= steps
        invariant
            steps == line_steps_s(*v1, *v2),
            0 <= steps <= 2_000_000,
            st == max_s(steps as int, 1),
            x0 == px_of_s(*v1),
            y0 == py_of_s(*v1),
            dx == px_of_s(*v2) - px_of_s(*v1),
            dy == py_of_s(*v2) - py_of_s(*v1),
            -2_000_000 <= dx <= 2_000_000,
            -2_000_000 <= dy <= 2_000_000,
            dz == v2.transformed_position.z - v1.transformed_position.z,
            -2_000_000_000 <= dz <= 2_000_000_000,
            -1_000_000 <= x0 <= 1_000_000,
            -1_000_000 <= y0 <= 1_000_000,
            vertex_wf(*v1),
            vertex_wf(*v2),
            0 <= k <= steps + 1,
            fragments@.len() == k,
            forall|j: int|
                0 <= j < k ==> #[trigger] fragments@[j] == line_frag_s(*v1, *v2, j),
            forall|j: int|
                0 <= j < k ==> -3_000_000 <= (#[trigger] fragments@[j]).x <= 3_000_000
                    && -3_000_000 <= fragments@[j].y <= 3_000_000,
        decreases steps + 1 - k,
    {
        proof {
            lemma_fx_mul_le(dx as int, k as int, 2_000_000, 2_000_001);
            lemma_fx_mul_le(dy as int, k as int, 2_000_000, 2_000_001);
            lemma_fx_mul_le(dz as int, k as int, 2_000_000_000, 2_000_001);
            assert(-(2_000_000 * (st as int)) <= (dx as int) * (k as int) <= 2_000_000 * (
            st as int)) by (nonlinear_arith)
                requires
                    -2_000_000 <= dx <= 2_000_000,
                    0 <= k <= st,
            ;
            assert(-(2_000_000 * (st as int)) <= (dy as int) * (k as int) <= 2_000_000 * (
            st as int)) by (nonlinear_arith)
                requires
                    -2_000_000 <= dy <= 2_000_000,
                    0 <= k <= st,
            ;
            lemma_tdiv_bound((dx as int) * (k as int), st as int, 2_000_000);
            lemma_tdiv_bound((dy as int) * (k as int), st as int, 2_000_000);
        }
        let fx = x0 + div_trunc(dx * k, st);
        let fy = y0 + div_trunc(dy * k, st);
        let fz = v1.transformed_position.z + div_trunc(dz * k, st);
        fragments.push(
            Fragment { x: fx, y: fy, color: v1.color, depth: fz, intensity: 1000 },
        );
        k = k + 1;
    }
    proof {
        assert(fragments@ =~= line_seq_s(*v1, *v2));
    }
    fragments
}

} // verus!
