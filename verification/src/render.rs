//! The per-mesh drawing routine: vertex stage, triangle assembly,
//! rasterization, fragment shading and the depth-tested write, plus the
//! line-based drawing of orbital paths.
//!
//! Each drawing routine fixes the final color and depth buffers exactly:
//! as the depth-tested fold of the fragments of every consecutive vertex
//! triple (or path segment) over the buffers it was given.

use crate::color::color_hex_s;
use crate::fragment::Fragment;
use crate::framebuffer::{fb_wf, Framebuffer};
use crate::line::{line, line_seq_s};
use crate::shaders::{fragment_shader, fragment_shader_s, vertex_shader, vertex_shader_s};
use crate::triangle::{flat_intensity_of_s, raster_core_s, triangle_with_uniforms};
use crate::uniforms::{uniforms_wf, Uniforms};
use crate::vertex::{vertex_wf, Vertex};
use vstd::prelude::*;

verus! {

/// One depth-tested write into the buffers: the pixel takes the
/// fragment's packed color and its depth exactly when the coordinates are
/// in bounds and the fragment is strictly nearer than the stored depth.
pub open spec fn write_frag_s(
    colors: Seq<u32>,
    depths: Seq<i64>,
    w: int,
    h: int,
    f: Fragment,
) -> (Seq<u32>, Seq<i64>) {
    let idx = f.y * w + f.x;
    if 0 <= f.x < w && 0 <= f.y < h && f.depth < depths[idx] {
        (colors.update(idx, color_hex_s(f.color) as u32), depths.update(idx, f.depth))
    } else {
        (colors, depths)
    }
}

/// Depth-tested composition of a fragment sequence, in order.
pub open spec fn composite_s(
    colors: Seq<u32>,
    depths: Seq<i64>,
    w: int,
    h: int,
    frags: Seq<Fragment>,
) -> (Seq<u32>, Seq<i64>)
    decreases frags.len(),
{
    if frags.len() == 0 {
        (colors, depths)
    } else {
        let p = write_frag_s(colors, depths, w, h, frags[0]);
        composite_s(p.0, p.1, w, h, frags.drop_first())
    }
}

/// As `composite_s`, with each fragment first sent through the fragment
/// stage (its color scaled by the flat lighting intensity).
pub open spec fn composite_shaded_s(
    colors: Seq<u32>,
    depths: Seq<i64>,
    w: int,
    h: int,
    frags: Seq<Fragment>,
) -> (Seq<u32>, Seq<i64>)
    decreases frags.len(),
{
    if frags.len() == 0 {
        (colors, depths)
    } else {
        let p = write_frag_s(colors, depths, w, h, fragment_shader_s(frags[0]));
        composite_shaded_s(p.0, p.1, w, h, frags.drop_first())
    }
}

/// What one draw call leaves in the buffers: the transformed vertices are
/// taken in consecutive disjoint triples, each triple is rasterized with
/// its flat intensity, and the shaded fragments are composited in order;
/// one or two trailing vertices are ignored.
pub open spec fn render_triples_s(
    colors: Seq<u32>,
    depths: Seq<i64>,
    w: int,
    h: int,
    tv: Seq<Vertex>,
    u: Uniforms,
    i: int,
) -> (Seq<u32>, Seq<i64>)
    decreases tv.len() - i,
{
    if i < 0 || i + 3 > tv.len() {
        (colors, depths)
    } else {
        let frags = raster_core_s(
            tv[i],
            tv[i + 1],
            tv[i + 2],
            flat_intensity_of_s(tv[i], tv[i + 1], tv[i + 2], u) as i64,
        );
        let p = composite_shaded_s(colors, depths, w, h, frags);
        render_triples_s(p.0, p.1, w, h, tv, u, i + 3)
    }
}

/// What one path draw leaves in the buffers: each transformed vertex is
/// connected to the next (the last back to the first) by line fragments,
/// composited in order without shading.
pub open spec fn render_path_s(
    colors: Seq<u32>,
    depths: Seq<i64>,
    w: int,
    h: int,
    pv: Seq<Vertex>,
    i: int,
) -> (Seq<u32>, Seq<i64>)
    decreases pv.len() - i,
{
    if i < 0 || i >= pv.len() {
        (colors, depths)
    } else {
        let nxt = if i + 1 < pv.len() {
            i + 1
        } else {
            0
        };
        let p = composite_s(colors, depths, w, h, line_seq_s(pv[i], pv[nxt]));
        render_path_s(p.0, p.1, w, h, pv, i + 1)
    }
}

/// Draw a vertex array: every three consecutive transformed vertices form
/// a triangle, its fragments are shaded with the flat intensity and
/// depth-tested into the framebuffer; a trailing one or two vertices are
/// ignored, and fewer than three change nothing.
pub fn render(framebuffer: &mut Framebuffer, uniforms: &Uniforms, vertex_array: &Vec<Vertex>)
    requires
        fb_wf(*old(framebuffer)),
        uniforms_wf(*uniforms),
        forall|i: int| 0 <= i < vertex_array@.len() ==> vertex_wf(#[trigger] vertex_array@[i]),
    ensures
        fb_wf(*final(framebuffer)),
        final(framebuffer).width == old(framebuffer).width,
        final(framebuffer).height == old(framebuffer).height,
        final(framebuffer).background_color == old(framebuffer).background_color,
        ({
            let tv = Seq::new(
                vertex_array@.len(),
                |k: int| vertex_shader_s(vertex_array@[k], *uniforms),
            );
            let folded = render_triples_s(
                old(framebuffer).buffer@,
                old(framebuffer).zbuffer@,
                old(framebuffer).width as int,
                old(framebuffer).height as int,
                tv,
                *uniforms,
                0,
            );
            final(framebuffer).buffer@ == folded.0 && final(framebuffer).zbuffer@ == folded.1
        }),
        forall|i: int|
            0 <= i < final(framebuffer).zbuffer@.len() ==> #[trigger] final(
                framebuffer).zbuffer@[i] <= old(framebuffer).zbuffer@[i],
{
    let ghost tv = Seq::new(
        vertex_array@.len(),
        |k: int| vertex_shader_s(vertex_array@[k], *uniforms),
    );
    let ghost wd = old(framebuffer).width as int;
    let ghost ht = old(framebuffer).height as int;
    let n = vertex_array.len();
    let mut transformed: Vec<Vertex> = Vec::new();
    let mut i: usize = 0;
    while i < n
        invariant
            n == vertex_array@.len(),
            uniforms_wf(*uniforms),
            forall|k: int| 0 <= k < n ==> vertex_wf(#[trigger] vertex_array@[k]),
            0 <= i <= n,
            transformed@.len() == i,
            tv == Seq::new(
                vertex_array@.len(),
                |k: int| vertex_shader_s(vertex_array@[k], *uniforms),
            ),
            forall|k: int| 0 <= k < i ==> #[trigger] transformed@[k] == tv[k],
            forall|k: int| 0 <= k < i ==> vertex_wf(#[trigger] transformed@[k]),
            *framebuffer == *old(framebuffer),
        decreases n - i,
    {
        let v = vertex_shader(&vertex_array[i], uniforms);
        transformed.push(v);
        i = i + 1;
    }
    let total = transformed.len();
    if total < 3 {
        return ;
    }
    let mut t: usize = 0;
    while t < total - 2
        invariant
            fb_wf(*framebuffer),
            framebuffer.width == old(framebuffer).width,
            framebuffer.height == old(framebuffer).height,
            framebuffer.background_color == old(framebuffer).background_color,
            wd == old(framebuffer).width as int,
            ht == old(framebuffer).height as int,
            uniforms_wf(*uniforms),
            total == transformed@.len(),
            total >= 3,
            0 <= t <= total,
            forall|k: int| 0 <= k < total ==> #[trigger] transformed@[k] == tv[k],
            forall|k: int| 0 <= k < transformed@.len() ==> vertex_wf(#[trigger] transformed@[k]),
            tv.len() == total,
            render_triples_s(
                framebuffer.buffer@,
                framebuffer.zbuffer@,
                wd,
                ht,
                tv,
                *uniforms,
                t as int,
            ) == render_triples_s(
                old(framebuffer).buffer@,
                old(framebuffer).zbuffer@,
                wd,
                ht,
                tv,
                *uniforms,
                0,
            ),
            forall|ii: int|
                0 <= ii < framebuffer.zbuffer@.len() ==> #[trigger] framebuffer.zbuffer@[ii]
                    <= old(framebuffer).zbuffer@[ii],
        decreases total - t,
    {
        let fragments = triangle_with_uniforms(
            &transformed[t],
            &transformed[t + 1],
            &transformed[t + 2],
            Some(uniforms),
        );
        proof {
            assert(fragments@ == raster_core_s(
                tv[t as int],
                tv[t as int + 1],
                tv[t as int + 2],
                flat_intensity_of_s(tv[t as int], tv[t as int + 1], tv[t as int + 2], *uniforms)
                    as i64,
            ));
        }
        let ghost buf0 = framebuffer.buffer@;
        let ghost zb0 = framebuffer.zbuffer@;
        let m = fragments.len();
        let mut j: usize = 0;
        proof {
            assert(fragments@.skip(0) =~= fragments@);
        }
        while j < m
            invariant
                fb_wf(*framebuffer),
                framebuffer.width == old(framebuffer).width,
                framebuffer.height == old(framebuffer).height,
                framebuffer.background_color == old(framebuffer).background_color,
                wd == old(framebuffer).width as int,
                ht == old(framebuffer).height as int,
                m == fragments@.len(),
                0 <= j <= m,
                forall|k: int|
                    0 <= k < m ==> 0 <= (#[trigger] fragments@[k]).intensity <= 1000,
                forall|k: int|
                    0 <= k < m ==> -1000 <= (#[trigger] fragments@[k]).x <= 2000 && -1000
                        <= fragments@[k].y <= 2000,
                composite_shaded_s(
                    framebuffer.buffer@,
                    framebuffer.zbuffer@,
                    wd,
                    ht,
                    fragments@.skip(j as int),
                ) == composite_shaded_s(buf0, zb0, wd, ht, fragments@),
                forall|ii: int|
                    0 <= ii < framebuffer.zbuffer@.len() ==> #[trigger] framebuffer.zbuffer@[ii]
                        <= zb0[ii],
                zb0.len() == framebuffer.zbuffer@.len(),
                forall|ii: int|
                    0 <= ii < zb0.len() ==> #[trigger] zb0[ii] <= old(framebuffer).zbuffer@[ii],
            decreases m - j,
        {
            let processed = fragment_shader(fragments[j], uniforms);
            let ghost buf_pre = framebuffer.buffer@;
            let ghost zb_pre = framebuffer.zbuffer@;
            if processed.x >= 0 && processed.y >= 0 {
                let x = processed.x as usize;
                let y = processed.y as usize;
                if x < framebuffer.width && y < framebuffer.height {
                    let color = processed.color.to_hex();
                    framebuffer.set_current_color(color);
                    proof {
                        assert((y as int) * wd + (x as int) < wd * ht && wd * ht <= 16777216)
                            by (nonlinear_arith)
                            requires
                                0 <= (x as int) < wd,
                                0 <= (y as int) < ht,
                                wd <= 4096,
                                ht <= 4096,
                        ;
                    }
                    framebuffer.point(x, y, processed.depth);
                    proof {
                        let idx = (y * framebuffer.width + x) as int;
                        if processed.depth < zb_pre[idx] {
                            assert(framebuffer.buffer@ == buf_pre.update(
                                idx,
                                color_hex_s(processed.color) as u32,
                            ));
                            assert(framebuffer.zbuffer@ == zb_pre.update(idx, processed.depth));
                        } else {
                            assert(framebuffer.buffer@ == buf_pre);
                            assert(framebuffer.zbuffer@ == zb_pre);
                        }
                        assert((framebuffer.buffer@, framebuffer.zbuffer@) == write_frag_s(
                            buf_pre,
                            zb_pre,
                            wd,
                            ht,
                            processed,
                        ));
                        assert forall|ii: int|
                            0 <= ii < framebuffer.zbuffer@.len() implies #[trigger] framebuffer.zbuffer@[ii]
                            <= zb_pre[ii] by {
                            if processed.depth < zb_pre[idx] {
                                if ii != idx {
                                    assert(framebuffer.zbuffer@[ii] == zb_pre[ii]);
                                }
                            }
                        }
                    }
                } else {
                    proof {
                        assert((framebuffer.buffer@, framebuffer.zbuffer@) == write_frag_s(
                            buf_pre,
                            zb_pre,
                            wd,
                            ht,
                            processed,
                        ));
                    }
                }
            } else {
                proof {
                    assert((framebuffer.buffer@, framebuffer.zbuffer@) == write_frag_s(
                        buf_pre,
                        zb_pre,
                        wd,
                        ht,
                        processed,
                    ));
                }
            }
            proof {
                assert(fragments@.skip(j as int)[0] == fragments@[j as int]);
                assert(processed == fragment_shader_s(fragments@[j as int]));
                assert(fragments@.skip(j as int).drop_first() =~= fragments@.skip(j as int + 1));
                assert(composite_shaded_s(buf_pre, zb_pre, wd, ht, fragments@.skip(j as int))
                    == composite_shaded_s(
                    framebuffer.buffer@,
                    framebuffer.zbuffer@,
                    wd,
                    ht,
                    fragments@.skip(j as int + 1),
                ));
            }
            j = j + 1;
        }
        proof {
            assert(fragments@.skip(m as int) =~= Seq::<Fragment>::empty());
            assert((framebuffer.buffer@, framebuffer.zbuffer@) == composite_shaded_s(
                buf0,
                zb0,
                wd,
                ht,
                fragments@,
            ));
            assert(render_triples_s(buf0, zb0, wd, ht, tv, *uniforms, t as int)
                == render_triples_s(
                framebuffer.buffer@,
                framebuffer.zbuffer@,
                wd,
                ht,
                tv,
                *uniforms,
                t as int + 3,
            ));
        }
        t = t + 3;
    }
}

/// Draw an orbital path: transform each vertex, connect consecutive ones
/// (the last back to the first) with line fragments, and depth-test the
/// in-bounds ones into the framebuffer.
pub fn render_orbital_path(
    framebuffer: &mut Framebuffer,
    uniforms: &Uniforms,
    vertices: &Vec<Vertex>,
)
    requires
        fb_wf(*old(framebuffer)),
        uniforms_wf(*uniforms),
        forall|i: int| 0 <= i < vertices@.len() ==> vertex_wf(#[trigger] vertices@[i]),
    ensures
        fb_wf(*final(framebuffer)),
        final(framebuffer).width == old(framebuffer).width,
        final(framebuffer).height == old(framebuffer).height,
        final(framebuffer).background_color == old(framebuffer).background_color,
        ({
            let pv = Seq::new(
                vertices@.len(),
                |k: int| vertex_shader_s(vertices@[k], *uniforms),
            );
            let folded = render_path_s(
                old(framebuffer).buffer@,
                old(framebuffer).zbuffer@,
                old(framebuffer).width as int,
                old(framebuffer).height as int,
                pv,
                0,
            );
            final(framebuffer).buffer@ == folded.0 && final(framebuffer).zbuffer@ == folded.1
        }),
        forall|i: int|
            0 <= i < final(framebuffer).zbuffer@.len() ==> #[trigger] final(
                framebuffer).zbuffer@[i] <= old(framebuffer).zbuffer@[i],
{
    let ghost pv = Seq::new(vertices@.len(), |k: int| vertex_shader_s(vertices@[k], *uniforms));
    let ghost wd = old(framebuffer).width as int;
    let ghost ht = old(framebuffer).height as int;
    let n = vertices.len();
    if n == 0 {
        return ;
    }
    let mut i: usize = 0;
    while i < n
        invariant
            fb_wf(*framebuffer),
            framebuffer.width == old(framebuffer).width,
            framebuffer.height == old(framebuffer).height,
            framebuffer.background_color == old(framebuffer).background_color,
            wd == old(framebuffer).width as int,
            ht == old(framebuffer).height as int,
            uniforms_wf(*uniforms),
            n == vertices@.len(),
            n >= 1,
            0 <= i <= n,
            forall|k: int| 0 <= k < n ==> vertex_wf(#[trigger] vertices@[k]),
            pv == Seq::new(vertices@.len(), |k: int| vertex_shader_s(vertices@[k], *uniforms)),
            render_path_s(framebuffer.buffer@, framebuffer.zbuffer@, wd, ht, pv, i as int)
                == render_path_s(
                old(framebuffer).buffer@,
                old(framebuffer).zbuffer@,
                wd,
                ht,
                pv,
                0,
            ),
            forall|ii: int|
                0 <= ii < framebuffer.zbuffer@.len() ==> #[trigger] framebuffer.zbuffer@[ii]
                    <= old(framebuffer).zbuffer@[ii],
        decreases n - i,
    {
        let next_index = if i + 1 < n {
            i + 1
        } else {
            0
        };
        let transformed_current = vertex_shader(&vertices[i], uniforms);
        let transformed_next = vertex_shader(&vertices[next_index], uniforms);
        let line_fragments = line(&transformed_current, &transformed_next);
        proof {
            let nxt: int = if i as int + 1 < pv.len() {
                i as int + 1
            } else {
                0
            };
            assert(transformed_current == pv[i as int]);
            assert(transformed_next == pv[nxt]);
            assert(line_fragments@ == line_seq_s(pv[i as int], pv[nxt]));
        }
        let ghost buf0 = framebuffer.buffer@;
        let ghost zb0 = framebuffer.zbuffer@;
        let m = line_fragments.len();
        let mut j: usize = 0;
        proof {
            assert(line_fragments@.skip(0) =~= line_fragments@);
        }
        while j < m
            invariant
                fb_wf(*framebuffer),
                framebuffer.width == old(framebuffer).width,
                framebuffer.height == old(framebuffer).height,
                framebuffer.background_color == old(framebuffer).background_color,
                wd == old(framebuffer).width as int,
                ht == old(framebuffer).height as int,
                m == line_fragments@.len(),
                0 <= j <= m,
                forall|k: int|
                    0 <= k < m ==> -3_000_000 <= (#[trigger] line_fragments@[k]).x <= 3_000_000
                        && -3_000_000 <= line_fragments@[k].y <= 3_000_000,
                composite_s(
                    framebuffer.buffer@,
                    framebuffer.zbuffer@,
                    wd,
                    ht,
                    line_fragments@.skip(j as int),
                ) == composite_s(buf0, zb0, wd, ht, line_fragments@),
                forall|ii: int|
                    0 <= ii < framebuffer.zbuffer@.len() ==> #[trigger] framebuffer.zbuffer@[ii]
                        <= zb0[ii],
                zb0.len() == framebuffer.zbuffer@.len(),
                forall|ii: int|
                    0 <= ii < zb0.len() ==> #[trigger] zb0[ii] <= old(framebuffer).zbuffer@[ii],
            decreases m - j,
        {
            let fragment = line_fragments[j];
            let ghost buf_pre = framebuffer.buffer@;
            let ghost zb_pre = framebuffer.zbuffer@;
            if fragment.x >= 0 && fragment.y >= 0 {
                let x = fragment.x as usize;
                let y = fragment.y as usize;
                if x < framebuffer.width && y < framebuffer.height {
                    let color = fragment.color.to_hex();
                    framebuffer.set_current_color(color);
                    proof {
                        assert((y as int) * wd + (x as int) < wd * ht && wd * ht <= 16777216)
                            by (nonlinear_arith)
                            requires
                                0 <= (x as int) < wd,
                                0 <= (y as int) < ht,
                                wd <= 4096,
                                ht <= 4096,
                        ;
                    }
                    framebuffer.point(x, y, fragment.depth);
                    proof {
                        let idx = (y * framebuffer.width + x) as int;
                        if fragment.depth < zb_pre[idx] {
                            assert(framebuffer.buffer@ == buf_pre.update(
                                idx,
                                color_hex_s(fragment.color) as u32,
                            ));
                            assert(framebuffer.zbuffer@ == zb_pre.update(idx, fragment.depth));
                        } else {
                            assert(framebuffer.buffer@ == buf_pre);
                            assert(framebuffer.zbuffer@ == zb_pre);
                        }
                        assert((framebuffer.buffer@, framebuffer.zbuffer@) == write_frag_s(
                            buf_pre,
                            zb_pre,
                            wd,
                            ht,
                            fragment,
                        ));
                        assert forall|ii: int|
                            0 <= ii < framebuffer.zbuffer@.len() implies #[trigger] framebuffer.zbuffer@[ii]
                            <= zb_pre[ii] by {
                            if fragment.depth < zb_pre[idx] {
                                if ii != idx {
                                    assert(framebuffer.zbuffer@[ii] == zb_pre[ii]);
                                }
                            }
                        }
                    }
                } else {
                    proof {
                        assert((framebuffer.buffer@, framebuffer.zbuffer@) == write_frag_s(
                            buf_pre,
                            zb_pre,
                            wd,
                            ht,
                            fragment,
                        ));
                    }
                }
            } else {
                proof {
                    assert((framebuffer.buffer@, framebuffer.zbuffer@) == write_frag_s(
                        buf_pre,
                        zb_pre,
                        wd,
                        ht,
                        fragment,
                    ));
                }
            }
            proof {
                assert(line_fragments@.skip(j as int)[0] == line_fragments@[j as int]);
                assert(line_fragments@.skip(j as int).drop_first() =~= line_fragments@.skip(
                    j as int + 1,
                ));
                assert(composite_s(buf_pre, zb_pre, wd, ht, line_fragments@.skip(j as int))
                    == composite_s(
                    framebuffer.buffer@,
                    framebuffer.zbuffer@,
                    wd,
                    ht,
                    line_fragments@.skip(j as int + 1),
                ));
            }
            j = j + 1;
        }
        proof {
            assert(line_fragments@.skip(m as int) =~= Seq::<Fragment>::empty());
            assert((framebuffer.buffer@, framebuffer.zbuffer@) == composite_s(
                buf0,
                zb0,
                wd,
                ht,
                line_fragments@,
            ));
            assert(render_path_s(buf0, zb0, wd, ht, pv, i as int) == render_path_s(
                framebuffer.buffer@,
                framebuffer.zbuffer@,
                wd,
                ht,
                pv,
                i as int + 1,
            ));
        }
        i = i + 1;
    }
}

} // verus!
