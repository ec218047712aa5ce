//! The shape tessellator: stateless functions from shape parameters to
//! triangulated mesh fragments, pushed to a renderer sink.
//!
//! Every function states the exact fragment it produces as a spec-level
//! value. Positions, extents, radii and thicknesses are fixed-point scalars
//! (see `fx`); angles are fixed-point degrees (see `trig`).

use vstd::prelude::*;
use crate::fx::{
    FX_ONE, COORD_MAX, fx_ok, line_ok, iabs, div_trunc_spec, fx_mul_spec, fx_div_spec, div_trunc,
    fx_mul, fx_div, is_sqrt, sqrt_of, isqrt, lemma_mul_le, lemma_abs_mul, lemma_div_trunc_mag,
    lemma_sqrt_unique,
};
use crate::trig::{DEG_90, DEG_360, sin_fx_spec, cos_fx_spec, sin_fx, cos_fx};
use crate::geometry::{Color, Vec2Fx, Vertex, DrawMode, GeometrySink, frag_wf};

verus! {

/// A vertex at position `(x, y)` with texture coordinate `(u, v)`; `z` is
/// always zero for 2D shapes.
pub open spec fn mk_vertex(x: int, y: int, u: int, v: int, c: Color) -> Vertex {
    Vertex { x: x as i64, y: y as i64, z: 0, u: u as i64, v: v as i64, color: c }
}

/// The fragment of a filled triangle: its three corners, one triangle.
pub open spec fn triangle_fragment(v1: Vec2Fx, v2: Vec2Fx, v3: Vec2Fx, c: Color) -> (Seq<
    Vertex,
>, Seq<u16>) {
    (
        seq![
            mk_vertex(v1.x as int, v1.y as int, 0, 0, c),
            mk_vertex(v2.x as int, v2.y as int, 0, 0, c),
            mk_vertex(v3.x as int, v3.y as int, 0, 0, c),
        ],
        seq![0u16, 1u16, 2u16],
    )
}

/// Draws a solid triangle between points `v1`, `v2`, and `v3` with a given
/// `color`. Winding is not validated; the caller controls the front face.
pub fn draw_triangle<S: GeometrySink>(sink: &mut S, v1: Vec2Fx, v2: Vec2Fx, v3: Vec2Fx, color: Color)
    ensures
        final(sink).cur_texture() == Some(None::<u32>),
        final(sink).cur_mode() == Some(DrawMode::Triangles),
        final(sink).batched() == old(sink).batched().push(triangle_fragment(v1, v2, v3, color)),
{
    let vertices: Vec<Vertex> = vec![
        Vertex::new(v1.x, v1.y, 0, 0, 0, color),
        Vertex::new(v2.x, v2.y, 0, 0, 0, color),
        Vertex::new(v3.x, v3.y, 0, 0, 0, color),
    ];
    let indices: Vec<u16> = vec![0, 1, 2];
    proof {
        assert(vertices@ =~= triangle_fragment(v1, v2, v3, color).0);
        assert(indices@ =~= triangle_fragment(v1, v2, v3, color).1);
    }
    sink.set_texture(None);
    sink.set_draw_mode(DrawMode::Triangles);
    sink.push_geometry(vertices, indices);
}

/// The fragment of a solid rectangle: four corners fanned into two
/// triangles, texture coordinates spanning the unit square.
pub open spec fn rectangle_fragment(x: int, y: int, w: int, h: int, c: Color) -> (Seq<Vertex>, Seq<
    u16,
>) {
    let one = FX_ONE as int;
    (
        seq![
            mk_vertex(x, y, 0, 0, c),
            mk_vertex(x + w, y, one, 0, c),
            mk_vertex(x + w, y + h, one, one, c),
            mk_vertex(x, y + h, 0, one, c),
        ],
        seq![0u16, 1u16, 2u16, 0u16, 2u16, 3u16],
    )
}

/// Draws a solid rectangle with its top-left corner at `[x, y]`, width going
/// right and height going down, with a given `color`.
pub fn draw_rectangle<S: GeometrySink>(sink: &mut S, x: i64, y: i64, w: i64, h: i64, color: Color)
    requires
        fx_ok(x),
        fx_ok(y),
        fx_ok(w),
        fx_ok(h),
    ensures
        final(sink).cur_texture() == Some(None::<u32>),
        final(sink).cur_mode() == Some(DrawMode::Triangles),
        final(sink).batched() == old(sink).batched().push(
            rectangle_fragment(x as int, y as int, w as int, h as int, color),
        ),
{
    let vertices: Vec<Vertex> = vec![
        Vertex::new(x, y, 0, 0, 0, color),
        Vertex::new(x + w, y, 0, FX_ONE, 0, color),
        Vertex::new(x + w, y + h, 0, FX_ONE, FX_ONE, color),
        Vertex::new(x, y + h, 0, 0, FX_ONE, color),
    ];
    let indices: Vec<u16> = vec![0, 1, 2, 0, 2, 3];
    proof {
        assert(vertices@ =~= rectangle_fragment(x as int, y as int, w as int, h as int, color).0);
        assert(indices@ =~= rectangle_fragment(x as int, y as int, w as int, h as int, color).1);
    }
    sink.set_texture(None);
    sink.set_draw_mode(DrawMode::Triangles);
    sink.push_geometry(vertices, indices);
}

/// The fragment of a rectangle outline: the outer quad, an inner quad inset
/// by half the thickness on each side, and eight triangles forming a ring.
pub open spec fn rectangle_lines_fragment(x: int, y: int, w: int, h: int, th: int, c: Color) -> (
    Seq<Vertex>,
    Seq<u16>,
) {
    let one = FX_ONE as int;
    let t = div_trunc_spec(th, 2);
    (
        seq![
            mk_vertex(x, y, 0, one, c),
            mk_vertex(x + w, y, one, 0, c),
            mk_vertex(x + w, y + h, one, one, c),
            mk_vertex(x, y + h, 0, 0, c),
            mk_vertex(x + t, y + t, 0, 0, c),
            mk_vertex(x + w - t, y + t, 0, 0, c),
            mk_vertex(x + w - t, y + h - t, 0, 0, c),
            mk_vertex(x + t, y + h - t, 0, 0, c),
        ],
        seq![
            0u16, 1u16, 4u16, 1u16, 4u16, 5u16, 1u16, 5u16, 6u16, 1u16, 2u16, 6u16, 3u16, 7u16,
            2u16, 2u16, 7u16, 6u16, 0u16, 4u16, 3u16, 3u16, 4u16, 7u16,
        ],
    )
}

/// Draws a rectangle outline with its top-left corner at `[x, y]`, with a
/// given line `thickness` and `color`. The thickness is centered on the
/// nominal boundary: half inside, half outside.
pub fn draw_rectangle_lines<S: GeometrySink>(
    sink: &mut S,
    x: i64,
    y: i64,
    w: i64,
    h: i64,
    thickness: i64,
    color: Color,
)
    requires
        fx_ok(x),
        fx_ok(y),
        fx_ok(w),
        fx_ok(h),
        fx_ok(thickness),
    ensures
        final(sink).cur_texture() == Some(None::<u32>),
        final(sink).cur_mode() == Some(DrawMode::Triangles),
        final(sink).batched() == old(sink).batched().push(
            rectangle_lines_fragment(
                x as int,
                y as int,
                w as int,
                h as int,
                thickness as int,
                color,
            ),
        ),
{
    let ghost gfrag = rectangle_lines_fragment(
        x as int,
        y as int,
        w as int,
        h as int,
        thickness as int,
        color,
    );
    let t: i64 = div_trunc(thickness, 2);
    proof {
        lemma_div_trunc_mag(thickness as int, 2);
    }
    let xr: i64 = x + w;
    let yb: i64 = y + h;
    let xl_in: i64 = x + t;
    let yt_in: i64 = y + t;
    let xr_in: i64 = x + w - t;
    let yb_in: i64 = y + h - t;
    let vertices: Vec<Vertex> = vec![
        Vertex::new(x, y, 0, 0, FX_ONE, color),
        Vertex::new(xr, y, 0, FX_ONE, 0, color),
        Vertex::new(xr, yb, 0, FX_ONE, FX_ONE, color),
        Vertex::new(x, yb, 0, 0, 0, color),
        Vertex::new(xl_in, yt_in, 0, 0, 0, color),
        Vertex::new(xr_in, yt_in, 0, 0, 0, color),
        Vertex::new(xr_in, yb_in, 0, 0, 0, color),
        Vertex::new(xl_in, yb_in, 0, 0, 0, color),
    ];
    let indices: Vec<u16> = vec![
        0, 1, 4, 1, 4, 5, 1, 5, 6, 1, 2, 6, 3, 7, 2, 2, 7, 6, 0, 4, 3, 3, 4, 7,
    ];
    proof {
        assert(vertices@ =~= gfrag.0);
        assert(indices@ =~= gfrag.1);
        assert(frag_wf(gfrag));
    }
    sink.set_texture(None);
    sink.set_draw_mode(DrawMode::Triangles);
    sink.push_geometry(vertices, indices);
}

/// A line is skipped entirely when it has zero length or no positive
/// thickness: the degenerate no-op of the line primitive.
pub open spec fn line_degenerate(x1: int, y1: int, x2: int, y2: int, th: int) -> bool {
    (x1 == x2 && y1 == y2) || th <= 0
}

/// The fragment of a thick line: both endpoints offset by the perpendicular
/// of the edge scaled to half the thickness, as one quad of two triangles.
pub open spec fn line_fragment(x1: int, y1: int, x2: int, y2: int, th: int, c: Color) -> (Seq<
    Vertex,
>, Seq<u16>)
    recommends
        !line_degenerate(x1, y1, x2, y2, th),
{
    let nx = -(y2 - y1);
    let ny = x2 - x1;
    let len = sqrt_of(nx * nx + ny * ny);
    let ht = th / 2;
    let tx = div_trunc_spec(nx * ht, len);
    let ty = div_trunc_spec(ny * ht, len);
    (
        seq![
            mk_vertex(x1 + tx, y1 + ty, 0, 0, c),
            mk_vertex(x1 - tx, y1 - ty, 0, 0, c),
            mk_vertex(x2 + tx, y2 + ty, 0, 0, c),
            mk_vertex(x2 - tx, y2 - ty, 0, 0, c),
        ],
        seq![0u16, 1u16, 2u16, 2u16, 1u16, 3u16],
    )
}

/// What one line call adds to the batch: nothing when degenerate, otherwise
/// exactly its quad fragment.
pub open spec fn line_frags(x1: int, y1: int, x2: int, y2: int, th: int, c: Color) -> Seq<
    (Seq<Vertex>, Seq<u16>),
> {
    if line_degenerate(x1, y1, x2, y2, th) {
        Seq::empty()
    } else {
        seq![line_fragment(x1, y1, x2, y2, th, c)]
    }
}

/// Draws a line between points `[x1, y1]` and `[x2, y2]` with a given
/// `thickness` and `color`. A zero-length line or a thickness that is not
/// positive produces no geometry and leaves the sink untouched.
pub fn draw_line<S: GeometrySink>(
    sink: &mut S,
    x1: i64,
    y1: i64,
    x2: i64,
    y2: i64,
    thickness: i64,
    color: Color,
)
    requires
        line_ok(x1),
        line_ok(y1),
        line_ok(x2),
        line_ok(y2),
        fx_ok(thickness),
    ensures
        final(sink).batched() == old(sink).batched() + line_frags(
            x1 as int,
            y1 as int,
            x2 as int,
            y2 as int,
            thickness as int,
            color,
        ),
        line_degenerate(x1 as int, y1 as int, x2 as int, y2 as int, thickness as int)
            ==> *final(sink) == *old(sink),
        !line_degenerate(x1 as int, y1 as int, x2 as int, y2 as int, thickness as int) ==> (
        final(sink).cur_texture() == Some(None::<u32>) && final(sink).cur_mode() == Some(
            DrawMode::Triangles,
        )),
{
    if (x1 == x2 && y1 == y2) || thickness <= 0 {
        proof {
            assert(old(sink).batched() + line_frags(
                x1 as int,
                y1 as int,
                x2 as int,
                y2 as int,
                thickness as int,
                color,
            ) =~= old(sink).batched());
        }
        return ;
    }
    let ghost gfrag = line_fragment(
        x1 as int,
        y1 as int,
        x2 as int,
        y2 as int,
        thickness as int,
        color,
    );
    let dx: i64 = x2 - x1;
    let dy: i64 = y2 - y1;
    let nx: i64 = -dy;
    let ny: i64 = dx;
    proof {
        lemma_mul_le(nx as int, nx as int, 0x7FFF_FFFE, 0x7FFF_FFFE);
        lemma_mul_le(ny as int, ny as int, 0x7FFF_FFFE, 0x7FFF_FFFE);
        assert(nx != 0 ==> nx as int * nx as int >= 1) by (nonlinear_arith);
        assert(ny != 0 ==> ny as int * ny as int >= 1) by (nonlinear_arith);
        assert(nx as int * nx as int >= 0) by (nonlinear_arith);
        assert(ny as int * ny as int >= 0) by (nonlinear_arith);
    }
    let n2: i64 = nx * nx + ny * ny;
    let len: i64 = isqrt(n2 as u64) as i64;
    proof {
        lemma_sqrt_unique(n2 as int, len as int, sqrt_of(n2 as int));
        assert(len >= 1) by (nonlinear_arith)
            requires
                is_sqrt(n2 as int, len as int),
                n2 >= 1,
        ;
    }
    let ht: i64 = ((thickness as u64) / 2) as i64;
    proof {
        lemma_mul_le(nx as int, ht as int, 0x8000_0000, 0x2000_0000);
        lemma_mul_le(ny as int, ht as int, 0x8000_0000, 0x2000_0000);
        lemma_div_trunc_mag(nx as int * ht as int, len as int);
        lemma_div_trunc_mag(ny as int * ht as int, len as int);
        assert(iabs(div_trunc_spec(nx as int * ht as int, len as int)) <= iabs(
            nx as int * ht as int,
        )) by (nonlinear_arith)
            requires
                len >= 1,
                iabs(div_trunc_spec(nx as int * ht as int, len as int)) * iabs(len as int) <= iabs(
                    nx as int * ht as int,
                ),
        ;
        assert(iabs(div_trunc_spec(ny as int * ht as int, len as int)) <= iabs(
            ny as int * ht as int,
        )) by (nonlinear_arith)
            requires
                len >= 1,
                iabs(div_trunc_spec(ny as int * ht as int, len as int)) * iabs(len as int) <= iabs(
                    ny as int * ht as int,
                ),
        ;
    }
    let tx: i64 = div_trunc(nx * ht, len);
    let ty: i64 = div_trunc(ny * ht, len);
    let ax: i64 = x1 + tx;
    let ay: i64 = y1 + ty;
    let bx: i64 = x1 - tx;
    let by: i64 = y1 - ty;
    let cx: i64 = x2 + tx;
    let cy: i64 = y2 + ty;
    let ex: i64 = x2 - tx;
    let ey: i64 = y2 - ty;
    let vertices: Vec<Vertex> = vec![
        Vertex::new(ax, ay, 0, 0, 0, color),
        Vertex::new(bx, by, 0, 0, 0, color),
        Vertex::new(cx, cy, 0, 0, 0, color),
        Vertex::new(ex, ey, 0, 0, 0, color),
    ];
    let indices: Vec<u16> = vec![0, 1, 2, 2, 1, 3];
    proof {
        assert(vertices@ =~= gfrag.0);
        assert(indices@ =~= gfrag.1);
        assert(old(sink).batched() + line_frags(
            x1 as int,
            y1 as int,
            x2 as int,
            y2 as int,
            thickness as int,
            color,
        ) =~= old(sink).batched().push(gfrag));
    }
    sink.set_texture(None);
    sink.set_draw_mode(DrawMode::Triangles);
    sink.push_geometry(vertices, indices);
}

/// Draws a triangle outline between points `v1`, `v2`, and `v3` as three
/// line draws, one per edge. Corners are simple unmitered joins.
pub fn draw_triangle_lines<S: GeometrySink>(
    sink: &mut S,
    v1: Vec2Fx,
    v2: Vec2Fx,
    v3: Vec2Fx,
    thickness: i64,
    color: Color,
)
    requires
        line_ok(v1.x),
        line_ok(v1.y),
        line_ok(v2.x),
        line_ok(v2.y),
        line_ok(v3.x),
        line_ok(v3.y),
        fx_ok(thickness),
    ensures
        final(sink).batched() == old(sink).batched() + line_frags(
            v1.x as int,
            v1.y as int,
            v2.x as int,
            v2.y as int,
            thickness as int,
            color,
        ) + line_frags(
            v2.x as int,
            v2.y as int,
            v3.x as int,
            v3.y as int,
            thickness as int,
            color,
        ) + line_frags(
            v3.x as int,
            v3.y as int,
            v1.x as int,
            v1.y as int,
            thickness as int,
            color,
        ),
        (line_degenerate(v1.x as int, v1.y as int, v2.x as int, v2.y as int, thickness as int)
            && line_degenerate(v2.x as int, v2.y as int, v3.x as int, v3.y as int, thickness as int)
            && line_degenerate(v3.x as int, v3.y as int, v1.x as int, v1.y as int, thickness as int))
            ==> *final(sink) == *old(sink),
{
    draw_line(sink, v1.x, v1.y, v2.x, v2.y, thickness, color);
    draw_line(sink, v2.x, v2.y, v3.x, v3.y, thickness, color);
    draw_line(sink, v3.x, v3.y, v1.x, v1.y, thickness, color);
}

/// Largest rotation magnitude the shape functions accept, in fixed-point
/// degrees; it keeps every derived angle within the trigonometric domain.
pub const ROT_MAX: i64 = 0x40_0000_0000;

/// A rotation small enough for every derived angle.
pub open spec fn rot_ok(a: i64) -> bool {
    -ROT_MAX <= a <= ROT_MAX
}

/// The angle of perimeter point `i` of a regular polygon: `i` full turns
/// divided by the side count, plus the rotation.
pub open spec fn poly_angle(i: int, sides: int, rot: int) -> int
    recommends
        sides >= 1,
        i >= 0,
{
    (i * DEG_360 as int) / sides + rot
}

/// Perimeter vertex `i` of a filled regular polygon: the center displaced by
/// the radius along the angle's direction, the direction itself as the
/// texture coordinate.
pub open spec fn poly_perim_vertex(
    x: int,
    y: int,
    sides: int,
    radius: int,
    rot: int,
    c: Color,
    i: int,
) -> Vertex {
    let a = poly_angle(i, sides, rot);
    let rx = cos_fx_spec(a);
    let ry = sin_fx_spec(a);
    mk_vertex(x + fx_mul_spec(radius as int, rx), y + fx_mul_spec(radius as int, ry), rx, ry, c)
}

/// Triangle-fan indices: triangle `t` references the center vertex and the
/// consecutive perimeter vertices `t + 1` and `t + 2`.
pub open spec fn fan_indices(sides: int) -> Seq<u16>
    recommends
        1 <= sides <= 255,
{
    Seq::new(
        (3 * sides) as nat,
        |k: int|
            if k % 3 == 0 {
                0u16
            } else if k % 3 == 1 {
                (k / 3 + 1) as u16
            } else {
                (k / 3 + 2) as u16
            },
    )
}

/// The fragment of a filled regular polygon: a center vertex, `sides + 1`
/// perimeter vertices (the loop closes by repeating the first angle), and
/// `sides` fan triangles.
pub open spec fn poly_fragment(x: int, y: int, sides: int, radius: int, rot: int, c: Color) -> (
    Seq<Vertex>,
    Seq<u16>,
)
    recommends
        1 <= sides <= 255,
{
    (
        Seq::new(
            (sides + 2) as nat,
            |i: int|
                if i == 0 {
                    mk_vertex(x, y, 0, 0, c)
                } else {
                    poly_perim_vertex(x, y, sides, radius, rot, c, i - 1)
                },
        ),
        fan_indices(sides),
    )
}

/// Draws a solid regular polygon centered at `[x, y]` with a given number of
/// `sides`, `radius`, clockwise `rotation` (in fixed-point degrees) and
/// `color`, as a triangle fan.
pub fn draw_poly<S: GeometrySink>(
    sink: &mut S,
    x: i64,
    y: i64,
    sides: u8,
    radius: i64,
    rotation: i64,
    color: Color,
)
    requires
        fx_ok(x),
        fx_ok(y),
        fx_ok(radius),
        rot_ok(rotation),
        sides >= 1,
    ensures
        final(sink).cur_texture() == Some(None::<u32>),
        final(sink).cur_mode() == Some(DrawMode::Triangles),
        final(sink).batched() == old(sink).batched().push(
            poly_fragment(x as int, y as int, sides as int, radius as int, rotation as int, color),
        ),
{
    let ghost gfrag = poly_fragment(
        x as int,
        y as int,
        sides as int,
        radius as int,
        rotation as int,
        color,
    );
    let mut vertices: Vec<Vertex> = Vec::new();
    let mut indices: Vec<u16> = Vec::new();
    vertices.push(Vertex::new(x, y, 0, 0, 0, color));
    let mut i: u64 = 0;
    while i <= sides as u64
        invariant
            fx_ok(x) && fx_ok(y) && fx_ok(radius) && rot_ok(rotation),
            sides >= 1,
            gfrag == poly_fragment(
                x as int,
                y as int,
                sides as int,
                radius as int,
                rotation as int,
                color,
            ),
            i <= sides as u64 + 1,
            vertices@.len() == i + 1,
            forall|j: int| 0 <= j < i + 1 ==> vertices@[j] == gfrag.0[j],
        decreases sides as u64 + 1 - i,
    {
        let num: u64 = i * (DEG_360 as u64);
        let q: u64 = num / (sides as u64);
        proof {
            assert(q as int <= num as int) by (nonlinear_arith)
                requires
                    q == num as int / sides as int,
                    sides >= 1,
                    num >= 0,
            ;
        }
        let a: i64 = (q as i64) + rotation;
        let rx: i64 = cos_fx(a);
        let ry: i64 = sin_fx(a);
        proof {
            lemma_mul_le(radius as int, rx as int, COORD_MAX as int, FX_ONE as int);
            lemma_mul_le(radius as int, ry as int, COORD_MAX as int, FX_ONE as int);
            lemma_div_trunc_mag(radius as int * rx as int, FX_ONE as int);
            lemma_div_trunc_mag(radius as int * ry as int, FX_ONE as int);
        }
        let ox: i64 = fx_mul(radius, rx);
        let oy: i64 = fx_mul(radius, ry);
        let vx: i64 = x + ox;
        let vy: i64 = y + oy;
        vertices.push(Vertex::new(vx, vy, 0, rx, ry, color));
        proof {
            assert(a as int == poly_angle(i as int, sides as int, rotation as int));
            assert(vertices@[i as int + 1] == gfrag.0[i as int + 1]);
        }
        i = i + 1;
    }
    let mut t: u64 = 0;
    while t < sides as u64
        invariant
            sides >= 1,
            gfrag.1 == fan_indices(sides as int),
            t <= sides as u64,
            indices@.len() == 3 * t,
            forall|k: int| 0 <= k < 3 * t ==> indices@[k] == gfrag.1[k],
        decreases sides as u64 - t,
    {
        indices.push(0u16);
        indices.push((t as u16) + 1);
        indices.push((t as u16) + 2);
        proof {
            assert((3 * t as int) % 3 == 0);
            assert((3 * t as int + 1) % 3 == 1);
            assert((3 * t as int + 2) % 3 == 2);
            assert((3 * t as int + 1) / 3 == t as int);
            assert((3 * t as int + 2) / 3 == t as int);
        }
        t = t + 1;
    }
    proof {
        assert(vertices@ =~= gfrag.0);
        assert(indices@ =~= gfrag.1);
        assert forall|k: int| 0 <= k < gfrag.1.len() implies (#[trigger] gfrag.1[k] as int)
            < gfrag.0.len() by {
            assert(0 <= k % 3 < 3);
            assert(k / 3 < sides as int);
        }
    }
    sink.set_texture(None);
    sink.set_draw_mode(DrawMode::Triangles);
    sink.push_geometry(vertices, indices);
}

/// Draws a solid circle centered at `[x, y]` with a given radius `r` and
/// `color`: a filled polygon with twenty sides and no rotation.
pub fn draw_circle<S: GeometrySink>(sink: &mut S, x: i64, y: i64, r: i64, color: Color)
    requires
        fx_ok(x),
        fx_ok(y),
        fx_ok(r),
    ensures
        final(sink).cur_texture() == Some(None::<u32>),
        final(sink).cur_mode() == Some(DrawMode::Triangles),
        final(sink).batched() == old(sink).batched().push(
            poly_fragment(x as int, y as int, 20, r as int, 0, color),
        ),
{
    draw_poly(sink, x, y, 20, r, 0, color);
}

/// The angle of boundary point `i` of an ellipse, which is always
/// tessellated with twenty sides.
pub open spec fn ellipse_angle(i: int) -> int {
    (i * DEG_360 as int) / 20
}

/// Boundary point `i` of an ellipse: the unit-circle point scaled by the two
/// extents independently, then rotated, then translated to the center.
pub open spec fn ellipse_pt(x: int, y: int, w: int, h: int, rot: int, i: int) -> (int, int) {
    let a = ellipse_angle(i);
    let px = fx_mul_spec(w, cos_fx_spec(a));
    let py = fx_mul_spec(h, sin_fx_spec(a));
    let cr = cos_fx_spec(rot);
    let sr = sin_fx_spec(rot);
    (x + (fx_mul_spec(px, cr) - fx_mul_spec(py, sr)), y + (fx_mul_spec(py, cr) + fx_mul_spec(
        px,
        sr,
    )))
}

/// Perimeter vertex `i` of a filled ellipse: the rotated, scaled boundary
/// point, with the unscaled, unrotated unit-circle direction as the texture
/// coordinate.
pub open spec fn ellipse_perim_vertex(
    x: int,
    y: int,
    w: int,
    h: int,
    rot: int,
    c: Color,
    i: int,
) -> Vertex {
    let p = ellipse_pt(x, y, w, h, rot, i);
    mk_vertex(p.0, p.1, cos_fx_spec(ellipse_angle(i)), sin_fx_spec(ellipse_angle(i)), c)
}

/// The fragment of a filled ellipse: a center vertex, twenty-one boundary
/// vertices (the loop closes by repeating the first angle), and twenty fan
/// triangles.
pub open spec fn ellipse_fragment(x: int, y: int, w: int, h: int, rot: int, c: Color) -> (Seq<
    Vertex,
>, Seq<u16>) {
    (
        Seq::new(
            22,
            |i: int|
                if i == 0 {
                    mk_vertex(x, y, 0, 0, c)
                } else {
                    ellipse_perim_vertex(x, y, w, h, rot, c, i - 1)
                },
        ),
        fan_indices(20),
    )
}

/// One rotated, scaled ellipse boundary point, with the cosine and sine of
/// its parameter angle: `(px, py, cos, sin)`.
fn ellipse_boundary(x: i64, y: i64, w: i64, h: i64, rotation: i64, i: u64) -> (p: (i64, i64, i64, i64))
    requires
        fx_ok(x),
        fx_ok(y),
        fx_ok(w),
        fx_ok(h),
        rot_ok(rotation),
        i <= 20,
    ensures
        p.0 as int == ellipse_pt(x as int, y as int, w as int, h as int, rotation as int, i as int).0,
        p.1 as int == ellipse_pt(x as int, y as int, w as int, h as int, rotation as int, i as int).1,
        p.2 as int == cos_fx_spec(ellipse_angle(i as int)),
        p.3 as int == sin_fx_spec(ellipse_angle(i as int)),
        line_ok(p.0),
        line_ok(p.1),
{
    let num: u64 = i * (DEG_360 as u64);
    let q: u64 = num / 20;
    proof {
        assert(num <= 471859200) by (nonlinear_arith)
            requires
                num == i * (DEG_360 as u64),
                i <= 20,
                DEG_360 == 23592960,
        ;
        assert(q <= num) by (nonlinear_arith)
            requires
                q == num / 20,
        ;
    }
    let a: i64 = q as i64;
    let rx: i64 = cos_fx(a);
    let ry: i64 = sin_fx(a);
    proof {
        lemma_mul_le(w as int, rx as int, COORD_MAX as int, FX_ONE as int);
        lemma_mul_le(h as int, ry as int, COORD_MAX as int, FX_ONE as int);
        lemma_div_trunc_mag(w as int * rx as int, FX_ONE as int);
        lemma_div_trunc_mag(h as int * ry as int, FX_ONE as int);
    }
    let px: i64 = fx_mul(w, rx);
    let py: i64 = fx_mul(h, ry);
    let cr: i64 = cos_fx(rotation);
    let sr: i64 = sin_fx(rotation);
    proof {
        lemma_mul_le(px as int, cr as int, COORD_MAX as int, FX_ONE as int);
        lemma_mul_le(py as int, sr as int, COORD_MAX as int, FX_ONE as int);
        lemma_mul_le(py as int, cr as int, COORD_MAX as int, FX_ONE as int);
        lemma_mul_le(px as int, sr as int, COORD_MAX as int, FX_ONE as int);
        lemma_div_trunc_mag(px as int * cr as int, FX_ONE as int);
        lemma_div_trunc_mag(py as int * sr as int, FX_ONE as int);
        lemma_div_trunc_mag(py as int * cr as int, FX_ONE as int);
        lemma_div_trunc_mag(px as int * sr as int, FX_ONE as int);
    }
    let rot_x: i64 = fx_mul(px, cr) - fx_mul(py, sr);
    let rot_y: i64 = fx_mul(py, cr) + fx_mul(px, sr);
    (x + rot_x, y + rot_y, rx, ry)
}

/// Draws a solid ellipse centered at `[x, y]` with a given size `[w, h]`,
/// clockwise `rotation` (in fixed-point degrees) and `color`, as a triangle
/// fan over twenty boundary points.
pub fn draw_ellipse<S: GeometrySink>(
    sink: &mut S,
    x: i64,
    y: i64,
    w: i64,
    h: i64,
    rotation: i64,
    color: Color,
)
    requires
        fx_ok(x),
        fx_ok(y),
        fx_ok(w),
        fx_ok(h),
        rot_ok(rotation),
    ensures
        final(sink).cur_texture() == Some(None::<u32>),
        final(sink).cur_mode() == Some(DrawMode::Triangles),
        final(sink).batched() == old(sink).batched().push(
            ellipse_fragment(x as int, y as int, w as int, h as int, rotation as int, color),
        ),
{
    let ghost gfrag = ellipse_fragment(
        x as int,
        y as int,
        w as int,
        h as int,
        rotation as int,
        color,
    );
    let mut vertices: Vec<Vertex> = Vec::new();
    let mut indices: Vec<u16> = Vec::new();
    vertices.push(Vertex::new(x, y, 0, 0, 0, color));
    let mut i: u64 = 0;
    while i <= 20
        invariant
            fx_ok(x) && fx_ok(y) && fx_ok(w) && fx_ok(h) && rot_ok(rotation),
            gfrag == ellipse_fragment(
                x as int,
                y as int,
                w as int,
                h as int,
                rotation as int,
                color,
            ),
            i <= 21,
            vertices@.len() == i + 1,
            forall|j: int| 0 <= j < i + 1 ==> vertices@[j] == gfrag.0[j],
        decreases 21 - i,
    {
        let b: (i64, i64, i64, i64) = ellipse_boundary(x, y, w, h, rotation, i);
        vertices.push(Vertex::new(b.0, b.1, 0, b.2, b.3, color));
        proof {
            assert(vertices@[i as int + 1] == gfrag.0[i as int + 1]);
        }
        i = i + 1;
    }
    let mut t: u64 = 0;
    while t < 20
        invariant
            gfrag.1 == fan_indices(20),
            t <= 20,
            indices@.len() == 3 * t,
            forall|k: int| 0 <= k < 3 * t ==> indices@[k] == gfrag.1[k],
        decreases 20 - t,
    {
        indices.push(0u16);
        indices.push((t as u16) + 1);
        indices.push((t as u16) + 2);
        proof {
            assert((3 * t as int) % 3 == 0);
            assert((3 * t as int + 1) % 3 == 1);
            assert((3 * t as int + 2) % 3 == 2);
            assert((3 * t as int + 1) / 3 == t as int);
            assert((3 * t as int + 2) / 3 == t as int);
        }
        t = t + 1;
    }
    proof {
        assert(vertices@ =~= gfrag.0);
        assert(indices@ =~= gfrag.1);
        assert forall|k: int| 0 <= k < gfrag.1.len() implies (#[trigger] gfrag.1[k] as int)
            < gfrag.0.len() by {
            assert(0 <= k % 3 < 3);
            assert(k / 3 < 20);
        }
    }
    sink.set_texture(None);
    sink.set_draw_mode(DrawMode::Triangles);
    sink.push_geometry(vertices, indices);
}

/// What one ellipse-outline call adds to the batch: the first `n` of the
/// twenty line quads between consecutive boundary points, skipping the
/// degenerate ones.
pub open spec fn ellipse_lines_segments(
    x: int,
    y: int,
    w: int,
    h: int,
    rot: int,
    th: int,
    c: Color,
    n: int,
) -> Seq<(Seq<Vertex>, Seq<u16>)>
    decreases n,
{
    if n <= 0 {
        Seq::empty()
    } else {
        let p0 = ellipse_pt(x, y, w, h, rot, n - 1);
        let p1 = ellipse_pt(x, y, w, h, rot, n);
        ellipse_lines_segments(x, y, w, h, rot, th, c, n - 1) + line_frags(
            p0.0,
            p0.1,
            p1.0,
            p1.1,
            th,
            c,
        )
    }
}

/// Draws an ellipse outline centered at `[x, y]` with a given size `[w, h]`,
/// clockwise `rotation` (in fixed-point degrees), line `thickness` and
/// `color`: twenty line segments between consecutive boundary points, with
/// simple unmitered joins.
pub fn draw_ellipse_lines<S: GeometrySink>(
    sink: &mut S,
    x: i64,
    y: i64,
    w: i64,
    h: i64,
    rotation: i64,
    thickness: i64,
    color: Color,
)
    requires
        fx_ok(x),
        fx_ok(y),
        fx_ok(w),
        fx_ok(h),
        rot_ok(rotation),
        fx_ok(thickness),
    ensures
        final(sink).batched() == old(sink).batched() + ellipse_lines_segments(
            x as int,
            y as int,
            w as int,
            h as int,
            rotation as int,
            thickness as int,
            color,
            20,
        ),
        ellipse_lines_segments(
            x as int,
            y as int,
            w as int,
            h as int,
            rotation as int,
            thickness as int,
            color,
            20,
        ).len() == 0 ==> *final(sink) == *old(sink),
{
    let mut i: u64 = 0;
    while i < 20
        invariant
            fx_ok(x) && fx_ok(y) && fx_ok(w) && fx_ok(h) && rot_ok(rotation) && fx_ok(thickness),
            i <= 20,
            sink.batched() == old(sink).batched() + ellipse_lines_segments(
                x as int,
                y as int,
                w as int,
                h as int,
                rotation as int,
                thickness as int,
                color,
                i as int,
            ),
            ellipse_lines_segments(
                x as int,
                y as int,
                w as int,
                h as int,
                rotation as int,
                thickness as int,
                color,
                i as int,
            ).len() == 0 ==> *sink == *old(sink),
        decreases 20 - i,
    {
        let p0: (i64, i64, i64, i64) = ellipse_boundary(x, y, w, h, rotation, i);
        let p1: (i64, i64, i64, i64) = ellipse_boundary(x, y, w, h, rotation, i + 1);
        draw_line(sink, p0.0, p0.1, p1.0, p1.1, thickness, color);
        i = i + 1;
    }
}

/// How many quad segments an arc is subdivided into: the requested side
/// count scaled by the swept fraction of a full turn, rounded up, and at
/// least one.
pub open spec fn arc_segment_count(sides: int, arc: int) -> int {
    let num = sides * arc;
    if num <= 0 {
        1
    } else {
        let n = (num + DEG_360 as int - 1) / (DEG_360 as int);
        if n < 1 {
            1
        } else {
            n
        }
    }
}

/// The angle swept by each segment of an arc.
pub open spec fn arc_span(sides: int, arc: int) -> int {
    div_trunc_spec(arc, arc_segment_count(sides, arc))
}

/// The angle at which segment `i` of an arc starts; its end angle is the
/// start angle of segment `i + 1`.
pub open spec fn arc_seg_start(rot: int, span: int, i: int) -> int {
    i * span + rot
}

/// A point of an arc boundary: the center displaced by `r` along the angle's
/// direction, with a zero texture coordinate.
pub open spec fn arc_vertex(x: int, y: int, r: int, a: int, c: Color) -> Vertex {
    mk_vertex(x + fx_mul_spec(r, cos_fx_spec(a)), y + fx_mul_spec(r, sin_fx_spec(a)), 0, 0, c)
}

/// The fragment of an arc: one trapezoid quad per segment between the inner
/// radius and the radius grown by the thickness, two triangles per quad.
pub open spec fn arc_fragment(
    x: int,
    y: int,
    sides: int,
    radius: int,
    rot: int,
    th: int,
    arc: int,
    c: Color,
) -> (Seq<Vertex>, Seq<u16>) {
    let n = arc_segment_count(sides, arc);
    let span = arc_span(sides, arc);
    (
        Seq::new(
            (4 * n) as nat,
            |j: int|
                {
                    let sa = arc_seg_start(rot, span, j / 4);
                    let ea = sa + span;
                    if j % 4 == 0 {
                        arc_vertex(x, y, radius, sa, c)
                    } else if j % 4 == 1 {
                        arc_vertex(x, y, radius + th, sa, c)
                    } else if j % 4 == 2 {
                        arc_vertex(x, y, radius, ea, c)
                    } else {
                        arc_vertex(x, y, radius + th, ea, c)
                    }
                },
        ),
        Seq::new(
            (6 * n) as nat,
            |k: int|
                {
                    let off: int = if k % 6 == 0 {
                        0
                    } else if k % 6 == 1 {
                        1
                    } else if k % 6 == 2 {
                        2
                    } else if k % 6 == 3 {
                        2
                    } else if k % 6 == 4 {
                        1
                    } else {
                        3
                    };
                    (4 * (k / 6) + off) as u16
                },
        ),
    )
}

/// One arc boundary point as a vertex.
fn arc_point(x: i64, y: i64, r: i64, a: i64, color: Color) -> (v: Vertex)
    requires
        fx_ok(x),
        fx_ok(y),
        -2 * COORD_MAX <= r <= 2 * COORD_MAX,
        -ROT_MAX - 2 * DEG_360 as int * 256 <= a as int <= ROT_MAX + 2 * DEG_360 as int * 256,
    ensures
        v == arc_vertex(x as int, y as int, r as int, a as int, color),
{
    let ca: i64 = cos_fx(a);
    let sa: i64 = sin_fx(a);
    proof {
        lemma_mul_le(r as int, ca as int, 2 * COORD_MAX as int, FX_ONE as int);
        lemma_mul_le(r as int, sa as int, 2 * COORD_MAX as int, FX_ONE as int);
        lemma_div_trunc_mag(r as int * ca as int, FX_ONE as int);
        lemma_div_trunc_mag(r as int * sa as int, FX_ONE as int);
    }
    let ox: i64 = fx_mul(r, ca);
    let oy: i64 = fx_mul(r, sa);
    Vertex::new(x + ox, y + oy, 0, 0, 0, color)
}

/// Draws an arc from `rotation` to `arc + rotation` (both in fixed-point
/// degrees, `arc` at most one full turn in magnitude), centered at `[x, y]`
/// with a given number of `sides`, `radius`, line `thickness`, and `color`.
pub fn draw_arc<S: GeometrySink>(
    sink: &mut S,
    x: i64,
    y: i64,
    sides: u8,
    radius: i64,
    rotation: i64,
    thickness: i64,
    arc: i64,
    color: Color,
)
    requires
        fx_ok(x),
        fx_ok(y),
        fx_ok(radius),
        fx_ok(thickness),
        rot_ok(rotation),
        -DEG_360 <= arc <= DEG_360,
    ensures
        final(sink).cur_texture() == Some(None::<u32>),
        final(sink).cur_mode() == Some(DrawMode::Triangles),
        final(sink).batched() == old(sink).batched().push(
            arc_fragment(
                x as int,
                y as int,
                sides as int,
                radius as int,
                rotation as int,
                thickness as int,
                arc as int,
                color,
            ),
        ),
{
    let ghost gfrag = arc_fragment(
        x as int,
        y as int,
        sides as int,
        radius as int,
        rotation as int,
        thickness as int,
        arc as int,
        color,
    );
    proof {
        lemma_mul_le(sides as int, arc as int, 255, DEG_360 as int);
    }
    let num: i64 = (sides as i64) * arc;
    let n: i64 = if num <= 0 {
        1
    } else {
        (((num as u64) + (DEG_360 as u64) - 1) / (DEG_360 as u64)) as i64
    };
    proof {
        if num > 0 {
            assert(n >= 1) by (nonlinear_arith)
                requires
                    n == (num as int + DEG_360 as int - 1) / (DEG_360 as int),
                    num >= 1,
                    DEG_360 == 23592960,
            ;
            assert(n <= 256) by (nonlinear_arith)
                requires
                    n == (num as int + DEG_360 as int - 1) / (DEG_360 as int),
                    1 <= num as int <= 255 * DEG_360 as int,
                    DEG_360 == 23592960,
            ;
        }
        assert(n as int == arc_segment_count(sides as int, arc as int));
    }
    let span: i64 = div_trunc(arc, n);
    proof {
        lemma_div_trunc_mag(arc as int, n as int);
        assert(iabs(span as int) <= iabs(arc as int)) by (nonlinear_arith)
            requires
                n >= 1,
                iabs(span as int) * iabs(n as int) <= iabs(arc as int),
        ;
    }
    let mut vertices: Vec<Vertex> = Vec::new();
    let mut indices: Vec<u16> = Vec::new();
    let mut i: i64 = 0;
    while i < n
        invariant
            fx_ok(x) && fx_ok(y) && fx_ok(radius) && fx_ok(thickness) && rot_ok(rotation),
            -DEG_360 <= arc <= DEG_360,
            1 <= n <= 256,
            iabs(span as int) <= iabs(arc as int),
            span as int == arc_span(sides as int, arc as int),
            n as int == arc_segment_count(sides as int, arc as int),
            gfrag == arc_fragment(
                x as int,
                y as int,
                sides as int,
                radius as int,
                rotation as int,
                thickness as int,
                arc as int,
                color,
            ),
            0 <= i <= n,
            vertices@.len() == 4 * i,
            indices@.len() == 6 * i,
            forall|j: int| 0 <= j < 4 * i ==> vertices@[j] == gfrag.0[j],
            forall|k: int| 0 <= k < 6 * i ==> indices@[k] == gfrag.1[k],
        decreases n - i,
    {
        proof {
            lemma_mul_le(i as int, span as int, 256, DEG_360 as int);
        }
        let sa: i64 = i * span + rotation;
        let ea: i64 = sa + span;
        let base: u16 = (4 * i) as u16;
        indices.push(base);
        indices.push(base + 1);
        indices.push(base + 2);
        indices.push(base + 2);
        indices.push(base + 1);
        indices.push(base + 3);
        let ro: i64 = radius + thickness;
        let v0: Vertex = arc_point(x, y, radius, sa, color);
        let v1: Vertex = arc_point(x, y, ro, sa, color);
        let v2: Vertex = arc_point(x, y, radius, ea, color);
        let v3: Vertex = arc_point(x, y, ro, ea, color);
        vertices.push(v0);
        vertices.push(v1);
        vertices.push(v2);
        vertices.push(v3);
        proof {
            assert(sa as int == arc_seg_start(rotation as int, span as int, i as int));
            assert((4 * i as int) % 4 == 0 && (4 * i as int) / 4 == i as int);
            assert((4 * i as int + 1) % 4 == 1 && (4 * i as int + 1) / 4 == i as int);
            assert((4 * i as int + 2) % 4 == 2 && (4 * i as int + 2) / 4 == i as int);
            assert((4 * i as int + 3) % 4 == 3 && (4 * i as int + 3) / 4 == i as int);
            assert(vertices@[4 * i as int] == gfrag.0[4 * i as int]);
            assert(vertices@[4 * i as int + 1] == gfrag.0[4 * i as int + 1]);
            assert(vertices@[4 * i as int + 2] == gfrag.0[4 * i as int + 2]);
            assert(vertices@[4 * i as int + 3] == gfrag.0[4 * i as int + 3]);
            assert((6 * i as int) % 6 == 0 && (6 * i as int) / 6 == i as int);
            assert((6 * i as int + 1) % 6 == 1 && (6 * i as int + 1) / 6 == i as int);
            assert((6 * i as int + 2) % 6 == 2 && (6 * i as int + 2) / 6 == i as int);
            assert((6 * i as int + 3) % 6 == 3 && (6 * i as int + 3) / 6 == i as int);
            assert((6 * i as int + 4) % 6 == 4 && (6 * i as int + 4) / 6 == i as int);
            assert((6 * i as int + 5) % 6 == 5 && (6 * i as int + 5) / 6 == i as int);
            assert(indices@[6 * i as int] == gfrag.1[6 * i as int]);
            assert(indices@[6 * i as int + 1] == gfrag.1[6 * i as int + 1]);
            assert(indices@[6 * i as int + 2] == gfrag.1[6 * i as int + 2]);
            assert(indices@[6 * i as int + 3] == gfrag.1[6 * i as int + 3]);
            assert(indices@[6 * i as int + 4] == gfrag.1[6 * i as int + 4]);
            assert(indices@[6 * i as int + 5] == gfrag.1[6 * i as int + 5]);
        }
        i = i + 1;
    }
    proof {
        assert(vertices@ =~= gfrag.0);
        assert(indices@ =~= gfrag.1);
        assert forall|k: int| 0 <= k < gfrag.1.len() implies (#[trigger] gfrag.1[k] as int)
            < gfrag.0.len() by {
            assert(0 <= k % 6 < 6);
            assert(0 <= k / 6 < n as int);
        }
    }
    sink.set_texture(None);
    sink.set_draw_mode(DrawMode::Triangles);
    sink.push_geometry(vertices, indices);
}

/// Draws a regular polygon outline centered at `[x, y]` with a given number
/// of `sides`, `radius`, clockwise `rotation` (in fixed-point degrees), line
/// `thickness`, and `color`: an arc spanning the full turn.
pub fn draw_poly_lines<S: GeometrySink>(
    sink: &mut S,
    x: i64,
    y: i64,
    sides: u8,
    radius: i64,
    rotation: i64,
    thickness: i64,
    color: Color,
)
    requires
        fx_ok(x),
        fx_ok(y),
        fx_ok(radius),
        fx_ok(thickness),
        rot_ok(rotation),
    ensures
        final(sink).cur_texture() == Some(None::<u32>),
        final(sink).cur_mode() == Some(DrawMode::Triangles),
        final(sink).batched() == old(sink).batched().push(
            arc_fragment(
                x as int,
                y as int,
                sides as int,
                radius as int,
                rotation as int,
                thickness as int,
                DEG_360 as int,
                color,
            ),
        ),
{
    draw_arc(sink, x, y, sides, radius, rotation, thickness, DEG_360, color);
}

/// Draws a circle outline centered at `[x, y]` with a given radius `r`, line
/// `thickness` and `color`: a polygon outline with thirty sides.
pub fn draw_circle_lines<S: GeometrySink>(
    sink: &mut S,
    x: i64,
    y: i64,
    r: i64,
    thickness: i64,
    color: Color,
)
    requires
        fx_ok(x),
        fx_ok(y),
        fx_ok(r),
        fx_ok(thickness),
    ensures
        final(sink).cur_texture() == Some(None::<u32>),
        final(sink).cur_mode() == Some(DrawMode::Triangles),
        final(sink).batched() == old(sink).batched().push(
            arc_fragment(x as int, y as int, 30, r as int, 0, thickness as int, DEG_360 as int, color),
        ),
{
    draw_poly_lines(sink, x, y, 30, r, 0, thickness, color);
}

/// The rotation a hexagon is drawn with: a quarter turn when it points along
/// the vertical axis, none otherwise.
pub open spec fn hexagon_rotation(vertical: bool) -> int {
    if vertical {
        DEG_90 as int
    } else {
        0
    }
}

/// Draws an outlined solid hexagon centered at `[x, y]` with a radius
/// `size`, outline thickness `border` (no outline when it is not positive),
/// orientation `vertical`, and colors for the outline and the fill.
pub fn draw_hexagon<S: GeometrySink>(
    sink: &mut S,
    x: i64,
    y: i64,
    size: i64,
    border: i64,
    vertical: bool,
    border_color: Color,
    fill_color: Color,
)
    requires
        fx_ok(x),
        fx_ok(y),
        fx_ok(size),
        fx_ok(border),
    ensures
        final(sink).cur_texture() == Some(None::<u32>),
        final(sink).cur_mode() == Some(DrawMode::Triangles),
        border > 0 ==> final(sink).batched() == old(sink).batched().push(
            poly_fragment(x as int, y as int, 6, size as int, hexagon_rotation(vertical), fill_color),
        ).push(
            arc_fragment(
                x as int,
                y as int,
                6,
                size as int,
                hexagon_rotation(vertical),
                border as int,
                DEG_360 as int,
                border_color,
            ),
        ),
        border <= 0 ==> final(sink).batched() == old(sink).batched().push(
            poly_fragment(x as int, y as int, 6, size as int, hexagon_rotation(vertical), fill_color),
        ),
{
    let rotation: i64 = if vertical {
        DEG_90
    } else {
        0
    };
    draw_poly(sink, x, y, 6, size, rotation, fill_color);
    if border > 0 {
        draw_poly_lines(sink, x, y, 6, size, rotation, border, border_color);
    }
}

/// Parameters of the extended rectangle draws: a normalized pivot offset
/// within the unit square (the point of the rectangle that sits at the call's
/// position and that rotation turns around), a rotation in fixed-point
/// degrees, and a color.
#[derive(Clone, Debug)]
pub struct DrawRectangleParams {
    /// Normalized pivot: `(0, 0)` anchors the top-left corner, `(FX_ONE / 2,
    /// FX_ONE / 2)` centers the rectangle.
    pub offset: Vec2Fx,
    /// Rotation in fixed-point degrees.
    pub rotation: i64,
    pub color: Color,
}

impl Default for DrawRectangleParams {
    /// No offset, no rotation, opaque white.
    fn default() -> (d: Self)
        ensures
            d.offset == (Vec2Fx { x: 0, y: 0 }),
            d.rotation == 0,
            d.color == (Color { r: 255, g: 255, b: 255, a: 255 }),
    {
        DrawRectangleParams {
            offset: Vec2Fx { x: 0, y: 0 },
            rotation: 0,
            color: Color { r: 255, g: 255, b: 255, a: 255 },
        }
    }
}

/// The pivot offset is a normalized point of the unit square.
pub open spec fn offset_ok(p: DrawRectangleParams) -> bool {
    0 <= p.offset.x <= FX_ONE && 0 <= p.offset.y <= FX_ONE
}

/// A unit-space corner `(ux, uy)` carried through the extended rectangles'
/// affine transform: scaled by the extents, rotated, then translated.
pub open spec fn rect_ex_pt(x: int, y: int, w: int, h: int, rot: int, ux: int, uy: int) -> (
    int,
    int,
) {
    let cr = cos_fx_spec(rot);
    let sr = sin_fx_spec(rot);
    let tu = fx_mul_spec(w, ux);
    let tv = fx_mul_spec(h, uy);
    (x + (fx_mul_spec(cr, tu) - fx_mul_spec(sr, tv)), y + (fx_mul_spec(sr, tu) + fx_mul_spec(
        cr,
        tv,
    )))
}

/// The fragment of an extended solid rectangle: the four offset-adjusted
/// unit-square corners through the transform, one quad of two triangles.
pub open spec fn rectangle_ex_fragment(x: int, y: int, w: int, h: int, p: DrawRectangleParams) -> (
    Seq<Vertex>,
    Seq<u16>,
) {
    let one = FX_ONE as int;
    let ox = p.offset.x as int;
    let oy = p.offset.y as int;
    let rot = p.rotation as int;
    let p0 = rect_ex_pt(x, y, w, h, rot, 0 - ox, 0 - oy);
    let p1 = rect_ex_pt(x, y, w, h, rot, 0 - ox, one - oy);
    let p2 = rect_ex_pt(x, y, w, h, rot, one - ox, one - oy);
    let p3 = rect_ex_pt(x, y, w, h, rot, one - ox, 0 - oy);
    (
        seq![
            mk_vertex(p0.0, p0.1, 0, 0, p.color),
            mk_vertex(p1.0, p1.1, one, 0, p.color),
            mk_vertex(p2.0, p2.1, one, one, p.color),
            mk_vertex(p3.0, p3.1, 0, one, p.color),
        ],
        seq![0u16, 1u16, 2u16, 0u16, 2u16, 3u16],
    )
}

/// The fragment of an extended rectangle outline: the four outer corners and
/// four corners inset by the normalized thickness, all through the
/// transform, as a ring of eight triangles.
pub open spec fn rectangle_lines_ex_fragment(
    x: int,
    y: int,
    w: int,
    h: int,
    th: int,
    p: DrawRectangleParams,
) -> (Seq<Vertex>, Seq<u16>)
    recommends
        w != 0,
        h != 0,
{
    let one = FX_ONE as int;
    let ox = p.offset.x as int;
    let oy = p.offset.y as int;
    let rot = p.rotation as int;
    let tx = fx_div_spec(th, w);
    let ty = fx_div_spec(th, h);
    let p0 = rect_ex_pt(x, y, w, h, rot, 0 - ox, 0 - oy);
    let p1 = rect_ex_pt(x, y, w, h, rot, 0 - ox, one - oy);
    let p2 = rect_ex_pt(x, y, w, h, rot, one - ox, one - oy);
    let p3 = rect_ex_pt(x, y, w, h, rot, one - ox, 0 - oy);
    let p4 = rect_ex_pt(x, y, w, h, rot, 0 - ox + tx, 0 - oy + ty);
    let p5 = rect_ex_pt(x, y, w, h, rot, 0 - ox + tx, one - oy - ty);
    let p6 = rect_ex_pt(x, y, w, h, rot, one - ox - tx, one - oy - ty);
    let p7 = rect_ex_pt(x, y, w, h, rot, one - ox - tx, 0 - oy + ty);
    (
        seq![
            mk_vertex(p0.0, p0.1, 0, one, p.color),
            mk_vertex(p1.0, p1.1, one, 0, p.color),
            mk_vertex(p2.0, p2.1, one, one, p.color),
            mk_vertex(p3.0, p3.1, one, 0, p.color),
            mk_vertex(p4.0, p4.1, 0, 0, p.color),
            mk_vertex(p5.0, p5.1, 0, 0, p.color),
            mk_vertex(p6.0, p6.1, 0, 0, p.color),
            mk_vertex(p7.0, p7.1, 0, 0, p.color),
        ],
        seq![
            0u16, 4u16, 3u16, 4u16, 3u16, 7u16, 4u16, 0u16, 1u16, 4u16, 5u16, 1u16, 1u16, 5u16,
            6u16, 1u16, 6u16, 2u16, 2u16, 3u16, 6u16, 3u16, 6u16, 7u16,
        ],
    )
}

/// One unit-space corner through the extended rectangles' transform.
fn rect_ex_point(
    x: i64,
    y: i64,
    w: i64,
    h: i64,
    Ghost(rot): Ghost<int>,
    cr: i64,
    sr: i64,
    ux: i64,
    uy: i64,
) -> (p: (i64, i64))
    requires
        fx_ok(x),
        fx_ok(y),
        cr == cos_fx_spec(rot),
        sr == sin_fx_spec(rot),
        -FX_ONE <= cr <= FX_ONE,
        -FX_ONE <= sr <= FX_ONE,
        iabs(w as int * ux as int) <= 0x4000_0000_0000,
        iabs(h as int * uy as int) <= 0x4000_0000_0000,
    ensures
        p.0 as int == rect_ex_pt(x as int, y as int, w as int, h as int, rot, ux as int, uy as int).0,
        p.1 as int == rect_ex_pt(x as int, y as int, w as int, h as int, rot, ux as int, uy as int).1,
{
    proof {
        lemma_div_trunc_mag(w as int * ux as int, FX_ONE as int);
        lemma_div_trunc_mag(h as int * uy as int, FX_ONE as int);
    }
    let tu: i64 = fx_mul(w, ux);
    let tv: i64 = fx_mul(h, uy);
    proof {
        lemma_mul_le(cr as int, tu as int, FX_ONE as int, 0x4000_0000);
        lemma_mul_le(sr as int, tv as int, FX_ONE as int, 0x4000_0000);
        lemma_mul_le(sr as int, tu as int, FX_ONE as int, 0x4000_0000);
        lemma_mul_le(cr as int, tv as int, FX_ONE as int, 0x4000_0000);
        lemma_div_trunc_mag(cr as int * tu as int, FX_ONE as int);
        lemma_div_trunc_mag(sr as int * tv as int, FX_ONE as int);
        lemma_div_trunc_mag(sr as int * tu as int, FX_ONE as int);
        lemma_div_trunc_mag(cr as int * tv as int, FX_ONE as int);
    }
    let a: i64 = fx_mul(cr, tu);
    let b: i64 = fx_mul(sr, tv);
    let c: i64 = fx_mul(sr, tu);
    let d: i64 = fx_mul(cr, tv);
    (x + (a - b), y + (c + d))
}

/// Draws a solid rectangle with its anchor at `[x, y]` and size `[w, h]`,
/// with a pivot offset, rotation and color given by `params`.
pub fn draw_rectangle_ex<S: GeometrySink>(
    sink: &mut S,
    x: i64,
    y: i64,
    w: i64,
    h: i64,
    params: DrawRectangleParams,
)
    requires
        fx_ok(x),
        fx_ok(y),
        fx_ok(w),
        fx_ok(h),
        offset_ok(params),
        rot_ok(params.rotation),
    ensures
        final(sink).cur_texture() == Some(None::<u32>),
        final(sink).cur_mode() == Some(DrawMode::Triangles),
        final(sink).batched() == old(sink).batched().push(
            rectangle_ex_fragment(x as int, y as int, w as int, h as int, params),
        ),
{
    let ghost gfrag = rectangle_ex_fragment(x as int, y as int, w as int, h as int, params);
    let cr: i64 = cos_fx(params.rotation);
    let sr: i64 = sin_fx(params.rotation);
    let u0: i64 = 0 - params.offset.x;
    let v0: i64 = 0 - params.offset.y;
    let u1: i64 = FX_ONE - params.offset.x;
    let v1: i64 = FX_ONE - params.offset.y;
    proof {
        lemma_mul_le(w as int, u0 as int, COORD_MAX as int, FX_ONE as int);
        lemma_mul_le(w as int, u1 as int, COORD_MAX as int, FX_ONE as int);
        lemma_mul_le(h as int, v0 as int, COORD_MAX as int, FX_ONE as int);
        lemma_mul_le(h as int, v1 as int, COORD_MAX as int, FX_ONE as int);
    }
    let ghost rot = params.rotation as int;
    let pa: (i64, i64) = rect_ex_point(x, y, w, h, Ghost(rot), cr, sr, u0, v0);
    let pb: (i64, i64) = rect_ex_point(x, y, w, h, Ghost(rot), cr, sr, u0, v1);
    let pc: (i64, i64) = rect_ex_point(x, y, w, h, Ghost(rot), cr, sr, u1, v1);
    let pd: (i64, i64) = rect_ex_point(x, y, w, h, Ghost(rot), cr, sr, u1, v0);
    let vertices: Vec<Vertex> = vec![
        Vertex::new(pa.0, pa.1, 0, 0, 0, params.color),
        Vertex::new(pb.0, pb.1, 0, FX_ONE, 0, params.color),
        Vertex::new(pc.0, pc.1, 0, FX_ONE, FX_ONE, params.color),
        Vertex::new(pd.0, pd.1, 0, 0, FX_ONE, params.color),
    ];
    let indices: Vec<u16> = vec![0, 1, 2, 0, 2, 3];
    proof {
        assert(vertices@ =~= gfrag.0);
        assert(indices@ =~= gfrag.1);
    }
    sink.set_texture(None);
    sink.set_draw_mode(DrawMode::Triangles);
    sink.push_geometry(vertices, indices);
}

/// Draws a rectangle outline with its anchor at `[x, y]` and size `[w, h]`
/// (both extents nonzero), line `thickness`, and a pivot offset, rotation
/// and color given by `params`. The inner quad is inset by the thickness
/// normalized by each extent.
pub fn draw_rectangle_lines_ex<S: GeometrySink>(
    sink: &mut S,
    x: i64,
    y: i64,
    w: i64,
    h: i64,
    thickness: i64,
    params: DrawRectangleParams,
)
    requires
        fx_ok(x),
        fx_ok(y),
        fx_ok(w),
        fx_ok(h),
        fx_ok(thickness),
        w != 0,
        h != 0,
        offset_ok(params),
        rot_ok(params.rotation),
    ensures
        final(sink).cur_texture() == Some(None::<u32>),
        final(sink).cur_mode() == Some(DrawMode::Triangles),
        final(sink).batched() == old(sink).batched().push(
            rectangle_lines_ex_fragment(
                x as int,
                y as int,
                w as int,
                h as int,
                thickness as int,
                params,
            ),
        ),
{
    let ghost gfrag = rectangle_lines_ex_fragment(
        x as int,
        y as int,
        w as int,
        h as int,
        thickness as int,
        params,
    );
    let tx: i64 = fx_div(thickness, w);
    let ty: i64 = fx_div(thickness, h);
    proof {
        lemma_mul_le(thickness as int, FX_ONE as int, COORD_MAX as int, FX_ONE as int);
        lemma_div_trunc_mag(thickness as int * FX_ONE as int, w as int);
        lemma_div_trunc_mag(thickness as int * FX_ONE as int, h as int);
        lemma_abs_mul(tx as int, w as int);
        lemma_abs_mul(ty as int, h as int);
        assert(iabs(tx as int) <= 0x1000_0000_0000) by (nonlinear_arith)
            requires
                iabs(tx as int) * iabs(w as int) <= 0x1000_0000_0000,
                iabs(w as int) >= 1,
                iabs(tx as int) >= 0,
        ;
        assert(iabs(ty as int) <= 0x1000_0000_0000) by (nonlinear_arith)
            requires
                iabs(ty as int) * iabs(h as int) <= 0x1000_0000_0000,
                iabs(h as int) >= 1,
                iabs(ty as int) >= 0,
        ;
    }
    let cr: i64 = cos_fx(params.rotation);
    let sr: i64 = sin_fx(params.rotation);
    let u0: i64 = 0 - params.offset.x;
    let v0: i64 = 0 - params.offset.y;
    let u1: i64 = FX_ONE - params.offset.x;
    let v1: i64 = FX_ONE - params.offset.y;
    let iu0: i64 = u0 + tx;
    let iv0: i64 = v0 + ty;
    let iu1: i64 = u1 - tx;
    let iv1: i64 = v1 - ty;
    proof {
        lemma_mul_le(w as int, u0 as int, COORD_MAX as int, FX_ONE as int);
        lemma_mul_le(w as int, u1 as int, COORD_MAX as int, FX_ONE as int);
        lemma_mul_le(h as int, v0 as int, COORD_MAX as int, FX_ONE as int);
        lemma_mul_le(h as int, v1 as int, COORD_MAX as int, FX_ONE as int);
        assert(w as int * (u0 as int + tx as int) == w as int * u0 as int + w as int * tx as int)
            by (nonlinear_arith);
        assert(w as int * (u1 as int - tx as int) == w as int * u1 as int - w as int * tx as int)
            by (nonlinear_arith);
        assert(h as int * (v0 as int + ty as int) == h as int * v0 as int + h as int * ty as int)
            by (nonlinear_arith);
        assert(h as int * (v1 as int - ty as int) == h as int * v1 as int - h as int * ty as int)
            by (nonlinear_arith);
        lemma_abs_mul(w as int, tx as int);
        lemma_abs_mul(h as int, ty as int);
        assert(iabs(w as int) * iabs(tx as int) == iabs(tx as int) * iabs(w as int))
            by (nonlinear_arith);
        assert(iabs(h as int) * iabs(ty as int) == iabs(ty as int) * iabs(h as int))
            by (nonlinear_arith);
    }
    let ghost rot = params.rotation as int;
    let pa: (i64, i64) = rect_ex_point(x, y, w, h, Ghost(rot), cr, sr, u0, v0);
    let pb: (i64, i64) = rect_ex_point(x, y, w, h, Ghost(rot), cr, sr, u0, v1);
    let pc: (i64, i64) = rect_ex_point(x, y, w, h, Ghost(rot), cr, sr, u1, v1);
    let pd: (i64, i64) = rect_ex_point(x, y, w, h, Ghost(rot), cr, sr, u1, v0);
    let pe: (i64, i64) = rect_ex_point(x, y, w, h, Ghost(rot), cr, sr, iu0, iv0);
    let pf: (i64, i64) = rect_ex_point(x, y, w, h, Ghost(rot), cr, sr, iu0, iv1);
    let pg: (i64, i64) = rect_ex_point(x, y, w, h, Ghost(rot), cr, sr, iu1, iv1);
    let ph: (i64, i64) = rect_ex_point(x, y, w, h, Ghost(rot), cr, sr, iu1, iv0);
    let vertices: Vec<Vertex> = vec![
        Vertex::new(pa.0, pa.1, 0, 0, FX_ONE, params.color),
        Vertex::new(pb.0, pb.1, 0, FX_ONE, 0, params.color),
        Vertex::new(pc.0, pc.1, 0, FX_ONE, FX_ONE, params.color),
        Vertex::new(pd.0, pd.1, 0, FX_ONE, 0, params.color),
        Vertex::new(pe.0, pe.1, 0, 0, 0, params.color),
        Vertex::new(pf.0, pf.1, 0, 0, 0, params.color),
        Vertex::new(pg.0, pg.1, 0, 0, 0, params.color),
        Vertex::new(ph.0, ph.1, 0, 0, 0, params.color),
    ];
    let indices: Vec<u16> = vec![
        0, 4, 3, 4, 3, 7, 4, 0, 1, 4, 5, 1, 1, 5, 6, 1, 6, 2, 2, 3, 6, 3, 6, 7,
    ];
    proof {
        assert(vertices@ =~= gfrag.0);
        assert(indices@ =~= gfrag.1);
        assert(frag_wf(gfrag));
    }
    sink.set_texture(None);
    sink.set_draw_mode(DrawMode::Triangles);
    sink.push_geometry(vertices, indices);
}

} // verus!
