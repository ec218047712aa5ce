//! General properties of the tessellator, stated and proved once over all
//! inputs: fan topology of filled polygons, the outline ring's containment,
//! the arc's segment structure, and the agreement of ellipse and circle.

use vstd::prelude::*;
use vstd::arithmetic::div_mod::lemma_fundamental_div_mod_converse_div;
use crate::fx::{COORD_MAX, div_trunc_spec, fx_mul_spec, lemma_fx_mul_one, lemma_fx_mul_zero};
use crate::trig::{DEG_360, lemma_sin_zero, lemma_cos_zero};
use crate::geometry::{Color, Vertex, frag_wf};
use crate::shapes::{
    poly_fragment, poly_angle, rectangle_lines_fragment, ellipse_fragment, ellipse_pt,
    ellipse_angle, arc_fragment, arc_segment_count, arc_span, arc_seg_start,
};

verus! {

/// Triangle `t` of a fragment, as the three index values `(3t, 3t+1, 3t+2)`.
pub open spec fn fragment_triangle(f: (Seq<Vertex>, Seq<u16>), t: int) -> (int, int, int) {
    (f.1[3 * t] as int, f.1[3 * t + 1] as int, f.1[3 * t + 2] as int)
}

/// A filled regular polygon tessellates as a fan: exactly `sides + 2`
/// vertices and `sides` triangles, triangle `t` referencing the center and
/// the two consecutive perimeter vertices `t + 1` and `t + 2`; every index
/// stays in bounds.
pub proof fn lemma_poly_fan_shape(x: int, y: int, sides: int, radius: int, rot: int, c: Color)
    requires
        1 <= sides <= 255,
    ensures
        poly_fragment(x, y, sides, radius, rot, c).0.len() == sides + 2,
        poly_fragment(x, y, sides, radius, rot, c).1.len() == 3 * sides,
        forall|t: int|
            0 <= t < sides ==> #[trigger] fragment_triangle(
                poly_fragment(x, y, sides, radius, rot, c),
                t,
            ) == (0int, t + 1, t + 2),
        frag_wf(poly_fragment(x, y, sides, radius, rot, c)),
{
    let f = poly_fragment(x, y, sides, radius, rot, c);
    assert forall|t: int| 0 <= t < sides implies #[trigger] fragment_triangle(f, t) == (
        0int,
        t + 1,
        t + 2,
    ) by {
        assert((3 * t) % 3 == 0);
        assert((3 * t + 1) % 3 == 1);
        assert((3 * t + 2) % 3 == 2);
        assert((3 * t + 1) / 3 == t);
        assert((3 * t + 2) / 3 == t);
    }
    assert forall|k: int| 0 <= k < f.1.len() implies (#[trigger] f.1[k] as int) < f.0.len() by {
        assert(0 <= k % 3 < 3);
        assert(k / 3 < sides);
    }
}

/// The rectangle outline is always a ring of eight vertices and twenty-four
/// indices, and when the thickness is at least two fixed-point units and
/// smaller than both extents, the inner quad lies strictly inside the outer
/// quad.
pub proof fn lemma_rectangle_outline_ring(x: int, y: int, w: int, h: int, th: int, c: Color)
    requires
        -COORD_MAX <= x <= COORD_MAX,
        -COORD_MAX <= y <= COORD_MAX,
        -COORD_MAX <= w <= COORD_MAX,
        -COORD_MAX <= h <= COORD_MAX,
        2 <= th,
        th < w,
        th < h,
    ensures
        rectangle_lines_fragment(x, y, w, h, th, c).0.len() == 8,
        rectangle_lines_fragment(x, y, w, h, th, c).1.len() == 24,
        frag_wf(rectangle_lines_fragment(x, y, w, h, th, c)),
        forall|i: int|
            4 <= i < 8 ==> x < (#[trigger] rectangle_lines_fragment(x, y, w, h, th, c).0[i]).x
                < x + w,
        forall|i: int|
            4 <= i < 8 ==> y < (#[trigger] rectangle_lines_fragment(x, y, w, h, th, c).0[i]).y
                < y + h,
{
    let f = rectangle_lines_fragment(x, y, w, h, th, c);
    let t = div_trunc_spec(th, 2);
    assert(t == th / 2);
    vstd::arithmetic::div_mod::lemma_fundamental_div_mod(th, 2);
    assert(1 <= t);
    assert(2 * t <= th);
}

/// The six index values of quad segment `t` of an arc fragment.
pub open spec fn fragment_quad(f: (Seq<Vertex>, Seq<u16>), t: int) -> Seq<int> {
    seq![
        f.1[6 * t] as int,
        f.1[6 * t + 1] as int,
        f.1[6 * t + 2] as int,
        f.1[6 * t + 3] as int,
        f.1[6 * t + 4] as int,
        f.1[6 * t + 5] as int,
    ]
}

/// A full-turn arc with `sides` requested segments produces exactly `sides`
/// segments, each one a quad of its own four vertices, with every index in
/// bounds; and the end angle of each segment is the start angle of the next.
pub proof fn lemma_arc_full_turn(
    x: int,
    y: int,
    sides: int,
    radius: int,
    rot: int,
    th: int,
    c: Color,
)
    requires
        1 <= sides <= 255,
    ensures
        arc_segment_count(sides, DEG_360 as int) == sides,
        arc_fragment(x, y, sides, radius, rot, th, DEG_360 as int, c).0.len() == 4 * sides,
        arc_fragment(x, y, sides, radius, rot, th, DEG_360 as int, c).1.len() == 6 * sides,
        frag_wf(arc_fragment(x, y, sides, radius, rot, th, DEG_360 as int, c)),
        forall|t: int|
            0 <= t < sides ==> #[trigger] fragment_quad(
                arc_fragment(x, y, sides, radius, rot, th, DEG_360 as int, c),
                t,
            ) == seq![4 * t, 4 * t + 1, 4 * t + 2, 4 * t + 2, 4 * t + 1, 4 * t + 3],
        forall|i: int|
            0 <= i < sides - 1 ==> #[trigger] arc_seg_start(
                rot,
                arc_span(sides, DEG_360 as int),
                i,
            ) + arc_span(sides, DEG_360 as int) == arc_seg_start(
                rot,
                arc_span(sides, DEG_360 as int),
                i + 1,
            ),
{
    let num = sides * DEG_360 as int;
    assert(num >= DEG_360 as int) by (nonlinear_arith)
        requires
            sides >= 1,
            num == sides * DEG_360 as int,
            DEG_360 == 23592960,
    ;
    lemma_fundamental_div_mod_converse_div(
        num + DEG_360 as int - 1,
        DEG_360 as int,
        sides,
        DEG_360 as int - 1,
    );
    assert(arc_segment_count(sides, DEG_360 as int) == sides);
    let f = arc_fragment(x, y, sides, radius, rot, th, DEG_360 as int, c);
    let span = arc_span(sides, DEG_360 as int);
    assert forall|t: int| 0 <= t < sides implies #[trigger] fragment_quad(f, t) == seq![
        4 * t,
        4 * t + 1,
        4 * t + 2,
        4 * t + 2,
        4 * t + 1,
        4 * t + 3,
    ] by {
        assert((6 * t) % 6 == 0 && (6 * t) / 6 == t);
        assert((6 * t + 1) % 6 == 1 && (6 * t + 1) / 6 == t);
        assert((6 * t + 2) % 6 == 2 && (6 * t + 2) / 6 == t);
        assert((6 * t + 3) % 6 == 3 && (6 * t + 3) / 6 == t);
        assert((6 * t + 4) % 6 == 4 && (6 * t + 4) / 6 == t);
        assert((6 * t + 5) % 6 == 5 && (6 * t + 5) / 6 == t);
        assert(fragment_quad(f, t) =~= seq![
            4 * t,
            4 * t + 1,
            4 * t + 2,
            4 * t + 2,
            4 * t + 1,
            4 * t + 3,
        ]);
    }
    assert forall|k: int| 0 <= k < f.1.len() implies (#[trigger] f.1[k] as int) < f.0.len() by {
        assert(0 <= k % 6 < 6);
        assert(0 <= k / 6 < sides);
    }
    assert forall|i: int| 0 <= i < sides - 1 implies #[trigger] arc_seg_start(rot, span, i) + span
        == arc_seg_start(rot, span, i + 1) by {
        assert((i + 1) * span == i * span + span) by (nonlinear_arith);
    }
}

/// An ellipse whose two extents equal a circle's radius and whose rotation is
/// zero places every vertex exactly where the twenty-sided circle polygon
/// does, with the same triangle indices.
pub proof fn lemma_ellipse_matches_circle(x: int, y: int, r: int, c: Color)
    ensures
        ellipse_fragment(x, y, r, r, 0, c).0.len() == poly_fragment(x, y, 20, r, 0, c).0.len(),
        forall|i: int|
            0 <= i < 22 ==> (#[trigger] ellipse_fragment(x, y, r, r, 0, c).0[i]).x == poly_fragment(
                x,
                y,
                20,
                r,
                0,
                c,
            ).0[i].x && ellipse_fragment(x, y, r, r, 0, c).0[i].y == poly_fragment(
                x,
                y,
                20,
                r,
                0,
                c,
            ).0[i].y,
        ellipse_fragment(x, y, r, r, 0, c).1 == poly_fragment(x, y, 20, r, 0, c).1,
{
    lemma_sin_zero();
    lemma_cos_zero();
    let e = ellipse_fragment(x, y, r, r, 0, c);
    let p = poly_fragment(x, y, 20, r, 0, c);
    assert forall|i: int| 0 <= i < 22 implies (#[trigger] e.0[i]).x == p.0[i].x && e.0[i].y
        == p.0[i].y by {
        if i > 0 {
            let a = ellipse_angle(i - 1);
            assert(poly_angle(i - 1, 20, 0) == a);
            let px = fx_mul_spec(r, crate::trig::cos_fx_spec(a));
            let py = fx_mul_spec(r, crate::trig::sin_fx_spec(a));
            lemma_fx_mul_one(px);
            lemma_fx_mul_one(py);
            lemma_fx_mul_zero(px);
            lemma_fx_mul_zero(py);
            assert(ellipse_pt(x, y, r, r, 0, i - 1).0 == x + px);
            assert(ellipse_pt(x, y, r, r, 0, i - 1).1 == y + py);
        }
    }
}

} // verus!

