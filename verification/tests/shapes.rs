use tess2d::fx::{div_trunc, fx_mul, isqrt, COORD_MAX, FX_ONE};
use tess2d::geometry::{Color, GeometrySink, RecordingSink, Vec2Fx};
use tess2d::shapes::{
    draw_arc, draw_circle, draw_circle_lines, draw_ellipse, draw_ellipse_lines, draw_hexagon,
    draw_line, draw_poly, draw_poly_lines, draw_rectangle, draw_rectangle_ex,
    draw_rectangle_lines, draw_rectangle_lines_ex, draw_triangle, draw_triangle_lines,
    DrawRectangleParams,
};
use tess2d::trig::{cos_fx, sin_fx, DEG_360, DEG_90};

const ONE: i64 = 65536;

fn white() -> Color {
    Color::from_rgba(255, 255, 255, 255)
}

#[test]
fn fx_mul_and_div_round_toward_zero() {
    assert_eq!(fx_mul(3 * ONE, 2 * ONE), 6 * ONE);
    assert_eq!(fx_mul(-3 * ONE, 2 * ONE), -6 * ONE);
    assert_eq!(div_trunc(7, 2), 3);
    assert_eq!(div_trunc(-7, 2), -3);
    assert_eq!(div_trunc(7, -2), -3);
    assert_eq!(isqrt(0), 0);
    assert_eq!(isqrt(15), 3);
    assert_eq!(isqrt(16), 4);
    assert_eq!(isqrt(u64::MAX), 0xFFFF_FFFF);
}

#[test]
fn trig_exact_at_quadrants() {
    assert_eq!(sin_fx(0), 0);
    assert_eq!(cos_fx(0), ONE);
    assert_eq!(sin_fx(DEG_90), ONE);
    assert_eq!(sin_fx(2 * DEG_90), 0);
    assert_eq!(sin_fx(3 * DEG_90), -ONE);
    assert_eq!(cos_fx(2 * DEG_90), -ONE);
    // periodicity and small error against the real sine of 30 degrees
    assert_eq!(sin_fx(30 * ONE + DEG_360), sin_fx(30 * ONE));
    let s30 = sin_fx(30 * ONE) as f64 / ONE as f64;
    assert!((s30 - 0.5).abs() < 0.002);
}

#[test]
fn triangle_is_three_corners_one_triangle() {
    let mut s = RecordingSink::new();
    draw_triangle(
        &mut s,
        Vec2Fx::new(0, 0),
        Vec2Fx::new(4 * ONE, 0),
        Vec2Fx::new(0, 3 * ONE),
        white(),
    );
    assert_eq!(s.fragment_count(), 1);
    let f = &s.fragments[0];
    assert_eq!(f.vertices.len(), 3);
    assert_eq!(f.indices, vec![0, 1, 2]);
    assert_eq!((f.vertices[1].x, f.vertices[1].y), (4 * ONE, 0));
    assert_eq!(f.vertices[2].z, 0);
}

#[test]
fn rectangle_round_trip() {
    let mut s = RecordingSink::new();
    draw_rectangle(&mut s, 0, 0, 10 * ONE, 20 * ONE, white());
    assert_eq!(s.fragment_count(), 1);
    let f = &s.fragments[0];
    let pos: Vec<(i64, i64)> = f.vertices.iter().map(|v| (v.x, v.y)).collect();
    assert_eq!(
        pos,
        vec![(0, 0), (10 * ONE, 0), (10 * ONE, 20 * ONE), (0, 20 * ONE)]
    );
    assert_eq!(f.indices, vec![0, 1, 2, 0, 2, 3]);
    assert_eq!((f.vertices[2].u, f.vertices[2].v), (ONE, ONE));
}

#[test]
fn rectangle_outline_ring_shape() {
    let mut s = RecordingSink::new();
    let (x, y, w, h, th) = (ONE, 2 * ONE, 10 * ONE, 8 * ONE, 2 * ONE);
    draw_rectangle_lines(&mut s, x, y, w, h, th, white());
    let f = &s.fragments[0];
    assert_eq!(f.vertices.len(), 8);
    assert_eq!(f.indices.len(), 24);
    let t = th / 2;
    // outer quad
    assert_eq!((f.vertices[0].x, f.vertices[0].y), (x, y));
    assert_eq!((f.vertices[2].x, f.vertices[2].y), (x + w, y + h));
    // inner quad strictly inside
    for v in &f.vertices[4..8] {
        assert!(x < v.x && v.x < x + w);
        assert!(y < v.y && v.y < y + h);
    }
    assert_eq!((f.vertices[4].x, f.vertices[4].y), (x + t, y + t));
    assert_eq!((f.vertices[6].x, f.vertices[6].y), (x + w - t, y + h - t));
}

#[test]
fn line_degenerate_is_a_no_op() {
    let mut s = RecordingSink::new();
    draw_line(&mut s, 5 * ONE, 5 * ONE, 5 * ONE, 5 * ONE, 2 * ONE, white());
    assert_eq!(s.fragment_count(), 0);
    draw_line(&mut s, 0, 0, 9 * ONE, 0, 0, white());
    assert_eq!(s.fragment_count(), 0);
    draw_line(&mut s, 0, 0, 9 * ONE, 0, -ONE, white());
    assert_eq!(s.fragment_count(), 0);
    // a degenerate call leaves even the texture and draw mode untouched
    assert!(s.texture.is_none());
    assert!(s.mode.is_none());
}

#[test]
fn line_emits_one_offset_quad() {
    let mut s = RecordingSink::new();
    draw_line(&mut s, 0, 0, 10 * ONE, 0, 2 * ONE, white());
    assert_eq!(s.fragment_count(), 1);
    let f = &s.fragments[0];
    assert_eq!(f.vertices.len(), 4);
    assert_eq!(f.indices, vec![0, 1, 2, 2, 1, 3]);
    let pos: Vec<(i64, i64)> = f.vertices.iter().map(|v| (v.x, v.y)).collect();
    assert_eq!(
        pos,
        vec![(0, ONE), (0, -ONE), (10 * ONE, ONE), (10 * ONE, -ONE)]
    );
}

#[test]
fn triangle_outline_is_three_lines() {
    let mut s = RecordingSink::new();
    draw_triangle_lines(
        &mut s,
        Vec2Fx::new(0, 0),
        Vec2Fx::new(8 * ONE, 0),
        Vec2Fx::new(0, 6 * ONE),
        ONE,
        white(),
    );
    assert_eq!(s.fragment_count(), 3);
    for f in &s.fragments {
        assert_eq!(f.vertices.len(), 4);
        assert_eq!(f.indices.len(), 6);
    }
    // all corners equal: every edge degenerate, nothing drawn
    let mut e = RecordingSink::new();
    let p = Vec2Fx::new(3 * ONE, 3 * ONE);
    draw_triangle_lines(&mut e, p, p, p, ONE, white());
    assert_eq!(e.fragment_count(), 0);
}

#[test]
fn poly_fan_counts_and_centroid() {
    let mut s = RecordingSink::new();
    let (x, y, r) = (100 * ONE, 50 * ONE, 100 * ONE);
    draw_poly(&mut s, x, y, 5, r, 45 * ONE, white());
    let f = &s.fragments[0];
    assert_eq!(f.vertices.len(), 5 + 2);
    assert_eq!(f.indices.len(), 3 * 5);
    for t in 0..5u16 {
        assert_eq!(
            &f.indices[3 * t as usize..3 * t as usize + 3],
            &[0, t + 1, t + 2]
        );
    }
    // closing vertex repeats the first perimeter vertex's angle
    assert_eq!(f.vertices[6].x, f.vertices[1].x);
    assert_eq!(f.vertices[6].y, f.vertices[1].y);
    // centroid of the distinct perimeter vertices is the center, within
    // the tolerance of the sine approximation
    let (mut cx, mut cy) = (0i64, 0i64);
    for v in &f.vertices[1..6] {
        cx += v.x;
        cy += v.y;
    }
    cx /= 5;
    cy /= 5;
    assert!((cx - x).abs() <= ONE, "centroid x off by {}", cx - x);
    assert!((cy - y).abs() <= ONE, "centroid y off by {}", cy - y);
}

#[test]
fn circle_is_twenty_sided_poly() {
    let mut a = RecordingSink::new();
    let mut b = RecordingSink::new();
    draw_circle(&mut a, 7 * ONE, 8 * ONE, 30 * ONE, white());
    draw_poly(&mut b, 7 * ONE, 8 * ONE, 20, 30 * ONE, 0, white());
    assert_eq!(a.fragments[0].vertices, b.fragments[0].vertices);
    assert_eq!(a.fragments[0].indices, b.fragments[0].indices);
    assert_eq!(a.fragments[0].vertices.len(), 22);
}

#[test]
fn circle_outline_is_thirty_sided_poly_outline() {
    let mut a = RecordingSink::new();
    let mut b = RecordingSink::new();
    draw_circle_lines(&mut a, 7 * ONE, 8 * ONE, 30 * ONE, 2 * ONE, white());
    draw_poly_lines(&mut b, 7 * ONE, 8 * ONE, 30, 30 * ONE, 0, 2 * ONE, white());
    assert_eq!(a.fragments[0].vertices, b.fragments[0].vertices);
    assert_eq!(a.fragments[0].indices, b.fragments[0].indices);
    assert_eq!(a.fragments[0].vertices.len(), 4 * 30);
    assert_eq!(a.fragments[0].indices.len(), 6 * 30);
}

#[test]
fn ellipse_with_equal_extents_matches_circle() {
    let mut a = RecordingSink::new();
    let mut b = RecordingSink::new();
    draw_ellipse(&mut a, 5 * ONE, 6 * ONE, 40 * ONE, 40 * ONE, 0, white());
    draw_circle(&mut b, 5 * ONE, 6 * ONE, 40 * ONE, white());
    let (e, c) = (&a.fragments[0], &b.fragments[0]);
    assert_eq!(e.vertices.len(), c.vertices.len());
    for (ev, cv) in e.vertices.iter().zip(c.vertices.iter()) {
        assert_eq!(ev.x, cv.x);
        assert_eq!(ev.y, cv.y);
    }
    assert_eq!(e.indices, c.indices);
}

#[test]
fn ellipse_outline_is_twenty_lines() {
    let mut s = RecordingSink::new();
    draw_ellipse_lines(&mut s, 0, 0, 40 * ONE, 20 * ONE, 15 * ONE, ONE, white());
    assert_eq!(s.fragment_count(), 20);
    for f in &s.fragments {
        assert_eq!(f.vertices.len(), 4);
        assert_eq!(f.indices, vec![0, 1, 2, 2, 1, 3]);
    }
    // zero thickness: all segments degenerate
    let mut z = RecordingSink::new();
    draw_ellipse_lines(&mut z, 0, 0, 40 * ONE, 20 * ONE, 0, 0, white());
    assert_eq!(z.fragment_count(), 0);
}

#[test]
fn arc_full_turn_segment_structure() {
    let mut s = RecordingSink::new();
    let (x, y, r, th) = (0, 0, 50 * ONE, 3 * ONE);
    draw_arc(&mut s, x, y, 8, r, 10 * ONE, th, DEG_360, white());
    let f = &s.fragments[0];
    assert_eq!(f.vertices.len(), 4 * 8);
    assert_eq!(f.indices.len(), 6 * 8);
    for t in 0..8u16 {
        let b = 4 * t;
        assert_eq!(
            &f.indices[6 * t as usize..6 * t as usize + 6],
            &[b, b + 1, b + 2, b + 2, b + 1, b + 3]
        );
    }
    // the end angle of segment i is the start angle of segment i + 1, so the
    // shared boundary vertices coincide exactly
    for i in 0..7usize {
        assert_eq!(f.vertices[4 * i + 2].x, f.vertices[4 * (i + 1)].x);
        assert_eq!(f.vertices[4 * i + 2].y, f.vertices[4 * (i + 1)].y);
        assert_eq!(f.vertices[4 * i + 3].x, f.vertices[4 * (i + 1) + 1].x);
        assert_eq!(f.vertices[4 * i + 3].y, f.vertices[4 * (i + 1) + 1].y);
    }
    // outer boundary points sit at radius + thickness
    assert_eq!(f.vertices[0].x, x + fx_mul(r, cos_fx(10 * ONE)));
    assert_eq!(f.vertices[1].x, x + fx_mul(r + th, cos_fx(10 * ONE)));
}

#[test]
fn arc_with_nonpositive_sweep_has_one_segment() {
    let mut s = RecordingSink::new();
    draw_arc(&mut s, 0, 0, 8, 50 * ONE, 0, ONE, -90 * ONE, white());
    let f = &s.fragments[0];
    assert_eq!(f.vertices.len(), 4);
    assert_eq!(f.indices.len(), 6);
    let mut z = RecordingSink::new();
    draw_arc(&mut z, 0, 0, 0, 50 * ONE, 0, ONE, DEG_360, white());
    assert_eq!(z.fragments[0].vertices.len(), 4);
}

#[test]
fn hexagon_fill_and_border() {
    let mut s = RecordingSink::new();
    draw_hexagon(
        &mut s,
        0,
        0,
        20 * ONE,
        2 * ONE,
        false,
        Color::from_rgba(1, 2, 3, 4),
        white(),
    );
    assert_eq!(s.fragment_count(), 2);
    assert_eq!(s.fragments[0].vertices.len(), 6 + 2);
    assert_eq!(s.fragments[1].vertices.len(), 4 * 6);
    assert_eq!(s.fragments[1].vertices[0].color, Color::from_rgba(1, 2, 3, 4));
    // no border: only the fill
    let mut nb = RecordingSink::new();
    draw_hexagon(&mut nb, 0, 0, 20 * ONE, 0, false, white(), white());
    assert_eq!(nb.fragment_count(), 1);
    // vertical orientation starts the fan a quarter turn later
    let mut v = RecordingSink::new();
    draw_hexagon(&mut v, 0, 0, 20 * ONE, 0, true, white(), white());
    let flat = &nb.fragments[0].vertices[1];
    let vert = &v.fragments[0].vertices[1];
    assert_eq!((flat.x, flat.y), (20 * ONE, 0));
    assert_eq!((vert.x, vert.y), (0, 20 * ONE));
}

#[test]
fn rectangle_ex_defaults_match_plain_rectangle() {
    let mut s = RecordingSink::new();
    let (w, h) = (10 * ONE, 20 * ONE);
    draw_rectangle_ex(&mut s, 3 * ONE, 4 * ONE, w, h, DrawRectangleParams::default());
    let f = &s.fragments[0];
    assert_eq!(f.vertices.len(), 4);
    assert_eq!(f.indices, vec![0, 1, 2, 0, 2, 3]);
    let pos: Vec<(i64, i64)> = f.vertices.iter().map(|v| (v.x, v.y)).collect();
    assert_eq!(
        pos,
        vec![
            (3 * ONE, 4 * ONE),
            (3 * ONE, 4 * ONE + h),
            (3 * ONE + w, 4 * ONE + h),
            (3 * ONE + w, 4 * ONE)
        ]
    );
    assert_eq!(f.vertices[0].color, white());
}

#[test]
fn rectangle_ex_centered_offset_pivots_on_middle() {
    let mut s = RecordingSink::new();
    let params = DrawRectangleParams {
        offset: Vec2Fx::new(ONE / 2, ONE / 2),
        rotation: 0,
        color: white(),
    };
    draw_rectangle_ex(&mut s, 0, 0, 10 * ONE, 10 * ONE, params);
    let f = &s.fragments[0];
    assert_eq!((f.vertices[0].x, f.vertices[0].y), (-5 * ONE, -5 * ONE));
    assert_eq!((f.vertices[2].x, f.vertices[2].y), (5 * ONE, 5 * ONE));
}

#[test]
fn rectangle_lines_ex_ring_counts_and_inset() {
    let mut s = RecordingSink::new();
    let params = DrawRectangleParams {
        offset: Vec2Fx::new(0, 0),
        rotation: 0,
        color: white(),
    };
    draw_rectangle_lines_ex(&mut s, 0, 0, 10 * ONE, 10 * ONE, ONE, params);
    let f = &s.fragments[0];
    assert_eq!(f.vertices.len(), 8);
    assert_eq!(
        f.indices,
        vec![0, 4, 3, 4, 3, 7, 4, 0, 1, 4, 5, 1, 1, 5, 6, 1, 6, 2, 2, 3, 6, 3, 6, 7]
    );
    assert_eq!((f.vertices[0].x, f.vertices[0].y), (0, 0));
    // thickness / width = 6553 in unit space; scaled back by the width and
    // truncated twice, the inset lands at 65530
    assert_eq!((f.vertices[4].x, f.vertices[4].y), (65530, 65530));
    // indices never reach past the vertices
    for &ix in &f.indices {
        assert!((ix as usize) < f.vertices.len());
    }
}

#[test]
fn sink_ritual_sets_texture_and_mode() {
    let mut s = RecordingSink::new();
    assert!(s.texture.is_none() && s.mode.is_none());
    draw_rectangle(&mut s, 0, 0, ONE, ONE, white());
    assert_eq!(s.texture, Some(None));
    assert!(s.mode.is_some());
}

#[test]
fn every_fragment_indexes_its_own_vertices() {
    let mut s = RecordingSink::new();
    draw_poly(&mut s, 0, 0, 255, COORD_MAX, 0, white());
    draw_arc(&mut s, 0, 0, 255, COORD_MAX, 0, COORD_MAX, DEG_360, white());
    draw_rectangle_lines(&mut s, -COORD_MAX, -COORD_MAX, COORD_MAX, COORD_MAX, 5, white());
    for f in &s.fragments {
        for &ix in &f.indices {
            assert!((ix as usize) < f.vertices.len());
        }
    }
}

#[test]
fn square_poly_has_exact_quadrant_vertices() {
    let mut s = RecordingSink::new();
    let r = 100 * ONE;
    draw_poly(&mut s, 0, 0, 4, r, 0, white());
    let f = &s.fragments[0];
    // vertices at 0, 90, 180, 270 and 360 degrees are exact
    let pos: Vec<(i64, i64)> = f.vertices.iter().map(|v| (v.x, v.y)).collect();
    assert_eq!(pos[0], (0, 0));
    assert_eq!(pos[1], (r, 0));
    assert_eq!(pos[2], (0, r));
    assert_eq!(pos[3], (-r, 0));
    assert_eq!(pos[4], (0, -r));
    assert_eq!(pos[5], (r, 0));
    // the texture coordinate is the unit direction of each vertex
    assert_eq!((f.vertices[1].u, f.vertices[1].v), (ONE, 0));
    assert_eq!((f.vertices[2].u, f.vertices[2].v), (0, ONE));
}
