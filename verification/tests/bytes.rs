use tess2d::geometry::{Color, GeometrySink, RecordingSink, Vertex};
use tess2d::shapes::draw_rectangle;
use tess2d::tobytes::{index_buffer_bytes, vertex_buffer_bytes, ToBytes};

const ONE: i64 = 65536;

#[test]
fn i64_bytes_are_little_endian() {
    let b = 0x0102_0304_0506_0708i64.to_bytes();
    assert_eq!(b, vec![0x08, 0x07, 0x06, 0x05, 0x04, 0x03, 0x02, 0x01]);
    assert_eq!((-1i64).to_bytes(), vec![0xff; 8]);
    assert_eq!(0i64.to_bytes(), vec![0; 8]);
}

#[test]
fn i32_and_u16_bytes_are_little_endian() {
    assert_eq!(0x0A0B_0C0Di32.to_bytes(), vec![0x0D, 0x0C, 0x0B, 0x0A]);
    assert_eq!((-2i32).to_bytes(), vec![0xFE, 0xFF, 0xFF, 0xFF]);
    assert_eq!(0x0102u16.to_bytes(), vec![0x02, 0x01]);
}

#[test]
fn vertex_is_forty_four_bytes_in_field_order() {
    let v = Vertex::new(ONE, 2 * ONE, 0, 3, 4, Color::from_rgba(9, 8, 7, 6));
    let b = v.to_bytes();
    assert_eq!(b.len(), 44);
    assert_eq!(&b[0..8], &[0, 0, 1, 0, 0, 0, 0, 0]);
    assert_eq!(&b[8..16], &[0, 0, 2, 0, 0, 0, 0, 0]);
    assert_eq!(&b[16..24], &[0; 8]);
    assert_eq!(b[24], 3);
    assert_eq!(b[32], 4);
    assert_eq!(&b[40..44], &[9, 8, 7, 6]);
}

#[test]
fn buffers_concatenate_their_elements() {
    let mut s = RecordingSink::new();
    draw_rectangle(&mut s, 0, 0, ONE, ONE, Color::from_rgba(1, 2, 3, 4));
    let f = &s.fragments[0];
    let vb = vertex_buffer_bytes(&f.vertices);
    assert_eq!(vb.len(), 44 * f.vertices.len());
    assert_eq!(&vb[0..44], &f.vertices[0].to_bytes()[..]);
    assert_eq!(&vb[44..88], &f.vertices[1].to_bytes()[..]);
    let ib = index_buffer_bytes(&f.indices);
    assert_eq!(ib, vec![0, 0, 1, 0, 2, 0, 0, 0, 2, 0, 3, 0]);
}
