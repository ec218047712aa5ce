//! Byte serialization of geometry for upload to a GPU buffer.
//!
//! Every field is laid out little-endian in declaration order, with no
//! padding: a `Vertex` is its five 8-byte fixed-point fields `x, y, z, u, v`
//! followed by the four color channels `r, g, b, a`, 44 bytes in all; an
//! index is 2 bytes. Buffers are the concatenation of their elements.

use vstd::prelude::*;
use crate::geometry::{Color, Vertex};

verus! {

/// The eight little-endian bytes of a 64-bit value.
pub open spec fn u64_le_bytes(v: u64) -> Seq<u8> {
    seq![
        (v & 0xff) as u8,
        ((v >> 8) & 0xff) as u8,
        ((v >> 16) & 0xff) as u8,
        ((v >> 24) & 0xff) as u8,
        ((v >> 32) & 0xff) as u8,
        ((v >> 40) & 0xff) as u8,
        ((v >> 48) & 0xff) as u8,
        ((v >> 56) & 0xff) as u8,
    ]
}

/// The little-endian bytes of a fixed-point scalar: its two's complement
/// 64-bit pattern.
pub open spec fn i64_le_bytes(v: i64) -> Seq<u8> {
    u64_le_bytes(v as u64)
}

/// The four little-endian bytes of a 32-bit integer's two's complement
/// pattern.
pub open spec fn i32_le_bytes(v: i32) -> Seq<u8> {
    seq![
        ((v as u32) & 0xff) as u8,
        (((v as u32) >> 8) & 0xff) as u8,
        (((v as u32) >> 16) & 0xff) as u8,
        (((v as u32) >> 24) & 0xff) as u8,
    ]
}

/// The two little-endian bytes of a 16-bit index.
pub open spec fn u16_le_bytes(v: u16) -> Seq<u8> {
    seq![(v & 0xff) as u8, ((v >> 8) & 0xff) as u8]
}

/// Conversion of a value to the exact byte sequence the renderer uploads.
pub trait ToBytes {
    /// The byte layout of the value.
    spec fn byte_view(&self) -> Seq<u8>;

    /// The value's bytes, exactly `byte_view`.
    fn to_bytes(&self) -> (r: Vec<u8>)
        ensures
            r@ == self.byte_view(),
    ;
}

impl ToBytes for i32 {
    open spec fn byte_view(&self) -> Seq<u8> {
        i32_le_bytes(*self)
    }

    fn to_bytes(&self) -> (r: Vec<u8>) {
        let u: u32 = #[verifier::truncate] (*self as u32);
        let r: Vec<u8> = vec![
            (u & 0xff) as u8,
            ((u >> 8) & 0xff) as u8,
            ((u >> 16) & 0xff) as u8,
            ((u >> 24) & 0xff) as u8,
        ];
        proof {
            assert(r@ =~= i32_le_bytes(*self));
        }
        r
    }
}

impl ToBytes for i64 {
    open spec fn byte_view(&self) -> Seq<u8> {
        i64_le_bytes(*self)
    }

    fn to_bytes(&self) -> (r: Vec<u8>) {
        let u: u64 = #[verifier::truncate] (*self as u64);
        let r: Vec<u8> = vec![
            (u & 0xff) as u8,
            ((u >> 8) & 0xff) as u8,
            ((u >> 16) & 0xff) as u8,
            ((u >> 24) & 0xff) as u8,
            ((u >> 32) & 0xff) as u8,
            ((u >> 40) & 0xff) as u8,
            ((u >> 48) & 0xff) as u8,
            ((u >> 56) & 0xff) as u8,
        ];
        proof {
            assert(r@ =~= i64_le_bytes(*self));
        }
        r
    }
}

impl ToBytes for u16 {
    open spec fn byte_view(&self) -> Seq<u8> {
        u16_le_bytes(*self)
    }

    fn to_bytes(&self) -> (r: Vec<u8>) {
        let r: Vec<u8> = vec![(*self & 0xff) as u8, ((*self >> 8) & 0xff) as u8];
        proof {
            assert(r@ =~= u16_le_bytes(*self));
        }
        r
    }
}

impl ToBytes for Color {
    open spec fn byte_view(&self) -> Seq<u8> {
        seq![self.r, self.g, self.b, self.a]
    }

    fn to_bytes(&self) -> (r: Vec<u8>) {
        let r: Vec<u8> = vec![self.r, self.g, self.b, self.a];
        proof {
            assert(r@ =~= self.byte_view());
        }
        r
    }
}

impl ToBytes for Vertex {
    open spec fn byte_view(&self) -> Seq<u8> {
        i64_le_bytes(self.x) + i64_le_bytes(self.y) + i64_le_bytes(self.z) + i64_le_bytes(self.u)
            + i64_le_bytes(self.v) + seq![self.color.r, self.color.g, self.color.b, self.color.a]
    }

    fn to_bytes(&self) -> (r: Vec<u8>) {
        let mut r: Vec<u8> = self.x.to_bytes();
        let mut by: Vec<u8> = self.y.to_bytes();
        let mut bz: Vec<u8> = self.z.to_bytes();
        let mut bu: Vec<u8> = self.u.to_bytes();
        let mut bv: Vec<u8> = self.v.to_bytes();
        let mut bc: Vec<u8> = self.color.to_bytes();
        r.append(&mut by);
        r.append(&mut bz);
        r.append(&mut bu);
        r.append(&mut bv);
        r.append(&mut bc);
        proof {
            assert(r@ =~= self.byte_view());
        }
        r
    }
}

/// The concatenated byte layout of a vertex buffer.
pub open spec fn vertices_bytes(s: Seq<Vertex>) -> Seq<u8>
    decreases s.len(),
{
    if s.len() == 0 {
        Seq::empty()
    } else {
        vertices_bytes(s.drop_last()) + s.last().byte_view()
    }
}

/// The concatenated byte layout of an index buffer.
pub open spec fn indices_bytes(s: Seq<u16>) -> Seq<u8>
    decreases s.len(),
{
    if s.len() == 0 {
        Seq::empty()
    } else {
        indices_bytes(s.drop_last()) + u16_le_bytes(s.last())
    }
}

/// Serializes a vertex buffer: 44 bytes per vertex, in order.
pub fn vertex_buffer_bytes(vs: &Vec<Vertex>) -> (r: Vec<u8>)
    ensures
        r@ == vertices_bytes(vs@),
{
    let mut r: Vec<u8> = Vec::new();
    let mut i: usize = 0;
    proof {
        assert(vs@.take(0) =~= Seq::<Vertex>::empty());
        assert(r@ =~= vertices_bytes(vs@.take(0)));
    }
    while i < vs.len()
        invariant
            i <= vs.len(),
            r@ == vertices_bytes(vs@.take(i as int)),
        decreases vs.len() - i,
    {
        let mut b: Vec<u8> = vs[i].to_bytes();
        r.append(&mut b);
        proof {
            assert(vs@.take(i as int + 1).drop_last() =~= vs@.take(i as int));
            assert(vs@.take(i as int + 1).last() == vs@[i as int]);
        }
        i = i + 1;
    }
    proof {
        assert(vs@.take(vs@.len() as int) =~= vs@);
    }
    r
}

/// Serializes an index buffer: 2 bytes per index, in order.
pub fn index_buffer_bytes(is: &Vec<u16>) -> (r: Vec<u8>)
    ensures
        r@ == indices_bytes(is@),
{
    let mut r: Vec<u8> = Vec::new();
    let mut i: usize = 0;
    proof {
        assert(is@.take(0) =~= Seq::<u16>::empty());
        assert(r@ =~= indices_bytes(is@.take(0)));
    }
    while i < is.len()
        invariant
            i <= is.len(),
            r@ == indices_bytes(is@.take(i as int)),
        decreases is.len() - i,
    {
        let mut b: Vec<u8> = is[i].to_bytes();
        r.append(&mut b);
        proof {
            assert(is@.take(i as int + 1).drop_last() =~= is@.take(i as int));
            assert(is@.take(i as int + 1).last() == is@[i as int]);
        }
        i = i + 1;
    }
    proof {
        assert(is@.take(is@.len() as int) =~= is@);
    }
    r
}

} // verus!
