//! Vertices, mesh fragments and the renderer sink interface.
//!
//! A tessellation call produces one mesh fragment: an ordered list of
//! vertices and an ordered list of 16-bit indices in triangle-list topology.
//! The fragment is handed to a `GeometrySink`, whose contract records every
//! pushed fragment in order; `RecordingSink` is the library's own sink, used
//! to observe the produced geometry.

use vstd::prelude::*;

verus! {

/// An opaque color with four 8-bit channels.
#[derive(Clone, Copy, PartialEq, Eq, Structural, Debug)]
pub struct Color {
    pub r: u8,
    pub g: u8,
    pub b: u8,
    pub a: u8,
}

impl Color {
    /// Builds a color from its four channels.
    pub fn from_rgba(r: u8, g: u8, b: u8, a: u8) -> (c: Color)
        ensures
            c == (Color { r, g, b, a }),
    {
        Color { r, g, b, a }
    }
}

/// A two-component fixed-point vector.
#[derive(Clone, Copy, PartialEq, Eq, Structural, Debug)]
pub struct Vec2Fx {
    pub x: i64,
    pub y: i64,
}

impl Vec2Fx {
    /// Builds a vector from its components.
    pub fn new(x: i64, y: i64) -> (v: Vec2Fx)
        ensures
            v == (Vec2Fx { x, y }),
    {
        Vec2Fx { x, y }
    }
}

/// One mesh vertex: fixed-point position, texture coordinate and color.
/// `z` is always zero for 2D shapes.
#[derive(Clone, Copy, PartialEq, Eq, Structural, Debug)]
pub struct Vertex {
    pub x: i64,
    pub y: i64,
    pub z: i64,
    pub u: i64,
    pub v: i64,
    pub color: Color,
}

impl Vertex {
    /// Builds a vertex from its fields.
    pub fn new(x: i64, y: i64, z: i64, u: i64, v: i64, color: Color) -> (vt: Vertex)
        ensures
            vt == (Vertex { x, y, z, u, v, color }),
    {
        Vertex { x, y, z, u, v, color }
    }
}

/// The primitive topology a sink assembles; this library always uses
/// triangle lists.
#[derive(Clone, Copy, PartialEq, Eq, Structural, Debug)]
pub enum DrawMode {
    Triangles,
}

/// One tessellation result: vertices plus triangle-list indices.
pub struct MeshFragment {
    pub vertices: Vec<Vertex>,
    pub indices: Vec<u16>,
}

impl MeshFragment {
    /// The fragment as a pair of sequences.
    pub open spec fn frag(&self) -> (Seq<Vertex>, Seq<u16>) {
        (self.vertices@, self.indices@)
    }
}

/// Every index of the fragment points at one of its vertices.
pub open spec fn frag_wf(f: (Seq<Vertex>, Seq<u16>)) -> bool {
    forall|k: int| 0 <= k < f.1.len() ==> (#[trigger] f.1[k] as int) < f.0.len()
}

/// The renderer sink: the narrow interface every tessellation call drives.
///
/// A sink carries a current texture, a current draw mode, and the ordered
/// batch of fragments pushed so far. The shape functions always select no
/// texture and triangle-list mode before pushing.
pub trait GeometrySink: Sized {
    /// The currently selected texture, if one was ever set.
    spec fn cur_texture(&self) -> Option<Option<u32>>;

    /// The currently selected draw mode, if one was ever set.
    spec fn cur_mode(&self) -> Option<DrawMode>;

    /// Every fragment pushed so far, oldest first.
    spec fn batched(&self) -> Seq<(Seq<Vertex>, Seq<u16>)>;

    /// Selects the texture for the fragments that follow.
    fn set_texture(&mut self, texture: Option<u32>)
        ensures
            final(self).cur_texture() == Some(texture),
            final(self).cur_mode() == old(self).cur_mode(),
            final(self).batched() == old(self).batched(),
    ;

    /// Selects the draw mode for the fragments that follow.
    fn set_draw_mode(&mut self, mode: DrawMode)
        ensures
            final(self).cur_texture() == old(self).cur_texture(),
            final(self).cur_mode() == Some(mode),
            final(self).batched() == old(self).batched(),
    ;

    /// Appends one fragment to the pending batch. Every index must point at
    /// one of the fragment's vertices.
    fn push_geometry(&mut self, vertices: Vec<Vertex>, indices: Vec<u16>)
        requires
            frag_wf((vertices@, indices@)),
        ensures
            final(self).cur_texture() == old(self).cur_texture(),
            final(self).cur_mode() == old(self).cur_mode(),
            final(self).batched() == old(self).batched().push((vertices@, indices@)),
    ;
}

/// A sink that keeps everything it is handed: the state of the texture and
/// draw-mode selectors and the ordered list of pushed fragments.
pub struct RecordingSink {
    pub texture: Option<Option<u32>>,
    pub mode: Option<DrawMode>,
    pub fragments: Vec<MeshFragment>,
}

impl RecordingSink {
    /// An empty sink with nothing selected and nothing batched.
    pub fn new() -> (s: RecordingSink)
        ensures
            s.cur_texture() is None,
            s.cur_mode() is None,
            s.batched() == Seq::<(Seq<Vertex>, Seq<u16>)>::empty(),
    {
        let s = RecordingSink { texture: None, mode: None, fragments: Vec::new() };
        proof {
            assert(s.batched() =~= Seq::<(Seq<Vertex>, Seq<u16>)>::empty());
        }
        s
    }

    /// How many fragments were pushed.
    pub fn fragment_count(&self) -> (n: usize)
        ensures
            n == self.batched().len(),
    {
        self.fragments.len()
    }
}

impl GeometrySink for RecordingSink {
    open spec fn cur_texture(&self) -> Option<Option<u32>> {
        self.texture
    }

    open spec fn cur_mode(&self) -> Option<DrawMode> {
        self.mode
    }

    open spec fn batched(&self) -> Seq<(Seq<Vertex>, Seq<u16>)> {
        self.fragments@.map(|i: int, f: MeshFragment| f.frag())
    }

    fn set_texture(&mut self, texture: Option<u32>) {
        self.texture = Some(texture);
        proof {
            assert(self.batched() =~= old(self).batched());
        }
    }

    fn set_draw_mode(&mut self, mode: DrawMode) {
        self.mode = Some(mode);
        proof {
            assert(self.batched() =~= old(self).batched());
        }
    }

    fn push_geometry(&mut self, vertices: Vec<Vertex>, indices: Vec<u16>) {
        self.fragments.push(MeshFragment { vertices, indices });
        proof {
            assert(self.batched() =~= old(self).batched().push(
                (self.fragments@.last().vertices@, self.fragments@.last().indices@),
            ));
        }
    }
}

} // verus!
