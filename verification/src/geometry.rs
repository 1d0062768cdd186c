//! The vertex and index lists of a page, and the meshes that are appended to them.

use crate::coord::{Coord, Point};
use crate::MAX_CLIPPINGS;
use vstd::prelude::*;

verus! {

/// A corner of a triangle: where it is, its packed RGBA colour, and the clip layer it is
/// drawn in.
#[derive(Debug, Clone, Copy, PartialEq, Eq, Structural)]
pub struct Vertex {
    pub position: Point,
    pub color: u32,
    pub layer: u32,
}

/// A circle, drawn from its distance field.
#[derive(Debug, Clone, Copy, PartialEq, Eq, Structural)]
pub struct SDFInstance {
    pub center: Point,
    pub radius: Coord,
    pub stroke_width: Coord,
    pub fill_color: u32,
    pub stroke_color: u32,
}

/// What a tessellator hands back: positions, and triangles as indices into them.
#[derive(Debug, Clone, PartialEq, Eq)]
pub struct Mesh {
    pub positions: Vec<Point>,
    pub indices: Vec<u32>,
}

/// Why a mesh was not appended.
#[derive(Debug, Clone, Copy, PartialEq, Eq, Structural)]
pub enum GeometryError {
    /// An index of the mesh names no position of it.
    IndexOutOfRange,
    /// With the mesh, the page would hold more vertices or indices than a 32-bit index or
    /// count can address.
    TooLarge,
}

/// Every index names a position.
pub open spec fn indices_in_range(indices: Seq<u32>, n: nat) -> bool {
    forall|i: int| 0 <= i < indices.len() ==> (#[trigger] indices[i]) < n
}

/// The positions as vertices of one colour and layer.
pub open spec fn stamped(positions: Seq<Point>, color: u32, layer: u32) -> Seq<Vertex> {
    positions.map_values(|p: Point| Vertex { position: p, color, layer })
}

/// The indices moved up by `base`, the number of vertices that come before the mesh.
pub open spec fn shifted(indices: Seq<u32>, base: nat) -> Seq<u32> {
    indices.map_values(|i: u32| (i + base) as u32)
}

impl Mesh {
    pub open spec fn wf(&self) -> bool {
        indices_in_range(self.indices@, self.positions@.len())
    }

    /// Whether every index names a position of the mesh.
    pub fn is_valid(&self) -> (ok: bool)
        ensures
            ok == self.wf(),
    {
        let n = self.positions.len();
        let mut i: usize = 0;
        while i < self.indices.len()
            invariant
                i <= self.indices.len(),
                n == self.positions.len(),
                forall|j: int| 0 <= j < i ==> (#[trigger] self.indices@[j]) < n,
            decreases self.indices.len() - i,
        {
            if self.indices[i] as usize >= n {
                return false;
            }
            i = i + 1;
        }
        true
    }
}

/// The vertices and indices drawn on one page.
pub struct GeometryBuffer {
    vertices: Vec<Vertex>,
    indices: Vec<u32>,
}

impl GeometryBuffer {
    pub closed spec fn vertices(&self) -> Seq<Vertex> {
        self.vertices@
    }

    pub closed spec fn indices(&self) -> Seq<u32> {
        self.indices@
    }

    /// Every index names a vertex, every vertex lies in a layer of the clip table, and both
    /// lists can be addressed with 32 bits.
    pub open spec fn wf(&self) -> bool {
        &&& indices_in_range(self.indices(), self.vertices().len())
        &&& forall|i: int|
            0 <= i < self.vertices().len() ==> (#[trigger] self.vertices()[i]).layer
                < MAX_CLIPPINGS
        &&& self.vertices().len() <= u32::MAX
        &&& self.indices().len() <= u32::MAX
    }

    /// The mesh can be appended without a vertex or index count leaving 32 bits.
    pub open spec fn fits(&self, mesh: &Mesh) -> bool {
        &&& self.vertices().len() + mesh.positions@.len() <= u32::MAX
        &&& self.indices().len() + mesh.indices@.len() <= u32::MAX
    }

    pub fn new() -> (g: Self)
        ensures
            g.vertices() == Seq::<Vertex>::empty(),
            g.indices() == Seq::<u32>::empty(),
            g.wf(),
    {
        GeometryBuffer { vertices: Vec::new(), indices: Vec::new() }
    }

    pub fn vertex_count(&self) -> (n: usize)
        ensures
            n == self.vertices().len(),
    {
        self.vertices.len()
    }

    pub fn index_count(&self) -> (n: usize)
        ensures
            n == self.indices().len(),
    {
        self.indices.len()
    }

    pub fn vertex_list(&self) -> (v: &Vec<Vertex>)
        ensures
            v@ == self.vertices(),
    {
        &self.vertices
    }

    pub fn index_list(&self) -> (v: &Vec<u32>)
        ensures
            v@ == self.indices(),
    {
        &self.indices
    }

    /// Appends the mesh: its positions become vertices of the given colour and layer, its
    /// indices are moved up by the number of vertices that were there before. Returns the
    /// number of indices added. A mesh that is refused leaves the buffer as it was.
    pub fn append(&mut self, mesh: &Mesh, color: u32, layer: u32) -> (r: Result<
        u32,
        GeometryError,
    >)
        requires
            old(self).wf(),
            layer < MAX_CLIPPINGS,
        ensures
            final(self).wf(),
            match r {
                Ok(n) => {
                    &&& mesh.wf()
                    &&& old(self).fits(mesh)
                    &&& n == mesh.indices@.len()
                    &&& final(self).vertices() == old(self).vertices() + stamped(
                        mesh.positions@,
                        color,
                        layer,
                    )
                    &&& final(self).indices() == old(self).indices() + shifted(
                        mesh.indices@,
                        old(self).vertices().len(),
                    )
                },
                Err(GeometryError::IndexOutOfRange) => {
                    &&& !mesh.wf()
                    &&& final(self).vertices() == old(self).vertices()
                    &&& final(self).indices() == old(self).indices()
                },
                Err(GeometryError::TooLarge) => {
                    &&& mesh.wf()
                    &&& !old(self).fits(mesh)
                    &&& final(self).vertices() == old(self).vertices()
                    &&& final(self).indices() == old(self).indices()
                },
            },
    {
        if !mesh.is_valid() {
            return Err(GeometryError::IndexOutOfRange);
        }
        let limit: usize = u32::MAX as usize;
        let base = self.vertices.len();
        let start = self.indices.len();
        if mesh.positions.len() > limit - base || mesh.indices.len() > limit - start {
            return Err(GeometryError::TooLarge);
        }
        let mut i: usize = 0;
        while i < mesh.positions.len()
            invariant
                i <= mesh.positions.len(),
                layer < MAX_CLIPPINGS,
                self.indices@ == old(self).indices@,
                self.vertices@ == old(self).vertices@ + stamped(
                    mesh.positions@.take(i as int),
                    color,
                    layer,
                ),
            decreases mesh.positions.len() - i,
        {
            self.vertices.push(Vertex { position: mesh.positions[i], color, layer });
            i = i + 1;
            assert(self.vertices@ == old(self).vertices@ + stamped(
                mesh.positions@.take(i as int),
                color,
                layer,
            ));
        }
        assert(mesh.positions@.take(i as int) == mesh.positions@);
        let mut j: usize = 0;
        while j < mesh.indices.len()
            invariant
                j <= mesh.indices.len(),
                mesh.wf(),
                base == old(self).vertices@.len(),
                base + mesh.positions@.len() <= u32::MAX,
                self.vertices@ == old(self).vertices@ + stamped(mesh.positions@, color, layer),
                self.indices@ == old(self).indices@ + shifted(
                    mesh.indices@.take(j as int),
                    base as nat,
                ),
            decreases mesh.indices.len() - j,
        {
            self.indices.push(mesh.indices[j] + base as u32);
            j = j + 1;
            assert(self.indices@ == old(self).indices@ + shifted(
                mesh.indices@.take(j as int),
                base as nat,
            ));
        }
        assert(mesh.indices@.take(j as int) == mesh.indices@);
        Ok(mesh.indices.len() as u32)
    }

    /// Hands out the vertices and indices and leaves the buffer empty.
    pub fn take(&mut self) -> (lists: (Vec<Vertex>, Vec<u32>))
        ensures
            lists.0@ == old(self).vertices(),
            lists.1@ == old(self).indices(),
            final(self).vertices() == Seq::<Vertex>::empty(),
            final(self).indices() == Seq::<u32>::empty(),
            final(self).wf(),
    {
        let mut vertices = Vec::new();
        let mut indices = Vec::new();
        std::mem::swap(&mut vertices, &mut self.vertices);
        std::mem::swap(&mut indices, &mut self.indices);
        (vertices, indices)
    }
}

} // verus!
