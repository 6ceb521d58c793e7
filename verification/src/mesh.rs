//! The topology of a mesh: how many vertices it has and which of them each of its
//! polygons joins. Every polygon names only vertices of the mesh.

use vstd::prelude::*;
use crate::obj::polygons_view;
use crate::polygon::Polygon3;
use crate::topology::{indices_within, polygons_within};

verus! {

/// The vertex count and the polygons of a mesh, with the guarantee that every
/// polygon names only vertices below the vertex count.
#[derive(Debug)]
pub struct MeshTopology {
    vertex_count: usize,
    polygons: Vec<Polygon3>,
}

impl View for MeshTopology {
    type V = (nat, Seq<Seq<usize>>);

    closed spec fn view(&self) -> (nat, Seq<Seq<usize>>) {
        (self.vertex_count as nat, polygons_view(self.polygons@))
    }
}

impl MeshTopology {
    #[verifier::type_invariant]
    spec fn well_formed(self) -> bool {
        polygons_within(polygons_view(self.polygons@), self.vertex_count as nat)
    }

    /// A mesh of `vertex_count` vertices and the given polygons, which must name
    /// only existing vertices.
    pub fn from_polygons(vertex_count: usize, polygons: Vec<Polygon3>) -> (m: Self)
        requires
            polygons_within(polygons_view(polygons@), vertex_count as nat),
        ensures
            m@ == (vertex_count as nat, polygons_view(polygons@)),
    {
        MeshTopology { vertex_count, polygons }
    }

    /// The number of vertices.
    pub fn vertex_count(&self) -> (n: usize)
        ensures
            n == self@.0,
    {
        self.vertex_count
    }

    /// The number of polygons.
    pub fn polygon_count(&self) -> (n: usize)
        ensures
            n == self@.1.len(),
    {
        self.polygons.len()
    }

    /// Polygon `i`; each of its indices names a vertex of the mesh.
    pub fn get_polygon(&self, i: usize) -> (p: &Polygon3)
        requires
            i < self@.1.len(),
        ensures
            p@ == self@.1[i as int],
            indices_within(p@, self@.0),
    {
        proof {
            use_type_invariant(self);
        }
        &self.polygons[i]
    }

    /// All polygons, in order; they name only vertices of the mesh.
    pub fn get_polygons(&self) -> (ps: &Vec<Polygon3>)
        ensures
            polygons_view(ps@) == self@.1,
            polygons_within(self@.1, self@.0),
    {
        proof {
            use_type_invariant(self);
        }
        &self.polygons
    }
}

} // verus!
