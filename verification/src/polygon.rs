//! A polygon of a mesh: the indices of the mesh vertices that it joins.

use vstd::prelude::*;

verus! {

/// One polygon of a model. To avoid copying vertices a polygon only stores the
/// indices of the vertices of its mesh, in the order in which they are joined.
///
/// Polygons are expected to be listed clockwise, otherwise normals cannot be built.
#[derive(Debug)]
pub struct Polygon3 {
    vertexes: Vec<usize>,
}

/// Another name for [`Polygon3`].
pub type Polygon = Polygon3;

impl View for Polygon3 {
    type V = Seq<usize>;

    closed spec fn view(&self) -> Seq<usize> {
        self.vertexes@
    }
}

impl Clone for Polygon3 {
    /// A copy of the polygon with the same vertex indices.
    fn clone(&self) -> (p: Self)
        ensures
            p@ == self@,
    {
        let mut vertexes: Vec<usize> = Vec::new();
        let mut i: usize = 0;
        while i < self.vertexes.len()
            invariant
                i <= self.vertexes@.len(),
                vertexes@ == self.vertexes@.take(i as int),
            decreases self.vertexes@.len() - i,
        {
            vertexes.push(self.vertexes[i]);
            i += 1;
            assert(vertexes@ =~= self.vertexes@.take(i as int));
        }
        assert(vertexes@ =~= self.vertexes@);
        Self { vertexes }
    }
}

impl Polygon3 {
    /// An empty polygon.
    pub fn new() -> (p: Self)
        ensures
            p@ == Seq::<usize>::empty(),
    {
        Self { vertexes: Vec::new() }
    }

    /// A triangle joining the vertices `p1`, `p2`, `p3`.
    pub fn triangle(p1: usize, p2: usize, p3: usize) -> (p: Self)
        ensures
            p@ == seq![p1, p2, p3],
    {
        let mut vertexes: Vec<usize> = Vec::new();
        vertexes.push(p1);
        vertexes.push(p2);
        vertexes.push(p3);
        Self { vertexes }
    }

    /// A polygon from a list of vertex indices.
    pub fn from_list(vertexes: &[usize]) -> (p: Self)
        ensures
            p@ == vertexes@,
    {
        Self { vertexes: vstd::slice::slice_to_vec(vertexes) }
    }

    /// A polygon that takes ownership of a vector of vertex indices.
    pub fn from_vec(vertexes: Vec<usize>) -> (p: Self)
        ensures
            p@ == vertexes@,
    {
        Self { vertexes }
    }

    /// Append a vertex to the polygon.
    pub fn add_vertex(&mut self, index: usize)
        ensures
            final(self)@ == old(self)@.push(index),
    {
        self.vertexes.push(index);
    }

    /// The number of vertices of the polygon.
    pub fn vertex_count(&self) -> (n: usize)
        ensures
            n == self@.len(),
    {
        self.vertexes.len()
    }

    /// The index in the whole mesh of the `i`-th vertex of the polygon.
    pub fn get_mesh_vertex_index(&self, i: usize) -> (index: usize)
        requires
            i < self@.len(),
        ensures
            index == self@[i as int],
    {
        self.vertexes[i]
    }

    /// Does the polygon consist of a single vertex?
    pub fn is_vertex(&self) -> (b: bool)
        ensures
            b == (self@.len() == 1),
    {
        self.vertexes.len() == 1
    }

    /// Does the polygon consist of a single edge?
    pub fn is_edge(&self) -> (b: bool)
        ensures
            b == (self@.len() == 2),
    {
        self.vertexes.len() == 2
    }

    /// Is the polygon a triangle?
    pub fn is_triangle(&self) -> (b: bool)
        ensures
            b == (self@.len() == 3),
    {
        self.vertexes.len() == 3
    }

    /// Is the polygon a quadrilateral?
    pub fn is_quad(&self) -> (b: bool)
        ensures
            b == (self@.len() == 4),
    {
        self.vertexes.len() == 4
    }

    /// Is the polygon at least a triangle, that is, does it have at least three vertices?
    pub fn is_valid(&self) -> (b: bool)
        ensures
            b == (self@.len() >= 3),
    {
        self.vertexes.len() >= 3
    }

    /// The list of vertex indices.
    pub fn get_vertexes(&self) -> (v: &Vec<usize>)
        ensures
            v@ == self@,
    {
        &self.vertexes
    }
}

} // verus!
