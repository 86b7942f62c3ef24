use std::collections::BTreeMap;
use vstd::prelude::*;

verus! {

broadcast use {vstd::std_specs::btree::group_btree_axioms, vstd::laws_cmp::group_laws_cmp};

/// A 3D object read from a Wavefront OBJ file: its points, keyed by the order
/// in which they were read, and the point numbers of its triangles, three per
/// triangle. The type of a point is left to the caller.
#[derive(Clone)]
pub struct Obj<P> {
    points: BTreeMap<usize, P>,
    polygon_indexes: Vec<u32>,
}

impl<P> Obj<P> {
    /// The points of the object, by key.
    pub closed spec fn points(&self) -> Map<usize, P> {
        self.points@
    }

    /// The point numbers of the object's triangles, in the order they were stored.
    pub closed spec fn indexes(&self) -> Seq<u32> {
        self.polygon_indexes@
    }

    /// An object with no points and no triangles.
    pub fn empty() -> (obj: Self)
        ensures
            obj.points() == Map::<usize, P>::empty(),
            obj.indexes() == Seq::<u32>::empty(),
    {
        Obj { points: BTreeMap::new(), polygon_indexes: Vec::new() }
    }

    /// An object made of the given points and triangle indexes.
    pub fn new(points: BTreeMap<usize, P>, polygon_indexes: Vec<u32>) -> (obj: Self)
        ensures
            obj.points() == points@,
            obj.indexes() == polygon_indexes@,
    {
        Obj { points, polygon_indexes }
    }

    /// The number of points.
    pub fn map_len(&self) -> (n: usize)
        ensures
            n == self.points().len(),
    {
        self.points.len()
    }

    /// The points, by key.
    pub fn mapa(&self) -> (m: &BTreeMap<usize, P>)
        ensures
            m@ == self.points(),
    {
        &self.points
    }

    /// The point numbers of the triangles.
    pub fn polygon_indexes(&self) -> (v: &Vec<u32>)
        ensures
            v@ == self.indexes(),
    {
        &self.polygon_indexes
    }

    /// Stores `v` under the key `i`, replacing any point stored there.
    pub fn map_insert(&mut self, i: usize, v: P)
        ensures
            final(self).points() == old(self).points().insert(i, v),
            final(self).indexes() == old(self).indexes(),
    {
        self.points.insert(i, v);
    }

    /// Appends the point number `i` to the triangle indexes.
    pub fn vec_insert(&mut self, i: u32)
        ensures
            final(self).points() == old(self).points(),
            final(self).indexes() == old(self).indexes().push(i),
    {
        self.polygon_indexes.push(i);
    }
}

} // verus!
