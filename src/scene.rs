//! The scene as an ordered list of (geometry, material) pairs. Geometry and
//! material are type parameters: a material value may be a shared handle, so
//! several entries can refer to one material.
use vstd::prelude::*;

verus! {

/// Geometries and their materials, index-aligned one to one, in the order in
/// which they were added.
pub struct Scene<G, M> {
    objects: Vec<G>,
    materials: Vec<M>,
}

impl<G, M> Scene<G, M> {
    /// The geometries, in the order in which they were added.
    pub closed spec fn objects(&self) -> Seq<G> {
        self.objects@
    }

    /// The materials, in the order in which they were added.
    pub closed spec fn materials(&self) -> Seq<M> {
        self.materials@
    }

    /// Each geometry has exactly one material, at the same index.
    pub open spec fn wf(&self) -> bool {
        self.objects().len() == self.materials().len()
    }

    /// A scene with no entries.
    pub fn new() -> (r: Self)
        ensures
            r.wf(),
            r.objects() == Seq::<G>::empty(),
            r.materials() == Seq::<M>::empty(),
    {
        Scene { objects: Vec::new(), materials: Vec::new() }
    }

    /// Appends `object` paired with `material`; the earlier entries stay as
    /// they were.
    pub fn add(&mut self, object: G, material: M)
        requires
            old(self).wf(),
        ensures
            final(self).wf(),
            final(self).objects() == old(self).objects().push(object),
            final(self).materials() == old(self).materials().push(material),
    {
        self.objects.push(object);
        self.materials.push(material);
    }

    /// Number of entries.
    pub fn len(&self) -> (r: usize)
        requires
            self.wf(),
        ensures
            r == self.objects().len(),
    {
        self.objects.len()
    }

    /// The geometry and the material of entry `i`.
    pub fn entry(&self, i: usize) -> (r: (&G, &M))
        requires
            self.wf(),
            i < self.objects().len(),
        ensures
            *r.0 == self.objects()[i as int],
            *r.1 == self.materials()[i as int],
    {
        (&self.objects[i], &self.materials[i])
    }
}

} // verus!
