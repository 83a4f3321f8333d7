//! Names for the two random distributions of directions that the renderer
//! uses. They carry no behaviour here: drawing from them is floating-point
//! work, done by the caller's own sampler types.
use vstd::prelude::*;

verus! {

/// Names the distribution of points inside the unit ball; no sampling.
#[derive(Debug, Clone, Copy)]
pub struct UniformInSphere;

/// Names the distribution of unit directions on the sphere; no sampling.
#[derive(Debug, Clone, Copy)]
pub struct UniformOnSphere;

} // verus!
