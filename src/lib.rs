//! A four-dimensional slicing kernel: primitives of up to four vertices are
//! cut by a moving hyperplane, and what survives is laid out as triangle
//! lists for a rasterizer.
//!
//! The library works on the combinatorial side of that job.  Where a vertex
//! lies with respect to the hyperplane is handed in as a [`clip::Side`]; the
//! clipper decides from those sides alone which primitive survives and of
//! which corners and edge crossings it is made.  Coordinates, colours and
//! the interpolation between them belong to the caller.
//!
//! - [`primitive`]: the primitives, generic over what a vertex is.
//! - [`clip`]: the clipper, by cases on the hits of a primitive's edges.
//! - [`clip_laws`]: what the clipper does on whole families of inputs, and
//!   exactly which side patterns it has no rule for.
//! - [`mesh`]: the layout of clipped primitives as indexed triangle lists,
//!   and the vertex and index buffers they are gathered into.
//! - [`transform`]: the stack of accumulated transforms of a scene.
//! - [`scene`]: cubes and tesseracts cut into tetrahedra.
//! - [`level`]: the level file format.

pub mod primitive;
pub mod clip;
pub mod clip_laws;
pub mod mesh;
pub mod transform;
pub mod scene;
pub mod level;
