//! Layout of a cube-sphere planet mesh: which grid vertices make up the six
//! faces, how they are numbered, and which triangles join them.

pub mod face;
pub mod grid;
pub mod planet;
