//! Integer vector math for a small rendering toolkit.
//!
//! The library provides a two-component integer vector with component-wise
//! arithmetic, scaling, a dot product, and a component-wise partial order,
//! together with the index arithmetic used when vertex buffers are appended.

pub mod ivec;
pub mod vertex;

pub use ivec::Floor;
pub use ivec::IVec2;
pub use ivec::ivec2;
