//! Small fixed-size linear algebra: two- and three-component vectors and a
//! 4x4 column-major matrix, generic over the scalar type.

pub mod scalar;
pub mod sqrt_trait;
pub mod vector2;
pub mod vector3;
pub mod matrix4x4;
pub mod laws;
