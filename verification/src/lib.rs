pub mod common_traits;
pub mod vector_2d;
