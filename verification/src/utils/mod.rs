pub mod bits;
pub mod ops;
pub mod collections;
pub mod text;
