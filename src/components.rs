pub mod gpu;
pub mod name;
