//! The adapter drivers built on this layer.

pub mod i801;
pub mod probe;
pub mod sample;
pub mod sis96x;
