//! I2C subsystem: adapters, algorithms, clients and their flags, modelled over plain values.

pub mod error;
pub mod flags;
pub mod adapter;
pub mod algo;
pub mod client;
pub mod cstr;
pub mod drivers;
