//! Verified core of a PlayStation 1 SDK: GPU command encoding, packed
//! vertices, colors, linked packets, ordering tables and fixed-point math.
pub mod gpu;
pub mod graphics;
pub mod gte;
