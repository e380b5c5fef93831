//! Host functions (ICS-24): capabilities, commitment paths, block delays.
pub mod commitment;
pub mod host;
