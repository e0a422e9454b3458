//! A persistent 256-bit counter with read, overwrite and increment operations,
//! modelled on plain values so that every operation carries a checked contract.

pub mod counter;
pub mod uint256;

pub use counter::Counter;
pub use uint256::Uint256;
