//! Generic capability traits for common embedded serial protocols, together
//! with bit-banged engines built purely from those capabilities.
//!
//! The capability traits are meant to be used by generic device drivers and
//! implemented by actual hardware controllers; the engines here drive them in
//! software, one clock edge at a time, and carry proofs of the bit sequencing
//! they perform.

pub mod bits;
pub mod pin;
pub mod spi;
pub mod w1;
