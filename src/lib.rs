//! Sector sealing and attestation support: the sector-size tables and tree shapes,
//! byte-amount arithmetic and bit-padding of sector data, piece validation, reading
//! a byte range back out of an unsealed sector, the location and checking of cache
//! stores, the sector data buffer, proof-of-spacetime parameters and fault
//! collection, and the decisions of the priority-proving harness.

pub mod bytes_amount;
pub mod constants;
pub mod data;
pub mod fr32;
pub mod harness;
pub mod pieces;
pub mod post;
pub mod shape;
pub mod store;
pub mod text;
pub mod unseal;
