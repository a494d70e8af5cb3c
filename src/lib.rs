//! A keypair whose private key stays inside a trusted execution environment.
//!
//! The library rebuilds a standard P-256 public key from the raw coordinates
//! that the environment reports, chooses how each signing request is shaped,
//! turns the environment's raw answers into typed signatures and shared
//! secrets, and maps every failure at that boundary onto a closed error set.

mod codec;
mod keypair;
mod keys;
mod types;

pub use codec::{
    bytes_equal, check_coordinates, copy_range, encode_uncompressed, lemma_distinct_points,
    lemma_point_round_trip, point_coordinates, split_point,
};
pub use keypair::{Keypair, SignRequest, Tee, Variant};
pub use keys::{PublicKey, SharedSecret, Signature};
pub use types::{Error, KeyTag, KeyType, Network, TeeFault};
