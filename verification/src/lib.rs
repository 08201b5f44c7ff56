//! Verified core of the Tenzro Network command-line client.

pub mod text;
pub mod json;
pub mod hex;
pub mod report;
pub mod escrow;
pub mod zk;
pub mod quantity;
pub mod node;
pub mod inference;
pub mod curve;
pub mod ceremony;
