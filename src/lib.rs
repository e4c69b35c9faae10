//! An escrow auction engine: items backed by deposited tokens are sold to
//! the highest bidder, with outbid parties refunded and a commission taken
//! at settlement. Every operation is a state transition over the registry
//! that returns the transfers the host has to carry out.

pub mod types;
pub mod auction;
pub mod laws;
