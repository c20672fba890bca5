//! Bond-payment processing for the Pye backend: the decisions that the
//! payment daemon takes, with their contracts.

pub mod api;
pub mod daemon;
pub mod error;
pub mod solana;
pub mod text;
pub mod transfers;
