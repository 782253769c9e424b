//! Conversion between the amount carried on the gateway wire and the amount
//! used by the local JSON-RPC client.
pub mod amount;
pub mod convert;
