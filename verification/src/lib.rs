//! Request-configuration model for a blockchain JSON-RPC client.
//!
//! The crate defines the typed parameter objects sent with RPC calls
//! (account-fetch configs, transaction-send options, bundle-simulation
//! configs, address-history filters) together with their two wire forms:
//! a camelCase JSON rendering that omits absent optional fields, and a
//! compact self-describing binary encoding with a proven round trip.

pub mod codec;
pub mod json;
pub mod primitives;
pub mod program_accounts;
pub mod send_transaction;
pub mod simulate_bundle;
pub mod text;
pub mod txs_for_address;
