//! Verified core of a wallet-keeping backend service.
//!
//! The library models the parts of the service that carry real invariants:
//! the session token codec, the per-request authentication guard, the
//! ownership-scoped wallet operations, the user account operations, and the
//! uniform error envelope. Durable state is modelled by [`store::Store`];
//! the surrounding process supplies I/O and transport.

pub mod auth;
pub mod errors;
pub mod ids;
pub mod laws;
pub mod store;
pub mod token;
pub mod users;
pub mod validated_json;
pub mod wallets;
