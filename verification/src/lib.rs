//! In-memory coordination layer for a shared, expiring access token.
//!
//! Many concurrent callers may consult the credential at once while the
//! library guarantees at most one outstanding refresh request against the
//! issuer at any time. The network exchange itself, payload decryption and
//! HTTP routing are external collaborators owned by the embedding
//! application; this crate holds the data model and the refresh decision
//! logic, with contracts checked by Verus.

pub mod cache;
pub mod credential;
pub mod error;
pub mod gate;
pub mod response;
pub mod session;
pub mod token;
pub mod user;
