//! Verified core of a small directory service that keeps people and their
//! social handles, schools and friend edges in a graph-shaped store.
//!
//! The store itself and the HTTP transport sit outside this crate; everything
//! that decides, builds, patches, encodes or decodes a record lives here, with
//! contracts.

pub mod endpoints;
pub mod errors;
pub mod model;
pub mod numeric;
pub mod patch;
pub mod query;
pub mod text;
pub mod json;
pub mod codec;
pub mod commit;
pub mod index;
pub mod qs;
pub mod ws;
