//! A sans-I/O core for a Gopher-style client: address normalisation,
//! request framing and the decisions of a fetch with fallback over
//! several resolved addresses.

pub mod decimal;
pub mod error;
pub mod fetch;
pub mod networking;
pub mod request;
