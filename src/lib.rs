//! A typed client core for the Unsplash JSON API: staged parameter builders,
//! query-string encoding, request assembly and response classification.

/// Endpoints of the Unsplash API.
pub mod endpoint;

/// Errors that can be raised.
pub mod error;

pub use endpoint::{me::Me, photos::Photos};
use vstd::prelude::*;

verus! {

/// Root URI of the Unsplash API.
pub const API_URL: &'static str = "https://api.unsplash.com/";

} // verus!
