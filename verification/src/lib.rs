//! Metadata about a Linux or BSD distribution, as the DistroWatch catalog's
//! JSON service gives it.
//!
//! The crate holds everything about one lookup except the network exchange:
//! the address to ask ([`request_url`]) and the reading of the answer
//! ([`read_response`]), which yields a fully populated [`DistroMetadata`],
//! the absence of the distribution, or an [`Error`].

pub mod error;
pub mod fields;
pub mod json;
pub mod metadata;
pub mod response;
pub mod status;
pub mod text;

pub use error::{Error, Result};
pub use fields::ResponseFields;
pub use metadata::DistroMetadata;
pub use response::{decode, is_not_found, read_response, request_url};
pub use status::Status;
