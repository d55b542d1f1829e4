//! Request guards for the Hawk HTTP authentication scheme.
//!
//! A guard inspects the values that one request carries for a fixed header
//! name (`authorization` or `server-authorization`), requires exactly one
//! such value, recognizes the `Hawk` scheme token case-insensitively, and
//! hands the remaining credential payload to the `hawk` crate's parser.
//! Every failure is classified as [`HawkError::NoHeader`] or
//! [`HawkError::BadHawk`] together with the HTTP [`Status`] it owes.
//!
//! The guards only establish that a credential is well-formed and present;
//! no cryptographic validation is performed here.
//!
//! The external parser panics on a `ts` field whose seconds overflow the
//! range of `SystemTime`, so guard evaluation requires the header values to
//! be admissible: [`admissible_values`] decides that, and callers must test
//! it first on values they do not control.

pub mod error;
pub mod hawk_api;
pub mod header;
pub mod payload;
pub mod scheme;

pub use error::HawkError;
pub use error::Status;
pub use header::admissible_values;
pub use header::AuthorizationHeader;
pub use header::ServerAuthorizationHeader;
