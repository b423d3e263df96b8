//! JSON error responses: one error or a group of errors, each turned into a
//! status code, a JSON content type and a JSON body.

pub mod encode;
pub mod error;
pub mod errors;
pub mod failure;
pub mod laws;
pub mod response;
pub mod status;
pub mod text;

pub use error::{JsonError, WarningLog};
pub use errors::JsonErrors;
pub use failure::Failure;
pub use response::Response;
pub use status::Status;
