//! Typed building blocks for a client of the Dune Analytics query API:
//! query parameters, the execution status lifecycle, response shapes and
//! the error taxonomy, each with a machine-checked contract.

pub mod error;
pub mod lifecycle;
pub mod parameters;
pub mod parse_utils;
pub mod request;
pub mod response;
pub mod text;

pub use error::DuneRequestError;
pub use parameters::Parameter;
pub use response::{ExecutionStatus, GetResultResponse};
