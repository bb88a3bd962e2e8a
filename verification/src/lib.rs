//! A client for a generative text service.
//!
//! The library builds the request for a prompt and validates the response:
//! it finds the generated text in the JSON envelope, cleans it of the
//! markdown fences that models put around JSON, decodes it and holds it to
//! the command contract, `command` with `parameters` of the shape that the
//! command asks for.

pub mod decode;
pub mod error;
pub mod json;
pub mod payload;
pub mod request;
pub mod response;
pub mod text;

pub use crate::error::{ApiError, ErrorKind, ParameterShape, SchemaError};
pub use crate::json::Json;
pub use crate::request::{AiClient, INIT_MESSAGE};
pub use crate::response::handle_response;
