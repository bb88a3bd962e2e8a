use vstd::prelude::*;
use vstd::string::StringExecFns;

verus! {

/// The two shapes that the parameters of a command can be asked to have.
#[derive(Debug, Clone, Copy, PartialEq, Eq, Structural)]
pub enum ParameterShape {
    Object,
    Array,
}

/// Why a cleaned text is no command payload.
#[derive(Debug, Clone, PartialEq, Eq)]
pub enum SchemaError {
    /// The text is no JSON document.
    InvalidJson,
    /// The payload is no object, or its `command` is no string.
    MissingFields,
    /// The parameters do not have the shape that the command asks for.
    WrongParameterShape { expected: ParameterShape },
    /// The command is none of the known ones.
    UnknownCommand { value: String },
}

/// The model of a `SchemaError`.
pub enum SchemaErrorView {
    InvalidJson,
    MissingFields,
    WrongParameterShape { expected: ParameterShape },
    UnknownCommand { value: Seq<char> },
}

impl View for SchemaError {
    type V = SchemaErrorView;

    open spec fn view(&self) -> SchemaErrorView {
        match self {
            SchemaError::InvalidJson => SchemaErrorView::InvalidJson,
            SchemaError::MissingFields => SchemaErrorView::MissingFields,
            SchemaError::WrongParameterShape { expected } => SchemaErrorView::WrongParameterShape {
                expected: *expected,
            },
            SchemaError::UnknownCommand { value } => SchemaErrorView::UnknownCommand {
                value: value@,
            },
        }
    }
}

/// Why a response was turned down.
#[derive(Debug, Clone, PartialEq, Eq)]
pub enum ErrorKind {
    /// The server answered with a status outside the success class.
    Http,
    /// The body of the response is no JSON document.
    EnvelopeDecode,
    /// The envelope holds no text at `candidates[0].content.parts[0].text`.
    Extraction,
    /// The generated text, once cleaned, is no command payload.
    Schema(SchemaError),
}

/// The model of an `ErrorKind`.
pub enum ErrorKindView {
    Http,
    EnvelopeDecode,
    Extraction,
    Schema(SchemaErrorView),
}

impl View for ErrorKind {
    type V = ErrorKindView;

    open spec fn view(&self) -> ErrorKindView {
        match self {
            ErrorKind::Http => ErrorKindView::Http,
            ErrorKind::EnvelopeDecode => ErrorKindView::EnvelopeDecode,
            ErrorKind::Extraction => ErrorKindView::Extraction,
            ErrorKind::Schema(fault) => ErrorKindView::Schema(fault@),
        }
    }
}

/// A response that was turned down: the status it came with, the reason,
/// and a message for the reader.
#[derive(Debug, Clone, PartialEq, Eq)]
pub struct ApiError {
    pub status: u16,
    pub kind: ErrorKind,
    pub message: String,
}

/// The model of an `ApiError`.
pub struct ApiErrorView {
    pub status: u16,
    pub kind: ErrorKindView,
    pub message: Seq<char>,
}

impl View for ApiError {
    type V = ApiErrorView;

    open spec fn view(&self) -> ApiErrorView {
        ApiErrorView { status: self.status, kind: self.kind@, message: self.message@ }
    }
}

/// The message that stands for the body of a response that could not be read.
pub const UNREADABLE_BODY: &'static str = "Error reading response";

/// The message of the error for an envelope that carries no text.
pub const EXTRACTION_MESSAGE: &'static str = "Failed to extract text from response";

/// What goes before the words of the decoder in the message for a text
/// that is no JSON.
pub const INVALID_JSON_PREFIX: &'static str = "Invalid JSON in response: ";

/// The message for a payload without a `command` string.
pub const MISSING_FIELDS_MESSAGE: &'static str = "Response JSON missing required fields";

/// The message for parameters that should have been an object.
pub const OBJECT_EXPECTED_MESSAGE: &'static str = "Single parameters must be an object";

/// The message for parameters that should have been an array.
pub const ARRAY_EXPECTED_MESSAGE: &'static str = "Multiple parameters must be an array";

/// What goes before the command in the message for an unknown command.
pub const UNKNOWN_COMMAND_PREFIX: &'static str = "Unknown command: ";

/// The message that goes with a schema error. `detail` is what the decoder
/// said; it is used where the text is no JSON.
pub open spec fn schema_message(fault: SchemaErrorView, detail: Seq<char>) -> Seq<char> {
    match fault {
        SchemaErrorView::InvalidJson => INVALID_JSON_PREFIX@ + detail,
        SchemaErrorView::MissingFields => MISSING_FIELDS_MESSAGE@,
        SchemaErrorView::WrongParameterShape { expected } => match expected {
            ParameterShape::Object => OBJECT_EXPECTED_MESSAGE@,
            ParameterShape::Array => ARRAY_EXPECTED_MESSAGE@,
        },
        SchemaErrorView::UnknownCommand { value } => UNKNOWN_COMMAND_PREFIX@ + value,
    }
}

/// The message that goes with a reason. `detail` is the body of the
/// response or what the decoder said; it is used where the reason calls for it.
pub open spec fn message_for(kind: ErrorKindView, detail: Seq<char>) -> Seq<char> {
    match kind {
        ErrorKindView::Http => detail,
        ErrorKindView::EnvelopeDecode => detail,
        ErrorKindView::Extraction => EXTRACTION_MESSAGE@,
        ErrorKindView::Schema(fault) => schema_message(fault, detail),
    }
}

/// The text that stands for the body of a response: the body itself, or
/// `UNREADABLE_BODY` where it could not be read.
pub open spec fn body_text(body: Option<String>) -> Seq<char> {
    match body {
        Some(text) => text@,
        None => UNREADABLE_BODY@,
    }
}

/// The error for a reason, with the message that goes with it.
pub open spec fn error_for(status: u16, kind: ErrorKindView, detail: Seq<char>) -> ApiErrorView {
    ApiErrorView { status, kind, message: message_for(kind, detail) }
}

impl ApiError {
    /// Builds the error for `kind`, with the message that goes with it.
    pub fn new(status: u16, kind: ErrorKind, detail: &str) -> (error: ApiError)
        ensures
            error@ == error_for(status, kind@, detail@),
    {
        let message = match &kind {
            ErrorKind::Http => detail.to_owned(),
            ErrorKind::EnvelopeDecode => detail.to_owned(),
            ErrorKind::Extraction => EXTRACTION_MESSAGE.to_owned(),
            ErrorKind::Schema(fault) => match fault {
                SchemaError::InvalidJson => INVALID_JSON_PREFIX.to_owned().concat(detail),
                SchemaError::MissingFields => MISSING_FIELDS_MESSAGE.to_owned(),
                SchemaError::WrongParameterShape { expected } => match expected {
                    ParameterShape::Object => OBJECT_EXPECTED_MESSAGE.to_owned(),
                    ParameterShape::Array => ARRAY_EXPECTED_MESSAGE.to_owned(),
                },
                SchemaError::UnknownCommand { value } => UNKNOWN_COMMAND_PREFIX.to_owned().concat(
                    value.as_str(),
                ),
            },
        };
        ApiError { status, kind, message }
    }

    /// The error for a response with a status outside the success class. Its
    /// message is the body, or `UNREADABLE_BODY` where there is none to show.
    pub fn http(status: u16, body: Option<String>) -> (error: ApiError)
        ensures
            error@ == error_for(status, ErrorKindView::Http, body_text(body)),
    {
        let message = match body {
            Some(text) => text,
            None => UNREADABLE_BODY.to_owned(),
        };
        ApiError { status, kind: ErrorKind::Http, message }
    }
}

} // verus!
