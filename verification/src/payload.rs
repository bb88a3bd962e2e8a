use crate::error::{ParameterShape, SchemaError, SchemaErrorView};
use crate::json::{found_view, Json, JsonView};
use vstd::prelude::*;

verus! {

/// The name of the member that holds the command.
pub const COMMAND_FIELD: &'static str = "command";

/// The name of the member that holds the parameters.
pub const PARAMETERS_FIELD: &'static str = "parameters";

/// The command that greets; its parameters are an object.
pub const GREETING_COMMAND: &'static str = "greeting";

/// The command with a single set of parameters, an object.
pub const SINGLE_COMMAND: &'static str = "1";

/// The command with multiple sets of parameters, an array.
pub const MULTIPLE_COMMAND: &'static str = "2";

/// The shape that `command` asks of its parameters; `None` for a command
/// that is not known.
pub open spec fn expected_shape(command: Seq<char>) -> Option<ParameterShape> {
    if command == GREETING_COMMAND@ || command == SINGLE_COMMAND@ {
        Some(ParameterShape::Object)
    } else if command == MULTIPLE_COMMAND@ {
        Some(ParameterShape::Array)
    } else {
        None
    }
}

/// Whether `value` is there and has the shape `shape`.
pub open spec fn has_shape(value: Option<JsonView>, shape: ParameterShape) -> bool {
    match value {
        Some(found) => match shape {
            ParameterShape::Object => found.is_object(),
            ParameterShape::Array => found.is_array(),
        },
        None => false,
    }
}

/// Whether `payload` is a command payload: an object whose `command` is one
/// of the known commands, as a string, and whose `parameters` have the shape
/// that the command asks for.
pub open spec fn is_command_payload(payload: JsonView) -> bool {
    &&& payload.is_object()
    &&& payload.member(COMMAND_FIELD@) matches Some(JsonView::String(command))
    &&& expected_shape(command) matches Some(shape)
    &&& has_shape(payload.member(PARAMETERS_FIELD@), shape)
}

/// What is wrong with `payload` as a command payload; `None` where nothing is.
pub open spec fn payload_fault(payload: JsonView) -> Option<SchemaErrorView> {
    match payload.member(COMMAND_FIELD@) {
        Some(JsonView::String(command)) => match expected_shape(command) {
            Some(shape) => if has_shape(payload.member(PARAMETERS_FIELD@), shape) {
                None
            } else {
                Some(SchemaErrorView::WrongParameterShape { expected: shape })
            },
            None => Some(SchemaErrorView::UnknownCommand { value: command }),
        },
        _ => Some(SchemaErrorView::MissingFields),
    }
}

/// The model of the outcome of a check.
pub open spec fn fault_view(checked: Result<(), SchemaError>) -> Option<SchemaErrorView> {
    match checked {
        Ok(_) => None,
        Err(fault) => Some(fault@),
    }
}

/// A payload has no fault exactly when it is a command payload.
pub proof fn lemma_no_fault_iff_command_payload(payload: JsonView)
    ensures
        payload_fault(payload) is None <==> is_command_payload(payload),
{
}

/// Tells which shape `command` asks of its parameters.
pub fn shape_for(command: &str) -> (shape: Option<ParameterShape>)
    ensures
        shape == expected_shape(command@),
{
    let command = command.to_owned();
    if command == GREETING_COMMAND.to_owned() || command == SINGLE_COMMAND.to_owned() {
        Some(ParameterShape::Object)
    } else if command == MULTIPLE_COMMAND.to_owned() {
        Some(ParameterShape::Array)
    } else {
        None
    }
}

/// Tells whether `value` is there and has the shape `shape`.
fn meets(value: Option<&Json>, shape: ParameterShape) -> (yes: bool)
    ensures
        yes == has_shape(found_view(value), shape),
{
    match value {
        Some(found) => match shape {
            ParameterShape::Object => found.is_object(),
            ParameterShape::Array => found.is_array(),
        },
        None => false,
    }
}

/// Checks a decoded payload against the command contract.
pub fn check_payload(payload: &Json) -> (checked: Result<(), SchemaError>)
    ensures
        fault_view(checked) == payload_fault(payload@),
        checked is Ok <==> is_command_payload(payload@),
{
    let command = match payload.member(COMMAND_FIELD) {
        Some(value) => match value.as_str() {
            Some(text) => text,
            None => { return Err(SchemaError::MissingFields); },
        },
        None => { return Err(SchemaError::MissingFields); },
    };
    match shape_for(command) {
        Some(expected) => if meets(payload.member(PARAMETERS_FIELD), expected) {
            Ok(())
        } else {
            Err(SchemaError::WrongParameterShape { expected })
        },
        None => Err(SchemaError::UnknownCommand { value: command.to_owned() }),
    }
}

} // verus!
