use gemini_client::decode::decode;
use gemini_client::error::{ParameterShape, SchemaError};
use gemini_client::json::Json;
use gemini_client::payload::{check_payload, shape_for};

fn check(text: &str) -> Result<(), SchemaError> {
    check_payload(&decode(text).unwrap())
}

#[test]
fn greeting_with_object_parameters_is_accepted() {
    assert_eq!(check("{\"command\":\"greeting\",\"parameters\":{\"a\":1}}"), Ok(()));
    assert_eq!(check("{\"command\":\"greeting\",\"parameters\":{}}"), Ok(()));
}

#[test]
fn command_one_with_object_parameters_is_accepted() {
    assert_eq!(check("{\"command\":\"1\",\"parameters\":{\"size\":1,\"color\":\"red\"}}"), Ok(()));
}

#[test]
fn command_two_with_array_parameters_is_accepted() {
    assert_eq!(check("{\"command\":\"2\",\"parameters\":[1,2]}"), Ok(()));
    assert_eq!(check("{\"command\":\"2\",\"parameters\":[]}"), Ok(()));
}

#[test]
fn further_members_do_not_matter() {
    assert_eq!(check("{\"x\":null,\"command\":\"2\",\"parameters\":[],\"y\":[1]}"), Ok(()));
}

#[test]
fn command_two_with_object_parameters_is_refused() {
    assert_eq!(
        check("{\"command\":\"2\",\"parameters\":{\"a\":1}}"),
        Err(SchemaError::WrongParameterShape { expected: ParameterShape::Array })
    );
}

#[test]
fn single_commands_with_other_parameters_are_refused() {
    let wanted = Err(SchemaError::WrongParameterShape { expected: ParameterShape::Object });
    assert_eq!(check("{\"command\":\"greeting\",\"parameters\":[1]}"), wanted);
    assert_eq!(check("{\"command\":\"1\",\"parameters\":[]}"), wanted);
    assert_eq!(check("{\"command\":\"1\",\"parameters\":\"x\"}"), wanted);
    assert_eq!(check("{\"command\":\"greeting\",\"parameters\":null}"), wanted);
}

#[test]
fn missing_parameters_have_the_wrong_shape() {
    assert_eq!(
        check("{\"command\":\"greeting\"}"),
        Err(SchemaError::WrongParameterShape { expected: ParameterShape::Object })
    );
    assert_eq!(
        check("{\"command\":\"2\"}"),
        Err(SchemaError::WrongParameterShape { expected: ParameterShape::Array })
    );
}

#[test]
fn unknown_commands_are_refused_with_their_name() {
    assert_eq!(
        check("{\"command\":\"x\",\"parameters\":{}}"),
        Err(SchemaError::UnknownCommand { value: "x".to_string() })
    );
    assert_eq!(
        check("{\"command\":\"Greeting\",\"parameters\":{}}"),
        Err(SchemaError::UnknownCommand { value: "Greeting".to_string() })
    );
    assert_eq!(
        check("{\"command\":\"\"}"),
        Err(SchemaError::UnknownCommand { value: String::new() })
    );
    assert_eq!(
        check("{\"command\":\"3\",\"parameters\":[]}"),
        Err(SchemaError::UnknownCommand { value: "3".to_string() })
    );
}

#[test]
fn payloads_without_a_command_string_miss_fields() {
    assert_eq!(check("{\"parameters\":{}}"), Err(SchemaError::MissingFields));
    assert_eq!(check("{}"), Err(SchemaError::MissingFields));
    assert_eq!(check("{\"command\":1,\"parameters\":{}}"), Err(SchemaError::MissingFields));
    assert_eq!(check("{\"command\":null,\"parameters\":{}}"), Err(SchemaError::MissingFields));
    assert_eq!(check("{\"command\":[\"2\"],\"parameters\":[]}"), Err(SchemaError::MissingFields));
}

#[test]
fn payloads_that_are_no_objects_miss_fields() {
    assert_eq!(check("[]"), Err(SchemaError::MissingFields));
    assert_eq!(check("\"greeting\""), Err(SchemaError::MissingFields));
    assert_eq!(check("null"), Err(SchemaError::MissingFields));
    assert_eq!(check("12"), Err(SchemaError::MissingFields));
    assert_eq!(check("[{\"command\":\"2\",\"parameters\":[]}]"), Err(SchemaError::MissingFields));
}

#[test]
fn check_payload_on_values_built_by_hand() {
    let payload = Json::Object(vec![
        ("command".to_string(), Json::String("2".to_string())),
        ("parameters".to_string(), Json::Array(vec![])),
    ]);
    assert_eq!(check_payload(&payload), Ok(()));
    let twice = Json::Object(vec![
        ("command".to_string(), Json::String("2".to_string())),
        ("command".to_string(), Json::String("x".to_string())),
        ("parameters".to_string(), Json::Array(vec![])),
    ]);
    assert_eq!(check_payload(&twice), Ok(()));
}

#[test]
fn shape_for_knows_three_commands() {
    assert_eq!(shape_for("greeting"), Some(ParameterShape::Object));
    assert_eq!(shape_for("1"), Some(ParameterShape::Object));
    assert_eq!(shape_for("2"), Some(ParameterShape::Array));
    assert_eq!(shape_for("3"), None);
    assert_eq!(shape_for(""), None);
    assert_eq!(shape_for("greeting "), None);
    assert_eq!(shape_for("GREETING"), None);
}
