use gemini_client::decode::decode;
use gemini_client::json::Json;

fn text(s: &str) -> Json {
    Json::String(s.to_string())
}

fn number(s: &str) -> Json {
    Json::Number(s.to_string())
}

fn object(members: Vec<(&str, Json)>) -> Json {
    Json::Object(members.into_iter().map(|(k, v)| (k.to_string(), v)).collect())
}

#[test]
fn decode_reads_scalars() {
    assert_eq!(decode("null"), Ok(Json::Null));
    assert_eq!(decode("true"), Ok(Json::Bool(true)));
    assert_eq!(decode("false"), Ok(Json::Bool(false)));
    assert_eq!(decode("\"a\\nb\""), Ok(text("a\nb")));
    assert_eq!(decode(" 17 "), Ok(number("17")));
    assert_eq!(decode("-5"), Ok(number("-5")));
    assert_eq!(decode("0.1"), Ok(number("0.1")));
}

#[test]
fn decode_reads_arrays_and_objects() {
    assert_eq!(decode("[]"), Ok(Json::Array(vec![])));
    assert_eq!(decode("{}"), Ok(Json::Object(vec![])));
    assert_eq!(
        decode("[1, \"two\", [null]]"),
        Ok(Json::Array(vec![number("1"), text("two"), Json::Array(vec![Json::Null])]))
    );
    assert_eq!(
        decode("{\"command\":\"2\",\"parameters\":[1,2]}"),
        Ok(object(vec![
            ("command", text("2")),
            ("parameters", Json::Array(vec![number("1"), number("2")])),
        ]))
    );
}

#[test]
fn decode_hands_members_out_by_name() {
    assert_eq!(
        decode("{\"b\":1,\"a\":{\"z\":true,\"y\":false}}"),
        Ok(object(vec![
            ("a", object(vec![("y", Json::Bool(false)), ("z", Json::Bool(true))])),
            ("b", number("1")),
        ]))
    );
}

#[test]
fn decode_keeps_the_last_of_two_members_with_one_name() {
    assert_eq!(decode("{\"a\":1,\"a\":2}"), Ok(object(vec![("a", number("2"))])));
}

#[test]
fn decode_refuses_what_is_no_json() {
    assert_eq!(decode(""), Err("EOF while parsing a value at line 1 column 0".to_string()));
    assert_eq!(decode("hello"), Err("expected value at line 1 column 1".to_string()));
    assert_eq!(decode("{\"a\":1"), Err("EOF while parsing an object at line 1 column 6".to_string()));
    assert_eq!(decode("{} x"), Err("trailing characters at line 1 column 4".to_string()));
    assert_eq!(decode("[1,]"), Err("trailing comma at line 1 column 4".to_string()));
}

#[test]
fn decode_is_not_the_identity_on_text() {
    assert_eq!(decode("\"x\""), Ok(text("x")));
    assert_ne!(decode("\"x\""), Ok(text("\"x\"")));
}

#[test]
fn member_finds_members_of_objects_only() {
    let document = object(vec![("a", number("1")), ("b", text("x"))]);
    assert_eq!(document.member("a"), Some(&number("1")));
    assert_eq!(document.member("b"), Some(&text("x")));
    assert_eq!(document.member("c"), None);
    assert_eq!(document.member(""), None);
    assert_eq!(Json::Array(vec![number("1")]).member("a"), None);
    assert_eq!(text("a").member("a"), None);
    assert_eq!(Json::Null.member("a"), None);
}

#[test]
fn member_takes_the_first_of_two_members_with_one_name() {
    let document = object(vec![("a", number("1")), ("a", number("2"))]);
    assert_eq!(document.member("a"), Some(&number("1")));
}

#[test]
fn element_finds_elements_of_arrays_only() {
    let document = Json::Array(vec![number("1"), text("x")]);
    assert_eq!(document.element(0), Some(&number("1")));
    assert_eq!(document.element(1), Some(&text("x")));
    assert_eq!(document.element(2), None);
    assert_eq!(Json::Array(vec![]).element(0), None);
    assert_eq!(object(vec![("0", number("1"))]).element(0), None);
    assert_eq!(Json::Null.element(0), None);
}

#[test]
fn as_str_gives_the_text_of_strings_only() {
    assert_eq!(text("abc").as_str(), Some("abc"));
    assert_eq!(text("").as_str(), Some(""));
    assert_eq!(number("1").as_str(), None);
    assert_eq!(Json::Null.as_str(), None);
    assert_eq!(Json::Bool(true).as_str(), None);
    assert_eq!(Json::Array(vec![text("a")]).as_str(), None);
}

#[test]
fn kinds_are_told_apart() {
    let all = [
        Json::Null,
        Json::Bool(false),
        number("0"),
        text(""),
        Json::Array(vec![]),
        Json::Object(vec![]),
    ];
    let objects: Vec<bool> = all.iter().map(|j| j.is_object()).collect();
    let arrays: Vec<bool> = all.iter().map(|j| j.is_array()).collect();
    let strings: Vec<bool> = all.iter().map(|j| j.as_str().is_some()).collect();
    assert_eq!(objects, vec![false, false, false, false, false, true]);
    assert_eq!(arrays, vec![false, false, false, false, true, false]);
    assert_eq!(strings, vec![false, false, false, true, false, false]);
}
