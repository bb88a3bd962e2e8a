use crate::decode::{decode, decoded_view, json_parse};
use crate::error::{
    error_for, ApiError, ApiErrorView, ErrorKind, ErrorKindView, ParameterShape, SchemaError,
    SchemaErrorView, EXTRACTION_MESSAGE,
};
use crate::json::{found_view, Json, JsonView};
use crate::payload::{
    check_payload, has_shape, is_command_payload, payload_fault, COMMAND_FIELD, GREETING_COMMAND,
    MULTIPLE_COMMAND, PARAMETERS_FIELD, SINGLE_COMMAND,
};
use crate::text::{clean_text, cleaned};
use vstd::prelude::*;

verus! {

/// Whether an HTTP status code lies in the success class, 200 to 299.
pub open spec fn status_is_success(status: u16) -> bool {
    200 <= status < 300
}

/// The member `name` of the document that `found` holds, if it holds one.
pub open spec fn then_member(found: Option<JsonView>, name: Seq<char>) -> Option<JsonView> {
    match found {
        Some(value) => value.member(name),
        None => None,
    }
}

/// The element at `index` of the document that `found` holds, if it holds one.
pub open spec fn then_element(found: Option<JsonView>, index: int) -> Option<JsonView> {
    match found {
        Some(value) => value.element(index),
        None => None,
    }
}

/// The generated text that an envelope carries: the string at
/// `candidates[0].content.parts[0].text`. `None` where a step of that path
/// is missing or the value at its end is no string.
pub open spec fn extracted_text(envelope: JsonView) -> Option<Seq<char>> {
    let candidates = envelope.member("candidates"@);
    let candidate = then_element(candidates, 0);
    let content = then_member(candidate, "content"@);
    let parts = then_member(content, "parts"@);
    let part = then_element(parts, 0);
    match then_member(part, "text"@) {
        Some(value) => value.as_str(),
        None => None,
    }
}

/// The cleaned text of a reply, given what decoding the body gave: an error
/// where the body is no JSON or carries no text.
pub open spec fn reply_text(status: u16, envelope: Result<JsonView, Seq<char>>) -> Result<
    Seq<char>,
    ApiErrorView,
> {
    match envelope {
        Err(detail) => Err(error_for(status, ErrorKindView::EnvelopeDecode, detail)),
        Ok(document) => match extracted_text(document) {
            None => Err(error_for(status, ErrorKindView::Extraction, Seq::empty())),
            Some(raw) => Ok(cleaned(raw)),
        },
    }
}

/// The verdict on a cleaned text, given what decoding it gave: the text
/// itself where it holds a command payload, else the error that says why not.
pub open spec fn payload_verdict(
    status: u16,
    text: Seq<char>,
    payload: Result<JsonView, Seq<char>>,
) -> Result<Seq<char>, ApiErrorView> {
    match payload {
        Err(detail) => Err(
            error_for(status, ErrorKindView::Schema(SchemaErrorView::InvalidJson), detail),
        ),
        Ok(document) => match payload_fault(document) {
            Some(fault) => Err(error_for(status, ErrorKindView::Schema(fault), Seq::empty())),
            None => Ok(text),
        },
    }
}

/// What validating a response gives: for a status outside the success class
/// the HTTP error with the body as its message; else the cleaned text of the
/// reply where that text decodes to a command payload, and the error of the
/// first step that fails where it does not.
pub open spec fn validation(status: u16, body: Seq<char>) -> Result<Seq<char>, ApiErrorView> {
    if !status_is_success(status) {
        Err(error_for(status, ErrorKindView::Http, body))
    } else {
        match reply_text(status, json_parse(body)) {
            Err(error) => Err(error),
            Ok(text) => payload_verdict(status, text, json_parse(text)),
        }
    }
}

/// The model of the outcome of a validation.
pub open spec fn outcome_view(outcome: Result<String, ApiError>) -> Result<
    Seq<char>,
    ApiErrorView,
> {
    match outcome {
        Ok(text) => Ok(text@),
        Err(error) => Err(error@),
    }
}

/// Tells whether `status` lies in the success class.
pub fn is_success(status: u16) -> (yes: bool)
    ensures
        yes == status_is_success(status),
{
    200 <= status && status < 300
}

/// The member `name` of what `found` holds.
fn member_of<'a>(found: Option<&'a Json>, name: &str) -> (next: Option<&'a Json>)
    ensures
        found_view(next) == then_member(found_view(found), name@),
{
    match found {
        Some(value) => value.member(name),
        None => None,
    }
}

/// The element at `index` of what `found` holds.
fn element_of<'a>(found: Option<&'a Json>, index: usize) -> (next: Option<&'a Json>)
    ensures
        found_view(next) == then_element(found_view(found), index as int),
{
    match found {
        Some(value) => value.element(index),
        None => None,
    }
}

/// Finds the generated text in a decoded envelope.
pub fn extract_text(envelope: &Json) -> (text: Option<String>)
    ensures
        match text {
            Some(raw) => extracted_text(envelope@) == Some(raw@),
            None => extracted_text(envelope@) is None,
        },
{
    let candidates = envelope.member("candidates");
    let candidate = element_of(candidates, 0);
    let content = member_of(candidate, "content");
    let parts = member_of(content, "parts");
    let part = element_of(parts, 0);
    match member_of(part, "text") {
        Some(value) => match value.as_str() {
            Some(raw) => Some(raw.to_owned()),
            None => None,
        },
        None => None,
    }
}

/// Turns the decoded body of a successful response into the cleaned text of
/// the reply.
pub fn read_reply(status: u16, envelope: Result<Json, String>) -> (reply: Result<String, ApiError>)
    ensures
        outcome_view(reply) == reply_text(status, decoded_view(envelope)),
        envelope matches Ok(document) && extracted_text(document@) is None ==> (reply matches Err(
            error,
        ) && error.status == status && error.kind@ == ErrorKindView::Extraction && error.message@
            == EXTRACTION_MESSAGE@),
{
    match envelope {
        Err(detail) => Err(ApiError::new(status, ErrorKind::EnvelopeDecode, detail.as_str())),
        Ok(document) => match extract_text(&document) {
            None => Err(ApiError::new(status, ErrorKind::Extraction, "")),
            Some(raw) => Ok(clean_text(raw.as_str())),
        },
    }
}

/// Confirms a cleaned text as a command payload, given what decoding it gave.
pub fn confirm_payload(status: u16, text: String, payload: Result<Json, String>) -> (outcome:
    Result<String, ApiError>)
    ensures
        outcome_view(outcome) == payload_verdict(status, text@, decoded_view(payload)),
{
    match payload {
        Err(detail) => Err(
            ApiError::new(status, ErrorKind::Schema(SchemaError::InvalidJson), detail.as_str()),
        ),
        Ok(document) => match check_payload(&document) {
            Err(fault) => Err(ApiError::new(status, ErrorKind::Schema(fault), "")),
            Ok(_) => Ok(text),
        },
    }
}

/// Validates a response of the service: `status` is its HTTP status code and
/// `body` its body. Gives back the cleaned text of the reply where that text
/// is a command payload.
pub fn handle_response(status: u16, body: &str) -> (outcome: Result<String, ApiError>)
    ensures
        outcome_view(outcome) == validation(status, body@),
        !status_is_success(status) ==> (outcome matches Err(error) && error.status == status
            && error.kind@ == ErrorKindView::Http && error.message@ == body@),
        outcome matches Err(error) ==> error.status == status,
{
    if !is_success(status) {
        return Err(ApiError::new(status, ErrorKind::Http, body));
    }
    let text = match read_reply(status, decode(body)) {
        Ok(text) => text,
        Err(error) => { return Err(error); },
    };
    let payload = decode(text.as_str());
    confirm_payload(status, text, payload)
}

/// Every status outside the success class gives the HTTP error, which
/// carries that status and the body as it came.
pub proof fn lemma_failure_status_gives_http_error(status: u16, body: Seq<char>)
    requires
        !status_is_success(status),
    ensures
        validation(status, body) matches Err(error) && error.status == status && error.kind
            == ErrorKindView::Http && error.message == body,
{
}

/// Every error of a validation carries the status that the response came with.
pub proof fn lemma_errors_carry_the_status(status: u16, body: Seq<char>)
    ensures
        validation(status, body) matches Err(error) ==> error.status == status,
{
}

/// An envelope carries a text exactly where every step of the path is
/// there: it is an object whose `candidates` are an array that is not empty,
/// the first candidate has a `content` with `parts` that are an array that is
/// not empty, and the `text` of the first part is a string.
pub proof fn lemma_text_needs_every_step(envelope: JsonView)
    ensures
        extracted_text(envelope) is Some <==> {
            &&& envelope.member("candidates"@) matches Some(JsonView::Array(candidates))
            &&& candidates.len() > 0
            &&& candidates[0].member("content"@) matches Some(content)
            &&& content.member("parts"@) matches Some(JsonView::Array(parts))
            &&& parts.len() > 0
            &&& parts[0].member("text"@) matches Some(JsonView::String(_))
        },
{
}

/// A successful response whose body decodes to an envelope without a text
/// at `candidates[0].content.parts[0].text` gives the extraction error.
pub proof fn lemma_missing_text_gives_extraction_error(
    status: u16,
    body: Seq<char>,
    envelope: JsonView,
)
    requires
        status_is_success(status),
        json_parse(body) == Ok::<JsonView, Seq<char>>(envelope),
        extracted_text(envelope) is None,
    ensures
        validation(status, body) matches Err(error) && error.status == status && error.kind
            == ErrorKindView::Extraction && error.message == EXTRACTION_MESSAGE@,
{
}

/// A text is handed back only for a successful response, and it is the
/// cleaned text of the reply that the envelope carries.
pub proof fn lemma_validated_text_is_the_cleaned_reply(
    status: u16,
    body: Seq<char>,
    text: Seq<char>,
)
    requires
        validation(status, body) == Ok::<Seq<char>, ApiErrorView>(text),
    ensures
        status_is_success(status),
        json_parse(body) matches Ok(envelope) && extracted_text(envelope) matches Some(raw)
            && text == cleaned(raw),
{
}

/// A text that validation hands back decodes again, to a command payload:
/// an object whose `command` is one of the three known commands and whose
/// `parameters` have the shape that this command asks for.
pub proof fn lemma_validated_text_is_command_payload(status: u16, body: Seq<char>, text: Seq<char>)
    requires
        validation(status, body) == Ok::<Seq<char>, ApiErrorView>(text),
    ensures
        json_parse(text) matches Ok(payload) && {
            &&& is_command_payload(payload)
            &&& payload.is_object()
            &&& payload.member(COMMAND_FIELD@) matches Some(JsonView::String(command))
            &&& command == GREETING_COMMAND@ || command == SINGLE_COMMAND@ || command
                == MULTIPLE_COMMAND@
            &&& command == GREETING_COMMAND@ || command == SINGLE_COMMAND@ ==> has_shape(
                payload.member(PARAMETERS_FIELD@),
                ParameterShape::Object,
            )
            &&& command == MULTIPLE_COMMAND@ ==> has_shape(
                payload.member(PARAMETERS_FIELD@),
                ParameterShape::Array,
            )
        },
{
    reveal_strlit("greeting");
    reveal_strlit("1");
    reveal_strlit("2");
    assert(GREETING_COMMAND@.len() == 8);
    assert(SINGLE_COMMAND@[0] == '1');
    assert(MULTIPLE_COMMAND@[0] == '2');
}

} // verus!
