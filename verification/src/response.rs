//! The HTTP responses.
use vstd::prelude::*;

use crate::error::{PromoteError, PromoteErrorView};
use crate::json::{json_string, text_to_json};

verus! {

/// A header of a response.
#[derive(Debug)]
pub struct Header {
    pub name: String,
    pub value: String,
}

/// The texts of a [`Header`].
pub struct HeaderView {
    pub name: Seq<char>,
    pub value: Seq<char>,
}

impl View for Header {
    type V = HeaderView;

    open spec fn view(&self) -> HeaderView {
        HeaderView { name: self.name@, value: self.value@ }
    }
}

impl Header {
    /// The header `name` with the value `value`.
    pub fn new(name: &str, value: &str) -> (header: Header)
        ensures
            header@ == (HeaderView { name: name@, value: value@ }),
    {
        Header { name: name.to_owned(), value: value.to_owned() }
    }
}

/// A response: its status code, its headers in order, and its body.
#[derive(Debug)]
pub struct Response {
    pub status: u16,
    pub headers: Vec<Header>,
    pub body: String,
}

/// The contents of a [`Response`].
pub struct ResponseView {
    pub status: int,
    pub headers: Seq<HeaderView>,
    pub body: Seq<char>,
}

impl View for Response {
    type V = ResponseView;

    open spec fn view(&self) -> ResponseView {
        ResponseView {
            status: self.status as int,
            headers: self.headers@.map_values(|header: Header| header@),
            body: self.body@,
        }
    }
}

/// The body of a response to a promotion that succeeded.
#[derive(Debug)]
pub struct DeployResponse {
    pub message: String,
}

/// The body of a response to a request that failed.
#[derive(Debug)]
pub struct ErrorResponse {
    pub error: String,
}

/// The JSON object whose one member `message` is a text.
pub open spec fn message_json(message: Seq<char>) -> Seq<char> {
    "{\"message\":"@ + json_string(message) + "}"@
}

/// The JSON object whose one member `error` is a text.
pub open spec fn error_json(error: Seq<char>) -> Seq<char> {
    "{\"error\":"@ + json_string(error) + "}"@
}

impl DeployResponse {
    /// The body as a JSON object.
    pub fn to_json(&self) -> (json: String)
        ensures
            json@ == message_json(self.message@),
    {
        "{\"message\":".to_owned().concat(text_to_json(self.message.as_str()).as_str()).concat("}")
    }
}

impl ErrorResponse {
    /// The body as a JSON object.
    pub fn to_json(&self) -> (json: String)
        ensures
            json@ == error_json(self.error@),
    {
        "{\"error\":".to_owned().concat(text_to_json(self.error.as_str()).as_str()).concat("}")
    }
}

/// A response with a JSON body.
pub open spec fn json_response(status: int, body: Seq<char>) -> ResponseView {
    ResponseView {
        status,
        headers: seq![HeaderView { name: "content-type"@, value: "application/json"@ }],
        body,
    }
}

/// The answer to the preflight request of a browser.
pub open spec fn preflight() -> ResponseView {
    ResponseView {
        status: 200,
        headers: seq![
            HeaderView { name: "allow"@, value: "POST, OPTIONS"@ },
            HeaderView { name: "access-control-allow-methods"@, value: "POST, OPTIONS"@ },
            HeaderView { name: "access-control-allow-headers"@, value: "content-type"@ },
        ],
        body: ""@,
    }
}

/// The answer to a request that is for nothing here.
pub open spec fn not_found(method: Seq<char>, path: Seq<char>) -> ResponseView {
    json_response(404, error_json("Ruta no encontrada: "@ + method + " "@ + path))
}

/// The answer to a request whose body cannot be read: what is wrong, as a JSON string.
pub open spec fn bad_request(reason: Seq<char>) -> ResponseView {
    json_response(400, json_string(reason))
}

/// The answer to a promotion that succeeded.
pub open spec fn stack_promoted() -> ResponseView {
    json_response(200, message_json("Stack promovido"@))
}

/// The answer to a promotion that failed.
pub open spec fn promotion_failed(error: PromoteErrorView) -> ResponseView {
    json_response(
        500,
        error_json("Error al crear el stack de CloudFormation: "@ + error.debug_text()),
    )
}

/// The response of status `status` with the JSON text `body`.
pub fn new_json_response(status: u16, body: String) -> (response: Response)
    ensures
        response@ == json_response(status as int, body@),
{
    let response = Response {
        status,
        headers: vec![Header::new("content-type", "application/json")],
        body,
    };
    assert(response@.headers =~= json_response(status as int, body@).headers);
    response
}

/// The answer to the preflight request of a browser.
pub fn new_preflight() -> (response: Response)
    ensures
        response@ == preflight(),
{
    let response = Response {
        status: 200,
        headers: vec![
            Header::new("allow", "POST, OPTIONS"),
            Header::new("access-control-allow-methods", "POST, OPTIONS"),
            Header::new("access-control-allow-headers", "content-type"),
        ],
        body: "".to_owned(),
    };
    assert(response@.headers =~= preflight().headers);
    response
}

/// The answer to a request that is for nothing here.
pub fn new_not_found(method: &str, path: &str) -> (response: Response)
    ensures
        response@ == not_found(method@, path@),
{
    let error: String = "Ruta no encontrada: ".to_owned().concat(method).concat(" ").concat(path);
    new_json_response(404, ErrorResponse { error }.to_json())
}

/// The answer to a request whose body cannot be read, for the reason `reason`.
pub fn new_bad_request(reason: &str) -> (response: Response)
    ensures
        response@ == bad_request(reason@),
{
    new_json_response(400, text_to_json(reason))
}

/// The answer to a promotion that succeeded.
pub fn new_stack_promoted() -> (response: Response)
    ensures
        response@ == stack_promoted(),
{
    new_json_response(200, DeployResponse { message: "Stack promovido".to_owned() }.to_json())
}

/// The answer to a promotion that failed with `error`.
pub fn new_promotion_failed(error: &PromoteError) -> (response: Response)
    ensures
        response@ == promotion_failed(error@),
{
    let error: String = "Error al crear el stack de CloudFormation: ".to_owned().concat(
        error.debug_text().as_str(),
    );
    new_json_response(500, ErrorResponse { error }.to_json())
}

} // verus!
