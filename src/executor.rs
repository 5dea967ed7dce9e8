use vstd::prelude::*;
use crate::headers::{default_header, filtered_headers, outgoing_headers};
use crate::model::{headers_view, ApiRequest, ApiResponse};

verus! {

/// The HTTP methods the executor can issue.
#[derive(Clone, Copy, Debug, PartialEq, Eq, Structural)]
pub enum HttpMethod {
    Get,
    Post,
    Put,
    Delete,
    Patch,
}

/// The method named by a method token, if it is one of the five supported ones.
pub open spec fn method_of(s: Seq<char>) -> Option<HttpMethod> {
    if s == "GET"@ {
        Some(HttpMethod::Get)
    } else if s == "POST"@ {
        Some(HttpMethod::Post)
    } else if s == "PUT"@ {
        Some(HttpMethod::Put)
    } else if s == "DELETE"@ {
        Some(HttpMethod::Delete)
    } else if s == "PATCH"@ {
        Some(HttpMethod::Patch)
    } else {
        None
    }
}

/// Selects the method that a method token names.
pub fn parse_method(token: &String) -> (r: Option<HttpMethod>)
    ensures
        r == method_of(token@),
{
    if *token == String::from_str("GET") {
        Some(HttpMethod::Get)
    } else if *token == String::from_str("POST") {
        Some(HttpMethod::Post)
    } else if *token == String::from_str("PUT") {
        Some(HttpMethod::Put)
    } else if *token == String::from_str("DELETE") {
        Some(HttpMethod::Delete)
    } else if *token == String::from_str("PATCH") {
        Some(HttpMethod::Patch)
    } else {
        None
    }
}

/// The text a method is sent with.
pub open spec fn method_token(m: HttpMethod) -> Seq<char> {
    match m {
        HttpMethod::Get => "GET"@,
        HttpMethod::Post => "POST"@,
        HttpMethod::Put => "PUT"@,
        HttpMethod::Delete => "DELETE"@,
        HttpMethod::Patch => "PATCH"@,
    }
}

impl HttpMethod {
    /// The token of this method.
    pub fn as_token(&self) -> (r: String)
        ensures
            r@ == method_token(*self),
            method_of(r@) == Some(*self),
    {
        proof {
            lemma_method_token_round_trip(*self);
            reveal_strlit("GET");
            reveal_strlit("POST");
            reveal_strlit("PUT");
            reveal_strlit("DELETE");
            reveal_strlit("PATCH");
        }
        match self {
            HttpMethod::Get => String::from_str("GET"),
            HttpMethod::Post => String::from_str("POST"),
            HttpMethod::Put => String::from_str("PUT"),
            HttpMethod::Delete => String::from_str("DELETE"),
            HttpMethod::Patch => String::from_str("PATCH"),
        }
    }
}

/// The methods offered to the user, in the order they are listed.
pub fn supported_methods() -> (r: Vec<String>)
    ensures
        r@.len() == 5,
        forall|i: int| 0 <= i < 5 ==> method_of(#[trigger] r@[i]@) is Some,
        r@[0]@ == "GET"@,
        r@[1]@ == "POST"@,
        r@[2]@ == "PUT"@,
        r@[3]@ == "DELETE"@,
        r@[4]@ == "PATCH"@,
{
    let mut r: Vec<String> = Vec::new();
    r.push(HttpMethod::Get.as_token());
    r.push(HttpMethod::Post.as_token());
    r.push(HttpMethod::Put.as_token());
    r.push(HttpMethod::Delete.as_token());
    r.push(HttpMethod::Patch.as_token());
    r
}

/// Relies on `serde_json::Value`, carried through unread.
#[verifier::external_type_specification]
#[verifier::external_body]
pub struct ExJsonValue(serde_json::Value);

/// Whether a text is one JSON document.
pub uninterp spec fn parses_as_json(text: Seq<char>) -> bool;

/// Relies on `serde_json::from_str::<Value>`: it succeeds exactly on JSON documents, and an
/// empty text is none.
#[verifier::external_body]
fn parse_json(text: &String) -> (r: Option<serde_json::Value>)
    ensures
        r is Some == parses_as_json(text@),
        text@.len() == 0 ==> r is None,
{
    serde_json::from_str::<serde_json::Value>(text.as_str()).ok()
}

/// The text of a JSON document laid out over indented lines.
pub uninterp spec fn pretty_of(text: Seq<char>) -> Seq<char>;

/// Relies on `serde_json::from_str::<Value>` and `serde_json::to_string_pretty`: the
/// indented layout of a JSON document, which depends on its text alone.
#[verifier::external_body]
fn pretty_json_text(text: &String) -> (r: Option<String>)
    ensures
        r is Some == parses_as_json(text@),
        r matches Some(p) ==> p@ == pretty_of(text@),
{
    serde_json::from_str::<serde_json::Value>(text.as_str()).ok().map(
        |v| serde_json::to_string_pretty(&v).unwrap_or_default(),
    )
}

/// The payload of an outgoing request.
pub enum RequestBody {
    /// No body is sent.
    Empty,
    /// The body text parsed as JSON and is sent as a JSON payload.
    Json(serde_json::Value),
    /// The body text is sent as it is.
    Text(String),
}

/// Chooses how a body text is sent: nothing for an empty text, JSON where it parses as
/// JSON, raw text otherwise.
pub fn body_payload(body: &String) -> (r: RequestBody)
    ensures
        body@.len() == 0 ==> r is Empty,
        body@.len() > 0 && parses_as_json(body@) ==> r is Json,
        body@.len() > 0 && !parses_as_json(body@) ==> (r matches RequestBody::Text(t) && t@
            == body@),
{
    if body.as_str().is_empty() {
        RequestBody::Empty
    } else {
        match parse_json(body) {
            Some(v) => RequestBody::Json(v),
            None => RequestBody::Text(body.clone()),
        }
    }
}

/// Everything needed to issue one HTTP call.
pub struct PreparedRequest {
    pub method: HttpMethod,
    pub url: String,
    /// Headers in the order they are applied; a later one replaces an earlier one of
    /// the same name.
    pub headers: Vec<(String, String)>,
    pub body: RequestBody,
}

/// The body of the response given for an unsupported method.
pub open spec fn invalid_method_message(method: Seq<char>) -> Seq<char> {
    "Error: Invalid HTTP method '"@ + method + "'"@
}

/// The body of the response given when the transport fails.
pub open spec fn transport_error_message(description: Seq<char>) -> Seq<char> {
    "Error: "@ + description
}

/// The local response for an unsupported method: status 0, no headers, no time spent.
pub fn invalid_method_response(method: &String) -> (r: ApiResponse)
    ensures
        r.status == 0,
        r.headers@.len() == 0,
        r.body@ == invalid_method_message(method@),
        r.time_taken_ms == 0,
{
    let mut body = String::from_str("Error: Invalid HTTP method '");
    body.append(method.as_str());
    body.append("'");
    ApiResponse { status: 0, headers: Vec::new(), body, time_taken_ms: 0 }
}

/// The response for a call the transport could not complete: status 0, no headers, and
/// the failure's description.
pub fn transport_error_response(description: &String, elapsed_ms: u64) -> (r: ApiResponse)
    ensures
        r.status == 0,
        r.headers@.len() == 0,
        r.body@ == transport_error_message(description@),
        r.time_taken_ms == elapsed_ms,
{
    let mut body = String::from_str("Error: ");
    body.append(description.as_str());
    ApiResponse { status: 0, headers: Vec::new(), body, time_taken_ms: elapsed_ms }
}

/// `r` is what the executor makes of `req`: the local error response exactly where the
/// method is unsupported, otherwise the call with the matching method, the URL, the
/// outgoing headers and the chosen payload.
pub open spec fn prepared_for(req: ApiRequest, r: Result<PreparedRequest, ApiResponse>) -> bool {
    &&& method_of(req.method@) is None <==> r is Err
    &&& r matches Err(resp) ==> resp.status == 0 && resp.headers@.len() == 0 && resp.body@
        == invalid_method_message(req.method@) && resp.time_taken_ms == 0
    &&& r matches Ok(p) ==> {
        &&& Some(p.method) == method_of(req.method@)
        &&& p.url@ == req.url@
        &&& p.headers@.len() >= 1
        &&& headers_view(p.headers@)[0] == default_header()
        &&& filtered_headers(headers_view(req.headers@), headers_view(p.headers@).drop_first())
        &&& req.body@.len() == 0 ==> p.body is Empty
        &&& req.body@.len() > 0 && parses_as_json(req.body@) ==> p.body is Json
        &&& req.body@.len() > 0 && !parses_as_json(req.body@) ==> (p.body matches RequestBody::Text(t) && t@ == req.body@)
    }
}

/// Turns a request into the call to issue, or, for an unsupported method, into the
/// local error response; the network is only reached through an `Ok`.
pub fn prepare_request(req: &ApiRequest) -> (r: Result<PreparedRequest, ApiResponse>)
    ensures
        prepared_for(*req, r),
{
    match parse_method(&req.method) {
        None => Err(invalid_method_response(&req.method)),
        Some(method) => Ok(
            PreparedRequest {
                method,
                url: req.url.clone(),
                headers: outgoing_headers(&req.headers),
                body: body_payload(&req.body),
            },
        ),
    }
}

/// Each supported method's token selects that same method.
pub proof fn lemma_method_token_round_trip(m: HttpMethod)
    ensures
        method_of(method_token(m)) == Some(m),
{
    reveal_strlit("GET");
    reveal_strlit("POST");
    reveal_strlit("PUT");
    reveal_strlit("DELETE");
    reveal_strlit("PATCH");
    assert("PUT"@[1] != "GET"@[1]);
    assert("POST"@.len() != "GET"@.len());
    assert("PATCH"@[1] != "POST"@[1]);
    assert("DELETE"@.len() != "GET"@.len());
}

/// A request whose method is not one of the five supported tokens is answered locally,
/// with status 0 and a body naming the method, and never becomes a call to issue.
pub proof fn lemma_unsupported_method_is_local(req: ApiRequest, r: Result<PreparedRequest, ApiResponse>)
    requires
        prepared_for(req, r),
        method_of(req.method@) is None,
    ensures
        r matches Err(resp) && resp.status == 0 && resp.body@ == invalid_method_message(req.method@),
{
}


/// How a status code is shown.
#[derive(Clone, Copy, Debug, PartialEq, Eq, Structural)]
pub enum StatusColor {
    Green,
    Yellow,
    Red,
}

pub open spec fn status_color_of(status: u16) -> StatusColor {
    if status < 300 {
        StatusColor::Green
    } else if status < 400 {
        StatusColor::Yellow
    } else {
        StatusColor::Red
    }
}

/// Green below 300, yellow below 400, red from 400 on.
pub fn status_color(status: u16) -> (r: StatusColor)
    ensures
        r == status_color_of(status),
{
    if status < 300 {
        StatusColor::Green
    } else if status < 400 {
        StatusColor::Yellow
    } else {
        StatusColor::Red
    }
}

/// The text shown for a response body: pretty-printed where it parses as JSON, as it is
/// otherwise.
pub fn display_body(body: &String) -> (r: String)
    ensures
        parses_as_json(body@) ==> r@ == pretty_of(body@),
        !parses_as_json(body@) ==> r@ == body@,
{
    match pretty_json_text(body) {
        Some(p) => p,
        None => body.clone(),
    }
}

} // verus!
