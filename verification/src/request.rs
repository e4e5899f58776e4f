//! The shared request-dispatch helpers: building one outbound HTTP
//! request from its parts, and classifying a response status code into
//! the library's success or error result.

use vstd::prelude::*;
use crate::text::push_char;

verus! {

/// The HTTP method of an outbound request.
#[derive(Clone, Copy, Debug, PartialEq, Eq, Structural)]
pub enum Method {
    Get,
    Post,
    Put,
    Delete,
}

/// One fully built outbound request, ready to be sent by the caller.
pub struct HttpRequest {
    /// The HTTP method.
    pub method: Method,
    /// The complete URL, query string included.
    pub url: String,
    /// The value of the `Authorization` header.
    pub bearer_auth: String,
    /// Whether a `Content-Type: application/json` header is sent.
    pub content_type_json: bool,
    /// The request body, absent on GET requests.
    pub body: Option<String>,
}

/// The mathematical image of an `HttpRequest`.
pub ghost struct HttpRequestV {
    pub method: Method,
    pub url: Seq<char>,
    pub bearer_auth: Seq<char>,
    pub content_type_json: bool,
    pub body: Option<Seq<char>>,
}

impl View for HttpRequest {
    type V = HttpRequestV;

    open spec fn view(&self) -> HttpRequestV {
        HttpRequestV {
            method: self.method,
            url: self.url@,
            bearer_auth: self.bearer_auth@,
            content_type_json: self.content_type_json,
            body: match self.body {
                Option::Some(b) => Option::Some(b@),
                Option::None => Option::None,
            },
        }
    }
}

/// A request that carries a JSON body: POST, PUT or DELETE.
pub open spec fn body_request(
    verb: Method,
    auth: Seq<char>,
    url: Seq<char>,
    body: Seq<char>,
) -> HttpRequestV {
    HttpRequestV {
        method: verb,
        url: url,
        bearer_auth: auth,
        content_type_json: true,
        body: Option::Some(body),
    }
}

/// A GET request; its query string is already part of the URL.
pub open spec fn get_request(auth: Seq<char>, url: Seq<char>) -> HttpRequestV {
    HttpRequestV {
        method: Method::Get,
        url: url,
        bearer_auth: auth,
        content_type_json: false,
        body: Option::None,
    }
}

/// The body text sent for an optional, already serialized body: a
/// missing body is serialized as the JSON `null` document.
pub open spec fn opt_body(body: Option<String>) -> Seq<char> {
    match body {
        Option::Some(b) => b@,
        Option::None => "null"@,
    }
}

/// The query text appended after `?` for an optional, already encoded
/// query: a missing query contributes nothing.
pub open spec fn opt_query(queries: Option<String>) -> Seq<char> {
    match queries {
        Option::Some(q) => q@,
        Option::None => Seq::empty(),
    }
}

/// Builds a POST, PUT or DELETE request with a JSON body.
pub fn make_request(
    bearer_auth: String,
    url: String,
    body: Option<String>,
    verb: Method,
) -> (r: HttpRequest)
    ensures
        r@ == body_request(verb, bearer_auth@, url@, opt_body(body)),
{
    let body_text = match body {
        Option::Some(b) => b,
        Option::None => String::from_str("null"),
    };
    HttpRequest {
        method: verb,
        url: url,
        bearer_auth: bearer_auth,
        content_type_json: true,
        body: Option::Some(body_text),
    }
}

/// Builds a GET request, appending `?` and the query text to the URL.
pub fn make_get_request(bearer_auth: String, url: String, queries: Option<String>) -> (r:
    HttpRequest)
    ensures
        r@ == get_request(bearer_auth@, url@ + "?"@ + opt_query(queries)),
{
    let mut full_url = url;
    push_char(&mut full_url, '?');
    match &queries {
        Option::Some(q) => full_url.append(q.as_str()),
        Option::None => (),
    }
    proof {
        reveal_strlit("?");
        assert(full_url@ =~= url@ + "?"@ + opt_query(queries));
    }
    HttpRequest {
        method: Method::Get,
        url: full_url,
        bearer_auth: bearer_auth,
        content_type_json: false,
        body: Option::None,
    }
}

/// Classifies the status code of a GET response: 400 and 500 are the
/// rejected codes, every other status passes through as success.
pub fn classify_get_status(status: u16) -> (r: Result<(), String>)
    ensures
        status == 400 ==> (r matches Err(m) && m@ == "Bad request. Please check the body"@),
        status == 500 ==> (r matches Err(m) && m@
            == "An error occured on the paystack server: please try again"@),
        status != 400 && status != 500 ==> r is Ok,
{
    if status == 400 {
        Err(String::from_str("Bad request. Please check the body"))
    } else if status == 500 {
        Err(String::from_str("An error occured on the paystack server: please try again"))
    } else {
        Ok(())
    }
}

/// Classifies the status code of a POST, PUT or DELETE response: 400
/// and 401 are the rejected codes, every other status passes through
/// as success.
pub fn classify_body_status(status: u16) -> (r: Result<(), String>)
    ensures
        status == 401 ==> (r matches Err(m) && m@
            == "Unauthorized request. please check header values"@),
        status == 400 ==> (r matches Err(m) && m@
            == "Bad request. Please check whatever you're passing in the request. Seems broken"@),
        status != 400 && status != 401 ==> r is Ok,
{
    if status == 401 {
        Err(String::from_str("Unauthorized request. please check header values"))
    } else if status == 400 {
        Err(
            String::from_str(
                "Bad request. Please check whatever you're passing in the request. Seems broken",
            ),
        )
    } else {
        Ok(())
    }
}

} // verus!
