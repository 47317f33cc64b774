//! The Request Executor's checks, and the request it hands to the HTTP client.
use vstd::prelude::*;
use crate::encode::opt_view;
use crate::error::BridgeError;
use crate::method::HttpMethod;

verus! {

/// One request to send: method, full URL, and a JSON body if any.
#[derive(Debug)]
pub struct ApiRequest {
    pub method: HttpMethod,
    pub url: String,
    /// Already JSON; sent as `application/json` when present.
    pub body: Option<String>,
}

/// The media type of every request body.
pub open spec fn json_media_type() -> Seq<char> {
    "application/json"@
}

impl ApiRequest {
    /// The `Content-Type` header to send: JSON exactly when there is a body.
    pub fn content_type(&self) -> (r: Option<&'static str>)
        ensures
            r is Some <==> self.body is Some,
            r matches Some(t) ==> t@ == json_media_type(),
    {
        match self.body {
            Some(_) => Some("application/json"),
            None => None,
        }
    }
}

/// The view of an optional string slice.
pub open spec fn opt_str_view(o: Option<&str>) -> Option<Seq<char>> {
    match o {
        Some(s) => Some(s@),
        None => None,
    }
}

/// Checks a request before anything is sent: only GET, POST and PUT pass, and
/// the request then carries that method, the URL and the body unchanged.
pub fn prepare(url: &str, method: &str, body: Option<&str>) -> (r: Result<ApiRequest, BridgeError>)
    ensures
        r is Ok <==> (method@ == "GET"@ || method@ == "POST"@ || method@ == "PUT"@),
        r matches Err(e) ==> e is UnsupportedMethod,
        r matches Ok(q) ==> q.method.spec_name() == method@ && q.url@ == url@ && opt_view(q.body)
            == opt_str_view(body),
{
    let m = match HttpMethod::parse(method) {
        Ok(m) => m,
        Err(e) => return Err(e),
    };
    let body = match body {
        Some(b) => Some(String::from_str(b)),
        None => None,
    };
    Ok(ApiRequest { method: m, url: String::from_str(url), body })
}

} // verus!
