//! The HTTP methods a request may use.
use vstd::prelude::*;
use crate::error::BridgeError;
use crate::text::same_text;

verus! {

/// One of the three methods the backend is spoken to with.
#[derive(Debug, Clone, Copy, PartialEq, Eq, Structural)]
pub enum HttpMethod {
    Get,
    Post,
    Put,
}

impl HttpMethod {
    /// The method's name on the wire.
    pub open spec fn spec_name(self) -> Seq<char> {
        match self {
            HttpMethod::Get => "GET"@,
            HttpMethod::Post => "POST"@,
            HttpMethod::Put => "PUT"@,
        }
    }

    pub fn name(&self) -> (r: &'static str)
        ensures
            r@ == self.spec_name(),
    {
        match self {
            HttpMethod::Get => "GET",
            HttpMethod::Post => "POST",
            HttpMethod::Put => "PUT",
        }
    }

    /// Reads a method name; any name but GET, POST and PUT is refused.
    pub fn parse(s: &str) -> (r: Result<HttpMethod, BridgeError>)
        ensures
            r is Ok <==> (s@ == "GET"@ || s@ == "POST"@ || s@ == "PUT"@),
            r matches Ok(m) ==> m.spec_name() == s@,
            r matches Err(e) ==> e is UnsupportedMethod,
    {
        if same_text(s, "GET") {
            Ok(HttpMethod::Get)
        } else if same_text(s, "POST") {
            Ok(HttpMethod::Post)
        } else if same_text(s, "PUT") {
            Ok(HttpMethod::Put)
        } else {
            Err(BridgeError::UnsupportedMethod)
        }
    }
}

} // verus!
