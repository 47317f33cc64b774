//! The failures an operation can end in, and the text each one surfaces.
use vstd::prelude::*;

verus! {

/// Why an operation did not produce its result.
#[derive(Debug)]
pub enum BridgeError {
    /// The request named a method other than GET, POST or PUT; nothing was sent.
    UnsupportedMethod,
    /// The request could not be carried out or its body not read.
    Transport(String),
    /// The response body does not have the expected shape.
    Decode(String),
}

/// Text of an unsupported-method failure.
pub open spec fn unsupported_text() -> Seq<char> {
    "Unsupported HTTP method"@
}

/// What precedes the decoder's own description of a shape mismatch.
pub open spec fn decode_prefix() -> Seq<char> {
    "invalid response body: "@
}

impl BridgeError {
    /// The text handed to the UI for this failure.
    pub open spec fn spec_message(&self) -> Seq<char> {
        match self {
            BridgeError::UnsupportedMethod => unsupported_text(),
            BridgeError::Transport(m) => m@,
            BridgeError::Decode(m) => decode_prefix() + m@,
        }
    }

    /// Renders the failure as the single string the UI receives.
    pub fn message(&self) -> (r: String)
        ensures
            r@ == self.spec_message(),
    {
        match self {
            BridgeError::UnsupportedMethod => String::from_str("Unsupported HTTP method"),
            BridgeError::Transport(m) => m.clone(),
            BridgeError::Decode(m) => {
                let mut r = String::from_str("invalid response body: ");
                r.append(m.as_str());
                r
            },
        }
    }

    /// A transport failure carrying the client's own description.
    pub fn transport(m: String) -> (r: BridgeError)
        ensures
            r == BridgeError::Transport(m),
    {
        BridgeError::Transport(m)
    }
}

/// A response that fails to decode always yields a non-empty message, and one
/// that cannot be mistaken for the unsupported-method message.
pub proof fn decode_message_is_distinct(e: BridgeError)
    requires
        e is Decode,
    ensures
        e.spec_message().len() > 0,
        e.spec_message() != BridgeError::UnsupportedMethod.spec_message(),
{
    reveal_strlit("invalid response body: ");
    reveal_strlit("Unsupported HTTP method");
    let m = e.spec_message();
    assert(m[0] == 'i');
    assert(unsupported_text()[0] == 'U');
}

} // verus!
