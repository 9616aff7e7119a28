//! The answer to a call, before it is read as JSON.

use vstd::prelude::*;
use vstd::utf8::{encode_utf8, valid_utf8};

verus! {

/// The answer to a call: its status and the bytes of its body.
#[derive(Debug, Clone)]
pub struct DockerResponse {
    pub status: u16,
    pub body: Vec<u8>,
}

/// `String::from_utf8` of std. Believed of it: it gives a string exactly
/// for bytes that are valid UTF-8, and the string is made of these bytes.
#[verifier::external_body]
fn text_of_bytes(bytes: Vec<u8>) -> (r: Option<String>)
    ensures
        r is Some <==> valid_utf8(bytes@),
        r matches Some(s) ==> encode_utf8(s@) == bytes@,
{
    String::from_utf8(bytes).ok()
}

impl DockerResponse {
    /// The body as text, where it is valid UTF-8.
    pub fn body_as_string(&self) -> (r: Option<String>)
        ensures
            r is Some <==> valid_utf8(self.body@),
            r matches Some(s) ==> encode_utf8(s@) == self.body@,
    {
        text_of_bytes(self.body.clone())
    }
}

} // verus!
