//! Credentials for a registry.

use vstd::prelude::*;
use vstd::utf8::encode_utf8;

verus! {

/// The credentials of a registry account.
#[derive(Debug, Clone)]
pub struct Auth {
    pub username: String,
    pub password: String,
    pub email: String,
    pub server_address: Option<String>,
}

/// The base64 text of `bytes`, in the standard alphabet with padding.
pub uninterp spec fn base64_text(bytes: Seq<u8>) -> Seq<char>;

/// Whether base64 can encode `len` bytes: the length of the text must
/// fit in a `usize`.
pub open spec fn encodable(len: nat) -> bool {
    len / 3 * 4 + 4 <= usize::MAX
}

/// `base64::encode`. Believed of it: the text is a function of the bytes
/// alone. It panics where the length of the text overflows, so such
/// inputs are left out.
#[verifier::external_body]
fn encode_base64(input: &[u8]) -> (s: String)
    requires
        encodable(input@.len()),
    ensures
        s@ == base64_text(input@),
{
    base64::encode(input)
}

/// The value of the `X-Registry-Auth` header for the credentials that
/// `auth_json` holds as JSON: its base64 text. None where the text would
/// be too long to hold.
pub fn registry_auth(auth_json: &str) -> (r: Option<String>)
    ensures
        r is Some <==> encodable(encode_utf8(auth_json@).len()),
        r matches Some(s) ==> s@ == base64_text(encode_utf8(auth_json@)),
{
    let bytes = auth_json.as_bytes();
    if bytes.len() / 3 <= (usize::MAX - 4) / 4 {
        Some(encode_base64(bytes))
    } else {
        None
    }
}

} // verus!
