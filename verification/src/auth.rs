use vstd::prelude::*;
use vstd::string::{StrSliceExecFns, StringExecFns};
use vstd::utf8::encode_utf8;

use crate::digest::{b64_encode, base64_of};

verus! {

/// An HTTP basic-authentication header value: the base64 rendering of
/// `username:password`, prefixed with the scheme name.
pub fn make_basic_auth_header(username: &str, password: &str) -> (r: String)
    ensures
        r@ == "Basic "@ + base64_of(encode_utf8(username@ + ":"@ + password@)),
{
    let mut raw = username.to_owned();
    raw.append(":");
    raw.append(password);
    let bytes = raw.as_str().as_bytes_vec();
    let encoded = b64_encode(&bytes);
    let mut out = "Basic ".to_owned();
    out.append(encoded.as_str());
    out
}

} // verus!
