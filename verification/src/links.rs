use base64::engine::general_purpose::URL_SAFE;
use base64::Engine;
use vstd::prelude::*;
use vstd::string::StringSliceAdditionalSpecFns;
use vstd::utf8::{decode_utf8, encode_utf8, valid_utf8};

verus! {

/// The URL-safe, padded base64 text of some bytes.
pub uninterp spec fn url_safe_base64(bytes: Seq<u8>) -> Seq<char>;

/// The bytes a URL-safe, padded base64 text stands for, if it is one.
pub uninterp spec fn url_safe_base64_decoded(text: Seq<char>) -> Option<Seq<u8>>;

/// Calls `base64`'s `URL_SAFE.encode`. Its result is named
/// [`url_safe_base64`]; nothing more is claimed of it.
#[verifier::external_body]
fn url_safe_encode(bytes: &[u8]) -> (r: String)
    ensures
        r@ == url_safe_base64(bytes@),
{
    URL_SAFE.encode(bytes)
}

/// Calls `base64`'s `URL_SAFE.decode`, an error read as `None`. Its result is
/// named [`url_safe_base64_decoded`]; beyond that it is claimed that decoding
/// the encoding of some bytes gives those bytes back, which the crate's round
/// trip tests check.
#[verifier::external_body]
fn url_safe_decode(text: &str) -> (r: Option<Vec<u8>>)
    ensures
        match r {
            Some(v) => url_safe_base64_decoded(text@) == Some(v@),
            None => url_safe_base64_decoded(text@) is None,
        },
        forall|b: Seq<u8>| text@ == url_safe_base64(b) ==> r.is_some() && r.unwrap()@ == b,
{
    URL_SAFE.decode(text.as_bytes()).ok()
}

/// Calls `String::from_utf8`, an error read as `None`. As std documents it,
/// the bytes are accepted exactly when they are valid UTF-8, and the string
/// holds the characters they encode.
#[verifier::external_body]
fn string_from_utf8(bytes: Vec<u8>) -> (r: Option<String>)
    ensures
        r.is_some() == valid_utf8(bytes@),
        r.is_some() ==> r.unwrap()@ == decode_utf8(bytes@),
{
    String::from_utf8(bytes).ok()
}

/// The argument that names a query in the links of the query table: the
/// URL-safe base64 text of the query's UTF-8 bytes.
pub fn query_link_argument(query: &str) -> (r: String)
    ensures
        r@ == url_safe_base64(encode_utf8(query@)),
{
    url_safe_encode(query.as_bytes())
}

/// The query text a link argument names. `None` where the argument is no
/// URL-safe base64 text or its bytes are no UTF-8. The argument of a query's
/// link gives that query back.
pub fn query_from_link_argument(arg: &str) -> (r: Option<String>)
    ensures
        match url_safe_base64_decoded(arg@) {
            None => r is None,
            Some(b) => (valid_utf8(b) ==> (r matches Some(s) && s@ == decode_utf8(b))) && (!valid_utf8(
                b,
            ) ==> r is None),
        },
        forall|q: Seq<char>|
            arg@ == url_safe_base64(encode_utf8(q)) ==> (r matches Some(s) && s@ == q),
{
    match url_safe_decode(arg) {
        Some(bytes) => {
            let ghost b = bytes@;
            let r = string_from_utf8(bytes);
            proof {
                assert forall|q: Seq<char>| arg@ == url_safe_base64(encode_utf8(q)) implies (r matches Some(
                    s,
                ) && s@ == q) by {
                    assert(b == encode_utf8(q));
                    vstd::utf8::encode_utf8_valid_utf8(q);
                    vstd::utf8::encode_utf8_decode_utf8(q);
                }
            }
            r
        },
        None => None,
    }
}

} // verus!
