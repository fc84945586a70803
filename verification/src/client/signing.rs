//! Signing of requests: the headers that the FoxESS Open API expects,
//! among them an MD5 signature of the path, the API key and the timestamp.

use vstd::prelude::*;
use md5::{Digest, Md5};
use crate::text::{hex_lower, i64_to_decimal, signed_decimal, to_hex_lower};

verus! {

/// The MD5 digest that the `md-5` crate computes of the UTF-8 bytes of a text.
pub uninterp spec fn md5_digest_of(text: Seq<char>) -> Seq<u8>;

/// Computes the MD5 digest of the UTF-8 bytes of `text` with the `md-5`
/// crate (`Md5::new`, `update`, `finalize`).
///
/// The contract names the digest [`md5_digest_of`] of the text, and states
/// its length of 16 bytes, which `Md5`'s output size fixes.
#[verifier::external_body]
pub fn md5_digest(text: &str) -> (r: Vec<u8>)
    ensures
        r@ == md5_digest_of(text@),
        r@.len() == 16,
{
    let mut hasher = Md5::new();
    hasher.update(text.as_bytes());
    hasher.finalize().to_vec()
}

/// The text that is signed: the path, the API key and the timestamp, joined by
/// the four characters `\r\n` (a backslash, `r`, a backslash, `n`).
pub open spec fn signature_text(path: Seq<char>, api_key: Seq<char>, timestamp_millis: i64) -> Seq<char> {
    path + "\\r\\n"@ + api_key + "\\r\\n"@ + signed_decimal(timestamp_millis as int)
}

/// The signature of a request: the lowercase hexadecimal MD5 digest of its
/// signature text.
pub open spec fn signature_of(path: Seq<char>, api_key: Seq<char>, timestamp_millis: i64) -> Seq<char> {
    hex_lower(md5_digest_of(signature_text(path, api_key, timestamp_millis)))
}

/// Computes the signature of a request.
pub fn sign(path: &str, api_key: &str, timestamp_millis: i64) -> (r: String)
    ensures
        r@ == signature_of(path@, api_key@, timestamp_millis),
{
    let mut text = String::new();
    text.append(path);
    text.append("\\r\\n");
    text.append(api_key);
    text.append("\\r\\n");
    text.append(i64_to_decimal(timestamp_millis).as_str());
    assert(text@ =~= signature_text(path@, api_key@, timestamp_millis));
    let digest = md5_digest(text.as_str());
    to_hex_lower(digest.as_slice())
}

/// The names and values of a list of headers.
pub open spec fn headers_view(h: Seq<(String, String)>) -> Seq<(Seq<char>, Seq<char>)> {
    h.map_values(|p: (String, String)| (p.0@, p.1@))
}

/// The names and values of a list of extra headers.
pub open spec fn extra_view(h: Seq<(&str, &str)>) -> Seq<(Seq<char>, Seq<char>)> {
    h.map_values(|p: (&str, &str)| (p.0@, p.1@))
}

/// The headers required by the Fox Open API: the token, the timestamp, the
/// signature and the language, followed by any extra headers.
pub open spec fn fox_headers(api_key: Seq<char>, path: Seq<char>, timestamp_millis: i64,
    extra: Seq<(Seq<char>, Seq<char>)>) -> Seq<(Seq<char>, Seq<char>)>
{
    seq![
        ("token"@, api_key),
        ("timestamp"@, signed_decimal(timestamp_millis as int)),
        ("signature"@, signature_of(path, api_key, timestamp_millis)),
        ("lang"@, "en"@),
    ] + extra
}

/// Generates the HTTP headers required by the Fox Open API, as name and value pairs.
///
/// This includes building an MD5 hashed signature.
///
/// # Arguments
/// * `api_key` - The FoxESS API Key.
/// * `path` - The API path, excluding the domain.
/// * `timestamp_millis` - The current timestamp in milliseconds.
/// * `extra` - Any extra headers to add.
pub fn generate_headers(api_key: &str, path: &str, timestamp_millis: i64, extra: Option<Vec<(&str, &str)>>)
    -> (r: Vec<(String, String)>)
    ensures
        headers_view(r@) == fox_headers(api_key@, path@, timestamp_millis,
            match extra { Some(e) => extra_view(e@), None => Seq::empty() }),
{
    let mut headers: Vec<(String, String)> = Vec::new();
    headers.push(("token".to_owned(), api_key.to_owned()));
    headers.push(("timestamp".to_owned(), i64_to_decimal(timestamp_millis)));
    headers.push(("signature".to_owned(), sign(path, api_key, timestamp_millis)));
    headers.push(("lang".to_owned(), "en".to_owned()));
    let ghost base = headers@;
    assert(headers_view(base) =~= fox_headers(api_key@, path@, timestamp_millis, Seq::empty()));
    match extra {
        Some(h) => {
            let mut i: usize = 0;
            while i < h.len()
                invariant
                    i <= h@.len(),
                    headers@.len() == base.len() + i,
                    headers_view(headers@) =~= headers_view(base) + extra_view(h@).take(i as int),
                decreases h@.len() - i,
            {
                let (k, v) = h[i];
                let ghost prev = headers@;
                headers.push((k.to_owned(), v.to_owned()));
                proof {
                    assert(headers_view(headers@) =~= headers_view(prev).push((k@, v@)));
                    assert(extra_view(h@).take(i + 1) =~= extra_view(h@).take(i as int).push((k@, v@)));
                }
                i = i + 1;
            }
            assert(extra_view(h@).take(h@.len() as int) =~= extra_view(h@));
        },
        None => {},
    }
    headers
}

} // verus!
