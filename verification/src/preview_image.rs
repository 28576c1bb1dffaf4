//! The preview pictures of articles and the names of their cached copies.

use vstd::prelude::*;
use vstd::string::*;
use vstd::utf8::encode_utf8;

use crate::text::hex_lower;
use crate::web::{parse_url, parsed_url};

verus! {

/// The SHA-1 digest of some bytes.
pub uninterp spec fn sha1_digest(data: Seq<u8>) -> Seq<u8>;

/// The SHA-1 digest of `data` (`Sha1::digest` of the `sha1` crate); a digest
/// has twenty bytes.
#[verifier::external_body]
fn sha1(data: &[u8]) -> (r: Vec<u8>)
    ensures
        r@ == sha1_digest(data@),
        r@.len() == 20,
{
    <sha1::Sha1 as sha1::Digest>::digest(data).to_vec()
}

/// The lower-case hexadecimal text of `data` (`base16ct::lower::encode_string`),
/// which panics on inputs longer than `usize::MAX / 2`.
#[verifier::external_body]
fn hex_encode_lower(data: &[u8]) -> (r: String)
    requires
        data@.len() <= usize::MAX / 2,
    ensures
        r@ == hex_lower(data@),
{
    base16ct::lower::encode_string(data)
}

/// The name of the cached copy of the picture at `path`: the hexadecimal
/// SHA-1 digest of the path's UTF-8 bytes.
pub open spec fn cache_name(path: Seq<char>) -> Seq<char> {
    hex_lower(sha1_digest(encode_utf8(path)))
}

/// A preview picture: its URL and the file name of its cached copy in the
/// cache directory.
pub struct PreviewImage {
    pub url: String,
    pub cache: String,
}

impl PreviewImage {
    /// The preview picture at `url`.
    pub fn new(url: String) -> (r: Self)
        ensures
            r.url@ == url@,
            r.cache@ == cache_name(url@),
    {
        let cache = PreviewImage::get_cache_of(url.as_str());
        Self { url, cache }
    }

    /// The preview picture at the address `text`, when it parses as a URL;
    /// the URL is kept as the parser writes it.
    pub fn from_address(text: &str) -> (r: Option<Self>)
        ensures
            r is Some <==> parsed_url(text@) is Some,
            r matches Some(p) ==> p.url@ == parsed_url(text@)->0 && p.cache@ == cache_name(
                p.url@,
            ),
    {
        match parse_url(text) {
            Some(url) => Some(PreviewImage::new(url)),
            None => None,
        }
    }

    /// The file name under which the picture at `path` is cached.
    pub fn get_cache_of(path: &str) -> (r: String)
        ensures
            r@ == cache_name(path@),
    {
        let hash = sha1(path.as_bytes());
        hex_encode_lower(hash.as_slice())
    }
}

} // verus!
