//! Remote-provisioning primitives.
//!
//! The provisioning chain itself — when to fetch, what is fatal, where the
//! archive lands — is the resolver's transition function. This module holds
//! the two computations delegated to outside crates, behind trusted
//! wrappers, and the verified choice of the unpacked top-level directory.

use std::io::Read;
use vstd::prelude::*;

verus! {

/// The tarball-download URL held by a release-metadata document: `Some`
/// exactly when the text is a JSON object whose `tarball_url` field is a
/// string, and then that string.
pub uninterp spec fn tarball_url_of(body: Seq<char>) -> Option<Seq<char>>;

/// Relies on `serde_json::from_str`, `Value::get` and `Value::as_str`:
/// parsing is a function of the text alone, and the extraction yields the
/// `tarball_url` string field if and only if the document has one.
#[verifier::external_body]
pub fn extract_tarball_url(body: &str) -> (r: Option<String>)
    ensures
        match r {
            Some(u) => tarball_url_of(body@) == Some(u@),
            None => tarball_url_of(body@) is None,
        },
{
    let parsed: serde_json::Value = match serde_json::from_str(body) {
        Ok(v) => v,
        Err(_) => return None,
    };
    match parsed.get("tarball_url").and_then(|t| t.as_str()) {
        Some(u) => Some(u.to_string()),
        None => None,
    }
}

/// What a gzip stream decompresses to: `Some` of the decompressed bytes
/// exactly when the input is a well-formed gzip stream, a function of the
/// bytes alone.
pub uninterp spec fn gunzip_of(data: Seq<u8>) -> Option<Seq<u8>>;

/// Relies on `flate2::read::GzDecoder`: decompression is a function of the
/// input bytes alone, and fails exactly on a malformed stream.
#[verifier::external_body]
pub fn gunzip(data: &Vec<u8>) -> (r: Option<Vec<u8>>)
    ensures
        match r {
            Some(t) => gunzip_of(data@) == Some(t@),
            None => gunzip_of(data@) is None,
        },
{
    let mut decoder = flate2::read::GzDecoder::new(&data[..]);
    let mut out: Vec<u8> = Vec::new();
    match decoder.read_to_end(&mut out) {
        Ok(_) => Some(out),
        Err(_) => None,
    }
}

/// Picks the top-level directory the unpack produced. Archive producers are
/// assumed to wrap all content in exactly one directory; the first listed
/// directory wins.
pub fn pick_extracted_dir(top_dirs: &Vec<String>) -> (r: Option<String>)
    ensures
        (r is Some) == (top_dirs.deep_view().len() > 0),
        r matches Some(d) ==> d@ == top_dirs.deep_view()[0],
{
    if top_dirs.len() == 0 {
        None
    } else {
        Some(top_dirs[0].clone())
    }
}

} // verus!
