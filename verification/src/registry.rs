//! The registry side of a pull: the layer record, the three request targets
//! the engine asks the transport to fetch, the decompression of a layer
//! blob, and the overwrite semantics of applying layers in manifest order.

use vstd::prelude::*;
use vstd::string::*;

verus! {

/// One layer of an image manifest, in the order the registry returned it.
#[derive(Debug, Clone, PartialEq)]
pub struct Layer {
    pub media_type: String,
    pub digest: String,
}

/// The token endpoint, scoped to pull access for `library/<name>`.
pub open spec fn token_url_spec(name: Seq<char>) -> Seq<char> {
    "https://auth.docker.io/token?service=registry.docker.io&scope=repository:library/"@ + name
        + ":pull"@
}

/// The manifest endpoint for `library/<name>` at `tag`.
pub open spec fn manifest_url_spec(name: Seq<char>, tag: Seq<char>) -> Seq<char> {
    "https://registry.hub.docker.com/v2/library/"@ + name + "/manifests/"@ + tag
}

/// The blob endpoint for one layer `digest` of `library/<name>`.
pub open spec fn blob_url_spec(name: Seq<char>, digest: Seq<char>) -> Seq<char> {
    "https://registry.hub.docker.com/v2/library/"@ + name + "/blobs/"@ + digest
}

/// Builds the token endpoint for `name`.
pub fn token_url(name: &str) -> (r: String)
    ensures
        r@ == token_url_spec(name@),
{
    let mut url = String::from_str(
        "https://auth.docker.io/token?service=registry.docker.io&scope=repository:library/",
    );
    url.append(name);
    url.append(":pull");
    url
}

/// Builds the manifest endpoint for `name` at `tag`.
pub fn manifest_url(name: &str, tag: &str) -> (r: String)
    ensures
        r@ == manifest_url_spec(name@, tag@),
{
    let mut url = String::from_str("https://registry.hub.docker.com/v2/library/");
    url.append(name);
    url.append("/manifests/");
    url.append(tag);
    url
}

/// Builds the blob endpoint for one layer `digest` of `name`.
pub fn blob_url(name: &str, digest: &str) -> (r: String)
    ensures
        r@ == blob_url_spec(name@, digest@),
{
    let mut url = String::from_str("https://registry.hub.docker.com/v2/library/");
    url.append(name);
    url.append("/blobs/");
    url.append(digest);
    url
}

/// The manifest media type that must be requested explicitly, lest the
/// registry answer with an older, incompatible schema.
pub open spec fn manifest_accept_spec() -> Seq<char> {
    "application/vnd.docker.distribution.manifest.v2+json"@
}

/// Builds the `Accept` value for a manifest request.
pub fn manifest_accept() -> (r: String)
    ensures
        r@ == manifest_accept_spec(),
{
    String::from_str("application/vnd.docker.distribution.manifest.v2+json")
}

/// The `Authorization` value presenting `token` as a bearer credential.
pub open spec fn bearer_of(token: Seq<char>) -> Seq<char> {
    "Bearer "@ + token
}

/// Builds the `Authorization` value for `token`.
pub fn bearer_header(token: &str) -> (r: String)
    ensures
        r@ == bearer_of(token@),
{
    let mut header = String::from_str("Bearer ");
    header.append(token);
    header
}

/// `data` is a well-formed gzip stream: header, deflate body and trailer
/// all decode to the end without error.
pub uninterp spec fn gzip_wf(data: Seq<u8>) -> bool;

/// The byte stream that a well-formed gzip stream decompresses to; a pure
/// function of the compressed bytes.
pub uninterp spec fn gunzip_of(data: Seq<u8>) -> Seq<u8>;

/// Relies on flate2's `GzDecoder` (read side): both whether decompression
/// of a byte buffer succeeds and what it yields depend on the bytes alone;
/// reading to the end fails exactly on a corrupt stream (bad header, bad
/// deflate data, truncation, or a trailer mismatch).
#[verifier::external_body]
pub fn gunzip(data: &Vec<u8>) -> (r: Option<Vec<u8>>)
    ensures
        r is Some <==> gzip_wf(data@),
        r matches Some(out) ==> out@ == gunzip_of(data@),
{
    let mut decoder = flate2::read::GzDecoder::new(data.as_slice());
    let mut out: Vec<u8> = Vec::new();
    match std::io::Read::read_to_end(&mut decoder, &mut out) {
        Ok(_) => Some(out),
        Err(_) => None,
    }
}

/// The filesystem contents after writing `entries` in order on top of `fs`:
/// each entry binds its path to its content, a later entry overwriting an
/// earlier one at the same path.
pub open spec fn apply_entries(
    fs: Map<Seq<char>, Seq<u8>>,
    entries: Seq<(Seq<char>, Seq<u8>)>,
) -> Map<Seq<char>, Seq<u8>>
    decreases entries.len(),
{
    if entries.len() == 0 {
        fs
    } else {
        apply_entries(fs.insert(entries[0].0, entries[0].1), entries.drop_first())
    }
}

/// Last write wins: if entry `i` is the last one that touches `path`, the
/// extracted tree holds exactly that entry's content at `path` — a layer
/// extracted later overwrites an earlier layer's file at the same path.
pub proof fn lemma_last_write_wins(
    fs: Map<Seq<char>, Seq<u8>>,
    entries: Seq<(Seq<char>, Seq<u8>)>,
    i: int,
)
    requires
        0 <= i < entries.len(),
        forall|j: int| i < j < entries.len() ==> (#[trigger] entries[j]).0 != entries[i].0,
    ensures
        apply_entries(fs, entries).contains_key(entries[i].0),
        apply_entries(fs, entries)[entries[i].0] == entries[i].1,
    decreases entries.len(),
{
    let rest = entries.drop_first();
    if i == 0 {
        if entries.len() == 1 {
        } else {
            lemma_untouched_path_survives(
                fs.insert(entries[0].0, entries[0].1),
                rest,
                entries[0].0,
            );
        }
    } else {
        assert(forall|j: int| i - 1 < j < rest.len() ==> (#[trigger] rest[j]).0 != rest[i - 1].0);
        lemma_last_write_wins(fs.insert(entries[0].0, entries[0].1), rest, i - 1);
    }
}

/// A path no entry touches keeps the content it had before the entries were
/// applied.
pub proof fn lemma_untouched_path_survives(
    fs: Map<Seq<char>, Seq<u8>>,
    entries: Seq<(Seq<char>, Seq<u8>)>,
    path: Seq<char>,
)
    requires
        forall|j: int| 0 <= j < entries.len() ==> (#[trigger] entries[j]).0 != path,
        fs.contains_key(path),
    ensures
        apply_entries(fs, entries).contains_key(path),
        apply_entries(fs, entries)[path] == fs[path],
    decreases entries.len(),
{
    if entries.len() > 0 {
        lemma_untouched_path_survives(
            fs.insert(entries[0].0, entries[0].1),
            entries.drop_first(),
            path,
        );
    }
}

} // verus!
