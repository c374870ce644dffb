//! The sync of the table files with the remote content host: what to ask
//! for, what to skip, and what to store.

use vstd::prelude::*;
use vstd::string::StringExecFns;
use crate::error::{MetaField, SyncError};
use crate::text::{chars_equal, chars_of};

verus! {

/// What the remote host answered to a request.
#[derive(Clone, Debug)]
pub struct HttpResponse {
    /// The status code.
    pub status: u16,
    /// The status as the client prints it, such as `404 Not Found`.
    pub status_line: String,
    /// The body.
    pub body: Vec<u8>,
}

/// The metadata of a source file on the remote host.
#[derive(Clone, Debug)]
pub struct RemoteMeta {
    /// The content digest of the file's current revision.
    pub digest: String,
    /// Where the file body is.
    pub download_url: String,
    /// The file name.
    pub name: String,
}

/// Metadata as mathematics.
pub struct MetaView {
    pub digest: Seq<char>,
    pub download_url: Seq<char>,
    pub name: Seq<char>,
}

impl View for RemoteMeta {
    type V = MetaView;

    open spec fn view(&self) -> MetaView {
        MetaView { digest: self.digest@, download_url: self.download_url@, name: self.name@ }
    }
}

/// What the cache holds of a source file.
#[derive(Clone, Debug)]
pub struct LocalCopy {
    /// Whether the file is there.
    pub file_exists: bool,
    /// The text of the digest file beside it, where that could be read.
    pub stored_digest: Option<String>,
}

/// The number of remote sources.
pub const SOURCE_COUNT: usize = 3;

/// The metadata address of a source: the bin table first, then the two
/// shards of the game table.
pub open spec fn spec_source_url(index: int) -> Seq<char> {
    if index == 0 {
        "https://api.github.com/repos/CommunityDragon/Data/contents/hashes/lol/hashes.binentries.txt"@
    } else if index == 1 {
        "https://api.github.com/repos/CommunityDragon/Data/contents/hashes/lol/hashes.game.txt.0"@
    } else {
        "https://api.github.com/repos/CommunityDragon/Data/contents/hashes/lol/hashes.game.txt.1"@
    }
}

/// The metadata address of the source with the given index, if there is
/// such a source.
pub fn source_url(index: usize) -> (r: Option<&'static str>)
    ensures
        r is Some == (index < SOURCE_COUNT),
        r matches Some(url) ==> url@ == spec_source_url(index as int),
{
    if index == 0 {
        Some(
            "https://api.github.com/repos/CommunityDragon/Data/contents/hashes/lol/hashes.binentries.txt",
        )
    } else if index == 1 {
        Some("https://api.github.com/repos/CommunityDragon/Data/contents/hashes/lol/hashes.game.txt.0")
    } else if index == 2 {
        Some("https://api.github.com/repos/CommunityDragon/Data/contents/hashes/lol/hashes.game.txt.1")
    } else {
        None
    }
}

/// The header that every request to the remote host carries, as name and
/// value.
pub fn client_header() -> (r: (&'static str, &'static str))
    ensures
        r.0@ == "User-Agent"@,
        r.1@ == "Rust-Client"@,
{
    ("User-Agent", "Rust-Client")
}

/// Whether a status code reports success: 200 to 299.
pub open spec fn spec_is_success(status: u16) -> bool {
    200 <= status < 300
}

/// Tests whether a status code reports success.
pub fn is_success(status: u16) -> (r: bool)
    ensures
        r == spec_is_success(status),
{
    200 <= status && status < 300
}

/// The name of the digest file that is kept beside a source file.
pub open spec fn spec_digest_file_name(name: Seq<char>) -> Seq<char> {
    name + ".sha"@
}

/// The name of the digest file that is kept beside a source file.
pub fn digest_file_name(name: &str) -> (r: String)
    ensures
        r@ == spec_digest_file_name(name@),
{
    String::from_str(name).concat(".sha")
}

/// Whether the cache holds the current revision of a source: the file is
/// there, and the digest stored beside it is the digest that the remote
/// host reports, character for character.
pub open spec fn spec_is_current(
    file_exists: bool,
    stored_digest: Option<Seq<char>>,
    digest: Seq<char>,
) -> bool {
    file_exists && stored_digest == Some(digest)
}

impl LocalCopy {
    /// The stored digest as characters.
    pub open spec fn spec_stored(self) -> Option<Seq<char>> {
        match self.stored_digest {
            Some(s) => Some(s@),
            None => None,
        }
    }

    /// Whether this copy is the revision with the given digest.
    pub open spec fn is_current(self, digest: Seq<char>) -> bool {
        spec_is_current(self.file_exists, self.spec_stored(), digest)
    }
}

/// Decides whether a source has to be downloaded: it has unless the cache
/// holds its current revision.
pub fn needs_download(local: &LocalCopy, digest: &str) -> (r: bool)
    ensures
        r == !local.is_current(digest@),
{
    if !local.file_exists {
        return true;
    }
    match &local.stored_digest {
        Some(stored) => !chars_equal(
            chars_of(stored.as_str()).as_slice(),
            chars_of(digest).as_slice(),
        ),
        None => true,
    }
}

/// A parsed JSON document of `serde_json`.
#[verifier::external_type_specification]
#[verifier::external_body]
pub struct ExJsonValue(serde_json::Value);

/// The error of `serde_json`.
#[verifier::external_type_specification]
#[verifier::external_body]
pub struct ExJsonError(serde_json::Error);

/// What `serde_json` reads from the bytes, as far as the library looks at
/// it: `None` where the bytes are no JSON document, else the members of the
/// document whose values are strings, by key.
pub uninterp spec fn json_members_of(body: Seq<u8>) -> Option<Map<Seq<char>, Seq<char>>>;

/// The members of a JSON object whose values are strings, by key. A
/// document that is no object has none.
pub uninterp spec fn json_string_members(value: serde_json::Value) -> Map<Seq<char>, Seq<char>>;

/// Calls `serde_json::from_slice`. Trusted: whether the result is a
/// document or an error, and what the document holds, depend on the bytes
/// alone.
#[verifier::external_body]
fn parse_json(body: &[u8]) -> (r: Result<serde_json::Value, serde_json::Error>)
    ensures
        match r {
            Ok(value) => json_members_of(body@) == Some(json_string_members(value)),
            Err(_) => json_members_of(body@) is None,
        },
{
    serde_json::from_slice::<serde_json::Value>(body)
}

/// Calls `Display` of `serde_json::Error`. Nothing is claimed of the text.
#[verifier::external_body]
fn json_error_text(e: &serde_json::Error) -> String {
    e.to_string()
}

/// Calls `serde_json::Value::get` with a key, and `as_str` on what it
/// finds. Trusted: the result is the string stored under the key in the
/// object, and `None` where the document is no object, has no such key, or
/// holds something other than a string there.
#[verifier::external_body]
fn json_string_member(value: &serde_json::Value, key: &str) -> (r: Option<String>)
    ensures
        r is Some == json_string_members(*value).contains_key(key@),
        r matches Some(s) ==> s@ == json_string_members(*value)[key@],
{
    value.get(key).and_then(|member| member.as_str()).map(|s| s.to_owned())
}

/// The text of a byte string, as `String::from_utf8_lossy` decodes it.
pub uninterp spec fn lossy_text_of(bytes: Seq<u8>) -> Seq<char>;

/// Calls `String::from_utf8_lossy`. Trusted: the result is the UTF-8 text
/// of the bytes, each invalid sequence replaced by U+FFFD, which depends on
/// the bytes alone.
#[verifier::external_body]
fn lossy_text(bytes: &[u8]) -> (r: String)
    ensures
        r@ == lossy_text_of(bytes@),
{
    String::from_utf8_lossy(bytes).into_owned()
}

/// The text that reports a refused metadata request.
pub open spec fn spec_refusal_text(status_line: Seq<char>, body: Seq<u8>) -> Seq<char> {
    "GitHub API request failed with status "@ + status_line + ": "@ + lossy_text_of(body)
}

/// Reads the answer to a metadata request as a JSON document. A request
/// that failed hands its report on; an answer without a success status is
/// refused with its status and body; a body that is no JSON is refused with
/// the parser's report.
pub fn get_git_data(fetched: Result<HttpResponse, String>) -> (r: Result<serde_json::Value, String>)
    ensures
        match fetched {
            Err(report) => r == Err::<serde_json::Value, String>(report),
            Ok(response) => if !spec_is_success(response.status) {
                &&& r matches Err(report)
                &&& report@ == spec_refusal_text(response.status_line@, response.body@)
            } else {
                match json_members_of(response.body@) {
                    Some(members) => r matches Ok(value) && json_string_members(value) == members,
                    None => r is Err,
                }
            },
        },
{
    match fetched {
        Err(report) => Err(report),
        Ok(response) => {
            if !is_success(response.status) {
                let report = String::from_str("GitHub API request failed with status ").concat(
                    response.status_line.as_str(),
                ).concat(": ").concat(lossy_text(response.body.as_slice()).as_str());
                return Err(report);
            }
            match parse_json(response.body.as_slice()) {
                Ok(value) => Ok(value),
                Err(e) => Err(json_error_text(&e)),
            }
        },
    }
}

/// The string of an optional string.
pub open spec fn spec_chars(s: Option<String>) -> Option<Seq<char>> {
    match s {
        Some(s) => Some(s@),
        None => None,
    }
}

/// The metadata that three optional fields make, or the first field that
/// is missing, in the order digest, address, name.
pub open spec fn spec_meta_from_fields(
    sha: Option<Seq<char>>,
    download_url: Option<Seq<char>>,
    name: Option<Seq<char>>,
) -> Result<MetaView, MetaField> {
    if sha is None {
        Err(MetaField::Sha)
    } else if download_url is None {
        Err(MetaField::DownloadUrl)
    } else if name is None {
        Err(MetaField::Name)
    } else {
        Ok(MetaView { digest: sha.unwrap(), download_url: download_url.unwrap(), name: name.unwrap() })
    }
}

/// Whether `r` is the outcome `expected`: the same metadata, or the error
/// that names the same missing field.
pub open spec fn is_meta_outcome(
    r: Result<RemoteMeta, SyncError>,
    expected: Result<MetaView, MetaField>,
) -> bool {
    match expected {
        Ok(meta) => r matches Ok(m) && m@ == meta,
        Err(field) => r matches Err(SyncError::MissingField(f)) && f == field,
    }
}

/// Puts the metadata together from its three fields, or names the first
/// that is missing.
pub fn remote_meta_from_fields(
    sha: Option<String>,
    download_url: Option<String>,
    name: Option<String>,
) -> (r: Result<RemoteMeta, SyncError>)
    ensures
        is_meta_outcome(
            r,
            spec_meta_from_fields(spec_chars(sha), spec_chars(download_url), spec_chars(name)),
        ),
{
    let digest = match sha {
        Some(s) => s,
        None => { return Err(SyncError::MissingField(MetaField::Sha)); },
    };
    let download_url = match download_url {
        Some(s) => s,
        None => { return Err(SyncError::MissingField(MetaField::DownloadUrl)); },
    };
    let name = match name {
        Some(s) => s,
        None => { return Err(SyncError::MissingField(MetaField::Name)); },
    };
    Ok(RemoteMeta { digest, download_url, name })
}

/// The string stored under the key of a metadata field, if any.
pub open spec fn spec_member(members: Map<Seq<char>, Seq<char>>, field: MetaField) -> Option<
    Seq<char>,
> {
    if members.contains_key(field.spec_key()) {
        Some(members[field.spec_key()])
    } else {
        None
    }
}

/// The metadata that the string members of a JSON object make: `sha` is
/// the digest, `download_url` the address, `name` the file name.
pub open spec fn spec_remote_meta(members: Map<Seq<char>, Seq<char>>) -> Result<
    MetaView,
    MetaField,
> {
    spec_meta_from_fields(
        spec_member(members, MetaField::Sha),
        spec_member(members, MetaField::DownloadUrl),
        spec_member(members, MetaField::Name),
    )
}

/// Reads the metadata of a source from the JSON document that the remote
/// host sent.
pub fn remote_meta(value: &serde_json::Value) -> (r: Result<RemoteMeta, SyncError>)
    ensures
        is_meta_outcome(r, spec_remote_meta(json_string_members(*value))),
{
    let sha = json_string_member(value, MetaField::Sha.key());
    let download_url = json_string_member(value, MetaField::DownloadUrl.key());
    let name = json_string_member(value, MetaField::Name.key());
    remote_meta_from_fields(sha, download_url, name)
}

/// Reads the answer to a metadata request as the metadata of a source.
/// Whatever goes wrong before the fields are read is a failed fetch.
pub fn fetch_outcome(fetched: Result<HttpResponse, String>) -> (r: Result<RemoteMeta, SyncError>)
    ensures
        match fetched {
            Err(report) => r matches Err(SyncError::Fetch(detail)) && detail == report,
            Ok(response) => if !spec_is_success(response.status) {
                &&& r matches Err(SyncError::Fetch(detail))
                &&& detail@ == spec_refusal_text(response.status_line@, response.body@)
            } else {
                match json_members_of(response.body@) {
                    Some(members) => is_meta_outcome(r, spec_remote_meta(members)),
                    None => r matches Err(SyncError::Fetch(_)),
                }
            },
        },
{
    match get_git_data(fetched) {
        Err(report) => Err(SyncError::Fetch(report)),
        Ok(value) => remote_meta(&value),
    }
}

/// The text that reports a refused download.
pub open spec fn spec_download_refusal_text(status_line: Seq<char>) -> Seq<char> {
    "Failed to download file: "@ + status_line
}

/// Reads the answer to a download request as the file body. A request that
/// failed hands its report on; an answer without a success status is
/// refused with its status.
pub fn download_file(fetched: Result<HttpResponse, String>) -> (r: Result<Vec<u8>, String>)
    ensures
        match fetched {
            Err(report) => r == Err::<Vec<u8>, String>(report),
            Ok(response) => if spec_is_success(response.status) {
                r == Ok::<Vec<u8>, String>(response.body)
            } else {
                &&& r matches Err(report)
                &&& report@ == spec_download_refusal_text(response.status_line@)
            },
        },
{
    match fetched {
        Err(report) => Err(report),
        Ok(response) => {
            if !is_success(response.status) {
                return Err(
                    String::from_str("Failed to download file: ").concat(
                        response.status_line.as_str(),
                    ),
                );
            }
            Ok(response.body)
        },
    }
}

} // verus!
