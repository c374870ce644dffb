//! The errors of a load, and the text that reports each.

use vstd::prelude::*;
use vstd::string::StringExecFns;
use crate::ingest::{FileError, HexError, IngestError};

verus! {

/// A field of the remote metadata.
#[derive(Clone, Copy, Debug, PartialEq, Eq, Structural)]
pub enum MetaField {
    /// `sha`: the content digest.
    Sha,
    /// `download_url`: where the file body is.
    DownloadUrl,
    /// `name`: the file name.
    Name,
}

impl MetaField {
    /// The key of the field in the metadata object.
    pub open spec fn spec_key(self) -> Seq<char> {
        match self {
            MetaField::Sha => "sha"@,
            MetaField::DownloadUrl => "download_url"@,
            MetaField::Name => "name"@,
        }
    }

    /// The key of the field in the metadata object.
    pub fn key(&self) -> (r: &'static str)
        ensures
            r@ == self.spec_key(),
    {
        match self {
            MetaField::Sha => "sha",
            MetaField::DownloadUrl => "download_url",
            MetaField::Name => "name",
        }
    }
}

/// Why a sync with the remote host was given up.
#[derive(Clone, Debug)]
pub enum SyncError {
    /// The metadata of a source could not be had: the request failed, the
    /// host refused it, or the answer was no JSON. Holds the detail.
    Fetch(String),
    /// The metadata lacks a field, or the field is no string.
    MissingField(MetaField),
    /// The file body could not be had. Holds the detail.
    Download(String),
    /// The file could not be written to the cache. Holds the detail.
    WriteFile(String),
    /// The digest could not be written to the cache. Holds the detail.
    WriteDigest(String),
}

impl SyncError {
    /// The text that reports the error.
    pub open spec fn spec_message(self) -> Seq<char> {
        match self {
            SyncError::Fetch(detail) => "Failed to fetch data from GitHub: "@ + detail@,
            SyncError::MissingField(field) => "Missing '"@ + field.spec_key()
                + "' field in response"@,
            SyncError::Download(detail) => "Failed to download file: "@ + detail@,
            SyncError::WriteFile(detail) => "Failed to write file: "@ + detail@,
            SyncError::WriteDigest(detail) => "Failed to write SHA file: "@ + detail@,
        }
    }

    /// The text that reports the error.
    pub fn message(&self) -> (r: String)
        ensures
            r@ == self.spec_message(),
    {
        match self {
            SyncError::Fetch(detail) => String::from_str("Failed to fetch data from GitHub: ").concat(
                detail.as_str(),
            ),
            SyncError::MissingField(field) => String::from_str("Missing '").concat(
                field.key(),
            ).concat("' field in response"),
            SyncError::Download(detail) => String::from_str("Failed to download file: ").concat(
                detail.as_str(),
            ),
            SyncError::WriteFile(detail) => String::from_str("Failed to write file: ").concat(
                detail.as_str(),
            ),
            SyncError::WriteDigest(detail) => String::from_str("Failed to write SHA file: ").concat(
                detail.as_str(),
            ),
        }
    }
}

/// The text that reports why a hash token is malformed.
pub open spec fn spec_hex_error_text(kind: HexError) -> Seq<char> {
    match kind {
        HexError::Empty => "cannot parse integer from empty string"@,
        HexError::InvalidDigit => "invalid digit found in string"@,
        HexError::Overflow => "number too large to fit in target type"@,
    }
}

/// The text that reports why a hash token is malformed.
pub fn hex_error_text(kind: HexError) -> (r: &'static str)
    ensures
        r@ == spec_hex_error_text(kind),
{
    match kind {
        HexError::Empty => "cannot parse integer from empty string",
        HexError::InvalidDigit => "invalid digit found in string",
        HexError::Overflow => "number too large to fit in target type",
    }
}

/// The text that reports a line that could not be parsed.
pub open spec fn spec_ingest_message(token: Seq<char>, kind: HexError) -> Seq<char> {
    "Failed to convert hash '"@ + token + "': "@ + spec_hex_error_text(kind)
}

/// The text that reports a line that could not be parsed.
pub fn ingest_message(e: &IngestError) -> (r: String)
    ensures
        r@ == spec_ingest_message(e.token@, e.kind),
{
    String::from_str("Failed to convert hash '").concat(e.token.as_str()).concat("': ").concat(
        hex_error_text(e.kind),
    )
}

/// Why a load failed.
#[derive(Clone, Debug)]
pub enum LoadError {
    /// A load is already under way.
    Busy,
    /// The surroundings failed: the cache directory could not be had or
    /// made, or a table file could not be opened. Holds the report.
    Environment(String),
    /// The sync with the remote host was given up.
    Sync(SyncError),
    /// A table file holds a line that does not parse.
    Parse(FileError),
}

impl LoadError {
    /// The text that reports the error.
    pub open spec fn spec_message(self) -> Seq<char> {
        match self {
            LoadError::Busy => "Hashtables are currently being loaded"@,
            LoadError::Environment(report) => report@,
            LoadError::Sync(e) => e.spec_message(),
            LoadError::Parse(e) => spec_ingest_message(e.error.token@, e.error.kind),
        }
    }

    /// The text that reports the error.
    pub fn message(&self) -> (r: String)
        ensures
            r@ == self.spec_message(),
    {
        match self {
            LoadError::Busy => String::from_str("Hashtables are currently being loaded"),
            LoadError::Environment(report) => report.clone(),
            LoadError::Sync(e) => e.message(),
            LoadError::Parse(e) => ingest_message(&e.error),
        }
    }
}

} // verus!
