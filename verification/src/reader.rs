//! Format-dispatching ingestion. A file path's extension — and nothing
//! else — selects the decoder: `csv` and `tsv` go to the delimited-text
//! decoder with the matching field separator, `avro` and `parquet` to
//! the self-describing decoders. The match is case-insensitive (the
//! extension is ASCII-lowercased first); a path with no extension, or
//! one outside the closed set, is rejected before any decoder runs.
//!
//! The decoders themselves open and read the file, so they live with
//! the unverified shell around this library; this module decides which
//! of them may run and with what configuration, and owns the error
//! taxonomy of a failed attempt.

use vstd::prelude::*;
use vstd::string::StringExecFns;
use vstd::string::StrSliceExecFns;

verus! {

/// The closed set of supported on-disk formats, one decoder each.
#[derive(Clone, Copy, Debug, PartialEq, Eq, Structural)]
pub enum Format {
    Csv,
    Tsv,
    Avro,
    Parquet,
}

/// Why an ingestion attempt failed.
#[derive(Clone, Debug, PartialEq, Eq)]
pub enum IngestError {
    /// The path's extension (as written in the path, empty when the
    /// path has none) is outside the supported set. Raised before any
    /// file is opened; not retryable without changing the file.
    UnsupportedFormat(String),
    /// The chosen decoder failed; holds its message verbatim, with no
    /// added context.
    DecodeError(String),
}

/// Number of leading data rows a delimited-text decoder samples to
/// infer the schema.
pub const SCHEMA_SAMPLE_ROWS: usize = 3;

/// Delimited files are decoded with a header row present.
pub const DELIMITED_HAS_HEADER: bool = true;

/// ASCII lowercasing of one character; anything outside `A`..`Z` is
/// left as it is.
pub open spec fn lower_char(c: char) -> char {
    if 65 <= c as u32 && c as u32 <= 90 {
        ((c as u32 + 32) as u8) as char
    } else {
        c
    }
}

/// ASCII lowercasing of a character sequence.
pub open spec fn lower(s: Seq<char>) -> Seq<char> {
    s.map_values(|c: char| lower_char(c))
}

/// Scanning `p[..i]` from the end: the index of the `.` that opens the
/// extension, before any path separator is met. `None` when a `/` (or
/// the start of the path) comes first.
pub open spec fn ext_split(p: Seq<char>, i: int) -> Option<int>
    decreases i,
{
    if i <= 0 {
        None
    } else if p[i - 1] == '/' {
        None
    } else if p[i - 1] == '.' {
        Some(i - 1)
    } else {
        ext_split(p, i - 1)
    }
}

/// The extension of a path: what follows the last `.` of the final
/// path component — unless that dot opens the component (a hidden
/// file has no extension), or the path ends in a separator.
pub open spec fn spec_extension(p: Seq<char>) -> Option<Seq<char>> {
    match ext_split(p, p.len() as int) {
        None => None,
        Some(d) => if d == 0 || p[d - 1] == '/' {
            None
        } else {
            Some(p.subrange(d + 1, p.len() as int))
        },
    }
}

/// What `UnsupportedFormat` reports: the extension as written in the
/// path, or the empty string when the path has none.
pub open spec fn spec_rejected_extension(p: Seq<char>) -> Seq<char> {
    match spec_extension(p) {
        Some(e) => e,
        None => Seq::empty(),
    }
}

/// The format a lowercased extension selects, if any.
pub open spec fn spec_format_of(ext: Seq<char>) -> Option<Format> {
    if ext == "csv"@ {
        Some(Format::Csv)
    } else if ext == "tsv"@ {
        Some(Format::Tsv)
    } else if ext == "avro"@ {
        Some(Format::Avro)
    } else if ext == "parquet"@ {
        Some(Format::Parquet)
    } else {
        None
    }
}

/// The decoder a path dispatches to: a pure function of the
/// lowercased extension.
pub open spec fn spec_dispatch(p: Seq<char>) -> Option<Format> {
    match spec_extension(p) {
        None => None,
        Some(e) => spec_format_of(lower(e)),
    }
}

/// The field separator handed to the delimited-text decoder; the
/// self-describing formats take none.
pub open spec fn spec_separator(f: Format) -> Option<u8> {
    match f {
        Format::Csv => Some(44u8),
        Format::Tsv => Some(9u8),
        Format::Avro => None,
        Format::Parquet => None,
    }
}

/// ASCII lowercasing of one character.
pub fn lower_char_exec(c: char) -> (r: char)
    ensures
        r == lower_char(c),
{
    let u = c as u32;
    if 65 <= u && u <= 90 {
        ((u + 32) as u8) as char
    } else {
        c
    }
}

/// Finds the dot that would open the extension, scanning backwards.
fn find_ext_split(path: &str) -> (r: Option<usize>)
    ensures
        r matches Some(d) ==> ext_split(path@, path@.len() as int) == Some(d as int) && d
            < path@.len(),
        r is None ==> ext_split(path@, path@.len() as int) is None,
{
    let n = path.unicode_len();
    let mut i = n;
    loop
        invariant
            0 <= i <= n,
            n == path@.len(),
            ext_split(path@, n as int) == ext_split(path@, i as int),
        decreases i,
    {
        if i == 0 {
            return None;
        }
        let c = path.get_char(i - 1);
        if c == '/' {
            return None;
        }
        if c == '.' {
            return Some(i - 1);
        }
        i = i - 1;
    }
}

/// The path's extension, as `spec_extension` describes it.
pub fn extension_of(path: &str) -> (r: Option<String>)
    ensures
        r matches Some(s) ==> spec_extension(path@) == Some(s@),
        r is None ==> spec_extension(path@) is None,
{
    let n = path.unicode_len();
    match find_ext_split(path) {
        None => None,
        Some(d) => {
            if d == 0 {
                return None;
            }
            let prev = path.get_char(d - 1);
            if prev == '/' {
                return None;
            }
            let ext = path.substring_char(d + 1, n);
            Some(ext.to_owned())
        },
    }
}

/// True exactly when the ASCII-lowercasing of `s` equals `lit`.
fn matches_lower(s: &str, lit: &str) -> (r: bool)
    ensures
        r == (lower(s@) == lit@),
{
    let n = s.unicode_len();
    let m = lit.unicode_len();
    if n != m {
        assert(lower(s@).len() == s@.len());
        return false;
    }
    let mut i: usize = 0;
    while i < n
        invariant
            0 <= i <= n,
            n == s@.len(),
            n == lit@.len(),
            forall|j: int| 0 <= j < i ==> lower(s@)[j] == lit@[j],
        decreases n - i,
    {
        let c = lower_char_exec(s.get_char(i));
        let d = lit.get_char(i);
        if c != d {
            assert(lower(s@)[i as int] != lit@[i as int]);
            return false;
        }
        i += 1;
    }
    proof {
        assert(lower(s@) =~= lit@);
    }
    true
}

/// Selects the decoder for a path. Succeeds, with exactly one format,
/// if and only if the path has an extension whose lowercasing is one
/// of `csv`, `tsv`, `avro`, `parquet`; otherwise fails with
/// `UnsupportedFormat` naming the extension (empty when the path has
/// none), before any file is opened.
pub fn dispatch(path: &str) -> (r: Result<Format, IngestError>)
    ensures
        spec_dispatch(path@) matches Some(f) ==> r == Ok::<Format, IngestError>(f),
        spec_dispatch(path@) is None ==> (r matches Err(err) && err matches IngestError::UnsupportedFormat(x)
            && x@ == spec_rejected_extension(path@)),
{
    match extension_of(path) {
        None => Err(IngestError::UnsupportedFormat(String::new())),
        Some(e) => {
            if matches_lower(e.as_str(), "csv") {
                Ok(Format::Csv)
            } else if matches_lower(e.as_str(), "tsv") {
                Ok(Format::Tsv)
            } else if matches_lower(e.as_str(), "avro") {
                Ok(Format::Avro)
            } else if matches_lower(e.as_str(), "parquet") {
                Ok(Format::Parquet)
            } else {
                Err(IngestError::UnsupportedFormat(e))
            }
        },
    }
}

/// The field separator for a delimited format: a comma for `csv`, a
/// tab for `tsv`.
pub fn separator(f: Format) -> (s: Option<u8>)
    ensures
        s == spec_separator(f),
{
    match f {
        Format::Csv => Some(44u8),
        Format::Tsv => Some(9u8),
        Format::Avro => None,
        Format::Parquet => None,
    }
}

/// Dispatch succeeds — selecting exactly one decoder, since the
/// chosen format is a function of the path — if and only if the path
/// has an extension whose lowercasing lies in the closed set of
/// supported formats; every other path is rejected before any
/// decoder runs.
pub proof fn lemma_dispatch_closed_set(p: Seq<char>)
    ensures
        spec_dispatch(p) is Some <==> (spec_extension(p) matches Some(e) && (lower(e) == "csv"@
            || lower(e) == "tsv"@ || lower(e) == "avro"@ || lower(e) == "parquet"@)),
{
}

impl IngestError {
    /// The text shown in place of the grid: a decoder's message
    /// verbatim, or the unsupported extension behind a fixed prefix.
    pub open spec fn spec_message(&self) -> Seq<char> {
        match self {
            IngestError::UnsupportedFormat(e) => "unsupported file extension: "@ + e@,
            IngestError::DecodeError(m) => m@,
        }
    }

    /// The user-visible message for this error.
    pub fn message(&self) -> (m: String)
        ensures
            m@ == self.spec_message(),
    {
        match self {
            IngestError::UnsupportedFormat(e) => String::from_str(
                "unsupported file extension: ",
            ).concat(e.as_str()),
            IngestError::DecodeError(msg) => msg.clone(),
        }
    }
}

} // verus!
