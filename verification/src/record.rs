//! The record that both providers' responses are normalised into, and the
//! ways in which a query can fail.

use vstd::prelude::*;
use vstd::string::StringExecFns;
use vstd::string::StrSliceExecFns;
use crate::json::has_prefix;
use crate::json::starts_with;

verus! {

/// The content rating of an image.
#[derive(Clone, Copy, Debug, PartialEq, Eq, Structural)]
pub enum Rating {
    Safe,
    Questionable,
    Explicit,
    Unknown,
}

/// One image, as either provider describes it.
#[derive(Clone, Debug, PartialEq, Eq)]
pub struct ImageRecord {
    pub source_url: Option<String>,
    pub external_id: Option<u32>,
    pub file_url: String,
    pub character_tags: String,
    pub artist_tags: String,
    pub rating: Rating,
    pub width: u32,
    pub height: u32,
    pub all_tags: String,
}

/// What an `ImageRecord` holds, as mathematical values.
pub ghost struct RecordView {
    pub source_url: Option<Seq<char>>,
    pub external_id: Option<u32>,
    pub file_url: Seq<char>,
    pub character_tags: Seq<char>,
    pub artist_tags: Seq<char>,
    pub rating: Rating,
    pub width: u32,
    pub height: u32,
    pub all_tags: Seq<char>,
}

/// The text of an optional string.
pub open spec fn text_view(s: Option<String>) -> Option<Seq<char>> {
    match s {
        Some(text) => Some(text@),
        None => None,
    }
}

impl View for ImageRecord {
    type V = RecordView;

    open spec fn view(&self) -> RecordView {
        RecordView {
            source_url: text_view(self.source_url),
            external_id: self.external_id,
            file_url: self.file_url@,
            character_tags: self.character_tags@,
            artist_tags: self.artist_tags@,
            rating: self.rating,
            width: self.width,
            height: self.height,
            all_tags: self.all_tags@,
        }
    }
}

/// How a query, its response or the selection among its records fails.
#[derive(Clone, Debug, PartialEq, Eq)]
pub enum ResponseError {
    /// The body is markup, not JSON.
    UnexpectedContentKind { status: u16 },
    /// The provider answered with a status that is no success; `message` is
    /// what its failure envelope says, where the body is one.
    ProviderRejected { status: u16, message: Option<String> },
    /// The body is not a JSON array.
    MalformedResponse { detail: String },
    /// The body is an empty array.
    NoResults { status: u16 },
    /// No record has a usable address.
    NoAccessibleResults,
}

/// Whether an HTTP status code is a success.
pub open spec fn is_success(status: u16) -> bool {
    200 <= status < 300
}

/// Tests whether an HTTP status code is a success.
pub fn status_is_success(status: u16) -> (r: bool)
    ensures
        r == is_success(status),
{
    200 <= status && status < 300
}

/// The rating that the first character of `text` stands for; `absent` for
/// the empty text.
pub open spec fn rating_of(text: Seq<char>, absent: Rating) -> Rating {
    if text.len() == 0 {
        absent
    } else if text[0] == 's' {
        Rating::Safe
    } else if text[0] == 'q' {
        Rating::Questionable
    } else if text[0] == 'e' {
        Rating::Explicit
    } else {
        Rating::Unknown
    }
}

/// Reads a rating from the first character of `text`.
pub fn rating_from_text(text: &str, absent: Rating) -> (r: Rating)
    ensures
        r == rating_of(text@, absent),
{
    if text.is_empty() {
        absent
    } else {
        let first = text.get_char(0);
        if first == 's' {
            Rating::Safe
        } else if first == 'q' {
            Rating::Questionable
        } else if first == 'e' {
            Rating::Explicit
        } else {
            Rating::Unknown
        }
    }
}

/// An address made absolute: one that begins with `//` gets `https:` in
/// front, any other stays.
pub open spec fn resolved_url(raw: Seq<char>) -> Seq<char> {
    if has_prefix(raw, "//"@) {
        "https:"@ + raw
    } else {
        raw
    }
}

/// Rewrites a protocol-relative address to `https`.
pub fn resolve_url(raw: String) -> (r: String)
    ensures
        r@ == resolved_url(raw@),
{
    if starts_with(raw.as_str(), "//") {
        let scheme = String::from_str("https:");
        scheme.concat(raw.as_str())
    } else {
        raw
    }
}

/// An absolute address stays as it is once resolved: resolving twice is
/// resolving once.
pub proof fn lemma_resolved_is_absolute(raw: Seq<char>)
    ensures
        !has_prefix(resolved_url(raw), "//"@),
        resolved_url(resolved_url(raw)) == resolved_url(raw),
        has_prefix(raw, "//"@) ==> has_prefix(resolved_url(raw), "https://"@),
{
    reveal_strlit("//");
    reveal_strlit("https:");
    reveal_strlit("https://");
    let out = resolved_url(raw);
    if has_prefix(raw, "//"@) {
        assert(out[0] == 'h');
        assert(raw.take(2)[0] == '/' && raw.take(2)[1] == '/');
        assert(out.take(8) =~= "https://"@);
        if has_prefix(out, "//"@) {
            assert(out.take(2)[0] == '/');
        }
    }
}

} // verus!
