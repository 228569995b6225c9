//! What is shown about an image on request.

use vstd::prelude::*;
use vstd::string::StringExecFns;
use vstd::string::StrSliceExecFns;
use crate::json::decimal_digits;
use crate::json::decimal_text;
use crate::record::text_view;
use crate::record::ImageRecord;
use crate::record::Rating;
use crate::record::RecordView;

verus! {

/// Whether `needle` stands in `s` at offset `at`.
pub open spec fn occurs_at(s: Seq<char>, needle: Seq<char>, at: int) -> bool {
    0 <= at && at + needle.len() <= s.len() && s.subrange(at, at + needle.len()) == needle
}

/// Whether `needle` stands somewhere in `s`.
pub open spec fn contains(s: Seq<char>, needle: Seq<char>) -> bool {
    exists|at: int| occurs_at(s, needle, at)
}

/// Tests whether `needle` stands in `s` at offset `at`.
fn matches_at(s: &str, needle: &str, at: usize) -> (r: bool)
    requires
        at + needle@.len() <= s@.len(),
    ensures
        r == occurs_at(s@, needle@, at as int),
{
    let m = needle.unicode_len();
    let n = s.unicode_len();
    let ghost window = s@.subrange(at as int, at + m);
    let mut j: usize = 0;
    while j < m
        invariant
            j <= m,
            m == needle@.len(),
            n == s@.len(),
            at + m <= n,
            window == s@.subrange(at as int, at + m),
            forall|k: int| 0 <= k < j ==> window[k] == needle@[k],
        decreases m - j,
    {
        if s.get_char(at + j) != needle.get_char(j) {
            assert(window[j as int] != needle@[j as int]);
            return false;
        }
        j = j + 1;
    }
    assert(window =~= needle@);
    true
}

/// Tests whether `needle` stands somewhere in `s`.
pub fn text_contains(s: &str, needle: &str) -> (r: bool)
    ensures
        r == contains(s@, needle@),
{
    let n = s.unicode_len();
    let m = needle.unicode_len();
    if m > n {
        return false;
    }
    let last = n - m;
    let mut at: usize = 0;
    while at < last
        invariant
            at <= last,
            last == n - m,
            m <= n,
            n == s@.len(),
            m == needle@.len(),
            forall|k: int| 0 <= k < at ==> !occurs_at(s@, needle@, k),
        decreases last - at,
    {
        if matches_at(s, needle, at) {
            return true;
        }
        at = at + 1;
    }
    matches_at(s, needle, last)
}

/// The page of a work on the site that numbers its works.
pub open spec fn artwork_page(id: u32) -> Seq<char> {
    "https://pixiv.net/en/artworks/"@ + decimal_digits(id as nat)
}

/// Whether a source points to the site that numbers its works.
pub open spec fn is_numbered_source(source: Seq<char>) -> bool {
    contains(source, "pixiv"@) || contains(source, "pximg"@)
}

/// The source to show for a record: the page of the work where the source
/// points to that site and the work's number is known, else the source as
/// it is; none where the record names none.
pub open spec fn shown_source(record: RecordView) -> Option<Seq<char>> {
    match record.source_url {
        None => None,
        Some(source) => match record.external_id {
            Some(id) => if is_numbered_source(source) {
                Some(artwork_page(id))
            } else {
                Some(source)
            },
            None => Some(source),
        },
    }
}

/// Decides which source to show for a record.
pub fn source_to_show(record: &ImageRecord) -> (r: Option<String>)
    ensures
        text_view(r) == shown_source(record@),
{
    match &record.source_url {
        None => None,
        Some(source) => match record.external_id {
            Some(id) => {
                if text_contains(source.as_str(), "pixiv") || text_contains(
                    source.as_str(),
                    "pximg",
                ) {
                    let mut page = String::from_str("https://pixiv.net/en/artworks/");
                    page.append(decimal_text(id).as_str());
                    Some(page)
                } else {
                    Some(source.clone())
                }
            },
            None => Some(source.clone()),
        },
    }
}

/// The word for a rating; none for one that is unknown.
pub open spec fn rating_word(rating: Rating) -> Option<Seq<char>> {
    match rating {
        Rating::Safe => Some("safe"@),
        Rating::Questionable => Some("questionable"@),
        Rating::Explicit => Some("explicit"@),
        Rating::Unknown => None,
    }
}

/// Names a rating.
pub fn rating_name(rating: Rating) -> (r: Option<String>)
    ensures
        text_view(r) == rating_word(rating),
{
    match rating {
        Rating::Safe => Some(String::from_str("safe")),
        Rating::Questionable => Some(String::from_str("questionable")),
        Rating::Explicit => Some(String::from_str("explicit")),
        Rating::Unknown => None,
    }
}

} // verus!
