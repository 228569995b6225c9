//! Provider queries and the tag expression they share.

use vstd::prelude::*;
use vstd::string::StrSliceExecFns;

pub mod danbooru;
pub mod safebooru;

verus! {

/// The seconds allowed for a query to a provider.
pub const QUERY_TIMEOUT_SECS: u64 = 15;

/// Whether `c` is a Unicode white-space character.
pub open spec fn is_whitespace(c: char) -> bool {
    let n = c as u32;
    (0x09 <= n <= 0x0d) || n == 0x20 || n == 0x85 || n == 0xa0 || n == 0x1680 || (0x2000 <= n
        <= 0x200a) || n == 0x2028 || n == 0x2029 || n == 0x202f || n == 0x205f || n == 0x3000
}

/// Whether `c` separates two tags: a comma or white space.
pub open spec fn is_delimiter(c: char) -> bool {
    c == ',' || is_whitespace(c)
}

/// The number of white-space characters at the front of `s`.
pub open spec fn leading_whitespace(s: Seq<char>) -> nat
    decreases s.len(),
{
    if s.len() > 0 && is_whitespace(s[0]) {
        1 + leading_whitespace(s.skip(1))
    } else {
        0
    }
}

/// The number of white-space characters at the back of `s`.
pub open spec fn trailing_whitespace(s: Seq<char>) -> nat
    decreases s.len(),
{
    if s.len() > 0 && is_whitespace(s.last()) {
        1 + trailing_whitespace(s.drop_last())
    } else {
        0
    }
}

/// `s` without its leading white space.
pub open spec fn trim_start(s: Seq<char>) -> Seq<char> {
    s.skip(leading_whitespace(s) as int)
}

/// `s` without its leading and trailing white space.
pub open spec fn trimmed(s: Seq<char>) -> Seq<char> {
    let t = trim_start(s);
    t.take(t.len() - trailing_whitespace(t))
}

/// `s` read from the front, with `with` in place of every maximal run of
/// two or more white-space characters. `in_run` says that the character
/// before `s` belonged to such a run: the first character of a run gives
/// `with`, the others nothing.
pub open spec fn replace_runs(s: Seq<char>, in_run: bool, with: Seq<char>) -> Seq<char>
    decreases s.len(),
{
    if s.len() == 0 {
        s
    } else if !is_whitespace(s[0]) {
        seq![s[0]] + replace_runs(s.skip(1), false, with)
    } else if in_run {
        replace_runs(s.skip(1), true, with)
    } else if s.len() >= 2 && is_whitespace(s[1]) {
        with + replace_runs(s.skip(1), true, with)
    } else {
        seq![s[0]] + replace_runs(s.skip(1), false, with)
    }
}

/// `s` with `with` in place of every delimiter.
pub open spec fn replace_delimiters(s: Seq<char>, with: Seq<char>) -> Seq<char>
    decreases s.len(),
{
    if s.len() == 0 {
        s
    } else if is_delimiter(s[0]) {
        with + replace_delimiters(s.skip(1), with)
    } else {
        seq![s[0]] + replace_delimiters(s.skip(1), with)
    }
}

/// The pattern of a run of two or more white-space characters.
pub open spec fn run_pattern() -> Seq<char> {
    "\\s{2,}"@
}

/// The pattern of one delimiter.
pub open spec fn delimiter_pattern() -> Seq<char> {
    "[,\\s]"@
}

/// Whether a replacement stands for itself: it refers to no capture group.
pub open spec fn is_literal(replacement: Seq<char>) -> bool {
    forall|i: int| 0 <= i < replacement.len() ==> #[trigger] replacement[i] != '$'
}

/// The tag expression of a query: trimmed, runs of white space collapsed to
/// one space, every remaining delimiter written as `%20`.
pub open spec fn normalized_tags(s: Seq<char>) -> Seq<char> {
    replace_delimiters(replace_runs(trimmed(s), false, " "@), "%20"@)
}

/// Whether no character of `s` is a delimiter.
pub open spec fn delimiter_free(s: Seq<char>) -> bool {
    forall|i: int| 0 <= i < s.len() ==> !is_delimiter(#[trigger] s[i])
}

/// Calls `str::trim`, which returns the slice without the white space
/// (Unicode `White_Space`) at both ends.
#[verifier::external_body]
fn trim_whitespace(s: &str) -> (r: &str)
    ensures
        r@ == trimmed(s@),
{
    s.trim()
}

/// Calls `str::trim_start`, which returns the slice without the white space
/// (Unicode `White_Space`) at its front.
#[verifier::external_body]
fn trim_leading_whitespace(s: &str) -> (r: &str)
    ensures
        r@ == trim_start(s@),
{
    s.trim_start()
}

/// Whether a response body is markup: its first character after leading
/// white space is `<`.
pub open spec fn looks_like_markup(body: Seq<char>) -> bool {
    let t = trim_start(body);
    t.len() > 0 && t[0] == '<'
}

/// Tests whether a response body is markup rather than JSON.
pub fn is_markup(body: &str) -> (r: bool)
    ensures
        r == looks_like_markup(body@),
{
    let t = trim_leading_whitespace(body);
    !t.is_empty() && t.get_char(0) == '<'
}

/// Calls `regex::Regex::new` and `Regex::replace_all`, for the two patterns
/// that this library uses: every leftmost, longest match of the pattern is
/// replaced and all other text is kept. A replacement with `$` in it, which
/// the crate would expand, is left out, and so is every other pattern.
#[verifier::external_body]
fn replace_all(pattern: &str, text: &str, replacement: &str) -> (r: String)
    requires
        pattern@ == run_pattern() || pattern@ == delimiter_pattern(),
        is_literal(replacement@),
    ensures
        pattern@ == run_pattern() ==> r@ == replace_runs(text@, false, replacement@),
        pattern@ == delimiter_pattern() ==> r@ == replace_delimiters(text@, replacement@),
{
    regex::Regex::new(pattern).unwrap().replace_all(text, replacement).into_owned()
}

/// Normalises a raw tag string into the tag expression of a query.
pub fn reformat_search_tags(tags: String) -> (r: String)
    ensures
        r@ == normalized_tags(tags@),
{
    proof {
        reveal_strlit(" ");
        reveal_strlit("%20");
    }
    let trimmed = trim_whitespace(tags.as_str());
    let collapsed = replace_all("\\s{2,}", trimmed, " ");
    replace_all("[,\\s]", collapsed.as_str(), "%20")
}

/// A delimiter-free string has no white space at either end, so trimming
/// keeps it as it is.
pub proof fn lemma_free_is_trimmed(s: Seq<char>)
    requires
        delimiter_free(s),
    ensures
        leading_whitespace(s) == 0,
        trailing_whitespace(s) == 0,
        trimmed(s) == s,
{
    if s.len() > 0 {
        assert(!is_delimiter(s[0]));
        assert(!is_delimiter(s[s.len() - 1]));
    }
    assert(trim_start(s) =~= s);
    assert(trimmed(s) =~= s);
}

/// Neither replacement changes a delimiter-free string.
pub proof fn lemma_free_fixed(s: Seq<char>, with: Seq<char>)
    requires
        delimiter_free(s),
    ensures
        replace_runs(s, false, with) == s,
        replace_delimiters(s, with) == s,
    decreases s.len(),
{
    if s.len() > 0 {
        assert(!is_delimiter(s[0]));
        let t = s.skip(1);
        assert forall|i: int| 0 <= i < t.len() implies !is_delimiter(#[trigger] t[i]) by {
            assert(t[i] == s[i + 1]);
        }
        lemma_free_fixed(t, with);
        assert(seq![s[0]] + t =~= s);
    }
}

/// Replacing the delimiters by a delimiter-free text leaves none.
pub proof fn lemma_replaced_free(s: Seq<char>, with: Seq<char>)
    requires
        delimiter_free(with),
    ensures
        delimiter_free(replace_delimiters(s, with)),
    decreases s.len(),
{
    if s.len() > 0 {
        lemma_replaced_free(s.skip(1), with);
        let rest = replace_delimiters(s.skip(1), with);
        let out = replace_delimiters(s, with);
        if is_delimiter(s[0]) {
            assert forall|i: int| 0 <= i < out.len() implies !is_delimiter(#[trigger] out[i]) by {
                if i >= with.len() {
                    assert(out[i] == rest[i - with.len()]);
                } else {
                    assert(out[i] == with[i]);
                }
            }
        } else {
            assert forall|i: int| 0 <= i < out.len() implies !is_delimiter(#[trigger] out[i]) by {
                if i >= 1 {
                    assert(out[i] == rest[i - 1]);
                }
            }
        }
    }
}

/// Replacing the delimiters of two texts in a row is replacing them in each.
pub proof fn lemma_replace_concat(x: Seq<char>, y: Seq<char>, with: Seq<char>)
    ensures
        replace_delimiters(x + y, with) == replace_delimiters(x, with) + replace_delimiters(
            y,
            with,
        ),
    decreases x.len(),
{
    if x.len() == 0 {
        assert(x + y =~= y);
        assert(replace_delimiters(x, with) + replace_delimiters(y, with) =~= replace_delimiters(
            y,
            with,
        ));
    } else {
        let s = x + y;
        assert(s[0] == x[0]);
        assert(s.skip(1) =~= x.skip(1) + y);
        lemma_replace_concat(x.skip(1), y, with);
        let head = if is_delimiter(x[0]) {
            with
        } else {
            seq![x[0]]
        };
        assert(replace_delimiters(s, with) =~= head + (replace_delimiters(x.skip(1), with)
            + replace_delimiters(y, with)));
        assert(replace_delimiters(x, with) =~= head + replace_delimiters(x.skip(1), with));
        assert(head + (replace_delimiters(x.skip(1), with) + replace_delimiters(y, with)) =~= (
        head + replace_delimiters(x.skip(1), with)) + replace_delimiters(y, with));
    }
}

/// Whether `x` is a text that trimming keeps: not empty, with no white space
/// at either end.
pub open spec fn is_trimmed(x: Seq<char>) -> bool {
    x.len() > 0 && !is_whitespace(x[0]) && !is_whitespace(x.last())
}

/// Whether every character of `w` is white space.
pub open spec fn all_whitespace(w: Seq<char>) -> bool {
    forall|i: int| 0 <= i < w.len() ==> is_whitespace(#[trigger] w[i])
}

/// Whether `w` separates two tags: white space only, or a single comma.
pub open spec fn is_gap(w: Seq<char>) -> bool {
    w.len() >= 1 && (all_whitespace(w) || w == seq![','])
}

/// Behind a text that does not end in white space, the replacement of runs
/// goes on as if nothing stood before.
pub proof fn lemma_runs_concat(x: Seq<char>, z: Seq<char>, in_run: bool, with: Seq<char>)
    requires
        x.len() > 0,
        !is_whitespace(x.last()),
    ensures
        replace_runs(x + z, in_run, with) == replace_runs(x, in_run, with) + replace_runs(
            z,
            false,
            with,
        ),
    decreases x.len(),
{
    let s = x + z;
    let t = x.skip(1);
    let tail = replace_runs(z, false, with);
    assert(s[0] == x[0]);
    assert(s.skip(1) =~= t + z);
    if t.len() == 0 {
        assert(t + z =~= z);
        assert(replace_runs(t, false, with) =~= Seq::<char>::empty());
        assert(seq![x[0]] + Seq::<char>::empty() + tail =~= seq![x[0]] + tail);
    } else {
        assert(t.last() == x.last());
        assert(s[1] == x[1]);
        if !is_whitespace(x[0]) {
            lemma_runs_concat(t, z, false, with);
            assert(seq![x[0]] + (replace_runs(t, false, with) + tail) =~= seq![x[0]]
                + replace_runs(t, false, with) + tail);
        } else if in_run {
            lemma_runs_concat(t, z, true, with);
        } else if is_whitespace(x[1]) {
            lemma_runs_concat(t, z, true, with);
            assert(with + (replace_runs(t, true, with) + tail) =~= with + replace_runs(
                t,
                true,
                with,
            ) + tail);
        } else {
            lemma_runs_concat(t, z, false, with);
            assert(seq![x[0]] + (replace_runs(t, false, with) + tail) =~= seq![x[0]]
                + replace_runs(t, false, with) + tail);
        }
    }
}

/// Inside a run, the white space that is left of it gives nothing.
pub proof fn lemma_rest_of_run(w: Seq<char>, y: Seq<char>, with: Seq<char>)
    requires
        all_whitespace(w),
        y.len() > 0,
        !is_whitespace(y[0]),
    ensures
        replace_runs(w + y, true, with) == replace_runs(y, false, with),
    decreases w.len(),
{
    let s = w + y;
    if w.len() == 0 {
        assert(s =~= y);
    } else {
        assert(s[0] == w[0]);
        assert(is_whitespace(w[0]));
        let t = w.skip(1);
        assert(s.skip(1) =~= t + y);
        assert forall|i: int| 0 <= i < t.len() implies is_whitespace(#[trigger] t[i]) by {
            assert(t[i] == w[i + 1]);
        }
        lemma_rest_of_run(t, y, with);
    }
}

/// Between two texts that trimming keeps, any run of white space gives
/// exactly one `%20`, and so does a single comma: the two kinds of separator
/// are interchangeable.
pub proof fn lemma_gap_is_one_separator(x: Seq<char>, w: Seq<char>, y: Seq<char>)
    requires
        is_trimmed(x),
        is_trimmed(y),
        is_gap(w),
    ensures
        normalized_tags(x + w + y) == normalized_tags(x) + "%20"@ + normalized_tags(y),
{
    reveal_strlit(" ");
    reveal_strlit("%20");
    let space = " "@;
    let code = "%20"@;
    let s = x + w + y;
    assert(s[0] == x[0]);
    assert(s.last() == y.last());
    assert(trim_start(s) =~= s);
    assert(trimmed(s) =~= s);
    assert(trim_start(x) =~= x);
    assert(trimmed(x) =~= x);
    assert(trim_start(y) =~= y);
    assert(trimmed(y) =~= y);
    let wy = w + y;
    assert(s =~= x + wy);
    lemma_runs_concat(x, wy, false, space);
    assert(wy[0] == w[0]);
    assert(wy.skip(1) =~= w.skip(1) + y);
    let d: Seq<char> = if w.len() >= 2 {
        space
    } else {
        seq![w[0]]
    };
    let rest = replace_runs(y, false, space);
    if all_whitespace(w) {
        assert(is_whitespace(w[0]));
        let t = w.skip(1);
        assert forall|i: int| 0 <= i < t.len() implies is_whitespace(#[trigger] t[i]) by {
            assert(t[i] == w[i + 1]);
        }
        if w.len() >= 2 {
            assert(wy[1] == w[1]);
            assert(is_whitespace(w[1]));
            lemma_rest_of_run(t, y, space);
        } else {
            assert(wy[1] == y[0]);
            assert(t + y =~= y);
        }
    } else {
        assert(w[0] == ',');
        assert(w.skip(1) + y =~= y);
    }
    assert(replace_runs(wy, false, space) == d + rest);
    let front = replace_runs(x, false, space);
    assert(replace_runs(s, false, space) == front + (d + rest));
    assert(d.len() == 1 && is_delimiter(d[0]));
    lemma_replace_concat(front, d + rest, code);
    lemma_replace_concat(d, rest, code);
    assert(d.skip(1) =~= Seq::<char>::empty());
    assert(replace_delimiters(d.skip(1), code) =~= Seq::<char>::empty());
    assert(replace_delimiters(d, code) =~= code);
    assert(replace_delimiters(front, code) + (code + replace_delimiters(rest, code))
        =~= replace_delimiters(front, code) + code + replace_delimiters(rest, code));
}

/// A comma between two texts that trimming keeps gives what a space gives,
/// and what any longer run of white space gives.
pub proof fn lemma_comma_is_space(x: Seq<char>, w: Seq<char>, y: Seq<char>)
    requires
        is_trimmed(x),
        is_trimmed(y),
        w.len() >= 1,
        all_whitespace(w),
    ensures
        normalized_tags(x + seq![','] + y) == normalized_tags(x + seq![' '] + y),
        normalized_tags(x + seq![','] + y) == normalized_tags(x + w + y),
{
    assert(is_whitespace(seq![' '][0]));
    lemma_gap_is_one_separator(x, seq![','], y);
    lemma_gap_is_one_separator(x, seq![' '], y);
    lemma_gap_is_one_separator(x, w, y);
}

/// Normalising a tag expression that is already normalised changes nothing.
pub proof fn lemma_normalize_idempotent(s: Seq<char>)
    ensures
        normalized_tags(normalized_tags(s)) == normalized_tags(s),
{
    reveal_strlit("%20");
    let n = normalized_tags(s);
    assert(delimiter_free("%20"@));
    lemma_replaced_free(replace_runs(trimmed(s), false, " "@), "%20"@);
    lemma_free_is_trimmed(n);
    lemma_free_fixed(n, " "@);
    lemma_free_fixed(n, "%20"@);
}

} // verus!
