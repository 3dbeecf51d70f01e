//! Names for downloaded files: a conservative filename sanitizer and the
//! rule that names a download after its URL.
use vstd::prelude::*;

use crate::text::{
    lemma_split_nonempty,
    lemma_trim_no_ws, push_char, split_char, split_spec, str_eq, strip_prefix, strip_prefix_spec,
    trim, trim_char, trim_char_end, trim_char_spec, trim_char_start, trim_spec, is_ws,
};

verus! {

/// Characters a filename keeps: ASCII letters and digits, `-`, `_`, `.`.
pub open spec fn is_safe_char(c: char) -> bool {
    ||| ('a' <= c && c <= 'z')
    ||| ('A' <= c && c <= 'Z')
    ||| ('0' <= c && c <= '9')
    ||| c == '-'
    ||| c == '_'
    ||| c == '.'
}

pub open spec fn clean_char(c: char) -> char {
    if is_safe_char(c) {
        c
    } else {
        '_'
    }
}

/// Longest name the sanitizer returns, in characters.
pub const MAX_NAME_CHARS: usize = 120;

/// Every unsafe character replaced by `_`, dots trimmed from both ends,
/// `download` when nothing is left, at most [`MAX_NAME_CHARS`] characters.
pub open spec fn sanitize_spec(text: Seq<char>) -> Seq<char> {
    let clean = text.map_values(|c: char| clean_char(c));
    let trimmed = trim_spec(trim_char_spec(clean, '.'));
    if trimmed.len() == 0 {
        "download"@
    } else if trimmed.len() <= MAX_NAME_CHARS {
        trimmed
    } else {
        trimmed.take(MAX_NAME_CHARS as int)
    }
}

/// A URL as far as download naming reads it: its path and raw query.
pub struct UrlParts {
    pub path: String,
    pub query: Option<String>,
}

impl View for UrlParts {
    type V = (Seq<char>, Option<Seq<char>>);

    open spec fn view(&self) -> (Seq<char>, Option<Seq<char>>) {
        (self.path@, self.query.deep_view())
    }
}

/// The value of the first pair whose key is `key`.
pub open spec fn first_value_of(pairs: Seq<(Seq<char>, Seq<char>)>, key: Seq<char>) -> Option<
    Seq<char>,
>
    decreases pairs.len(),
{
    if pairs.len() == 0 {
        None
    } else if pairs[0].0 == key {
        Some(pairs[0].1)
    } else {
        first_value_of(pairs.drop_first(), key)
    }
}

/// Name of a session export: `dsh-session-<id>.zip`, the id sanitized and
/// taken from the first `sessionId` query pair (empty when none).
pub open spec fn session_export_name_spec(pairs: Seq<(Seq<char>, Seq<char>)>) -> Seq<char> {
    let id = match first_value_of(pairs, "sessionId"@) {
        Some(v) => v,
        None => Seq::empty(),
    };
    "dsh-session-"@ + sanitize_spec(id) + ".zip"@
}

/// The last `/`-separated path segment (`Url::path_segments().next_back()`),
/// empty when the path does not start with `/`.
pub open spec fn last_segment_spec(path: Seq<char>) -> Seq<char> {
    match strip_prefix_spec(path, "/"@) {
        Some(rest) => split_spec(rest, '/').last(),
        None => Seq::empty(),
    }
}

/// Name of any other download: its sanitized last path segment, or
/// `download.bin` when that says nothing.
pub open spec fn path_download_name_spec(path: Seq<char>) -> Seq<char> {
    let base = sanitize_spec(last_segment_spec(path));
    if base == "download"@ || base.len() == 0 {
        "download.bin"@
    } else {
        base
    }
}

pub open spec fn is_session_export(path: Seq<char>) -> bool {
    path == "/api/session.export"@
}

/// Pairs of an `application/x-www-form-urlencoded` query, decoded.
pub uninterp spec fn decoded_query_pairs(query: Seq<char>) -> Seq<(Seq<char>, Seq<char>)>;

/// Path and query of the URL `text`, when `text` parses as one.
pub uninterp spec fn parsed_url(text: Seq<char>) -> Option<(Seq<char>, Option<Seq<char>>)>;

/// The filename a download from a URL with these parts gets.
pub open spec fn download_filename_spec(path: Seq<char>, query: Option<Seq<char>>) -> Seq<char> {
    if is_session_export(path) {
        let pairs = match query {
            Some(q) => decoded_query_pairs(q),
            None => Seq::empty(),
        };
        session_export_name_spec(pairs)
    } else {
        path_download_name_spec(path)
    }
}

// ---------------------------------------------------------------------------
// Trusted calls into the `url` crate
// ---------------------------------------------------------------------------

/// Calls `url::form_urlencoded::parse` on the query's bytes and collects the
/// decoded pairs in order. Claimed: the pairs are a function of the query
/// text alone.
#[verifier::external_body]
fn query_pairs(query: &str) -> (r: Vec<(String, String)>)
    ensures
        r.deep_view() == decoded_query_pairs(query@),
{
    url::form_urlencoded::parse(query.as_bytes()).map(|(k, v)| (k.into_owned(), v.into_owned())).collect()
}

/// Calls `url::Url::parse`, then reads `Url::path` and `Url::query` of the
/// result. Claimed: the outcome is a function of the text alone.
#[verifier::external_body]
fn parse_url(text: &str) -> (r: Option<UrlParts>)
    ensures
        r matches Some(u) ==> parsed_url(text@) == Some(u@),
        r is None ==> parsed_url(text@) is None,
{
    match url::Url::parse(text) {
        Ok(u) => Some(UrlParts { path: u.path().to_string(), query: u.query().map(|q| q.to_string()) }),
        Err(_) => None,
    }
}

// ---------------------------------------------------------------------------
// Proofs
// ---------------------------------------------------------------------------

proof fn lemma_trim_char_start_sub(s: Seq<char>, c: char) -> (k: int)
    ensures
        0 <= k <= s.len(),
        trim_char_start(s, c) == s.skip(k),
        k < s.len() ==> s[k] != c,
    decreases s.len(),
{
    if s.len() > 0 && s[0] == c {
        let k0 = lemma_trim_char_start_sub(s.drop_first(), c);
        assert(s.drop_first().skip(k0) =~= s.skip(k0 + 1));
        k0 + 1
    } else {
        assert(s.skip(0) =~= s);
        0
    }
}

proof fn lemma_trim_char_end_sub(s: Seq<char>, c: char) -> (k: int)
    ensures
        0 <= k <= s.len(),
        trim_char_end(s, c) == s.take(k),
        k > 0 ==> s[k - 1] != c,
    decreases s.len(),
{
    if s.len() > 0 && s.last() == c {
        let k0 = lemma_trim_char_end_sub(s.drop_last(), c);
        assert(s.drop_last().take(k0) =~= s.take(k0));
        k0
    } else {
        assert(s.take(s.len() as int) =~= s);
        s.len() as int
    }
}

proof fn lemma_safe_no_ws(s: Seq<char>)
    requires
        forall|i: int| 0 <= i < s.len() ==> is_safe_char(#[trigger] s[i]),
    ensures
        trim_spec(s) == s,
{
    assert forall|i: int| 0 <= i < s.len() implies !is_ws(#[trigger] s[i]) by {
        assert(is_safe_char(s[i]));
    }
    lemma_trim_no_ws(s);
}

/// What the sanitizer leaves before the length cap: the cleaned text with
/// its dots trimmed, all safe characters, no leading dot.
proof fn lemma_trimmed_clean(text: Seq<char>)
    ensures
        ({
            let clean = text.map_values(|c: char| clean_char(c));
            let t = trim_char_spec(clean, '.');
            &&& trim_spec(t) == t
            &&& forall|i: int| 0 <= i < t.len() ==> is_safe_char(#[trigger] t[i])
            &&& t.len() > 0 ==> t[0] != '.'
            &&& t.len() > 0 ==> t.last() != '.'
            &&& t.len() <= text.len()
        }),
{
    let clean = text.map_values(|c: char| clean_char(c));
    let a = lemma_trim_char_start_sub(clean, '.');
    let s1 = clean.skip(a);
    let b = lemma_trim_char_end_sub(s1, '.');
    let t = s1.take(b);
    assert(t == trim_char_spec(clean, '.'));
    assert forall|i: int| 0 <= i < t.len() implies is_safe_char(#[trigger] t[i]) by {
        assert(t[i] == clean[i + a]);
        assert(clean[i + a] == clean_char(text[i + a]));
    }
    lemma_safe_no_ws(t);
}

/// A sanitized name is never empty, holds only safe characters, is at most
/// [`MAX_NAME_CHARS`] long and never starts with a dot.
pub proof fn lemma_sanitize_safe(text: Seq<char>)
    ensures
        sanitize_spec(text).len() > 0,
        sanitize_spec(text).len() <= MAX_NAME_CHARS,
        forall|i: int|
            0 <= i < sanitize_spec(text).len() ==> is_safe_char(#[trigger] sanitize_spec(text)[i]),
        sanitize_spec(text)[0] != '.',
{
    reveal_strlit("download");
    lemma_trimmed_clean(text);
}

proof fn lemma_clean_safe_identity(r: Seq<char>)
    requires
        forall|i: int| 0 <= i < r.len() ==> is_safe_char(#[trigger] r[i]),
    ensures
        r.map_values(|c: char| clean_char(c)) == r,
{
    assert(r.map_values(|c: char| clean_char(c)) =~= r);
}

/// Sanitizing is idempotent on every input whose sanitized name does not end
/// in a dot (a dot can end a name only where the length cap cut it).
pub proof fn lemma_sanitize_idempotent(text: Seq<char>)
    requires
        sanitize_spec(text).last() != '.',
    ensures
        sanitize_spec(sanitize_spec(text)) == sanitize_spec(text),
{
    let r = sanitize_spec(text);
    lemma_sanitize_safe(text);
    lemma_clean_safe_identity(r);
    let a = lemma_trim_char_start_sub(r, '.');
    assert(a == 0);
    assert(r.skip(0) =~= r);
    let b = lemma_trim_char_end_sub(r, '.');
    assert(b == r.len());
    assert(r.take(r.len() as int) =~= r);
    lemma_safe_no_ws(r);
}

/// A name sanitized from at most [`MAX_NAME_CHARS`] characters is never cut,
/// so it never ends in a dot, and sanitizing it again changes nothing.
pub proof fn lemma_sanitize_idempotent_within_cap(text: Seq<char>)
    requires
        text.len() <= MAX_NAME_CHARS,
    ensures
        sanitize_spec(text).last() != '.',
        sanitize_spec(sanitize_spec(text)) == sanitize_spec(text),
{
    reveal_strlit("download");
    lemma_trimmed_clean(text);
    let r = sanitize_spec(text);
    if r != "download"@ {
        assert(r.last() != '.');
    } else {
        assert(r.last() == 'd');
    }
    lemma_sanitize_idempotent(text);
}

/// A download's filename is never empty, holds only safe characters (so no
/// path separator) and never starts with a dot: joined to the downloads
/// folder, it names a file directly inside that folder.
pub proof fn lemma_download_name_safe(path: Seq<char>, query: Option<Seq<char>>)
    ensures
        download_filename_spec(path, query).len() > 0,
        forall|i: int|
            0 <= i < download_filename_spec(path, query).len() ==> is_safe_char(
                #[trigger] download_filename_spec(path, query)[i],
            ),
        download_filename_spec(path, query)[0] != '.',
{
    reveal_strlit("dsh-session-");
    reveal_strlit(".zip");
    reveal_strlit("download.bin");
    reveal_strlit("download");
    if is_session_export(path) {
        let pairs = match query {
            Some(q) => decoded_query_pairs(q),
            None => Seq::empty(),
        };
        let id = match first_value_of(pairs, "sessionId"@) {
            Some(v) => v,
            None => Seq::empty(),
        };
        let s = sanitize_spec(id);
        lemma_sanitize_safe(id);
        let n = "dsh-session-"@ + s + ".zip"@;
        assert(n == download_filename_spec(path, query));
        assert forall|i: int| 0 <= i < n.len() implies is_safe_char(#[trigger] n[i]) by {
            if i < 12 {
                assert(n[i] == "dsh-session-"@[i]);
            } else if i < 12 + s.len() {
                assert(n[i] == s[i - 12]);
            } else {
                assert(n[i] == ".zip"@[i - 12 - s.len()]);
            }
        }
        assert(n[0] == 'd');
    } else {
        lemma_sanitize_safe(last_segment_spec(path));
    }
}

// ---------------------------------------------------------------------------
// Executable functions
// ---------------------------------------------------------------------------

fn is_safe(c: char) -> (r: bool)
    ensures
        r == is_safe_char(c),
{
    ('a' <= c && c <= 'z') || ('A' <= c && c <= 'Z') || ('0' <= c && c <= '9') || c == '-' || c
        == '_' || c == '.'
}

/// A conservative filename: ASCII letters, digits, `-`, `_` and `.` kept,
/// everything else `_`, no surrounding dots, never empty, at most
/// [`MAX_NAME_CHARS`] characters.
pub fn sanitize_filename(text: &str) -> (r: String)
    ensures
        r@ == sanitize_spec(text@),
{
    let n = text.unicode_len();
    let mut clean = String::new();
    let mut i: usize = 0;
    while i < n
        invariant
            n == text@.len(),
            i <= n,
            clean@ == text@.take(i as int).map_values(|c: char| clean_char(c)),
        decreases n - i,
    {
        let c = text.get_char(i);
        let ghost before = clean@;
        if is_safe(c) {
            push_char(&mut clean, c);
        } else {
            push_char(&mut clean, '_');
        }
        assert(text@.take(i + 1).map_values(|c: char| clean_char(c)) =~= before.push(
            clean_char(c),
        ));
        i = i + 1;
    }
    assert(text@.take(n as int) =~= text@);
    let trimmed = trim(trim_char(clean.as_str(), '.'));
    let len = trimmed.unicode_len();
    if len == 0 {
        String::from_str("download")
    } else if len <= MAX_NAME_CHARS {
        String::from_str(trimmed)
    } else {
        String::from_str(trimmed.substring_char(0, MAX_NAME_CHARS))
    }
}

/// The value of the first pair keyed `key`.
fn first_value<'a>(pairs: &'a Vec<(String, String)>, key: &str) -> (r: Option<&'a str>)
    ensures
        match r {
            Some(v) => first_value_of(pairs.deep_view(), key@) == Some(v@),
            None => first_value_of(pairs.deep_view(), key@) is None,
        },
{
    let ghost pv = pairs.deep_view();
    let mut k: usize = 0;
    assert(pv.skip(0) =~= pv);
    while k < pairs.len()
        invariant
            pv == pairs.deep_view(),
            k <= pairs.len(),
            first_value_of(pv, key@) == first_value_of(pv.skip(k as int), key@),
        decreases pairs.len() - k,
    {
        assert(pv.skip(k as int)[0] == pairs@[k as int].deep_view());
        if str_eq(pairs[k].0.as_str(), key) {
            return Some(pairs[k].1.as_str());
        }
        assert(pv.skip(k as int).drop_first() =~= pv.skip(k + 1));
        k = k + 1;
    }
    None
}

/// `dsh-session-<id>.zip` for a session export whose decoded query pairs are
/// `pairs`.
pub fn session_export_name(pairs: &Vec<(String, String)>) -> (r: String)
    ensures
        r@ == session_export_name_spec(pairs.deep_view()),
{
    let id: &str = match first_value(pairs, "sessionId") {
        Some(v) => v,
        None => {
            proof {
                reveal_strlit("");
                assert(""@ =~= Seq::<char>::empty());
            }
            ""
        },
    };
    let name = sanitize_filename(id);
    String::from_str("dsh-session-").concat(name.as_str()).concat(".zip")
}

/// The name for a download whose URL path is `path` (not a session export).
pub fn path_download_name(path: &str) -> (r: String)
    ensures
        r@ == path_download_name_spec(path@),
{
    let last: String = match strip_prefix(path, "/") {
        Some(rest) => {
            let segs = split_char(rest, '/');
            let ghost sv = segs.deep_view();
            assert(sv.len() > 0) by {
                lemma_split_nonempty(rest@, '/', Seq::empty());
            }
            let k = segs.len() - 1;
            assert(sv.last() == segs@[k as int]@);
            segs[k].clone()
        },
        None => String::new(),
    };
    let base = sanitize_filename(last.as_str());
    if str_eq(base.as_str(), "download") || base.unicode_len() == 0 {
        String::from_str("download.bin")
    } else {
        base
    }
}

/// The filename a download gets: `dsh-session-<id>.zip` for a session
/// export, else the sanitized last path segment, else `download.bin`.
pub fn download_filename(url: &UrlParts) -> (r: String)
    ensures
        r@ == download_filename_spec(url.path@, url.query.deep_view()),
{
    if str_eq(url.path.as_str(), "/api/session.export") {
        let pairs = match &url.query {
            Some(q) => query_pairs(q.as_str()),
            None => Vec::new(),
        };
        proof {
            if url.query.is_none() {
                assert(pairs.deep_view() =~= Seq::<(Seq<char>, Seq<char>)>::empty());
            }
        }
        session_export_name(&pairs)
    } else {
        path_download_name(url.path.as_str())
    }
}

/// The filename for a download from the URL `text`; `None` when `text` does
/// not parse as a URL.
pub fn download_filename_for(text: &str) -> (r: Option<String>)
    ensures
        match parsed_url(text@) {
            Some((path, query)) => r matches Some(name) && name@ == download_filename_spec(
                path,
                query,
            ),
            None => r is None,
        },
{
    match parse_url(text) {
        Some(parts) => Some(download_filename(&parts)),
        None => None,
    }
}

/// Whether `text` parses as a URL.
pub fn is_valid_url(text: &str) -> (r: bool)
    ensures
        r == parsed_url(text@) is Some,
{
    parse_url(text).is_some()
}

} // verus!
