use vstd::prelude::*;

verus! {

/// A URL as the parser decomposed it: its serialization, scheme, host (if
/// any) and path.
pub type UrlModel = (Seq<char>, Seq<char>, Option<Seq<char>>, Seq<char>);

/// What `url::Url::parse` yields for a text: `None` when it refuses it,
/// otherwise the parts of the parsed URL.
pub uninterp spec fn url_parse_of(s: Seq<char>) -> Option<UrlModel>;

/// A character with the Unicode `White_Space` property.
pub open spec fn is_white_space(c: char) -> bool {
    ||| ('\u{9}' <= c && c <= '\u{d}')
    ||| c == ' '
    ||| c == '\u{85}'
    ||| c == '\u{a0}'
    ||| c == '\u{1680}'
    ||| ('\u{2000}' <= c && c <= '\u{200a}')
    ||| c == '\u{2028}'
    ||| c == '\u{2029}'
    ||| c == '\u{202f}'
    ||| c == '\u{205f}'
    ||| c == '\u{3000}'
}

/// A text without its leading white space.
pub open spec fn trim_start_of(s: Seq<char>) -> Seq<char>
    decreases s.len(),
{
    if s.len() > 0 && is_white_space(s[0]) {
        trim_start_of(s.drop_first())
    } else {
        s
    }
}

/// A text without its trailing white space.
pub open spec fn trim_end_of(s: Seq<char>) -> Seq<char>
    decreases s.len(),
{
    if s.len() > 0 && is_white_space(s.last()) {
        trim_end_of(s.drop_last())
    } else {
        s
    }
}

/// A text without its leading and trailing white space.
pub open spec fn trim_of(s: Seq<char>) -> Seq<char> {
    trim_end_of(trim_start_of(s))
}

/// Whether chrono reads a text as a date-time with an offset.
pub uninterp spec fn timestamp_accepted(s: Seq<char>) -> bool;

/// An absolute URL, held as the plain parts that records are built from.
pub struct ParsedUrl {
    pub serialized: String,
    pub scheme: String,
    pub host: Option<String>,
    pub path: String,
}

impl View for ParsedUrl {
    type V = UrlModel;

    open spec fn view(&self) -> UrlModel {
        (
            self.serialized@,
            self.scheme@,
            match self.host {
                Some(h) => Some(h@),
                None => None,
            },
            self.path@,
        )
    }
}

/// Relies on `url::Url::parse` and its accessors `as_str`, `scheme`,
/// `host_str` and `path`: the outcome depends on the text alone.
#[verifier::external_body]
fn parse_url(s: &str) -> (r: Option<ParsedUrl>)
    ensures
        match r {
            Some(u) => url_parse_of(s@) == Some(u@),
            None => url_parse_of(s@) is None,
        },
{
    let u = url::Url::parse(s).ok()?;
    Some(ParsedUrl {
        serialized: u.as_str().to_string(),
        scheme: u.scheme().to_string(),
        host: u.host_str().map(|h| h.to_string()),
        path: u.path().to_string(),
    })
}

/// Relies on `str::trim`: the text without leading and trailing characters
/// that have the Unicode `White_Space` property.
#[verifier::external_body]
fn trim_text(s: &str) -> (r: String)
    ensures
        r@ == trim_of(s@),
{
    s.trim().to_string()
}

/// Relies on chrono's `FromStr` for `DateTime<Local>` and on `to_rfc3339`.
/// Whether the text is read depends on the text alone; the rendering is in
/// the machine's local offset.
#[verifier::external_body]
fn local_rfc3339(s: &str) -> (r: Option<String>)
    ensures
        r is Some <==> timestamp_accepted(s@),
{
    s.parse::<chrono::DateTime<chrono::Local>>().ok().map(|t| t.to_rfc3339())
}

/// Relies on `chrono::Local::now` and `to_rfc3339`: the current wall-clock
/// time in RFC 3339 form.
#[verifier::external_body]
fn now_rfc3339() -> (r: String) {
    chrono::Local::now().to_rfc3339()
}

/// Splits a text at its first tab: the part before it, and the part after
/// it if there is a tab at all.
pub open spec fn cut_at_tab(s: Seq<char>) -> (Seq<char>, Option<Seq<char>>)
    decreases s.len(),
{
    if s.len() == 0 {
        (s, None)
    } else if s[0] == '\t' {
        (Seq::empty(), Some(s.drop_first()))
    } else {
        let (head, tail) = cut_at_tab(s.drop_first());
        (seq![s[0]] + head, tail)
    }
}

/// The second tab-separated field of a line, if the line has a tab.
pub open spec fn url_field(line: Seq<char>) -> Option<Seq<char>> {
    match cut_at_tab(line).1 {
        Some(rest) => Some(cut_at_tab(rest).0),
        None => None,
    }
}

/// The URL that a line contributes, if it is accepted: it decoded, it has a
/// second field, and that field, trimmed, parses as an absolute URL.
pub open spec fn line_url(line: Option<String>) -> Option<UrlModel> {
    match line {
        Some(l) => text_url(l@),
        None => None,
    }
}

/// The URL that a decoded line contributes, if any.
pub open spec fn text_url(line: Seq<char>) -> Option<UrlModel> {
    match url_field(line) {
        Some(u) => url_parse_of(trim_of(u)),
        None => None,
    }
}

/// The URLs of the accepted lines, in input order.
pub open spec fn accepted_urls(lines: Seq<Option<String>>) -> Seq<UrlModel>
    decreases lines.len(),
{
    if lines.len() == 0 {
        Seq::empty()
    } else {
        let before = accepted_urls(lines.drop_last());
        match line_url(lines.last()) {
            Some(u) => before.push(u),
            None => before,
        }
    }
}

proof fn lemma_cut_at_first_tab(s: Seq<char>, k: int)
    requires
        0 <= k <= s.len(),
        forall|j: int| 0 <= j < k ==> s[j] != '\t',
        k < s.len() ==> s[k] == '\t',
    ensures
        cut_at_tab(s) == (s.take(k), if k < s.len() {
            Some(s.skip(k + 1))
        } else {
            None::<Seq<char>>
        }),
    decreases k,
{
    if k == 0 {
        if s.len() == 0 {
            assert(s.take(0) =~= s);
        } else {
            assert(s.take(0) =~= Seq::<char>::empty());
            assert(s.skip(1) =~= s.drop_first());
        }
    } else {
        let t = s.drop_first();
        assert forall|j: int| 0 <= j < k - 1 implies t[j] != '\t' by {
            assert(s[j + 1] != '\t');
        }
        lemma_cut_at_first_tab(t, k - 1);
        assert(seq![s[0]] + t.take(k - 1) =~= s.take(k));
        if k < s.len() {
            assert(t.skip(k) =~= s.skip(k + 1));
        }
    }
}

/// Cuts a line at its first tab, as `cut_at_tab` says.
pub fn split_at_tab(s: &str) -> (r: (String, Option<String>))
    ensures
        r.0@ == cut_at_tab(s@).0,
        match r.1 {
            Some(t) => cut_at_tab(s@).1 == Some(t@),
            None => cut_at_tab(s@).1 is None,
        },
{
    let n = s.unicode_len();
    let mut k: usize = 0;
    while k < n && s.get_char(k) != '\t'
        invariant
            n == s@.len(),
            k <= n,
            forall|j: int| 0 <= j < k ==> s@[j] != '\t',
        decreases n - k,
    {
        k = k + 1;
    }
    proof {
        lemma_cut_at_first_tab(s@, k as int);
    }
    let head = String::from_str(s.substring_char(0, k));
    if k < n {
        let tail = String::from_str(s.substring_char(k + 1, n));
        assert(tail@ =~= s@.skip(k + 1));
        (head, Some(tail))
    } else {
        (head, None)
    }
}

/// Why a decoded line contributes no entry.
#[derive(Debug, PartialEq, Eq, Structural)]
pub enum SkipReason {
    /// The line has no second tab-separated field.
    NoUrl,
    /// The second field, trimmed, is not an absolute URL.
    IllFormedUrl,
}

/// The URL of a decoded line, or why the line is skipped.
pub fn parse_line_url(line: &str) -> (r: Result<ParsedUrl, SkipReason>)
    ensures
        match r {
            Ok(u) => text_url(line@) == Some(u@),
            Err(SkipReason::NoUrl) => url_field(line@) is None,
            Err(SkipReason::IllFormedUrl) => url_field(line@) is Some && text_url(line@) is None,
        },
        r is Err ==> text_url(line@) is None,
{
    let (_, rest) = split_at_tab(line);
    match rest {
        Some(rest) => {
            let (field, _) = split_at_tab(rest.as_str());
            let trimmed = trim_text(field.as_str());
            match parse_url(trimmed.as_str()) {
                Some(u) => Ok(u),
                None => Err(SkipReason::IllFormedUrl),
            }
        },
        None => Err(SkipReason::NoUrl),
    }
}

/// Whether a line keeps its own timestamp: its first field reads as a
/// date-time.
pub open spec fn keeps_own_timestamp(line: Seq<char>) -> bool {
    timestamp_accepted(cut_at_tab(line).0)
}

/// The timestamp of a line rendered in RFC 3339 form, and whether it is the
/// line's own: the line's first field where that reads as a date-time,
/// otherwise the current time.
pub fn line_timestamp(line: &str) -> (r: (String, bool))
    ensures
        r.1 == keeps_own_timestamp(line@),
{
    let (field, _) = split_at_tab(line);
    match local_rfc3339(field.as_str()) {
        Some(t) => (t, true),
        None => (now_rfc3339(), false),
    }
}

/// One accepted line: its URL, its timestamp in RFC 3339 form, and whether
/// that timestamp is the line's own rather than the time of parsing.
pub struct LineEntry {
    pub url: ParsedUrl,
    pub timestamp: String,
    pub timestamp_kept: bool,
}

/// For each accepted line, in input order, whether it keeps its own
/// timestamp.
pub open spec fn kept_timestamp_flags(lines: Seq<Option<String>>) -> Seq<bool>
    decreases lines.len(),
{
    if lines.len() == 0 {
        Seq::empty()
    } else {
        let before = kept_timestamp_flags(lines.drop_last());
        match lines.last() {
            Some(l) => if text_url(l@) is Some {
                before.push(keeps_own_timestamp(l@))
            } else {
                before
            },
            None => before,
        }
    }
}

/// Turns raw lines into entries. A line that did not decode (`None`), that
/// has no second field, or whose trimmed second field is not an absolute URL
/// is left out; the others keep their order. Each entry keeps its line's own
/// timestamp where that reads as a date-time, and otherwise takes the
/// current time.
pub fn create_entries(lines: &Vec<Option<String>>) -> (r: Vec<LineEntry>)
    ensures
        r@.map_values(|e: LineEntry| e.url@) == accepted_urls(lines@),
        r@.map_values(|e: LineEntry| e.timestamp_kept) == kept_timestamp_flags(lines@),
{
    let mut entries: Vec<LineEntry> = Vec::new();
    let mut i: usize = 0;
    while i < lines.len()
        invariant
            i <= lines@.len(),
            entries@.map_values(|e: LineEntry| e.url@) == accepted_urls(lines@.take(i as int)),
            entries@.map_values(|e: LineEntry| e.timestamp_kept) == kept_timestamp_flags(
                lines@.take(i as int),
            ),
        decreases lines@.len() - i,
    {
        assert(lines@.take(i + 1).drop_last() =~= lines@.take(i as int));
        match &lines[i] {
            Some(line) => {
                match parse_line_url(line.as_str()) {
                    Ok(url) => {
                        let (timestamp, timestamp_kept) = line_timestamp(line.as_str());
                        entries.push(LineEntry { url, timestamp, timestamp_kept });
                    },
                    Err(_) => {},
                }
            },
            None => {},
        }
        assert(entries@.map_values(|e: LineEntry| e.url@) =~= accepted_urls(lines@.take(i + 1)));
        assert(entries@.map_values(|e: LineEntry| e.timestamp_kept) =~= kept_timestamp_flags(
            lines@.take(i + 1),
        ));
        i = i + 1;
    }
    assert(lines@.take(i as int) =~= lines@);
    entries
}

} // verus!
