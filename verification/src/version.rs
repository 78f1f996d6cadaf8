//! Server version detection from `llama-server --version` output, and the
//! comparison with the latest release.
use vstd::prelude::*;
use crate::meta::opt_view;
use crate::text::{
    ascii_chars, is_ascii_bytes,
    chars_of, contains_seq, find_char, first_word, first_word_range, has_prefix, has_seq,
    index_of_from, lemma_index_of_from, lines, lossy_string, starts_with, string_of, strip_line_end, trim, trim_range,
    utf8_lossy,
};

verus! {

/// The version named on one output line: the first word after a leading
/// `version:`; failing that, on a line that mentions `version`, the first
/// word after its first `:`.
pub open spec fn version_in_line(line: Seq<char>) -> Option<Seq<char>> {
    let t = trim(line);
    let by_prefix = if starts_with(t, "version:"@) {
        first_word(trim(t.skip(8)))
    } else {
        Seq::empty()
    };
    if by_prefix.len() > 0 {
        Some(by_prefix)
    } else if contains_seq(t, "version"@) {
        match index_of_from(t, ':', 0) {
            Some(p) => {
                let w = first_word(trim(t.skip(p + 1)));
                if w.len() > 0 {
                    Some(w)
                } else {
                    None
                }
            },
            None => None,
        }
    } else {
        None
    }
}

/// The version of the first line that names one.
pub open spec fn first_version(ls: Seq<Seq<char>>) -> Option<Seq<char>>
    decreases ls.len(),
{
    if ls.len() == 0 {
        None
    } else {
        match version_in_line(ls[0]) {
            Some(v) => Some(v),
            None => first_version(ls.drop_first()),
        }
    }
}

/// The version reported in `text`; when no line names one, the first 200
/// characters trimmed, or `unknown` when those are blank.
pub open spec fn version_in_text(text: Seq<char>) -> Seq<char> {
    match first_version(lines(text)) {
        Some(v) => v,
        None => {
            let t = trim(text.take(if text.len() < 200 { text.len() as int } else { 200 }));
            if t.len() == 0 {
                "unknown"@
            } else {
                t
            }
        },
    }
}

/// The version reported by a `--version` run: standard output and standard
/// error decoded (invalid UTF-8 replaced) and joined by a line break.
pub open spec fn reported_version(stdout: Seq<u8>, stderr: Seq<u8>) -> Seq<char> {
    version_in_text(utf8_lossy(stdout) + "\n"@ + utf8_lossy(stderr))
}

fn line_version(v: &Vec<char>, a: usize, b: usize) -> (r: Option<(usize, usize)>)
    requires
        a <= b <= v@.len(),
    ensures
        match r {
            Some((x, y)) => x <= y <= v@.len() && version_in_line(v@.subrange(a as int, b as int)) == Some(v@.subrange(x as int, y as int)),
            None => version_in_line(v@.subrange(a as int, b as int)) is None,
        },
{
    proof {
        reveal_strlit("version:");
    }
    let ghost line = v@.subrange(a as int, b as int);
    let (t0, t1) = trim_range(v, a, b);
    let ghost t = v@.subrange(t0 as int, t1 as int);
    let prefix = chars_of("version:");
    let mut by_prefix: Option<(usize, usize)> = None;
    if has_prefix(v, t0, t1, &prefix) {
        assert(t.skip(8) =~= v@.subrange(t0 + 8, t1 as int));
        let (r0, r1) = trim_range(v, t0 + 8, t1);
        let (w0, w1) = first_word_range(v, r0, r1);
        if w1 > w0 {
            by_prefix = Some((w0, w1));
        }
    }
    match by_prefix {
        Some(r) => {
            return Some(r);
        },
        None => {},
    }
    let word = chars_of("version");
    if has_seq(v, t0, t1, &word) {
        match find_char(v, t0, t1, ':') {
            Some(p) => {
                assert(t.skip(p - t0 + 1) =~= v@.subrange(p + 1, t1 as int));
                let (r0, r1) = trim_range(v, p + 1, t1);
                let (w0, w1) = first_word_range(v, r0, r1);
                if w1 > w0 {
                    Some((w0, w1))
                } else {
                    None
                }
            },
            None => None,
        }
    } else {
        None
    }
}

/// The version reported in `text` (see `version_in_text`).
pub fn version_from_text(text: &str) -> (res: String)
    ensures
        res@ == version_in_text(text@),
{
    let v = chars_of(text);
    let n = v.len();
    let mut start: usize = 0;
    assert(v@.subrange(0, n as int) =~= v@);
    while start < n
        invariant
            n == v@.len(),
            v@ == text@,
            start <= n,
            first_version(lines(v@)) == first_version(lines(v@.subrange(start as int, n as int))),
        decreases n - start,
    {
        let ghost w = v@.subrange(start as int, n as int);
        proof {
            lemma_index_of_from(w, '\n', 0);
        }
        let (end, next) = match find_char(&v, start, n, '\n') {
            Some(j) => {
                assert(w.take(j - start + 1) =~= v@.subrange(start as int, j + 1));
                assert(w.skip(j - start + 1) =~= v@.subrange(j + 1, n as int));
                assert(v@.subrange(start as int, j + 1).drop_last() =~= v@.subrange(start as int, j as int));
                if j > start && v[j - 1] == '\r' {
                    assert(v@.subrange(start as int, j as int).drop_last() =~= v@.subrange(start as int, j - 1));
                    (j - 1, j + 1)
                } else {
                    (j, j + 1)
                }
            },
            None => {
                assert(w.last() != '\n');
                (n, n)
            },
        };
        assert(lines(w) =~= seq![v@.subrange(start as int, end as int)] + lines(v@.subrange(next as int, n as int)));
        match line_version(&v, start, end) {
            Some((x, y)) => {
                return string_of(&v, x, y);
            },
            None => {},
        }
        assert(lines(w).drop_first() =~= lines(v@.subrange(next as int, n as int)));
        start = next;
    }
    assert(lines(v@.subrange(start as int, n as int)) =~= Seq::<Seq<char>>::empty());
    let m: usize = if n < 200 { n } else { 200 };
    assert(v@.take(m as int) =~= v@.subrange(0, m as int));
    let (a, b) = trim_range(&v, 0, m);
    if a == b {
        String::from_str("unknown")
    } else {
        string_of(&v, a, b)
    }
}

/// The version reported by a `--version` run (see `reported_version`).
pub fn parse_server_version(stdout: &[u8], stderr: &[u8]) -> (res: String)
    ensures
        res@ == reported_version(stdout@, stderr@),
        is_ascii_bytes(stdout@) && is_ascii_bytes(stderr@)
            ==> res@ == version_in_text(ascii_chars(stdout@) + "\n"@ + ascii_chars(stderr@)),
{
    let mut combined = lossy_string(stdout);
    combined.append("\n");
    let err = lossy_string(stderr);
    combined.append(err.as_str());
    version_from_text(combined.as_str())
}

/// The outcome of comparing the local server version with the latest release.
pub struct VersionCheckResult {
    /// Local version text
    pub current: Option<String>,
    /// Number in the local version text
    pub current_number: Option<u32>,
    /// Latest release tag (such as `b4500`)
    pub latest_tag: String,
    /// Number in the latest tag
    pub latest_number: Option<u32>,
    /// Whether the latest release is newer
    pub has_update: bool,
    /// Release page
    pub release_url: String,
    /// Publication time
    pub published_at: Option<String>,
    /// Why the check failed
    pub error: Option<String>,
}

pub open spec fn is_digit(c: char) -> bool {
    '0' <= c && c <= '9'
}

/// `s` from its first ASCII digit on (empty when it has none).
pub open spec fn from_first_digit(s: Seq<char>) -> Seq<char>
    decreases s.len(),
{
    if s.len() == 0 || is_digit(s[0]) {
        s
    } else {
        from_first_digit(s.drop_first())
    }
}

/// The leading run of ASCII digits of `s`.
pub open spec fn digit_prefix(s: Seq<char>) -> Seq<char>
    decreases s.len(),
{
    if s.len() == 0 || !is_digit(s[0]) {
        Seq::empty()
    } else {
        seq![s[0]] + digit_prefix(s.drop_first())
    }
}

/// The number written by a run of ASCII digits.
pub open spec fn digits_value(d: Seq<char>) -> nat
    decreases d.len(),
{
    if d.len() == 0 {
        0
    } else {
        digits_value(d.drop_last()) * 10 + (d.last() as nat - '0' as nat) as nat
    }
}

/// The first run of consecutive ASCII digits in `s`, read as a `u32`;
/// `None` when `s` has no digit or the number exceeds `u32::MAX`.
pub open spec fn number_in(s: Seq<char>) -> Option<u32> {
    let d = digit_prefix(from_first_digit(s));
    if d.len() == 0 || digits_value(d) > u32::MAX {
        None
    } else {
        Some(digits_value(d) as u32)
    }
}

/// The first run of consecutive ASCII digits in `s` as a `u32`
/// (`"b4500"` gives 4500; `"abc"` gives `None`).
pub fn extract_number(s: &str) -> (r: Option<u32>)
    ensures
        r == number_in(s@),
{
    let v = chars_of(s);
    let n = v.len();
    let mut i: usize = 0;
    assert(v@.subrange(0, n as int) =~= v@);
    while i < n && !('0' <= v[i] && v[i] <= '9')
        invariant
            n == v@.len(),
            v@ == s@,
            i <= n,
            from_first_digit(s@) == from_first_digit(v@.subrange(i as int, n as int)),
        decreases n - i,
    {
        assert(v@.subrange(i as int, n as int).drop_first() =~= v@.subrange(i + 1, n as int));
        i = i + 1;
    }
    let ghost rest = v@.subrange(i as int, n as int);
    assert(from_first_digit(rest) == rest);
    let start = i;
    let mut value: u32 = 0;
    let mut overflow = false;
    while i < n && '0' <= v[i] && v[i] <= '9'
        invariant
            n == v@.len(),
            start <= i <= n,
            rest == v@.subrange(start as int, n as int),
            forall|j: int| start <= j < i ==> is_digit(#[trigger] v@[j]),
            digit_prefix(rest) == v@.subrange(start as int, i as int) + digit_prefix(v@.subrange(i as int, n as int)),
            !overflow ==> value as nat == digits_value(v@.subrange(start as int, i as int)),
            overflow ==> digits_value(v@.subrange(start as int, i as int)) > u32::MAX,
        decreases n - i,
    {
        let ghost before = v@.subrange(start as int, i as int);
        let ghost after = v@.subrange(start as int, i + 1);
        assert(after.drop_last() =~= before);
        assert(v@.subrange(i as int, n as int).drop_first() =~= v@.subrange(i + 1, n as int));
        assert(after =~= before + seq![v@[i as int]]);
        let d = (v[i] as u32) - ('0' as u32);
        assert(digits_value(after) == digits_value(before) * 10 + d);
        if !overflow {
            if value > 429496729 || (value == 429496729 && d > 5) {
                overflow = true;
            } else {
                value = value * 10 + d;
            }
        }
        i = i + 1;
    }
    let ghost run = v@.subrange(start as int, i as int);
    assert(digit_prefix(v@.subrange(i as int, n as int)) =~= Seq::<char>::empty());
    assert(digit_prefix(rest) =~= run);
    if i == start {
        None
    } else if overflow {
        None
    } else {
        Some(value)
    }
}

/// The release URL of a tag.
pub open spec fn tag_url(tag: Seq<char>) -> Seq<char> {
    "https://github.com/ggml-org/llama.cpp/releases/tag/"@ + tag
}

/// A release found through the tag list: its tag, page and no publication
/// time; an error when the tag is empty.
pub fn tags_release(tag: String) -> (r: Result<(String, String, Option<String>), String>)
    ensures
        match r {
            Ok((t, u, p)) => tag@.len() > 0 && t@ == tag@ && u@ == tag_url(tag@) && p is None,
            Err(e) => tag@.len() == 0 && e@ == "未找到任何版本标签"@,
        },
{
    if tag.as_str().is_empty() {
        Err(String::from_str("未找到任何版本标签"))
    } else {
        let mut url = String::from_str("https://github.com/ggml-org/llama.cpp/releases/tag/");
        url.append(tag.as_str());
        Ok((tag, url, None))
    }
}

/// The check result for local version `current_version` and the lookup of
/// the latest release (tag, page, publication time) or its error message:
/// an update exists when both version texts hold a number and the latest's
/// is larger.
pub fn version_check_result(
    current_version: Option<String>,
    fetched: Result<(String, String, Option<String>), String>,
) -> (r: VersionCheckResult)
    ensures
        r.current == current_version,
        r.current_number == match current_version {
            Some(c) => number_in(c@),
            None => None,
        },
        match fetched {
            Ok((tag, url, published)) => {
                &&& r.latest_tag == tag
                &&& r.latest_number == number_in(tag@)
                &&& r.has_update == (r.current_number matches Some(c) && r.latest_number matches Some(l) && l > c)
                &&& r.release_url == url
                &&& r.published_at == published
                &&& r.error is None
            },
            Err(e) => {
                &&& r.latest_tag@.len() == 0
                &&& r.latest_number is None
                &&& !r.has_update
                &&& r.release_url@.len() == 0
                &&& r.published_at is None
                &&& r.error == Some(e)
            },
        },
{
    let current_number = match &current_version {
        Some(c) => extract_number(c.as_str()),
        None => None,
    };
    match fetched {
        Ok((tag, url, published)) => {
            let latest_number = extract_number(tag.as_str());
            let has_update = match (current_number, latest_number) {
                (Some(c), Some(l)) => l > c,
                _ => false,
            };
            VersionCheckResult {
                current: current_version,
                current_number,
                latest_tag: tag,
                latest_number,
                has_update,
                release_url: url,
                published_at: published,
                error: None,
            }
        },
        Err(e) => VersionCheckResult {
            current: current_version,
            current_number,
            latest_tag: String::new(),
            latest_number: None,
            has_update: false,
            release_url: String::new(),
            published_at: None,
            error: Some(e),
        },
    }
}

/// What `serde_json` finds in JSON text `text` under `key` of its top-level
/// object: the string there (`None` when the text is no object, lacks the key
/// or holds something other than a string there), or the parse error's message.
pub uninterp spec fn json_field(text: Seq<char>, key: Seq<char>) -> Result<Option<Seq<char>>, Seq<char>>;

/// What `serde_json` finds in JSON text `text` under `key` of the item at
/// `index` of its top-level array (`None` when there is no such item, or it
/// holds no string under `key`), or the parse error's message.
pub uninterp spec fn json_item_field(text: Seq<char>, index: usize, key: Seq<char>) -> Result<Option<Seq<char>>, Seq<char>>;

/// A field lookup by its characters.
pub open spec fn field_view(r: Result<Option<String>, String>) -> Result<Option<Seq<char>>, Seq<char>> {
    match r {
        Ok(o) => Ok(opt_view(o)),
        Err(e) => Err(e@),
    }
}

/// `serde_json::from_str` into a `serde_json::Value`, then the string under
/// `key` of the object (indexing a `Value` gives `Null` where there is
/// nothing, and `as_str` gives `None` for anything but a string).  The result
/// is named `json_field`, a function of the text and the key alone.
#[verifier::external_body]
fn string_field(text: &str, key: &str) -> (r: Result<Option<String>, String>)
    ensures
        field_view(r) == json_field(text@, key@),
{
    match serde_json::from_str::<serde_json::Value>(text) {
        Ok(v) => Ok(v[key].as_str().map(str::to_owned)),
        Err(e) => Err(e.to_string()),
    }
}

/// `serde_json::from_str` into a `serde_json::Value`, then the string under
/// `key` of the array item at `index`, looked up as in `string_field`.  The
/// result is named `json_item_field`, a function of its arguments alone.
#[verifier::external_body]
fn item_string_field(text: &str, index: usize, key: &str) -> (r: Result<Option<String>, String>)
    ensures
        field_view(r) == json_item_field(text@, index, key@),
{
    match serde_json::from_str::<serde_json::Value>(text) {
        Ok(v) => Ok(v[index][key].as_str().map(str::to_owned)),
        Err(e) => Err(e.to_string()),
    }
}

/// A text that may be missing, with the empty text in its place.
pub open spec fn or_empty(o: Option<Seq<char>>) -> Seq<char> {
    match o {
        Some(s) => s,
        None => Seq::empty(),
    }
}

/// A release lookup by its characters.
pub open spec fn release_view(r: Result<Option<(String, String, Option<String>)>, String>) -> Result<Option<(Seq<char>, Seq<char>, Option<Seq<char>>)>, Seq<char>> {
    match r {
        Ok(Some((t, u, p))) => Ok(Some((t@, u@, opt_view(p)))),
        Ok(None) => Ok(None),
        Err(e) => Err(e@),
    }
}

/// What the latest-release reply gives, from its `tag_name`, `html_url` and
/// `published_at` lookups: a parse error as it is; with a non-empty tag, that
/// release (the page empty when missing); otherwise nothing, and the tag list
/// is asked next.
pub open spec fn release_choice(
    tag: Result<Option<Seq<char>>, Seq<char>>,
    url: Result<Option<Seq<char>>, Seq<char>>,
    published: Result<Option<Seq<char>>, Seq<char>>,
) -> Result<Option<(Seq<char>, Seq<char>, Option<Seq<char>>)>, Seq<char>> {
    match (tag, url, published) {
        (Err(e), _, _) => Err(e),
        (_, Err(e), _) => Err(e),
        (_, _, Err(e)) => Err(e),
        (Ok(t), Ok(u), Ok(p)) => if or_empty(t).len() > 0 {
            Ok(Some((or_empty(t), or_empty(u), p)))
        } else {
            Ok(None)
        },
    }
}

fn text_or_empty(o: Option<String>) -> (s: String)
    ensures
        s@ == or_empty(opt_view(o)),
{
    match o {
        Some(s) => s,
        None => String::new(),
    }
}

/// Decides on the latest-release reply from its three field lookups (see `release_choice`).
pub fn choose_release(
    tag: Result<Option<String>, String>,
    url: Result<Option<String>, String>,
    published: Result<Option<String>, String>,
) -> (r: Result<Option<(String, String, Option<String>)>, String>)
    ensures
        release_view(r) == release_choice(field_view(tag), field_view(url), field_view(published)),
{
    match (tag, url, published) {
        (Err(e), _, _) => Err(e),
        (_, Err(e), _) => Err(e),
        (_, _, Err(e)) => Err(e),
        (Ok(t), Ok(u), Ok(p)) => {
            let t = text_or_empty(t);
            if t.as_str().is_empty() {
                Ok(None)
            } else {
                Ok(Some((t, text_or_empty(u), p)))
            }
        },
    }
}

/// The release named in the JSON reply `text` of the latest-release request
/// (see `release_choice`).
pub fn release_from_json(text: &str) -> (r: Result<Option<(String, String, Option<String>)>, String>)
    ensures
        release_view(r) == release_choice(
            json_field(text@, "tag_name"@),
            json_field(text@, "html_url"@),
            json_field(text@, "published_at"@),
        ),
{
    let tag = string_field(text, "tag_name");
    let url = string_field(text, "html_url");
    let published = string_field(text, "published_at");
    choose_release(tag, url, published)
}

/// What to do after the latest-release request.
pub enum LatestStep {
    /// The release it names: tag, page, publication time.
    Found((String, String, Option<String>)),
    /// Its reply did not parse: the lookup fails with this message.
    Failed(String),
    /// It names no release (or did not succeed): ask the tag list.
    AskTags,
}

/// The step after the latest-release request, from the body of its reply
/// when the reply succeeded (`None` when its status was not a success): a
/// release named there is the answer, a body that does not parse ends the
/// lookup with the parse error, and otherwise the tag list is asked.
pub fn latest_step(body: Option<&str>) -> (s: LatestStep)
    ensures
        match body {
            None => s is AskTags,
            Some(text) => match release_choice(
                json_field(text@, "tag_name"@),
                json_field(text@, "html_url"@),
                json_field(text@, "published_at"@),
            ) {
                Err(e) => s matches LatestStep::Failed(m) && m@ == e,
                Ok(None) => s is AskTags,
                Ok(Some((t, u, p))) => s matches LatestStep::Found((t2, u2, p2))
                    && t2@ == t && u2@ == u && opt_view(p2) == p,
            },
        },
{
    match body {
        None => LatestStep::AskTags,
        Some(text) => match release_from_json(text) {
            Err(e) => LatestStep::Failed(e),
            Ok(None) => LatestStep::AskTags,
            Ok(Some(r)) => LatestStep::Found(r),
        },
    }
}

/// The release the tag list gives, from the lookup of its first item's
/// `name`: a parse error as it is; else `tags_release` of the name (empty
/// when missing).
pub fn choose_tag(name: Result<Option<String>, String>) -> (r: Result<(String, String, Option<String>), String>)
    ensures
        match field_view(name) {
            Err(e) => r matches Err(m) && m@ == e,
            Ok(n) => match r {
                Ok((t, u, p)) => or_empty(n).len() > 0 && t@ == or_empty(n) && u@ == tag_url(or_empty(n)) && p is None,
                Err(e) => or_empty(n).len() == 0 && e@ == "未找到任何版本标签"@,
            },
        },
{
    match name {
        Err(e) => Err(e),
        Ok(n) => tags_release(text_or_empty(n)),
    }
}

/// The release named by the first tag of the JSON tag list `text` (see `choose_tag`).
pub fn tag_from_json(text: &str) -> (r: Result<(String, String, Option<String>), String>)
    ensures
        match json_item_field(text@, 0, "name"@) {
            Err(e) => r matches Err(m) && m@ == e,
            Ok(n) => match r {
                Ok((t, u, p)) => or_empty(n).len() > 0 && t@ == or_empty(n) && u@ == tag_url(or_empty(n)) && p is None,
                Err(e) => or_empty(n).len() == 0 && e@ == "未找到任何版本标签"@,
            },
        },
{
    let name = item_string_field(text, 0, "name");
    choose_tag(name)
}

} // verus!
