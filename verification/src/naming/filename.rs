//! Sanitized, timestamped upload file names: `YYYYMMDD-HHMMSS-SSS-<rand6>-<stem><ext>`.
use vstd::prelude::*;
use vstd::string::*;
use crate::text::{decimal, owned, push_char, push_padded_decimal, push_str, zero_pad};

verus! {

/// The Unicode `White_Space` property: what `char::is_whitespace` and the regex class `\s`
/// match.
pub open spec fn is_whitespace_spec(c: char) -> bool {
    ||| ('\u{9}' <= c && c <= '\u{d}')
    ||| c == ' '
    ||| c == '\u{85}'
    ||| c == '\u{a0}'
    ||| c == '\u{1680}'
    ||| ('\u{2000}' <= c && c <= '\u{200a}')
    ||| c == '\u{2028}'
    ||| c == '\u{2029}'
    ||| c == '\u{202f}'
    ||| c == '\u{205f}'
    ||| c == '\u{3000}'
}

/// The characters a sanitized name segment may hold: `[A-Za-z0-9._-]`.
pub open spec fn is_safe_char(c: char) -> bool {
    ||| ('A' <= c && c <= 'Z')
    ||| ('a' <= c && c <= 'z')
    ||| ('0' <= c && c <= '9')
    ||| c == '.'
    ||| c == '_'
    ||| c == '-'
}

/// `[A-Za-z0-9]`.
pub open spec fn is_ascii_alnum(c: char) -> bool {
    ||| ('A' <= c && c <= 'Z')
    ||| ('a' <= c && c <= 'z')
    ||| ('0' <= c && c <= '9')
}

/// `[a-z0-9]`.
pub open spec fn is_lower_alnum(c: char) -> bool {
    ('a' <= c && c <= 'z') || ('0' <= c && c <= '9')
}

/// Every maximal run of whitespace replaced by a single `-`.
pub open spec fn collapse_whitespace(s: Seq<char>) -> Seq<char>
    decreases s.len(),
{
    if s.len() == 0 {
        s
    } else {
        let p = s.drop_last();
        let c = s.last();
        if is_whitespace_spec(c) {
            if p.len() > 0 && is_whitespace_spec(p.last()) {
                collapse_whitespace(p)
            } else {
                collapse_whitespace(p).push('-')
            }
        } else {
            collapse_whitespace(p).push(c)
        }
    }
}

/// `s` with every character outside the safe set removed.
pub open spec fn keep_safe(s: Seq<char>) -> Seq<char>
    decreases s.len(),
{
    if s.len() == 0 {
        s
    } else if is_safe_char(s.last()) {
        keep_safe(s.drop_last()).push(s.last())
    } else {
        keep_safe(s.drop_last())
    }
}

/// Sanitizing one name segment: collapse whitespace runs to `-`, then drop unsafe characters.
pub open spec fn sanitize_segment_spec(s: Seq<char>) -> Seq<char> {
    keep_safe(collapse_whitespace(s))
}

/// The index of the last `c` in `s`, or -1.
pub open spec fn last_index_of(s: Seq<char>, c: char) -> int
    decreases s.len(),
{
    if s.len() == 0 {
        -1
    } else if s.last() == c {
        s.len() - 1
    } else {
        last_index_of(s.drop_last(), c)
    }
}

/// Split at the last `.` when both sides are non-empty; otherwise no extension.
pub open spec fn split_ext_spec(s: Seq<char>) -> (Seq<char>, Seq<char>) {
    let i = last_index_of(s, '.');
    if 0 < i && i < s.len() - 1 {
        (s.take(i), s.skip(i + 1))
    } else {
        (s, Seq::empty())
    }
}

/// The sanitized `(stem, ext)` of a file name: the stem is `file` when sanitizing leaves it
/// empty; the extension keeps its dot, or is empty when the name has none.
pub open spec fn sanitize_spec(original: Seq<char>) -> (Seq<char>, Seq<char>) {
    let (stem_raw, ext_raw) = split_ext_spec(original);
    let stem = sanitize_segment_spec(stem_raw);
    let stem = if stem.len() == 0 {
        seq!['f', 'i', 'l', 'e']
    } else {
        stem
    };
    let ext = if ext_raw.len() == 0 {
        Seq::empty()
    } else {
        seq!['.'] + sanitize_segment_spec(ext_raw)
    };
    (stem, ext)
}

/// `stamp-SSS-rand-stemext`, with the milliseconds zero-padded to three digits.
pub open spec fn remote_filename_spec(
    stamp: Seq<char>,
    millis: nat,
    rand: Seq<char>,
    original: Seq<char>,
) -> Seq<char> {
    let (stem, ext) = sanitize_spec(original);
    stamp + seq!['-'] + zero_pad(decimal(millis), 3) + seq!['-'] + rand + seq!['-'] + stem + ext
}

/// What survives the filter is safe: every character of `keep_safe(s)` is in
/// `[A-Za-z0-9._-]`.
pub proof fn lemma_keep_safe_all_safe(s: Seq<char>)
    ensures
        forall|i: int| 0 <= i < keep_safe(s).len() ==> is_safe_char(#[trigger] keep_safe(s)[i]),
    decreases s.len(),
{
    if s.len() > 0 {
        lemma_keep_safe_all_safe(s.drop_last());
        let k = keep_safe(s.drop_last());
        if is_safe_char(s.last()) {
            assert forall|i: int| 0 <= i < keep_safe(s).len() implies is_safe_char(
                #[trigger] keep_safe(s)[i],
            ) by {
                if i < k.len() {
                    assert(keep_safe(s)[i] == k[i]);
                }
            }
        }
    }
}

/// Whether `c` is Unicode whitespace.
pub fn is_whitespace(c: char) -> (r: bool)
    ensures
        r == is_whitespace_spec(c),
{
    ('\u{9}' <= c && c <= '\u{d}') || c == ' ' || c == '\u{85}' || c == '\u{a0}' || c
        == '\u{1680}' || ('\u{2000}' <= c && c <= '\u{200a}') || c == '\u{2028}' || c
        == '\u{2029}' || c == '\u{202f}' || c == '\u{205f}' || c == '\u{3000}'
}

/// Whether `c` is in `[A-Za-z0-9._-]`.
pub fn is_safe(c: char) -> (r: bool)
    ensures
        r == is_safe_char(c),
{
    ('A' <= c && c <= 'Z') || ('a' <= c && c <= 'z') || ('0' <= c && c <= '9') || c == '.'
        || c == '_' || c == '-'
}

/// Collapse whitespace runs to `-`, then drop any character outside `[A-Za-z0-9._-]`.
pub fn sanitize_segment(s: &str) -> (r: String)
    ensures
        r@ == sanitize_segment_spec(s@),
{
    let n = s.unicode_len();
    let mut collapsed = String::new();
    let mut prev_space = false;
    let mut i: usize = 0;
    while i < n
        invariant
            n == s@.len(),
            i <= n,
            collapsed@ == collapse_whitespace(s@.take(i as int)),
            prev_space == (i > 0 && is_whitespace_spec(s@[i - 1])),
        decreases n - i,
    {
        let c = s.get_char(i);
        let ghost t = s@.take(i + 1);
        assert(t.drop_last() =~= s@.take(i as int));
        assert(t.last() == c);
        if is_whitespace(c) {
            if !prev_space {
                push_char(&mut collapsed, '-');
            }
            prev_space = true;
        } else {
            push_char(&mut collapsed, c);
            prev_space = false;
        }
        i = i + 1;
    }
    assert(s@.take(n as int) =~= s@);
    let m = collapsed.as_str().unicode_len();
    let mut out = String::new();
    let mut j: usize = 0;
    while j < m
        invariant
            m == collapsed@.len(),
            j <= m,
            out@ == keep_safe(collapsed@.take(j as int)),
        decreases m - j,
    {
        let c = collapsed.as_str().get_char(j);
        let ghost t = collapsed@.take(j + 1);
        assert(t.drop_last() =~= collapsed@.take(j as int));
        if is_safe(c) {
            push_char(&mut out, c);
        }
        j = j + 1;
    }
    assert(collapsed@.take(m as int) =~= collapsed@);
    out
}

/// Split a name at its last `.` into base and extension (without the dot) when both
/// sides are non-empty; otherwise the whole name is the base.
pub fn split_ext(s: &str) -> (r: (String, String))
    ensures
        (r.0@, r.1@) == split_ext_spec(s@),
{
    let n = s.unicode_len();
    let mut i: usize = n;
    assert(s@.take(n as int) =~= s@);
    while i > 0
        invariant
            n == s@.len(),
            i <= n,
            last_index_of(s@, '.') == last_index_of(s@.take(i as int), '.'),
        decreases i,
    {
        if s.get_char(i - 1) == '.' {
            let ghost t = s@.take(i as int);
            assert(t.last() == '.');
            if 1 < i && i < n {
                let a = s.substring_char(0, i - 1);
                let b = s.substring_char(i, n);
                return (owned(a), owned(b));
            } else {
                return (owned(s), String::new());
            }
        }
        let ghost t = s@.take(i as int);
        assert(t.drop_last() =~= s@.take(i - 1));
        i = i - 1;
    }
    (owned(s), String::new())
}

/// Returns `(stem, ext)` where stem is the sanitized base (without extension) and ext is a
/// sanitized extension including the dot, or empty string if none.
pub fn sanitize(original: &str) -> (r: (String, String))
    ensures
        (r.0@, r.1@) == sanitize_spec(original@),
        r.0@.len() > 0,
        forall|i: int| 0 <= i < r.0@.len() ==> is_safe_char(#[trigger] r.0@[i]),
        r.1@.len() == 0 || (r.1@[0] == '.' && forall|i: int|
            1 <= i < r.1@.len() ==> is_safe_char(#[trigger] r.1@[i])),
{
    let (stem_raw, ext_raw) = split_ext(original);
    let stem = sanitize_segment(stem_raw.as_str());
    let stem = if stem.as_str().unicode_len() == 0 {
        let mut f = String::new();
        push_char(&mut f, 'f');
        push_char(&mut f, 'i');
        push_char(&mut f, 'l');
        push_char(&mut f, 'e');
        f
    } else {
        stem
    };
    let ext = if ext_raw.as_str().unicode_len() == 0 {
        String::new()
    } else {
        let mut e = String::new();
        push_char(&mut e, '.');
        let seg = sanitize_segment(ext_raw.as_str());
        push_str(&mut e, seg.as_str());
        e
    };
    proof {
        lemma_keep_safe_all_safe(collapse_whitespace(stem_raw@));
        lemma_keep_safe_all_safe(collapse_whitespace(ext_raw@));
        assert(stem@ =~= sanitize_spec(original@).0);
        assert(ext@ =~= sanitize_spec(original@).1);
        if ext@.len() > 0 {
            assert forall|i: int| 1 <= i < ext@.len() implies is_safe_char(#[trigger] ext@[i]) by {
                assert(ext@[i] == sanitize_segment_spec(ext_raw@)[i - 1]);
            }
        }
    }
    (stem, ext)
}

/// The pattern of the second-resolution upload time stamp.
pub const STAMP_PATTERN: &'static str = "%Y%m%d-%H%M%S";

/// The pattern of the millisecond-resolution stamp used for temporary image files.
pub const STAMP_MILLIS_PATTERN: &'static str = "%Y%m%d-%H%M%S-%3f";

/// The largest Unix time (in seconds) that the time library can represent.
pub const MAX_UTC_SECS: i64 = 8_210_266_876_799;

/// What `chrono` writes for the UTC instant `secs`.`nanos` under a `strftime`-style pattern.
pub uninterp spec fn utc_format(secs: int, nanos: int, pattern: Seq<char>) -> Seq<char>;

/// Reads the system clock as whole seconds and sub-second nanoseconds since the Unix epoch,
/// or nothing when the clock reads a time before the epoch.
///
/// Trusted: `SystemTime::now().duration_since(UNIX_EPOCH)`, then the `Duration`'s `as_secs` and
/// `subsec_nanos`. std documents that `duration_since` fails when the given time is later
/// than `self`, and that `subsec_nanos` is always below one billion. The reading itself is the
/// machine's clock and is not stated.
#[verifier::external_body]
fn system_clock() -> (r: Option<(u64, u32)>)
    ensures
        r is Some ==> r->Some_0.1 < 1_000_000_000,
{
    match std::time::SystemTime::now().duration_since(std::time::UNIX_EPOCH) {
        Ok(d) => Some((d.as_secs(), d.subsec_nanos())),
        Err(_) => None,
    }
}

/// The current UTC time as seconds and nanoseconds since the epoch, when the clock reads a
/// time the time library can represent (not before 1970, not past `MAX_UTC_SECS`).
pub(crate) fn clock_now() -> (r: Option<(i64, u32)>)
    ensures
        r is Some ==> 0 <= r->Some_0.0 <= MAX_UTC_SECS && r->Some_0.1 < 1_000_000_000,
{
    match system_clock() {
        Some((secs, nanos)) => if secs <= MAX_UTC_SECS as u64 {
            Some((secs as i64, nanos))
        } else {
            None
        },
        None => None,
    }
}

/// What an operation that needs the time reports when the clock is unusable.
pub open spec fn clock_error_text() -> Seq<char> {
    "system clock is before 1970 or beyond the supported range"@
}

/// The text of `clock_error_text`.
pub fn clock_error() -> (r: String)
    ensures
        r@ == clock_error_text(),
{
    owned("system clock is before 1970 or beyond the supported range")
}

/// Formats a UTC instant with one of the library's stamp patterns.
///
/// Trusted: `chrono::DateTime::<Utc>::from_timestamp` followed by `format(..).to_string()`.
/// In range and with nanoseconds below one second the instant exists, and both patterns
/// are valid, so nothing panics; the text is named by `utc_format` and not spelled out.
#[verifier::external_body]
pub(crate) fn format_time(secs: i64, nanos: u32, pattern: &str) -> (r: String)
    requires
        0 <= secs <= MAX_UTC_SECS,
        nanos < 1_000_000_000,
        pattern@ == STAMP_PATTERN@ || pattern@ == STAMP_MILLIS_PATTERN@,
    ensures
        r@ == utc_format(secs as int, nanos as int, pattern@),
{
    chrono::DateTime::<chrono::Utc>::from_timestamp(secs, nanos).unwrap().format(
        pattern,
    ).to_string()
}

/// A random string of `len` ASCII letters and digits.
///
/// Trusted: `rand::distributions::Alphanumeric.sample_string(&mut rand::thread_rng(), len)`;
/// its source appends exactly `len` samples, each drawn from `A-Z`, `a-z`, `0-9`.
/// Which characters come out is chance and is not stated.
#[verifier::external_body]
pub(crate) fn random_alphanumeric(len: usize) -> (r: String)
    ensures
        r@.len() == len,
        forall|i: int| 0 <= i < len ==> is_ascii_alnum(#[trigger] r@[i]),
{
    rand::distributions::DistString::sample_string(
        &rand::distributions::Alphanumeric,
        &mut rand::thread_rng(),
        len,
    )
}

/// ASCII upper case letters mapped to lower case; everything else unchanged.
pub open spec fn ascii_lower(c: char) -> char {
    if 'A' <= c && c <= 'Z' {
        ((c as u32) + 32) as char
    } else {
        c
    }
}

/// The ASCII lower-case form of `s` (what `to_lowercase` gives on ASCII text).
pub fn ascii_lowercase(s: &str) -> (r: String)
    ensures
        r@ == s@.map_values(|c: char| ascii_lower(c)),
{
    let n = s.unicode_len();
    let mut out = String::new();
    let mut i: usize = 0;
    while i < n
        invariant
            n == s@.len(),
            i <= n,
            out@ == s@.take(i as int).map_values(|c: char| ascii_lower(c)),
        decreases n - i,
    {
        let c = s.get_char(i);
        let l = if 'A' <= c && c <= 'Z' {
            let b: u8 = (c as u8) + 32;
            b as char
        } else {
            c
        };
        push_char(&mut out, l);
        i = i + 1;
        assert(out@ =~= s@.take(i as int).map_values(|c: char| ascii_lower(c)));
    }
    assert(s@.take(n as int) =~= s@);
    out
}

/// A random run of `len` lower-case ASCII letters and digits.
pub fn random_lower_alnum(len: usize) -> (r: String)
    ensures
        r@.len() == len,
        forall|i: int| 0 <= i < len ==> is_lower_alnum(#[trigger] r@[i]),
{
    let raw = random_alphanumeric(len);
    let r = ascii_lowercase(raw.as_str());
    assert forall|i: int| 0 <= i < len implies is_lower_alnum(#[trigger] r@[i]) by {
        assert(is_ascii_alnum(raw@[i]));
        assert(r@[i] == ascii_lower(raw@[i]));
    }
    r
}

/// Compose `stamp-SSS-rand-stem.ext` from an already formatted stamp, the milliseconds,
/// the random part and the original name (sanitized here).
pub fn compose_remote_filename(stamp: &str, millis: u32, rand: &str, original: &str) -> (r:
    String)
    ensures
        r@ == remote_filename_spec(stamp@, millis as nat, rand@, original@),
{
    let (stem, ext) = sanitize(original);
    let mut out = owned(stamp);
    push_char(&mut out, '-');
    push_padded_decimal(&mut out, millis as u64, 3);
    push_char(&mut out, '-');
    push_str(&mut out, rand);
    push_char(&mut out, '-');
    push_str(&mut out, stem.as_str());
    push_str(&mut out, ext.as_str());
    assert(out@ =~= remote_filename_spec(stamp@, millis as nat, rand@, original@));
    out
}

/// Build the final remote filename `YYYYMMDD-HHMMSS-SSS-<rand6>-<stem>.<ext>` from the
/// current UTC time and six random lower-case letters or digits; nothing when the clock reads
/// a time before 1970 or past `MAX_UTC_SECS`.
pub fn build_remote_filename(original: &str) -> (r: Option<String>)
    ensures
        r is Some ==> exists|secs: int, nanos: int, rand: Seq<char>|
            {
                &&& 0 <= secs <= MAX_UTC_SECS
                &&& 0 <= nanos < 1_000_000_000
                &&& rand.len() == 6
                &&& forall|i: int| 0 <= i < 6 ==> is_lower_alnum(#[trigger] rand[i])
                &&& r->Some_0@ == remote_filename_spec(
                    utc_format(secs, nanos, STAMP_PATTERN@),
                    (nanos / 1_000_000) as nat,
                    rand,
                    original@,
                )
            },
{
    let (secs, nanos) = match clock_now() {
        Some(t) => t,
        None => return None,
    };
    let stamp = format_time(secs, nanos, STAMP_PATTERN);
    let millis = nanos / 1_000_000;
    let rand = random_lower_alnum(6);
    let r = compose_remote_filename(stamp.as_str(), millis, rand.as_str(), original);
    assert(forall|i: int| 0 <= i < 6 ==> is_lower_alnum(#[trigger] rand@[i]));
    Some(r)
}

/// Sanitizing keeps exactly the characters it should: `keep_safe(s)` is the subsequence of `s`
/// made of its ASCII letters, digits, `.`, `_` and `-`, in order.
pub proof fn law_keep_safe_is_filter(s: Seq<char>)
    ensures
        keep_safe(s) == s.filter(
            |c: char|
                ('A' <= c && c <= 'Z') || ('a' <= c && c <= 'z') || ('0' <= c && c <= '9') || c
                    == '.' || c == '_' || c == '-',
        ),
    decreases s.len(),
{
    reveal(Seq::filter);
    if s.len() > 0 {
        law_keep_safe_is_filter(s.drop_last());
    }
}

proof fn lemma_collapse_no_whitespace(s: Seq<char>)
    requires
        forall|i: int| 0 <= i < s.len() ==> !is_whitespace_spec(#[trigger] s[i]),
    ensures
        collapse_whitespace(s) == s,
    decreases s.len(),
{
    if s.len() > 0 {
        lemma_collapse_no_whitespace(s.drop_last());
        assert(s.drop_last().push(s.last()) =~= s);
    }
}

proof fn lemma_keep_safe_all_kept(s: Seq<char>)
    requires
        forall|i: int| 0 <= i < s.len() ==> is_safe_char(#[trigger] s[i]),
    ensures
        keep_safe(s) == s,
    decreases s.len(),
{
    if s.len() > 0 {
        lemma_keep_safe_all_kept(s.drop_last());
        assert(s.drop_last().push(s.last()) =~= s);
    }
}

/// A name segment made only of ASCII letters, digits, `.`, `_` and `-` comes out of
/// sanitizing unchanged.
pub proof fn law_plain_segment_unchanged(s: Seq<char>)
    requires
        forall|i: int|
            0 <= i < s.len() ==> ({
                let c = #[trigger] s[i];
                ('A' <= c && c <= 'Z') || ('a' <= c && c <= 'z') || ('0' <= c && c <= '9') || c
                    == '.' || c == '_' || c == '-'
            }),
    ensures
        sanitize_segment_spec(s) == s,
{
    assert forall|i: int| 0 <= i < s.len() implies !is_whitespace_spec(#[trigger] s[i]) by {
        let c = s[i];
        assert(('A' <= c && c <= 'Z') || ('a' <= c && c <= 'z') || ('0' <= c && c <= '9') || c
            == '.' || c == '_' || c == '-');
    }
    lemma_collapse_no_whitespace(s);
    assert forall|i: int| 0 <= i < s.len() implies is_safe_char(#[trigger] s[i]) by {
        let c = s[i];
        assert(('A' <= c && c <= 'Z') || ('a' <= c && c <= 'z') || ('0' <= c && c <= '9') || c
            == '.' || c == '_' || c == '-');
    }
    lemma_keep_safe_all_kept(s);
}

} // verus!
