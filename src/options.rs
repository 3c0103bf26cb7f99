//! Text given on the command line: image heights by name or number, aspect
//! ratios written `w:h`, and the default name of the output file.

use vstd::prelude::*;

verus! {

/// Whether `c` is an ASCII decimal digit.
pub open spec fn is_digit(c: char) -> bool {
    '0' <= c <= '9'
}

/// The number that the digits `s` write in base ten.
pub open spec fn digits_value(s: Seq<char>) -> nat
    decreases s.len(),
{
    if s.len() == 0 {
        0
    } else {
        digits_value(s.drop_last()) * 10 + (s.last() as nat - '0' as nat) as nat
    }
}

/// What `usize`'s `from_str` accepts: an optional `+`, then one or more
/// decimal digits and nothing else, whose value fits in `usize`.
pub open spec fn decimal_usize(s: Seq<char>) -> Option<usize> {
    let digits = if s.len() > 0 && s[0] == '+' { s.drop_first() } else { s };
    if digits.len() > 0 && (forall|i: int| 0 <= i < digits.len() ==> is_digit(#[trigger] digits[i]))
        && digits_value(digits) <= usize::MAX {
        Some(digits_value(digits) as usize)
    } else {
        None
    }
}

/// Relies on `str::parse::<usize>`: an optional `+` followed by decimal
/// digits, the value in range; anything else is an error.
#[verifier::external_body]
fn parse_usize(s: &str) -> (r: Option<usize>)
    ensures
        r == decimal_usize(s@),
{
    s.parse::<usize>().ok()
}

/// Whether `a` and `b` hold the same characters.
pub fn same_text(a: &str, b: &str) -> (r: bool)
    ensures
        r == (a@ == b@),
{
    let n = a.unicode_len();
    if n != b.unicode_len() {
        return false;
    }
    let mut i: usize = 0;
    while i < n
        invariant
            n == a@.len(),
            n == b@.len(),
            i <= n,
            forall|j: int| 0 <= j < i ==> a@[j] == b@[j],
        decreases n - i,
    {
        if a.get_char(i) != b.get_char(i) {
            return false;
        }
        i = i + 1;
    }
    assert(a@ =~= b@);
    true
}

/// The image height that `s` names: `HD` or `720p`, `FHD` or `1080p`, `4K`
/// or `2160p`, `8K` or `4320p`; otherwise the decimal number `s` writes.
pub open spec fn height_of(s: Seq<char>) -> Option<usize> {
    if s == "HD"@ || s == "720p"@ {
        Some(720usize)
    } else if s == "FHD"@ || s == "1080p"@ {
        Some(1080usize)
    } else if s == "4K"@ || s == "2160p"@ {
        Some(2160usize)
    } else if s == "8K"@ || s == "4320p"@ {
        Some(4320usize)
    } else {
        decimal_usize(s)
    }
}

/// Reads an image height, by name or as a number; `None` where `s` is
/// neither.
pub fn parse_height(s: &str) -> (r: Option<usize>)
    ensures
        r == height_of(s@),
{
    if same_text(s, "HD") || same_text(s, "720p") {
        Some(720)
    } else if same_text(s, "FHD") || same_text(s, "1080p") {
        Some(1080)
    } else if same_text(s, "4K") || same_text(s, "2160p") {
        Some(2160)
    } else if same_text(s, "8K") || same_text(s, "4320p") {
        Some(4320)
    } else {
        parse_usize(s)
    }
}

/// The two sides of an aspect ratio written `w:h`: the text before the
/// first `:` and the text after it, or the whole text and `None` where it
/// holds no `:`.
pub open spec fn ratio_parts(s: Seq<char>) -> (Seq<char>, Option<Seq<char>>) {
    if exists|i: int| 0 <= i < s.len() && s[i] == ':' {
        let i = choose|i: int| 0 <= i < s.len() && s[i] == ':' && forall|j: int| 0 <= j < i ==> s[j] != ':';
        (s.take(i), Some(s.skip(i + 1)))
    } else {
        (s, None)
    }
}

/// Splits an aspect ratio at its first `:`.
pub fn split_ratio(s: &str) -> (r: (&str, Option<&str>))
    ensures
        r.0@ == ratio_parts(s@).0,
        r.1 matches Some(h) ==> ratio_parts(s@).1 == Some(h@),
        r.1 is None <==> ratio_parts(s@).1 is None,
{
    let n = s.unicode_len();
    let mut i: usize = 0;
    while i < n
        invariant
            n == s@.len(),
            i <= n,
            forall|j: int| 0 <= j < i ==> s@[j] != ':',
        decreases n - i,
    {
        if s.get_char(i) == ':' {
            let ghost first = i as int;
            assert(s@[first] == ':' && forall|j: int| 0 <= j < first ==> s@[j] != ':');
            let ghost k = choose|k: int| 0 <= k < s@.len() && s@[k] == ':' && forall|j: int| 0 <= j < k ==> s@[j] != ':';
            assert(k == first) by {
                if k < first {
                    assert(s@[k] != ':');
                } else if k > first {
                    assert(s@[first] != ':');
                }
            }
            let before = s.substring_char(0, i);
            let after = s.substring_char(i + 1, n);
            assert(before@ =~= s@.take(first));
            assert(after@ =~= s@.skip(first + 1));
            return (before, Some(after));
        }
        i = i + 1;
    }
    (s, None)
}

/// The last second, counted from the Unix epoch, of the year 9999: the
/// latest time that RFC 3339 text can hold.
pub const LATEST_SECOND: u64 = 253402300799;

/// The RFC 3339 text, in UTC, of the time `secs` seconds and `nanos`
/// nanoseconds after the Unix epoch, as humantime writes it.
pub uninterp spec fn rfc3339_of(secs: u64, nanos: u32) -> Seq<char>;

/// Relies on humantime::format_rfc3339: the UTC time in RFC 3339 form, 20
/// characters where the nanoseconds are zero and 30 (nine fraction digits)
/// otherwise; formatting a time from the year 10000 on fails, which
/// `to_string` turns into a panic.
#[verifier::external_body]
fn format_rfc3339(secs: u64, nanos: u32) -> (r: String)
    requires
        secs <= LATEST_SECOND,
        nanos < 1_000_000_000,
    ensures
        r@ == rfc3339_of(secs, nanos),
        r@.len() == (if nanos == 0 { 20int } else { 30int }),
{
    let time = std::time::UNIX_EPOCH + std::time::Duration::new(secs, nanos);
    humantime::format_rfc3339(time).to_string()
}

/// The name of the output file when none is given: the time the render
/// started, in RFC 3339 form, followed by `.png`.
pub fn default_output_name(secs: u64, nanos: u32) -> (r: String)
    requires
        secs <= LATEST_SECOND,
        nanos < 1_000_000_000,
    ensures
        r@ == rfc3339_of(secs, nanos) + ".png"@,
{
    let stamp = format_rfc3339(secs, nanos);
    stamp.concat(".png")
}

} // verus!
