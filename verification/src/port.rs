//! Port discovery: the pure half of the filesystem handshake.
//!
//! The worker process writes its listening port, as decimal text, into a
//! well-known file in the temporary-files directory.  The binary reads that
//! file and hands the content (or the absence of the file) to [`resolve_port`],
//! which trims surrounding whitespace, parses the number, and falls back to
//! [`DEFAULT_PORT`] on any failure.  Trimming removes the Unicode
//! `White_Space` characters, and parsing accepts what `u16` parsing accepts:
//! an optional plus sign, then ASCII digits, with a value of at most 65535.
//! The functions here never touch the file themselves: they are pure, so
//! concurrent callers cannot interfere with one another, and the result is a
//! function of the content snapshot alone.

use vstd::prelude::*;

verus! {

/// Port reported when the handshake file is missing, unreadable, or does not
/// hold a decimal number in range.
pub const DEFAULT_PORT: u16 = 3001;

/// The name of the handshake file, to be joined under the temporary-files
/// directory by the caller.
pub open spec fn port_file_name_spec() -> Seq<char> {
    "invoices-sidecar-port"@
}

/// Returns the name of the handshake file.
pub fn port_file_name() -> (name: &'static str)
    ensures
        name@ == port_file_name_spec(),
{
    "invoices-sidecar-port"
}

/// The Unicode `White_Space` characters: what trimming removes from around
/// the port digits.  The set is fixed by the Unicode property: the ASCII
/// whitespace, next line, no-break space, ogham space mark, the en-quad
/// through hair-space range, line and paragraph separators, narrow no-break
/// space, medium mathematical space, and ideographic space.
pub open spec fn is_unicode_space(c: char) -> bool {
    let u = c as u32;
    (9 <= u && u <= 13) || u == 32 || u == 0x85 || u == 0xA0 || u == 0x1680 || (0x2000 <= u && u
        <= 0x200A) || u == 0x2028 || u == 0x2029 || u == 0x202F || u == 0x205F || u == 0x3000
}

/// An ASCII decimal digit; the only digits number parsing accepts.
pub open spec fn is_decimal_digit(c: char) -> bool {
    48 <= c as u32 && c as u32 <= 57
}

pub open spec fn all_digits(s: Seq<char>) -> bool {
    forall|i: int| 0 <= i < s.len() ==> is_decimal_digit(#[trigger] s[i])
}

/// The value of a string of decimal digits, most significant first.
pub open spec fn digits_value(s: Seq<char>) -> int
    decreases s.len(),
{
    if s.len() == 0 {
        0
    } else {
        digits_value(s.drop_last()) * 10 + (s.last() as u32 - 48)
    }
}

/// The digits of a decimal number, after an optional leading plus sign.
pub open spec fn unsigned_body(s: Seq<char>) -> Seq<char> {
    if s.len() > 0 && s[0] == '+' {
        s.subrange(1, s.len() as int)
    } else {
        s
    }
}

/// Whether `s` is text that parses as a port: an optional plus sign, then at
/// least one digit, with a value of at most 65535.
pub open spec fn is_port_text(s: Seq<char>) -> bool {
    let d = unsigned_body(s);
    d.len() > 0 && all_digits(d) && digits_value(d) <= 65535
}

/// The port a piece of text denotes; meaningful when `is_port_text` holds.
pub open spec fn port_text_value(s: Seq<char>) -> int {
    digits_value(unsigned_body(s))
}

pub open spec fn trim_front(s: Seq<char>) -> Seq<char>
    decreases s.len(),
{
    if s.len() > 0 && is_unicode_space(s[0]) {
        trim_front(s.subrange(1, s.len() as int))
    } else {
        s
    }
}

pub open spec fn trim_back(s: Seq<char>) -> Seq<char>
    decreases s.len(),
{
    if s.len() > 0 && is_unicode_space(s.last()) {
        trim_back(s.drop_last())
    } else {
        s
    }
}

/// `s` with Unicode whitespace removed from both ends, as string trimming
/// removes it.
pub open spec fn trimmed(s: Seq<char>) -> Seq<char> {
    trim_back(trim_front(s))
}

/// What port resolution yields for a given read outcome: the number the
/// trimmed content denotes, or the default when the file was absent or its
/// content does not parse.
pub open spec fn resolved_port(content: Option<Seq<char>>) -> int {
    match content {
        Option::Some(s) => if is_port_text(trimmed(s)) {
            port_text_value(trimmed(s))
        } else {
            DEFAULT_PORT as int
        },
        Option::None => DEFAULT_PORT as int,
    }
}

/// The character sequences behind a read outcome handed in as text.
pub open spec fn content_chars(content: Option<&str>) -> Option<Seq<char>> {
    match content {
        Option::Some(s) => Option::Some(s@),
        Option::None => Option::None,
    }
}

fn is_space_char(c: char) -> (r: bool)
    ensures
        r == is_unicode_space(c),
{
    let u = c as u32;
    (9 <= u && u <= 13) || u == 32 || u == 0x85 || u == 0xA0 || u == 0x1680 || (0x2000 <= u && u
        <= 0x200A) || u == 0x2028 || u == 0x2029 || u == 0x202F || u == 0x205F || u == 0x3000
}

fn is_digit_char(c: char) -> (r: bool)
    ensures
        r == is_decimal_digit(c),
{
    let u = c as u32;
    48 <= u && u <= 57
}

proof fn lemma_digits_value_nonneg(s: Seq<char>)
    requires
        all_digits(s),
    ensures
        digits_value(s) >= 0,
    decreases s.len(),
{
    if s.len() > 0 {
        assert(all_digits(s.drop_last()));
        lemma_digits_value_nonneg(s.drop_last());
    }
}

/// A digit string is worth no less than any of its prefixes.
proof fn lemma_digits_value_prefix(s: Seq<char>, k: int)
    requires
        all_digits(s),
        0 <= k <= s.len(),
    ensures
        digits_value(s.subrange(0, k)) <= digits_value(s),
    decreases s.len() - k,
{
    if k == s.len() {
        assert(s.subrange(0, k) =~= s);
    } else {
        let next = s.subrange(0, k + 1);
        assert(next.drop_last() =~= s.subrange(0, k));
        assert(all_digits(s.subrange(0, k)));
        lemma_digits_value_nonneg(s.subrange(0, k));
        lemma_digits_value_prefix(s, k + 1);
    }
}

/// Trims and parses the content of the handshake file as in
/// [`resolved_port`].
fn port_from_str(s: &str) -> (p: u16)
    ensures
        p as int == resolved_port(Option::Some(s@)),
{
    let n: usize = s.unicode_len();
    proof {
        assert(s@.subrange(0, n as int) =~= s@);
    }
    let mut lo: usize = 0;
    while lo < n && is_space_char(s.get_char(lo))
        invariant
            0 <= lo <= n,
            n == s@.len(),
            trim_front(s@) == trim_front(s@.subrange(lo as int, n as int)),
        decreases n - lo,
    {
        proof {
            let cur = s@.subrange(lo as int, n as int);
            assert(cur.subrange(1, cur.len() as int) =~= s@.subrange(lo + 1, n as int));
        }
        lo = lo + 1;
    }
    proof {
        let cur = s@.subrange(lo as int, n as int);
        assert(cur.len() > 0 ==> cur[0] == s@[lo as int]);
        assert(trim_front(s@) == s@.subrange(lo as int, n as int));
    }
    let mut hi: usize = n;
    while hi > lo && is_space_char(s.get_char(hi - 1))
        invariant
            0 <= lo <= hi <= n,
            n == s@.len(),
            trim_front(s@) == s@.subrange(lo as int, n as int),
            trimmed(s@) == trim_back(s@.subrange(lo as int, hi as int)),
        decreases hi,
    {
        proof {
            let cur = s@.subrange(lo as int, hi as int);
            assert(cur.last() == s@[hi - 1]);
            assert(cur.drop_last() =~= s@.subrange(lo as int, hi - 1));
        }
        hi = hi - 1;
    }
    proof {
        let cur = s@.subrange(lo as int, hi as int);
        assert(cur.len() > 0 ==> cur.last() == s@[hi - 1]);
        assert(trimmed(s@) == s@.subrange(lo as int, hi as int));
    }
    let ghost t: Seq<char> = s@.subrange(lo as int, hi as int);
    let mut start: usize = lo;
    if hi > lo && s.get_char(lo) == '+' {
        start = lo + 1;
        proof {
            assert(t.subrange(1, t.len() as int) =~= s@.subrange(start as int, hi as int));
        }
    }
    let ghost d: Seq<char> = unsigned_body(t);
    proof {
        assert(d =~= s@.subrange(start as int, hi as int));
    }
    if start == hi {
        return DEFAULT_PORT;
    }
    let mut acc: u32 = 0;
    let mut i: usize = start;
    while i < hi
        invariant
            start <= i <= hi <= n,
            n == s@.len(),
            d == s@.subrange(start as int, hi as int),
            unsigned_body(t) == d,
            trimmed(s@) == t,
            all_digits(d.subrange(0, i - start)),
            acc <= 65535,
            acc as int == digits_value(d.subrange(0, i - start)),
        decreases hi - i,
    {
        let c = s.get_char(i);
        proof {
            assert(d[i - start] == s@[i as int]);
        }
        if !is_digit_char(c) {
            assert(!all_digits(d));
            return DEFAULT_PORT;
        }
        let next: u32 = acc * 10 + (c as u32 - 48);
        proof {
            let k = i - start;
            assert(d.subrange(0, k + 1).drop_last() =~= d.subrange(0, k));
            assert(d.subrange(0, k + 1).last() == d[k]);
            assert(all_digits(d.subrange(0, k + 1)));
            assert(next as int == digits_value(d.subrange(0, k + 1)));
        }
        if next > 65535 {
            proof {
                if all_digits(d) {
                    lemma_digits_value_prefix(d, i + 1 - start);
                }
            }
            return DEFAULT_PORT;
        }
        acc = next;
        i = i + 1;
    }
    proof {
        assert(d.subrange(0, i - start) =~= d);
        assert(is_port_text(t));
    }
    acc as u16
}

/// Resolves the worker's port from what a read of the handshake file
/// returned: `None` when the file could not be read, `Some` of its text
/// otherwise.  Always succeeds; any failure to parse degrades to
/// [`DEFAULT_PORT`].  Takes the content by shared reference and mutates
/// nothing, so any number of callers may resolve concurrently.
pub fn resolve_port(content: Option<&str>) -> (p: u16)
    ensures
        p as int == resolved_port(content_chars(content)),
{
    match content {
        Option::Some(s) => port_from_str(s),
        Option::None => DEFAULT_PORT,
    }
}

} // verus!
