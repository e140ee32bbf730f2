//! Text handling shared by the snapshot queries: whitespace trimming and
//! parsing of a battery-capacity percentage.

use vstd::prelude::*;
use vstd::string::StrSliceExecFns;
use vstd::string::StringExecFns;

verus! {

/// Whitespace as it surrounds host tool output: the ASCII space and the
/// ASCII control whitespace characters.
pub open spec fn is_space(c: char) -> bool {
    c == ' ' || c == '\t' || c == '\n' || c == '\r' || c == '\u{b}' || c == '\u{c}'
}

fn is_space_char(c: char) -> (r: bool)
    ensures
        r == is_space(c),
{
    c == ' ' || c == '\t' || c == '\n' || c == '\r' || c == '\u{b}' || c == '\u{c}'
}

/// `s` with every leading whitespace character removed.
pub open spec fn trim_start_spec(s: Seq<char>) -> Seq<char>
    decreases s.len(),
{
    if s.len() > 0 && is_space(s[0]) {
        trim_start_spec(s.subrange(1, s.len() as int))
    } else {
        s
    }
}

/// `s` with every trailing whitespace character removed.
pub open spec fn trim_end_spec(s: Seq<char>) -> Seq<char>
    decreases s.len(),
{
    if s.len() > 0 && is_space(s[s.len() - 1]) {
        trim_end_spec(s.subrange(0, s.len() - 1))
    } else {
        s
    }
}

/// `s` with surrounding whitespace removed.
pub open spec fn trim_spec(s: Seq<char>) -> Seq<char> {
    trim_end_spec(trim_start_spec(s))
}

proof fn lemma_trim_start_prefix(s: Seq<char>, i: int)
    requires
        0 <= i <= s.len(),
        forall|j: int| 0 <= j < i ==> is_space(s[j]),
    ensures
        trim_start_spec(s) == trim_start_spec(s.subrange(i, s.len() as int)),
    decreases i,
{
    if i > 0 {
        let t = s.subrange(1, s.len() as int);
        lemma_trim_start_prefix(t, i - 1);
        assert(t.subrange(i - 1, t.len() as int) =~= s.subrange(i, s.len() as int));
    } else {
        assert(s.subrange(0, s.len() as int) =~= s);
    }
}

proof fn lemma_trim_end_suffix(s: Seq<char>, i: int)
    requires
        0 <= i <= s.len(),
        forall|j: int| i <= j < s.len() ==> is_space(s[j]),
    ensures
        trim_end_spec(s) == trim_end_spec(s.subrange(0, i)),
    decreases s.len() - i,
{
    if i < s.len() {
        let t = s.subrange(0, s.len() - 1);
        lemma_trim_end_suffix(t, i);
        assert(t.subrange(0, i) =~= s.subrange(0, i));
    } else {
        assert(s.subrange(0, s.len() as int) =~= s);
    }
}

/// The text with surrounding whitespace removed, owned.
pub fn trimmed(s: &str) -> (r: String)
    ensures
        r@ == trim_spec(s@),
{
    let n: usize = s.unicode_len();
    let mut lo: usize = 0;
    while lo < n && is_space_char(s.get_char(lo))
        invariant
            n == s@.len(),
            lo <= n,
            forall|j: int| 0 <= j < lo ==> is_space(s@[j]),
        decreases n - lo,
    {
        lo = lo + 1;
    }
    let mut hi: usize = n;
    while hi > lo && is_space_char(s.get_char(hi - 1))
        invariant
            n == s@.len(),
            lo <= hi <= n,
            lo == n || !is_space(s@[lo as int]),
            forall|j: int| 0 <= j < lo ==> is_space(s@[j]),
            forall|j: int| hi <= j < n ==> is_space(s@[j]),
        decreases hi,
    {
        hi = hi - 1;
    }
    proof {
        lemma_trim_start_prefix(s@, lo as int);
        let u = s@.subrange(lo as int, n as int);
        assert(trim_start_spec(u) == u);
        lemma_trim_end_suffix(u, hi - lo);
        assert(u.subrange(0, hi - lo) =~= s@.subrange(lo as int, hi as int));
        assert(trim_end_spec(s@.subrange(lo as int, hi as int)) == s@.subrange(
            lo as int,
            hi as int,
        ));
    }
    String::from_str(s.substring_char(lo, hi))
}

/// A decimal digit.
pub open spec fn is_digit(c: char) -> bool {
    '0' <= c && c <= '9'
}

/// The numeric value of a decimal digit.
pub open spec fn digit_val(c: char) -> int {
    c as int - '0' as int
}

/// The number that a sequence of decimal digits denotes, most significant
/// digit first.
pub open spec fn digits_val(s: Seq<char>) -> int
    decreases s.len(),
{
    if s.len() == 0 {
        0
    } else {
        digits_val(s.drop_last()) * 10 + digit_val(s.last())
    }
}

/// Every character of `s` is a decimal digit.
pub open spec fn all_digits(s: Seq<char>) -> bool {
    forall|i: int| 0 <= i < s.len() ==> is_digit(s[i])
}

/// `s` without its optional leading plus sign.
pub open spec fn unsigned_digits(s: Seq<char>) -> Seq<char> {
    if s.len() > 0 && s[0] == '+' {
        s.subrange(1, s.len() as int)
    } else {
        s
    }
}

/// Whether `s` is text that denotes an 8-bit unsigned integer: an optional
/// plus sign, then at least one decimal digit, with a value of at most 255.
pub open spec fn is_u8_text(s: Seq<char>) -> bool {
    let d = unsigned_digits(s);
    d.len() > 0 && all_digits(d) && digits_val(d) <= 255
}

/// The battery capacity that capacity text denotes: its value when the
/// trimmed text is an 8-bit unsigned integer, and 0 otherwise.
pub open spec fn capacity_of(s: Seq<char>) -> u8 {
    let t = trim_spec(s);
    if is_u8_text(t) {
        digits_val(unsigned_digits(t)) as u8
    } else {
        0
    }
}

proof fn lemma_digits_val_nonneg(s: Seq<char>)
    requires
        all_digits(s),
    ensures
        digits_val(s) >= 0,
    decreases s.len(),
{
    if s.len() > 0 {
        lemma_digits_val_nonneg(s.drop_last());
    }
}

proof fn lemma_digits_val_prefix_le(s: Seq<char>, i: int)
    requires
        0 <= i <= s.len(),
        all_digits(s),
    ensures
        digits_val(s.subrange(0, i)) <= digits_val(s),
    decreases s.len() - i,
{
    if i == s.len() {
        assert(s.subrange(0, i) =~= s);
    } else {
        let t = s.drop_last();
        lemma_digits_val_prefix_le(t, i);
        assert(t.subrange(0, i) =~= s.subrange(0, i));
        lemma_digits_val_nonneg(t);
    }
}

/// The capacity percentage that the given raw capacity text denotes: the
/// integer value of the trimmed text, or 0 when the trimmed text is empty,
/// is not a decimal integer, or exceeds 255.
pub fn parse_capacity(s: &str) -> (r: u8)
    ensures
        r == capacity_of(s@),
{
    let t = trimmed(s);
    let ts: &str = t.as_str();
    let n: usize = ts.unicode_len();
    let start: usize = if n > 0 && ts.get_char(0) == '+' {
        1
    } else {
        0
    };
    let ghost tv = ts@;
    let ghost d = unsigned_digits(tv);
    proof {
        assert(d =~= tv.subrange(start as int, n as int));
    }
    if start >= n {
        return 0;
    }
    let mut i: usize = start;
    let mut acc: u32 = 0;
    while i < n
        invariant
            tv == trim_spec(s@),
            ts@ == tv,
            n == tv.len(),
            start <= i <= n,
            start < n,
            d == unsigned_digits(tv),
            d == tv.subrange(start as int, n as int),
            all_digits(tv.subrange(start as int, i as int)),
            acc == digits_val(tv.subrange(start as int, i as int)),
            acc <= 255,
        decreases n - i,
    {
        let c = ts.get_char(i);
        let ghost prefix = tv.subrange(start as int, i as int);
        let ghost prefix1 = tv.subrange(start as int, i + 1);
        proof {
            assert(prefix1.drop_last() =~= prefix);
            assert(prefix1.last() == tv[i as int]);
        }
        if c < '0' || c > '9' {
            proof {
                assert(d[i - start] == tv[i as int]);
                assert(!all_digits(d));
            }
            return 0;
        }
        let dv: u32 = (c as u32) - ('0' as u32);
        proof {
            assert(dv == digit_val(c));
        }
        acc = acc * 10 + dv;
        if acc > 255 {
            proof {
                if all_digits(d) {
                    lemma_digits_val_prefix_le(d, i + 1 - start);
                    assert(d.subrange(0, i + 1 - start) =~= prefix1);
                }
            }
            return 0;
        }
        i = i + 1;
    }
    proof {
        assert(tv.subrange(start as int, n as int) == d);
    }
    acc as u8
}

/// Capacity text whose trimmed form does not denote an integer at all —
/// it is empty or holds a non-digit — is read as capacity 0.
pub proof fn lemma_unparsable_capacity_is_zero(s: Seq<char>)
    requires
        unsigned_digits(trim_spec(s)).len() == 0 || !all_digits(unsigned_digits(trim_spec(s))),
    ensures
        capacity_of(s) == 0,
{
}

/// Capacity text whose trimmed form denotes an integer of at most 255 is
/// read as exactly that integer, whatever whitespace surrounds it.
pub proof fn lemma_well_formed_capacity_value(s: Seq<char>)
    requires
        unsigned_digits(trim_spec(s)).len() > 0,
        all_digits(unsigned_digits(trim_spec(s))),
        digits_val(unsigned_digits(trim_spec(s))) <= 255,
    ensures
        capacity_of(s) == digits_val(unsigned_digits(trim_spec(s))),
{
    lemma_digits_val_nonneg(unsigned_digits(trim_spec(s)));
}

} // verus!
