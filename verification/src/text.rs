//! Character-level helpers shared by the formatting and parsing code:
//! decimal and hexadecimal rendering, ASCII case folding, and the
//! decimal integer syntax accepted by `str::parse`.

use vstd::prelude::*;
use vstd::string::StringExecFns;

verus! {

/// The characters of a string slice, in order.
pub fn chars_of(s: &str) -> (v: Vec<char>)
    ensures
        v@ == s@,
{
    let mut v: Vec<char> = Vec::new();
    for c in it: s.chars()
        invariant
            v@ == it.seq().take(it.index() as int),
    {
        v.push(c);
    }
    proof {
        broadcast use vstd::string::group_string_axioms;
    }
    v
}

/// `String::push`: appends one character.
#[verifier::external_body]
pub(crate) fn push_char(s: &mut String, c: char)
    ensures
        final(s)@ == old(s)@.push(c),
{
    s.push(c);
}

/// Appends the characters of a string slice.
pub fn push_str(s: &mut String, t: &str)
    ensures
        final(s)@ == old(s)@ + t@,
{
    s.append(t);
}

/// Whether two character sequences are equal.
pub fn chars_eq(a: &Vec<char>, b: &Vec<char>) -> (res: bool)
    ensures
        res == (a@ == b@),
{
    if a.len() != b.len() {
        return false;
    }
    for i in 0..a.len()
        invariant
            a.len() == b.len(),
            forall|j: int| 0 <= j < i ==> a@[j] == b@[j],
    {
        if a[i] != b[i] {
            return false;
        }
    }
    assert(a@ =~= b@);
    true
}

// ----- ASCII case -----

/// `c` with an ASCII uppercase letter replaced by its lowercase letter.
pub open spec fn ascii_lower_char(c: char) -> char {
    if 'A' <= c && c <= 'Z' {
        ((c as int) + 32) as char
    } else {
        c
    }
}

/// `s` with every ASCII uppercase letter replaced by its lowercase letter.
pub open spec fn ascii_lower(s: Seq<char>) -> Seq<char> {
    s.map_values(|c: char| ascii_lower_char(c))
}

/// The characters of `v` with ASCII uppercase letters lowered.
pub fn to_ascii_lower(v: &Vec<char>) -> (res: Vec<char>)
    ensures
        res@ == ascii_lower(v@),
{
    let mut res: Vec<char> = Vec::new();
    for i in 0..v.len()
        invariant
            res@ == ascii_lower(v@.take(i as int)),
    {
        let c = v[i];
        let l = if 'A' <= c && c <= 'Z' {
            ((c as u32) + 32) as u8 as char
        } else {
            c
        };
        res.push(l);
        assert(v@.take(i + 1) == v@.take(i as int).push(c));
        assert(ascii_lower(v@.take(i + 1)) == ascii_lower(v@.take(i as int)).push(l));
    }
    assert(v@.take(v.len() as int) == v@);
    res
}

// ----- digits -----

/// The ASCII digit for a value below 16 (`a`..`f` above 9).
pub open spec fn digit_char(d: nat) -> char {
    if d < 10 {
        (48 + d) as char
    } else {
        (87 + d) as char
    }
}

/// The numeral of `n` in the given base, most significant digit first,
/// without leading zeros (zero is written `0`).
pub open spec fn numeral(n: nat, base: nat) -> Seq<char>
    recommends
        2 <= base <= 16,
    decreases n,
{
    if base < 2 || n < base {
        seq![digit_char(n)]
    } else {
        proof {
            assert(n / base < n) by (nonlinear_arith)
                requires
                    n >= base,
                    base >= 2,
            ;
        }
        numeral(n / base, base).push(digit_char(n % base))
    }
}

/// Decimal numeral, as `{}` formats an unsigned integer.
pub open spec fn decimal(n: nat) -> Seq<char> {
    numeral(n, 10)
}

/// Lowercase hexadecimal numeral, as `{:x}` formats an unsigned integer.
pub open spec fn hex(n: nat) -> Seq<char> {
    numeral(n, 16)
}

fn digit(d: u64) -> (c: char)
    requires
        d < 16,
    ensures
        c == digit_char(d as nat),
{
    if d < 10 {
        ((d as u8) + 48u8) as char
    } else {
        ((d as u8) + 87u8) as char
    }
}

/// Appends the numeral of `n` in `base` (2 to 16).
pub fn push_numeral(s: &mut String, n: u64, base: u64)
    requires
        2 <= base <= 16,
    ensures
        final(s)@ == old(s)@ + numeral(n as nat, base as nat),
    decreases n,
{
    if n >= base {
        assert(n / base < n) by (nonlinear_arith)
            requires
                n >= base,
                base >= 2,
        ;
        push_numeral(s, n / base, base);
    }
    let c = digit(n % base);
    push_char(s, c);
    proof {
        if n >= base {
            assert(numeral(n as nat, base as nat) == numeral((n / base) as nat, base as nat).push(c));
        } else {
            vstd::arithmetic::div_mod::lemma_small_mod(n as nat, base as nat);
            assert(numeral(n as nat, base as nat) == seq![c]);
        }
    }
}

/// Appends the decimal numeral of `n`.
pub fn push_decimal(s: &mut String, n: u64)
    ensures
        final(s)@ == old(s)@ + decimal(n as nat),
{
    push_numeral(s, n, 10);
}

/// Appends the lowercase hexadecimal numeral of `n`.
pub fn push_hex(s: &mut String, n: u64)
    ensures
        final(s)@ == old(s)@ + hex(n as nat),
{
    push_numeral(s, n, 16);
}

// ----- integer literals -----

pub open spec fn is_ascii_digit(c: char) -> bool {
    '0' <= c && c <= '9'
}

pub open spec fn all_ascii_digits(ds: Seq<char>) -> bool {
    forall|i: int| 0 <= i < ds.len() ==> is_ascii_digit(#[trigger] ds[i])
}

/// The value of a run of decimal digits.
pub open spec fn digits_value(ds: Seq<char>) -> nat
    decreases ds.len(),
{
    if ds.len() == 0 {
        0
    } else {
        digits_value(ds.drop_last()) * 10 + ((ds.last() as int - 48) as nat)
    }
}

/// The text that `str::parse` accepts for an unsigned integer, read
/// without a bound: an optional `+`, then one or more ASCII digits.
pub open spec fn unsigned_literal(t: Seq<char>) -> Option<nat> {
    let ds = if t.len() > 0 && t[0] == '+' {
        t.drop_first()
    } else {
        t
    };
    if ds.len() > 0 && all_ascii_digits(ds) {
        Some(digits_value(ds))
    } else {
        None
    }
}

/// The text that `str::parse` accepts for a signed integer, read without
/// a bound: an optional `+` or `-`, then one or more ASCII digits.
pub open spec fn signed_literal(t: Seq<char>) -> Option<int> {
    if t.len() > 0 && t[0] == '-' {
        let ds = t.drop_first();
        if ds.len() > 0 && all_ascii_digits(ds) {
            Some(-(digits_value(ds) as int))
        } else {
            None
        }
    } else {
        match unsigned_literal(t) {
            Some(v) => Some(v as int),
            None => None,
        }
    }
}

proof fn lemma_digits_value_prefix(ds: Seq<char>, i: int)
    requires
        0 <= i <= ds.len(),
        all_ascii_digits(ds),
    ensures
        digits_value(ds.take(i)) <= digits_value(ds),
    decreases ds.len() - i,
{
    if i < ds.len() {
        lemma_digits_value_prefix(ds, i + 1);
        assert(ds.take(i + 1).drop_last() == ds.take(i));
        assert(is_ascii_digit(ds[i]));
    } else {
        assert(ds.take(i) == ds);
    }
}

/// Reads the digits `v[lo..hi]` (all ASCII digits, at least one) and returns
/// their value when it is at most `bound`.
fn digits_up_to(v: &Vec<char>, lo: usize, hi: usize, bound: u64) -> (res: Option<u64>)
    requires
        lo <= hi <= v.len(),
    ensures
        match res {
            Some(n) => all_ascii_digits(v@.subrange(lo as int, hi as int))
                && n == digits_value(v@.subrange(lo as int, hi as int)) && n <= bound,
            None => !all_ascii_digits(v@.subrange(lo as int, hi as int))
                || digits_value(v@.subrange(lo as int, hi as int)) > bound,
        },
{
    let ghost ds = v@.subrange(lo as int, hi as int);
    let mut acc: u64 = 0;
    let mut i: usize = lo;
    while i < hi
        invariant
            lo <= i <= hi <= v.len(),
            ds == v@.subrange(lo as int, hi as int),
            all_ascii_digits(ds.take(i - lo)),
            acc == digits_value(ds.take(i - lo)),
            acc <= bound,
        decreases hi - i,
    {
        let c = v[i];
        if !('0' <= c && c <= '9') {
            assert(ds[i - lo] == c);
            return None;
        }
        let d = (c as u64) - 48;
        assert(ds.take(i + 1 - lo).drop_last() == ds.take(i - lo));
        assert(ds.take(i + 1 - lo).last() == c);
        if d > bound || acc > (bound - d) / 10 {
            assert(acc * 10 + d > bound) by (nonlinear_arith)
                requires
                    d > bound || acc > (bound - d) / 10,
                    acc >= 0,
            ;
            proof {
                if all_ascii_digits(ds) {
                    lemma_digits_value_prefix(ds, i + 1 - lo);
                }
            }
            return None;
        }
        assert(acc * 10 + d <= bound) by (nonlinear_arith)
            requires
                acc <= (bound - d) / 10,
                d <= bound,
        ;
        acc = acc * 10 + d;
        i = i + 1;
    }
    assert(ds.take(hi - lo) == ds);
    Some(acc)
}

/// What `str::parse::<usize>` returns for `t`.
pub open spec fn parsed_usize(t: Seq<char>) -> Option<usize> {
    match unsigned_literal(t) {
        Some(n) => if n <= usize::MAX {
            Some(n as usize)
        } else {
            None
        },
        None => None,
    }
}

/// What `str::parse::<i16>` returns for `t`.
pub open spec fn parsed_i16(t: Seq<char>) -> Option<i16> {
    match signed_literal(t) {
        Some(n) => if i16::MIN <= n <= i16::MAX {
            Some(n as i16)
        } else {
            None
        },
        None => None,
    }
}

/// Every unsigned literal whose value fits in `usize` reads as that value,
/// and one that does not fit reads as nothing.
pub proof fn lemma_parsed_usize_reads_every_fitting_literal(t: Seq<char>)
    ensures
        unsigned_literal(t) matches Some(n) ==> (n <= usize::MAX ==> parsed_usize(t) == Some(
            n as usize,
        )) && (n > usize::MAX ==> parsed_usize(t) is None),
        unsigned_literal(t) is None ==> parsed_usize(t) is None,
{
}

/// A nonempty run of ASCII digits is an unsigned literal of its value,
/// with or without a leading `+`.
pub proof fn lemma_digit_run_is_unsigned_literal(ds: Seq<char>)
    requires
        ds.len() > 0,
        forall|i: int| 0 <= i < ds.len() ==> '0' <= #[trigger] ds[i] && ds[i] <= '9',
    ensures
        unsigned_literal(ds) == Some(digits_value(ds)),
        unsigned_literal(seq!['+'] + ds) == Some(digits_value(ds)),
{
    assert((seq!['+'] + ds).drop_first() == ds);
}

/// Every signed literal whose value fits in `i16` reads as that value.
pub proof fn lemma_parsed_i16_reads_every_fitting_literal(t: Seq<char>)
    ensures
        signed_literal(t) matches Some(n) ==> (-32768 <= n <= 32767 ==> parsed_i16(t) == Some(
            n as i16,
        )) && (n < -32768 || n > 32767 ==> parsed_i16(t) is None),
        signed_literal(t) is None ==> parsed_i16(t) is None,
{
}

/// `str::parse::<usize>` applied to the characters `v[lo..hi]`.
pub fn parse_usize_in(v: &Vec<char>, lo: usize, hi: usize) -> (res: Option<usize>)
    requires
        lo <= hi <= v.len(),
    ensures
        res == parsed_usize(v@.subrange(lo as int, hi as int)),
{
    let ghost t = v@.subrange(lo as int, hi as int);
    let start = if lo < hi && v[lo] == '+' {
        lo + 1
    } else {
        lo
    };
    assert(start > lo ==> t.drop_first() == v@.subrange(start as int, hi as int));
    assert(start == lo ==> t == v@.subrange(start as int, hi as int));
    if start == hi {
        return None;
    }
    match digits_up_to(v, start, hi, usize::MAX as u64) {
        Some(n) => Some(n as usize),
        None => None,
    }
}

/// `str::parse::<i16>`.
pub fn parse_i16(s: &str) -> (res: Option<i16>)
    ensures
        res == parsed_i16(s@),
{
    let v = chars_of(s);
    let n = v.len();
    let ghost t = v@;
    assert(t == v@.subrange(0, n as int));
    if n > 0 && v[0] == '-' {
        assert(t.drop_first() == v@.subrange(1, n as int));
        if n == 1 {
            return None;
        }
        match digits_up_to(&v, 1, n, 32768) {
            Some(m) => {
                let r: i16 = if m == 32768 {
                    i16::MIN
                } else {
                    -(m as i16)
                };
                Some(r)
            },
            None => None,
        }
    } else {
        let start: usize = if n > 0 && v[0] == '+' {
            1
        } else {
            0
        };
        assert(start == 1 ==> t.drop_first() == v@.subrange(1, n as int));
        if start == n {
            return None;
        }
        match digits_up_to(&v, start, n, 32767) {
            Some(m) => Some(m as i16),
            None => None,
        }
    }
}

} // verus!
