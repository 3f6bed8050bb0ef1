//! Attribute file text: the decimal format in which every numeric sysfs
//! attribute is written and read, whitespace trimming, and whitespace-split
//! token parsing for the capture attribute.

use vstd::prelude::*;
use vstd::string::StrSliceExecFns;
use vstd::string::StringExecFns;

verus! {

/// The character for one decimal digit value.
pub open spec fn digit_char(d: nat) -> char {
    if d == 0 {
        '0'
    } else if d == 1 {
        '1'
    } else if d == 2 {
        '2'
    } else if d == 3 {
        '3'
    } else if d == 4 {
        '4'
    } else if d == 5 {
        '5'
    } else if d == 6 {
        '6'
    } else if d == 7 {
        '7'
    } else if d == 8 {
        '8'
    } else {
        '9'
    }
}

/// The canonical decimal rendering of a number: no sign, no leading zeros
/// (except for the number zero itself).
pub open spec fn dec_str(n: nat) -> Seq<char>
    decreases n,
{
    if n < 10 {
        seq![digit_char(n)]
    } else {
        dec_str(n / 10).push(digit_char(n % 10))
    }
}

/// One decimal digit as a string slice.
fn digit_str(d: u32) -> (r: &'static str)
    requires
        d < 10,
    ensures
        r@ == seq![digit_char(d as nat)],
{
    proof {
        reveal_strlit("0");
        reveal_strlit("1");
        reveal_strlit("2");
        reveal_strlit("3");
        reveal_strlit("4");
        reveal_strlit("5");
        reveal_strlit("6");
        reveal_strlit("7");
        reveal_strlit("8");
        reveal_strlit("9");
    }
    let r = if d == 0 {
        "0"
    } else if d == 1 {
        "1"
    } else if d == 2 {
        "2"
    } else if d == 3 {
        "3"
    } else if d == 4 {
        "4"
    } else if d == 5 {
        "5"
    } else if d == 6 {
        "6"
    } else if d == 7 {
        "7"
    } else if d == 8 {
        "8"
    } else {
        "9"
    };
    proof {
        assert(r@ =~= seq![digit_char(d as nat)]);
    }
    r
}

/// Render a number as decimal text, exactly as it is written into a sysfs
/// attribute file.
pub fn u32_string(n: u32) -> (r: String)
    ensures
        r@ == dec_str(n as nat),
    decreases n,
{
    if n < 10 {
        String::from_str(digit_str(n))
    } else {
        let mut s = u32_string(n / 10);
        s.append(digit_str(n % 10));
        proof {
            assert(s@ =~= dec_str(n as nat));
        }
        s
    }
}

/// Whether a character is a decimal digit.
pub open spec fn is_digit(c: char) -> bool {
    48 <= c as u32 <= 57
}

/// The value of a digit character; zero for anything else, so that the
/// numeric reading of a sequence is total.
pub open spec fn digit_val(c: char) -> nat {
    if is_digit(c) {
        (c as u32 - 48) as nat
    } else {
        0
    }
}

/// A non-empty run of decimal digits: the only texts this library accepts as
/// a number.
pub open spec fn is_dec(t: Seq<char>) -> bool {
    t.len() > 0 && forall|i: int| 0 <= i < t.len() ==> is_digit(#[trigger] t[i])
}

/// The numeric reading of a digit sequence.
pub open spec fn dec_val(t: Seq<char>) -> nat
    decreases t.len(),
{
    if t.len() == 0 {
        0
    } else {
        dec_val(t.drop_last()) * 10 + digit_val(t.last())
    }
}

/// The number a text denotes, if it is a run of digits whose value fits.
pub open spec fn dec_of(t: Seq<char>) -> Option<u32> {
    if is_dec(t) && dec_val(t) <= u32::MAX {
        Some(dec_val(t) as u32)
    } else {
        None
    }
}

/// Rendering a number and reading the text back yields the number: the
/// round-trip at the bottom of every attribute write.
pub proof fn lemma_dec_str_val(n: nat)
    ensures
        is_dec(dec_str(n)),
        dec_val(dec_str(n)) == n,
    decreases n,
{
    assert(forall|d: nat| d < 10 ==> digit_val(#[trigger] digit_char(d)) == d);
    if n < 10 {
        assert(dec_str(n) =~= seq![digit_char(n)]);
        assert(dec_str(n).drop_last() =~= Seq::<char>::empty());
        assert(dec_val(Seq::<char>::empty()) == 0);
        assert(dec_str(n).last() == digit_char(n));
        assert(dec_val(dec_str(n)) == dec_val(dec_str(n).drop_last()) * 10 + digit_val(
            dec_str(n).last(),
        ));
    } else {
        lemma_dec_str_val(n / 10);
        let t = dec_str(n);
        assert(t =~= dec_str(n / 10).push(digit_char(n % 10)));
        assert(t.drop_last() =~= dec_str(n / 10));
        assert(t.last() == digit_char(n % 10));
        assert(dec_val(t) == (n / 10) * 10 + n % 10);
        assert((n / 10) * 10 + n % 10 == n) by (nonlinear_arith);
    }
}

/// Reading never shrinks when more digits follow: the value of a prefix is
/// at most the value of the whole.
pub proof fn lemma_dec_val_prefix(t: Seq<char>, k: int)
    requires
        0 <= k <= t.len(),
    ensures
        dec_val(t.take(k)) <= dec_val(t),
    decreases t.len(),
{
    if k < t.len() {
        let u = t.drop_last();
        assert(u.take(k) =~= t.take(k));
        lemma_dec_val_prefix(u, k);
        assert(dec_val(t) == dec_val(u) * 10 + digit_val(t.last()));
        assert(dec_val(u) * 10 >= dec_val(u)) by (nonlinear_arith);
    } else {
        assert(t.take(k) =~= t);
    }
}

/// Whether a character counts as whitespace here: the ASCII whitespace that
/// kernel attribute files may carry around a value, notably the trailing
/// newline.
pub open spec fn is_space(c: char) -> bool {
    c == ' ' || c == '\t' || c == '\n' || c == '\r' || c == '\u{b}' || c == '\u{c}'
}

/// Index of the first non-whitespace character at or after `i`.
pub open spec fn skip_spaces(t: Seq<char>, i: int) -> int
    recommends
        0 <= i <= t.len(),
    decreases t.len() - i,
{
    if i < t.len() && is_space(t[i]) {
        skip_spaces(t, i + 1)
    } else {
        i
    }
}

/// Index just past the last non-whitespace character before `j`.
pub open spec fn rskip_spaces(t: Seq<char>, j: int) -> int
    recommends
        0 <= j <= t.len(),
    decreases j,
{
    if j > 0 && is_space(t[j - 1]) {
        rskip_spaces(t, j - 1)
    } else {
        j
    }
}

/// The text with leading and trailing whitespace removed.
pub open spec fn trimmed(t: Seq<char>) -> Seq<char> {
    let lo = skip_spaces(t, 0);
    let hi = rskip_spaces(t, t.len() as int);
    if lo <= hi {
        t.subrange(lo, hi)
    } else {
        Seq::empty()
    }
}

/// The number an attribute file's text denotes: its trimmed content read as
/// decimal.
pub open spec fn spec_parse_u32(t: Seq<char>) -> Option<u32> {
    dec_of(trimmed(t))
}

pub proof fn lemma_skip_spaces_bounds(t: Seq<char>, i: int)
    requires
        0 <= i <= t.len(),
    ensures
        i <= skip_spaces(t, i) <= t.len(),
        forall|k: int| i <= k < skip_spaces(t, i) ==> is_space(#[trigger] t[k]),
        skip_spaces(t, i) < t.len() ==> !is_space(t[skip_spaces(t, i)]),
    decreases t.len() - i,
{
    if i < t.len() && is_space(t[i]) {
        lemma_skip_spaces_bounds(t, i + 1);
    }
}

pub proof fn lemma_rskip_spaces_bounds(t: Seq<char>, j: int)
    requires
        0 <= j <= t.len(),
    ensures
        0 <= rskip_spaces(t, j) <= j,
        forall|k: int| rskip_spaces(t, j) <= k < j ==> is_space(#[trigger] t[k]),
        rskip_spaces(t, j) > 0 ==> !is_space(t[rskip_spaces(t, j) - 1]),
    decreases j,
{
    if j > 0 && is_space(t[j - 1]) {
        lemma_rskip_spaces_bounds(t, j - 1);
    }
}

/// Index just past the run of non-whitespace characters starting at `i`.
pub open spec fn token_end(t: Seq<char>, i: int) -> int
    recommends
        0 <= i <= t.len(),
    decreases t.len() - i,
{
    if i < t.len() && !is_space(t[i]) {
        token_end(t, i + 1)
    } else {
        i
    }
}

pub proof fn lemma_token_end_bounds(t: Seq<char>, i: int)
    requires
        0 <= i <= t.len(),
    ensures
        i <= token_end(t, i) <= t.len(),
        forall|k: int| i <= k < token_end(t, i) ==> !is_space(#[trigger] t[k]),
        token_end(t, i) < t.len() ==> is_space(t[token_end(t, i)]),
    decreases t.len() - i,
{
    if i < t.len() && !is_space(t[i]) {
        lemma_token_end_bounds(t, i + 1);
    }
}

/// The numbers denoted by the whitespace-separated tokens of `t` at or after
/// `i`, keeping exactly the tokens that read as a number.
pub open spec fn dec_tokens_from(t: Seq<char>, i: int) -> Seq<u32>
    recommends
        0 <= i <= t.len(),
    decreases t.len() - i,
    when 0 <= i <= t.len()
    via dec_tokens_from_decreases
{
    let j = skip_spaces(t, i);
    if j >= t.len() {
        Seq::empty()
    } else {
        let k = token_end(t, j);
        let rest = dec_tokens_from(t, k);
        match dec_of(t.subrange(j, k)) {
            Some(x) => seq![x] + rest,
            None => rest,
        }
    }
}

#[via_fn]
proof fn dec_tokens_from_decreases(t: Seq<char>, i: int) {
    lemma_skip_spaces_bounds(t, i);
    let j = skip_spaces(t, i);
    if j < t.len() {
        lemma_token_end_bounds(t, j);
    }
}

/// The characters of a string, in order.
pub fn chars_of(s: &str) -> (v: Vec<char>)
    ensures
        v@ == s@,
{
    let n = s.unicode_len();
    let mut v: Vec<char> = Vec::new();
    let mut i: usize = 0;
    while i < n
        invariant
            i <= n,
            n == s@.len(),
            v@ == s@.take(i as int),
        decreases n - i,
    {
        let c = s.get_char(i);
        v.push(c);
        i += 1;
        proof {
            assert(v@ =~= s@.take(i as int));
        }
    }
    proof {
        assert(v@ =~= s@);
    }
    v
}

/// Whether a character is whitespace in the sense of `is_space`.
pub fn is_space_char(c: char) -> (r: bool)
    ensures
        r == is_space(c),
{
    c == ' ' || c == '\t' || c == '\n' || c == '\r' || c == '\u{b}' || c == '\u{c}'
}

/// The bounds of the text once whitespace is trimmed from both ends.
pub fn trim_bounds(v: &Vec<char>) -> (r: (usize, usize))
    ensures
        r.0 as int == skip_spaces(v@, 0),
        r.1 as int == rskip_spaces(v@, v@.len() as int),
{
    let n = v.len();
    let mut lo: usize = 0;
    while lo < n && is_space_char(v[lo])
        invariant
            lo <= n,
            n == v@.len(),
            skip_spaces(v@, 0) == skip_spaces(v@, lo as int),
        decreases n - lo,
    {
        lo += 1;
    }
    let mut hi: usize = n;
    while hi > 0 && is_space_char(v[hi - 1])
        invariant
            hi <= n,
            n == v@.len(),
            rskip_spaces(v@, n as int) == rskip_spaces(v@, hi as int),
        decreases hi,
    {
        hi -= 1;
    }
    (lo, hi)
}

/// The digit a character denotes, if any.
fn digit_of(c: char) -> (r: Option<u32>)
    ensures
        match r {
            Some(d) => is_digit(c) && d as nat == digit_val(c),
            None => !is_digit(c),
        },
{
    let u = c as u32;
    if 48 <= u && u <= 57 {
        Some(u - 48)
    } else {
        None
    }
}

/// Read the characters in `[lo, hi)` as a decimal number, if that is what
/// they are and the value fits.
pub fn parse_range(v: &Vec<char>, lo: usize, hi: usize) -> (r: Option<u32>)
    requires
        lo <= hi <= v@.len(),
    ensures
        r == dec_of(v@.subrange(lo as int, hi as int)),
{
    let ghost t = v@.subrange(lo as int, hi as int);
    if lo == hi {
        return None;
    }
    let mut acc: u64 = 0;
    let mut i: usize = lo;
    while i < hi
        invariant
            lo <= i <= hi <= v@.len(),
            hi > lo,
            acc <= u32::MAX as u64,
            t == v@.subrange(lo as int, hi as int),
            acc as nat == dec_val(t.take(i - lo)),
            forall|k: int| 0 <= k < i - lo ==> is_digit(#[trigger] t[k]),
        decreases hi - i,
    {
        match digit_of(v[i]) {
            None => {
                proof {
                    assert(t[i - lo] == v@[i as int]);
                    assert(!is_dec(t));
                }
                return None;
            },
            Some(d) => {
                proof {
                    assert(t.take(i + 1 - lo).drop_last() =~= t.take(i - lo));
                    assert(t.take(i + 1 - lo).last() == t[i - lo]);
                    assert(t[i - lo] == v@[i as int]);
                }
                let next: u64 = acc * 10 + d as u64;
                proof {
                    assert(next as nat == dec_val(t.take(i + 1 - lo)));
                }
                if next > u32::MAX as u64 {
                    proof {
                        lemma_dec_val_prefix(t, i + 1 - lo);
                        assert(dec_val(t) > u32::MAX);
                    }
                    return None;
                }
                acc = next;
                i += 1;
            },
        }
    }
    proof {
        assert(t.take(hi - lo) =~= t);
        assert(is_dec(t));
    }
    Some(acc as u32)
}

/// Parse a whole attribute text as a decimal number, ignoring surrounding
/// whitespace.
pub fn parse_u32(s: &str) -> (r: Option<u32>)
    ensures
        r == spec_parse_u32(s@),
{
    let v = chars_of(s);
    let (lo, hi) = trim_bounds(&v);
    proof {
        lemma_skip_spaces_bounds(v@, 0);
        lemma_rskip_spaces_bounds(v@, v@.len() as int);
    }
    if lo < hi {
        proof {
            assert(trimmed(s@) == v@.subrange(lo as int, hi as int));
        }
        parse_range(&v, lo, hi)
    } else {
        proof {
            if lo as int <= rskip_spaces(v@, v@.len() as int) {
                assert(trimmed(s@) =~= Seq::<char>::empty());
            }
            assert(dec_of(trimmed(s@)) is None);
        }
        None
    }
}

/// The numbers found among the whitespace-separated tokens of a string.
pub fn scan_dec_tokens(v: &Vec<char>) -> (r: Vec<u32>)
    ensures
        r@ == dec_tokens_from(v@, 0),
{
    let n = v.len();
    let mut out: Vec<u32> = Vec::new();
    let mut i: usize = 0;
    loop
        invariant
            i <= n,
            n == v@.len(),
            dec_tokens_from(v@, 0) == out@ + dec_tokens_from(v@, i as int),
        decreases n - i,
    {
        let mut j: usize = i;
        while j < n && is_space_char(v[j])
            invariant
                i <= j <= n,
                n == v@.len(),
                skip_spaces(v@, i as int) == skip_spaces(v@, j as int),
            decreases n - j,
        {
            j += 1;
        }
        if j >= n {
            proof {
                assert(dec_tokens_from(v@, i as int) =~= Seq::<u32>::empty());
                assert(out@ =~= out@ + dec_tokens_from(v@, i as int));
            }
            return out;
        }
        let mut k: usize = j;
        while k < n && !is_space_char(v[k])
            invariant
                j <= k <= n,
                n == v@.len(),
                token_end(v@, j as int) == token_end(v@, k as int),
            decreases n - k,
        {
            k += 1;
        }
        proof {
            lemma_skip_spaces_bounds(v@, i as int);
            lemma_token_end_bounds(v@, j as int);
        }
        let ghost rest = dec_tokens_from(v@, k as int);
        match parse_range(v, j, k) {
            Some(x) => {
                out.push(x);
                proof {
                    assert(dec_tokens_from(v@, i as int) == seq![x] + rest);
                    assert(out@ + rest =~= out@.drop_last() + (seq![x] + rest));
                }
            },
            None => {
                proof {
                    assert(dec_tokens_from(v@, i as int) == rest);
                }
            },
        }
        i = k;
    }
}

/// Whether the characters in `[lo, hi)` spell exactly the string `s`.
pub fn range_eq_str(v: &Vec<char>, lo: usize, hi: usize, s: &str) -> (r: bool)
    requires
        lo <= hi <= v@.len(),
    ensures
        r == (v@.subrange(lo as int, hi as int) == s@),
{
    let ghost t = v@.subrange(lo as int, hi as int);
    let m = s.unicode_len();
    if hi - lo != m {
        proof {
            assert(t.len() != s@.len());
        }
        return false;
    }
    let mut i: usize = 0;
    while i < m
        invariant
            i <= m,
            m == s@.len(),
            lo <= hi <= v@.len(),
            hi - lo == m,
            t == v@.subrange(lo as int, hi as int),
            forall|k: int| 0 <= k < i ==> t[k] == s@[k],
        decreases m - i,
    {
        let c = s.get_char(i);
        if v[lo + i] != c {
            proof {
                assert(t[i as int] != s@[i as int]);
            }
            return false;
        }
        i += 1;
    }
    proof {
        assert(t =~= s@);
    }
    true
}

} // verus!
