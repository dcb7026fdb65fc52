//! Character-level helpers for building and inspecting strings.

use vstd::prelude::*;

verus! {

/// The lowercase form that `str::to_lowercase` gives for a string.
pub uninterp spec fn lower_of(s: Seq<char>) -> Seq<char>;

/// Relies on `String::push`: appends one character.
#[verifier::external_body]
pub(crate) fn push_char(s: &mut String, c: char)
    ensures
        final(s)@ == old(s)@.push(c),
{
    s.push(c)
}

/// Relies on `str::to_lowercase`: the result depends on the characters alone.
#[verifier::external_body]
pub(crate) fn to_lowercase(s: &str) -> (r: String)
    ensures
        r@ == lower_of(s@),
{
    s.to_lowercase()
}

/// The characters of a string, as a vector.
pub fn chars_of(s: &str) -> (r: Vec<char>)
    ensures
        r@ == s@,
{
    let n = s.unicode_len();
    let mut out: Vec<char> = Vec::with_capacity(n);
    let mut i: usize = 0;
    while i < n
        invariant
            n == s@.len(),
            i <= n,
            out@ == s@.subrange(0, i as int),
        decreases n - i,
    {
        out.push(s.get_char(i));
        i += 1;
    }
    assert(out@ =~= s@);
    out
}

/// Appends every character of `cs` to `out`.
pub fn push_chars(out: &mut String, cs: &Vec<char>)
    ensures
        final(out)@ == old(out)@ + cs@,
{
    let mut i: usize = 0;
    while i < cs.len()
        invariant
            i <= cs@.len(),
            out@ == old(out)@ + cs@.subrange(0, i as int),
        decreases cs@.len() - i,
    {
        push_char(out, cs[i]);
        proof {
            assert(cs@.subrange(0, i + 1) =~= cs@.subrange(0, i as int).push(cs@[i as int]));
        }
        i += 1;
    }
    assert(cs@.subrange(0, cs@.len() as int) =~= cs@);
}

/// Character-wise equality of two strings.
pub fn str_eq(a: &str, b: &str) -> (r: bool)
    ensures
        r == (a@ == b@),
{
    let n = a.unicode_len();
    if n != b.unicode_len() {
        return false;
    }
    let mut i: usize = 0;
    while i < n
        invariant
            n == a@.len(),
            n == b@.len(),
            i <= n,
            forall|j: int| 0 <= j < i ==> a@[j] == b@[j],
        decreases n - i,
    {
        if a.get_char(i) != b.get_char(i) {
            return false;
        }
        i += 1;
    }
    assert(a@ =~= b@);
    true
}

/// `pat` occurs in `s` starting at index `i`.
pub open spec fn occurs_at(s: Seq<char>, pat: Seq<char>, i: int) -> bool {
    0 <= i && i + pat.len() <= s.len() && s.subrange(i, i + pat.len()) == pat
}

/// The first index at or after `i` where `pat` occurs in `s`.
pub open spec fn find_from(s: Seq<char>, pat: Seq<char>, i: int) -> Option<int>
    decreases s.len() + 1 - i,
{
    if i < 0 || i + pat.len() > s.len() {
        None
    } else if occurs_at(s, pat, i) {
        Some(i)
    } else {
        find_from(s, pat, i + 1)
    }
}

/// `pat` is a substring of `s`.
pub open spec fn contains_seq(s: Seq<char>, pat: Seq<char>) -> bool {
    exists|i: int| occurs_at(s, pat, i)
}

proof fn lemma_find_from_none(s: Seq<char>, pat: Seq<char>, i: int)
    requires
        0 <= i,
        find_from(s, pat, i) is None,
    ensures
        forall|j: int| i <= j ==> !occurs_at(s, pat, j),
    decreases s.len() + 1 - i,
{
    if i + pat.len() <= s.len() {
        lemma_find_from_none(s, pat, i + 1);
    }
}

proof fn lemma_find_from_some(s: Seq<char>, pat: Seq<char>, i: int)
    requires
        0 <= i,
        find_from(s, pat, i) is Some,
    ensures
        occurs_at(s, pat, find_from(s, pat, i)->0),
    decreases s.len() + 1 - i,
{
    if i + pat.len() <= s.len() && !occurs_at(s, pat, i) {
        lemma_find_from_some(s, pat, i + 1);
    }
}

/// A match found by `find_from` at 0 lies within `s`.
pub proof fn lemma_find_some_bounds(s: Seq<char>, pat: Seq<char>)
    requires
        find_from(s, pat, 0) is Some,
    ensures
        occurs_at(s, pat, find_from(s, pat, 0)->0),
{
    lemma_find_from_some(s, pat, 0);
}

/// `find_from` at 0 is defined exactly when `pat` occurs somewhere.
pub proof fn lemma_find_contains(s: Seq<char>, pat: Seq<char>)
    ensures
        (find_from(s, pat, 0) is Some) == contains_seq(s, pat),
{
    if find_from(s, pat, 0) is Some {
        lemma_find_from_some(s, pat, 0);
    } else {
        lemma_find_from_none(s, pat, 0);
    }
}

/// `pat` occurs in `s` at index `i`.
fn occurs_at_exec(s: &Vec<char>, pat: &Vec<char>, i: usize) -> (r: bool)
    requires
        i + pat@.len() <= s@.len(),
    ensures
        r == occurs_at(s@, pat@, i as int),
{
    let sl = s.len();
    let mut k: usize = 0;
    while k < pat.len()
        invariant
            sl == s@.len(),
            i + pat@.len() <= s@.len(),
            k <= pat@.len(),
            forall|j: int| 0 <= j < k ==> s@[i + j] == pat@[j],
        decreases pat@.len() - k,
    {
        if s[i + k] != pat[k] {
            assert(s@.subrange(i as int, i + pat@.len())[k as int] != pat@[k as int]);
            return false;
        }
        k += 1;
    }
    assert(s@.subrange(i as int, i + pat@.len()) =~= pat@);
    true
}

/// The first index where `pat` occurs in `s`.
pub fn find_seq(s: &Vec<char>, pat: &Vec<char>) -> (r: Option<usize>)
    ensures
        match r {
            Some(i) => find_from(s@, pat@, 0) == Some(i as int),
            None => find_from(s@, pat@, 0) is None,
        },
{
    if pat.len() > s.len() {
        return None;
    }
    let last = s.len() - pat.len();
    let mut i: usize = 0;
    loop
        invariant
            last + pat@.len() == s@.len(),
            i <= last,
            find_from(s@, pat@, 0) == find_from(s@, pat@, i as int),
        decreases last - i,
    {
        if occurs_at_exec(s, pat, i) {
            return Some(i);
        }
        if i == last {
            return None;
        }
        i += 1;
    }
}

/// `pat` is a substring of `s`.
pub fn contains_str(s: &str, pat: &str) -> (r: bool)
    ensures
        r == contains_seq(s@, pat@),
{
    let sv = chars_of(s);
    let pv = chars_of(pat);
    proof {
        lemma_find_contains(s@, pat@);
    }
    find_seq(&sv, &pv).is_some()
}

/// The digit for a value below sixteen.
pub open spec fn hex_digit(d: nat, upper: bool) -> char {
    if d < 10 {
        (('0' as u32) + d) as char
    } else if upper {
        (('A' as u32) + d - 10) as char
    } else {
        (('a' as u32) + d - 10) as char
    }
}

/// The last `count` hexadecimal digits of `n`, zero-padded.
pub open spec fn hex_fixed(n: nat, count: nat, upper: bool) -> Seq<char>
    decreases count,
{
    if count == 0 {
        Seq::empty()
    } else {
        hex_fixed(n / 16, (count - 1) as nat, upper).push(hex_digit(n % 16, upper))
    }
}

/// The hexadecimal digits of `n`, without leading zeros.
pub open spec fn hex_min(n: nat, upper: bool) -> Seq<char>
    decreases n,
{
    if n < 16 {
        seq![hex_digit(n, upper)]
    } else {
        hex_min(n / 16, upper).push(hex_digit(n % 16, upper))
    }
}

/// The decimal digits of `n`, without leading zeros.
pub open spec fn dec_digits(n: nat) -> Seq<char>
    decreases n,
{
    if n < 10 {
        seq![(('0' as u32) + n) as char]
    } else {
        dec_digits(n / 10).push((('0' as u32) + n % 10) as char)
    }
}

/// The last `count` decimal digits of `n`, zero-padded.
pub open spec fn dec_fixed(n: nat, count: nat) -> Seq<char>
    decreases count,
{
    if count == 0 {
        Seq::empty()
    } else {
        dec_fixed(n / 10, (count - 1) as nat).push((('0' as u32) + n % 10) as char)
    }
}

/// The decimal rendering of a signed integer.
pub open spec fn dec_int(v: int) -> Seq<char> {
    if v < 0 {
        seq!['-'] + dec_digits((-v) as nat)
    } else {
        dec_digits(v as nat)
    }
}

fn digit_char(d: u64, upper: bool) -> (c: char)
    requires
        d < 16,
    ensures
        c == hex_digit(d as nat, upper),
{
    if d < 10 {
        ((('0' as u32) + d as u32) as u8) as char
    } else if upper {
        ((('A' as u32) + d as u32 - 10) as u8) as char
    } else {
        ((('a' as u32) + d as u32 - 10) as u8) as char
    }
}

/// Appends the last `count` hexadecimal digits of `n`.
pub fn push_hex_fixed(out: &mut String, n: u64, count: usize, upper: bool)
    ensures
        final(out)@ == old(out)@ + hex_fixed(n as nat, count as nat, upper),
    decreases count,
{
    if count > 0 {
        push_hex_fixed(out, n / 16, count - 1, upper);
        push_char(out, digit_char(n % 16, upper));
        assert(final(out)@ =~= old(out)@ + hex_fixed(n as nat, count as nat, upper));
    } else {
        assert(final(out)@ =~= old(out)@ + hex_fixed(n as nat, count as nat, upper));
    }
}

/// Appends the hexadecimal digits of `n` without leading zeros.
pub fn push_hex_min(out: &mut String, n: u64, upper: bool)
    ensures
        final(out)@ == old(out)@ + hex_min(n as nat, upper),
    decreases n,
{
    if n >= 16 {
        push_hex_min(out, n / 16, upper);
    }
    push_char(out, digit_char(n % 16, upper));
    assert(final(out)@ =~= old(out)@ + hex_min(n as nat, upper));
}

/// Appends the decimal digits of `n` without leading zeros.
pub fn push_dec(out: &mut String, n: u64)
    ensures
        final(out)@ == old(out)@ + dec_digits(n as nat),
    decreases n,
{
    if n >= 10 {
        push_dec(out, n / 10);
    }
    push_char(out, ((('0' as u32) + (n % 10) as u32) as u8) as char);
    assert(final(out)@ =~= old(out)@ + dec_digits(n as nat));
}

/// Appends the last `count` decimal digits of `n`.
pub fn push_dec_fixed(out: &mut String, n: u64, count: usize)
    ensures
        final(out)@ == old(out)@ + dec_fixed(n as nat, count as nat),
    decreases count,
{
    if count > 0 {
        push_dec_fixed(out, n / 10, count - 1);
        push_char(out, ((('0' as u32) + (n % 10) as u32) as u8) as char);
    }
    assert(final(out)@ =~= old(out)@ + dec_fixed(n as nat, count as nat));
}

/// Appends the decimal rendering of a signed integer.
pub fn push_int(out: &mut String, v: i64)
    requires
        v > i64::MIN,
    ensures
        final(out)@ == old(out)@ + dec_int(v as int),
{
    if v < 0 {
        push_char(out, '-');
        push_dec(out, (-v) as u64);
    } else {
        push_dec(out, v as u64);
    }
    assert(final(out)@ =~= old(out)@ + dec_int(v as int));
}

/// Appends a string slice.
pub fn push_str(out: &mut String, s: &str)
    ensures
        final(out)@ == old(out)@ + s@,
{
    out.append(s);
}

} // verus!
