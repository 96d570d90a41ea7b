//! Character-level text operations on names, paths and search terms.

use vstd::prelude::*;

verus! {

broadcast use vstd::string::group_string_axioms;

/// `p` is a prefix of `s`.
pub open spec fn is_prefix(p: Seq<char>, s: Seq<char>) -> bool {
    p.len() <= s.len() && s.subrange(0, p.len() as int) == p
}

/// The characters of `p` occur in `s` in the same order (not necessarily
/// next to each other).
pub open spec fn is_subsequence(p: Seq<char>, s: Seq<char>) -> bool
    decreases s.len(),
{
    if p.len() == 0 {
        true
    } else if s.len() == 0 {
        false
    } else if p[0] == s[0] {
        is_subsequence(p.drop_first(), s.drop_first())
    } else {
        is_subsequence(p, s.drop_first())
    }
}

/// Number of bytes that the UTF-8 encoding of `c` takes.
pub open spec fn utf8_width(c: char) -> nat {
    if (c as u32) < 0x80 {
        1
    } else if (c as u32) < 0x800 {
        2
    } else if (c as u32) < 0x10000 {
        3
    } else {
        4
    }
}

/// Number of bytes that the UTF-8 encoding of `s` takes (what `str::len`
/// reports).
pub open spec fn utf8_len(s: Seq<char>) -> nat
    decreases s.len(),
{
    if s.len() == 0 {
        0
    } else {
        utf8_len(s.drop_last()) + utf8_width(s.last())
    }
}

/// An ASCII decimal digit.
pub open spec fn is_digit(c: char) -> bool {
    '0' <= c && c <= '9'
}

/// The decimal value of a string of digits.
pub open spec fn decimal_value(d: Seq<char>) -> nat
    decreases d.len(),
{
    if d.len() == 0 {
        0
    } else {
        decimal_value(d.drop_last()) * 10 + ((d.last() as u32) - ('0' as u32)) as nat
    }
}

/// The digits of `s`, once an optional leading `+` is taken off.
pub open spec fn unsigned_digits(s: Seq<char>) -> Seq<char> {
    if s.len() > 0 && s[0] == '+' {
        s.drop_first()
    } else {
        s
    }
}

/// `s` is accepted by `str::parse::<u32>`: an optional `+`, then one or more
/// ASCII digits whose value fits in a `u32`.
pub open spec fn parses_as_u32(s: Seq<char>) -> bool {
    let d = unsigned_digits(s);
    &&& d.len() > 0
    &&& forall|i: int| 0 <= i < d.len() ==> is_digit(#[trigger] d[i])
    &&& decimal_value(d) <= u32::MAX
}

/// The characters of a string, in order.
pub fn chars_of(s: &str) -> (res: Vec<char>)
    ensures
        res@ == s@,
{
    let mut res: Vec<char> = Vec::new();
    for c in it: s.chars()
        invariant
            it.seq() == s@,
            res@ == it.seq().take(it.index() as int),
        ensures
            res@ == s@,
    {
        res.push(c);
        proof {
            assert(it.seq().take(it.index() + 1) == it.seq().take(it.index() as int).push(c));
        }
    }
    res
}

/// What `String::from_utf8_lossy` makes of the bytes: their UTF-8
/// decoding, with each invalid sequence replaced by U+FFFD.
pub uninterp spec fn utf8_lossy(bytes: Seq<u8>) -> Seq<char>;

/// Decodes bytes as UTF-8, replacing invalid sequences
/// (`String::from_utf8_lossy`). The contract names the result; how the
/// decoding goes is not written out.
#[verifier::external_body]
pub fn decode_utf8_lossy(bytes: &Vec<u8>) -> (res: String)
    ensures
        res@ == utf8_lossy(bytes@),
{
    String::from_utf8_lossy(bytes).into_owned()
}

/// Appends `c` to `s` (`String::push`).
#[verifier::external_body]
pub fn push_char(s: &mut String, c: char)
    ensures
        final(s)@ == old(s)@.push(c),
{
    s.push(c);
}

/// Removes the last character of `s` and returns it, or returns `None` when
/// `s` is empty (`String::pop`).
#[verifier::external_body]
pub fn pop_char(s: &mut String) -> (res: Option<char>)
    ensures
        old(s)@.len() == 0 ==> res is None && final(s)@ == old(s)@,
        old(s)@.len() > 0 ==> res == Some(old(s)@.last()) && final(s)@ == old(s)@.drop_last(),
{
    s.pop()
}

/// The string made of the given characters.
pub fn string_of(v: &Vec<char>) -> (res: String)
    ensures
        res@ == v@,
{
    let mut res = String::new();
    for i in 0..v.len()
        invariant
            res@ == v@.take(i as int),
    {
        push_char(&mut res, v[i]);
        proof {
            assert(v@.take(i + 1) == v@.take(i as int).push(v@[i as int]));
        }
    }
    proof {
        assert(v@.take(v.len() as int) == v@);
    }
    res
}

/// The characters of `s` from position `start` on begin with `p`.
pub fn starts_with_at(s: &Vec<char>, start: usize, p: &Vec<char>) -> (res: bool)
    requires
        start <= s.len(),
    ensures
        res == is_prefix(p@, s@.subrange(start as int, s.len() as int)),
{
    if s.len() - start < p.len() {
        return false;
    }
    let ghost rest = s@.subrange(start as int, s.len() as int);
    for i in 0..p.len()
        invariant
            start + p.len() <= s.len(),
            rest == s@.subrange(start as int, s.len() as int),
            forall|j: int| 0 <= j < i ==> s@[start + j] == p@[j],
    {
        if s[start + i] != p[i] {
            proof {
                assert(rest.subrange(0, p.len() as int)[i as int] != p@[i as int]);
            }
            return false;
        }
    }
    proof {
        assert(rest.subrange(0, p.len() as int) =~= p@);
    }
    true
}

/// `s` contains the character `c`.
pub fn contains_char(s: &Vec<char>, c: char) -> (res: bool)
    ensures
        res == s@.contains(c),
{
    for i in 0..s.len()
        invariant
            forall|j: int| 0 <= j < i ==> s@[j] != c,
    {
        if s[i] == c {
            return true;
        }
    }
    false
}

/// The UTF-8 encoding of `s` takes at least `bound` bytes.
pub fn utf8_len_at_least(s: &Vec<char>, bound: usize) -> (res: bool)
    ensures
        res == (utf8_len(s@) >= bound),
{
    if bound == 0 {
        return true;
    }
    let mut total: usize = 0;
    for i in 0..s.len()
        invariant
            total == utf8_len(s@.take(i as int)),
            total < bound,
    {
        let code = s[i] as u32;
        let width: usize = if code < 0x80 {
            1
        } else if code < 0x800 {
            2
        } else if code < 0x10000 {
            3
        } else {
            4
        };
        proof {
            assert(s@.take(i + 1).drop_last() == s@.take(i as int));
            assert(width == utf8_width(s@[i as int]));
        }
        if width >= bound - total {
            proof {
                lemma_utf8_len_prefix_monotone(s@, i + 1, s.len() as int);
                assert(s@.take(s.len() as int) == s@);
            }
            return true;
        }
        total = total + width;
    }
    proof {
        assert(s@.take(s.len() as int) == s@);
    }
    false
}

/// The UTF-8 length of a prefix is at most that of a longer prefix.
pub proof fn lemma_utf8_len_prefix_monotone(s: Seq<char>, i: int, j: int)
    requires
        0 <= i <= j <= s.len(),
    ensures
        utf8_len(s.take(i)) <= utf8_len(s.take(j)),
    decreases j - i,
{
    if i < j {
        lemma_utf8_len_prefix_monotone(s, i, j - 1);
        assert(s.take(j).drop_last() == s.take(j - 1));
    }
}

/// What `str::parse::<u32>` gives for `s`: `Some` of the value when `s` is
/// accepted, `None` when it is refused.
pub fn parse_u32(s: &Vec<char>) -> (res: Option<u32>)
    ensures
        res is Some == parses_as_u32(s@),
        res matches Some(v) ==> v == decimal_value(unsigned_digits(s@)),
{
    let start: usize = if s.len() > 0 && s[0] == '+' {
        1
    } else {
        0
    };
    let ghost d = s@.subrange(start as int, s.len() as int);
    assert(d =~= unsigned_digits(s@));
    if start == s.len() {
        return None;
    }
    let mut value: u64 = 0;
    let mut i: usize = start;
    while i < s.len()
        invariant
            start <= i <= s.len(),
            d == s@.subrange(start as int, s.len() as int),
            d == unsigned_digits(s@),
            forall|j: int| 0 <= j < i - start ==> is_digit(#[trigger] d[j]),
            value == if decimal_value(d.take(i - start)) <= u32::MAX {
                decimal_value(d.take(i - start)) as int
            } else {
                u32::MAX + 1
            },
        decreases s.len() - i,
    {
        let c = s[i];
        if !('0' <= c && c <= '9') {
            proof {
                assert(d[i - start] == c);
                assert(!is_digit(d[i - start]));
            }
            return None;
        }
        let digit = (c as u32 - '0' as u32) as u64;
        proof {
            let k = i - start;
            assert(d.take(k + 1).drop_last() == d.take(k));
            assert(d.take(k + 1).last() == c);
            assert(decimal_value(d.take(k + 1)) == decimal_value(d.take(k)) * 10 + digit);
            if decimal_value(d.take(k)) > u32::MAX {
                assert(decimal_value(d.take(k)) * 10 >= decimal_value(d.take(k))) by (nonlinear_arith);
            }
        }
        if value > u32::MAX as u64 {
            value = u32::MAX as u64 + 1;
        } else {
            let next = value * 10 + digit;
            value = if next > u32::MAX as u64 {
                u32::MAX as u64 + 1
            } else {
                next
            };
        }
        i = i + 1;
    }
    proof {
        assert(d.take(d.len() as int) == d);
    }
    if value <= u32::MAX as u64 {
        Some(value as u32)
    } else {
        None
    }
}

/// Characters of `s` from position `start` to the end.
pub fn tail_from(s: &Vec<char>, start: usize) -> (res: Vec<char>)
    requires
        start <= s.len(),
    ensures
        res@ == s@.subrange(start as int, s.len() as int),
{
    let mut res: Vec<char> = Vec::new();
    let mut i = start;
    while i < s.len()
        invariant
            start <= i <= s.len(),
            res@ == s@.subrange(start as int, i as int),
        decreases s.len() - i,
    {
        res.push(s[i]);
        i = i + 1;
    }
    res
}

/// `p` occurs in `s` as a subsequence.
pub fn subsequence_match(p: &Vec<char>, s: &Vec<char>) -> (res: bool)
    ensures
        res == is_subsequence(p@, s@),
{
    let mut i: usize = 0;
    let mut j: usize = 0;
    assert(p@.subrange(0, p.len() as int) =~= p@);
    assert(s@.subrange(0, s.len() as int) =~= s@);
    while i < s.len()
        invariant
            i <= s.len(),
            j <= p.len(),
            is_subsequence(p@, s@) == is_subsequence(
                p@.subrange(j as int, p.len() as int),
                s@.subrange(i as int, s.len() as int),
            ),
        decreases s.len() - i,
    {
        if j == p.len() {
            return true;
        }
        let ghost pr = p@.subrange(j as int, p.len() as int);
        let ghost sr = s@.subrange(i as int, s.len() as int);
        assert(pr.drop_first() == p@.subrange(j + 1, p.len() as int));
        assert(sr.drop_first() == s@.subrange(i + 1, s.len() as int));
        if p[j] == s[i] {
            j = j + 1;
        }
        i = i + 1;
    }
    j == p.len()
}

/// The character of a decimal digit.
pub open spec fn digit_char(d: nat) -> char {
    ((48 + d) as u8) as char
}

/// The decimal representation of `n`, without leading zeros.
pub open spec fn decimal_digits(n: nat) -> Seq<char>
    decreases n,
{
    if n < 10 {
        seq![digit_char(n)]
    } else {
        decimal_digits(n / 10).push(digit_char(n % 10))
    }
}

/// Reading back the decimal representation of `n` gives `n`.
pub proof fn lemma_decimal_round_trip(n: nat)
    ensures
        decimal_digits(n).len() > 0,
        forall|i: int| 0 <= i < decimal_digits(n).len() ==> is_digit(#[trigger] decimal_digits(n)[i]),
        decimal_value(decimal_digits(n)) == n,
        unsigned_digits(decimal_digits(n)) == decimal_digits(n),
    decreases n,
{
    let d = decimal_digits(n);
    assert((digit_char(n % 10) as u32) == 48 + n % 10);
    if n < 10 {
        assert(d.drop_last() =~= Seq::<char>::empty());
        assert(d.last() == digit_char(n));
        assert(decimal_value(d) == decimal_value(d.drop_last()) * 10 + n % 10);
    } else {
        lemma_decimal_round_trip(n / 10);
        assert(d.drop_last() == decimal_digits(n / 10));
        assert(forall|i: int| 0 <= i < d.len() - 1 ==> d[i] == decimal_digits(n / 10)[i]);
        assert(d.last() == digit_char(n % 10));
        assert(decimal_value(d) == decimal_value(d.drop_last()) * 10 + n % 10);
        assert(n == (n / 10) * 10 + n % 10) by (nonlinear_arith);
    }
}

/// The decimal representation of `n`.
pub fn decimal_string(n: u64) -> (res: Vec<char>)
    ensures
        res@ == decimal_digits(n as nat),
    decreases n,
{
    let c = ((48 + n % 10) as u8) as char;
    if n < 10 {
        let mut v: Vec<char> = Vec::new();
        v.push(c);
        proof {
            assert(v@ =~= decimal_digits(n as nat));
        }
        v
    } else {
        let mut v = decimal_string(n / 10);
        v.push(c);
        v
    }
}

} // verus!
