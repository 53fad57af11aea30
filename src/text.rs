use vstd::prelude::*;
use vstd::std_specs::iter::IteratorSpec;

verus! {

/// The character of a decimal digit.
pub open spec fn digit_char(d: nat) -> char {
    if d == 0 { '0' }
    else if d == 1 { '1' }
    else if d == 2 { '2' }
    else if d == 3 { '3' }
    else if d == 4 { '4' }
    else if d == 5 { '5' }
    else if d == 6 { '6' }
    else if d == 7 { '7' }
    else if d == 8 { '8' }
    else { '9' }
}

/// The decimal text of a number, most significant digit first, without leading zeros.
pub open spec fn decimal(n: nat) -> Seq<char>
    decreases n,
{
    if n < 10 {
        seq![digit_char(n)]
    } else {
        decimal(n / 10).push(digit_char(n % 10))
    }
}

/// Decimal text padded with a zero to at least two digits.
pub open spec fn two_digits(n: nat) -> Seq<char> {
    if n < 10 {
        seq!['0'] + decimal(n)
    } else {
        decimal(n)
    }
}

/// Whether `needle` occurs as a contiguous run inside `hay`.
pub open spec fn has_infix<T>(hay: Seq<T>, needle: Seq<T>) -> bool {
    exists|i: int|
        0 <= i && i + needle.len() <= hay.len() && #[trigger] hay.subrange(i, i + needle.len())
            == needle
}

pub fn push_digit(s: &mut String, d: u64)
    requires
        d < 10,
    ensures
        final(s)@ == old(s)@.push(digit_char(d as nat)),
{
    let lit: &str = match d {
        0 => "0",
        1 => "1",
        2 => "2",
        3 => "3",
        4 => "4",
        5 => "5",
        6 => "6",
        7 => "7",
        8 => "8",
        _ => "9",
    };
    proof {
        reveal_strlit("0");
        reveal_strlit("1");
        reveal_strlit("2");
        reveal_strlit("3");
        reveal_strlit("4");
        reveal_strlit("5");
        reveal_strlit("6");
        reveal_strlit("7");
        reveal_strlit("8");
        reveal_strlit("9");
    }
    assert(lit@ =~= seq![digit_char(d as nat)]);
    s.append(lit);
}

/// Appends the decimal text of `n`.
pub fn push_decimal(s: &mut String, n: u64)
    ensures
        final(s)@ == old(s)@ + decimal(n as nat),
    decreases n,
{
    if n >= 10 {
        push_decimal(s, n / 10);
        push_digit(s, n % 10);
        assert(final(s)@ =~= old(s)@ + decimal(n as nat));
    } else {
        push_digit(s, n);
        assert(final(s)@ =~= old(s)@ + decimal(n as nat));
    }
}

/// Appends the decimal text of `n`, padded to two digits.
pub fn push_two_digits(s: &mut String, n: u64)
    ensures
        final(s)@ == old(s)@ + two_digits(n as nat),
{
    if n < 10 {
        push_digit(s, 0);
    }
    push_decimal(s, n);
    assert(final(s)@ =~= old(s)@ + two_digits(n as nat));
}

/// Relies on `String::push`, which appends one character.
#[verifier::external_body]
pub fn push_char(s: &mut String, c: char)
    ensures
        final(s)@ == old(s)@.push(c),
{
    s.push(c);
}

/// Appends a string slice.
pub fn push_str(s: &mut String, t: &str)
    ensures
        final(s)@ == old(s)@ + t@,
{
    s.append(t);
}

/// The characters of a string slice.
pub fn chars_of(s: &str) -> (r: Vec<char>)
    ensures
        r@ == s@,
{
    broadcast use vstd::string::axiom_spec_iter, vstd::string::next_postcondition;

    let mut r: Vec<char> = Vec::new();
    let mut it = s.chars();
    loop
        invariant
            r@ + it.remaining() == s@,
            it.obeys_prophetic_iter_laws(),
            it.decrease() is Some,
        ensures
            r@ == s@,
        decreases it.decrease()->0,
    {
        match it.next() {
            Some(c) => {
                r.push(c);
            },
            None => {
                assert(r@ =~= s@);
                break ;
            },
        }
        assert(r@ + it.remaining() =~= s@);
    }
    r
}

/// Whether the byte string `needle` occurs inside `hay`.
pub fn contains_bytes(hay: &[u8], needle: &[u8]) -> (r: bool)
    ensures
        r == has_infix(hay@, needle@),
{
    if needle.len() > hay.len() {
        return false;
    }
    let last: usize = hay.len() - needle.len();
    let mut i: usize = 0;
    while i <= last
        invariant
            last == hay.len() - needle.len(),
            needle.len() <= hay.len(),
            i <= last + 1,
            forall|k: int| 0 <= k < i ==> #[trigger] hay@.subrange(k, k + needle.len()) != needle@,
        decreases last + 1 - i,
    {
        let mut j: usize = 0;
        let mut same = true;
        while j < needle.len()
            invariant
                i <= last,
                last == hay.len() - needle.len(),
                j <= needle.len(),
                same == (forall|m: int| 0 <= m < j ==> hay@[i + m] == needle@[m]),
            decreases needle.len() - j,
        {
            if hay[i + j] != needle[j] {
                same = false;
            }
            j = j + 1;
        }
        if same {
            assert(hay@.subrange(i as int, i + needle.len()) =~= needle@);
            return true;
        }
        let ghost w = choose|m: int| 0 <= m < j && hay@[i + m] != needle@[m];
        assert(hay@.subrange(i as int, i + needle.len())[w] != needle@[w]);
        i = i + 1;
    }
    assert forall|k: int|
        0 <= k && k + needle.len() <= hay.len() implies #[trigger] hay@.subrange(
        k,
        k + needle.len(),
    ) != needle@ by {}
    false
}

/// Whether a character is an ASCII decimal digit.
pub open spec fn is_digit(c: char) -> bool {
    '0' <= c && c <= '9'
}

/// Whether every character is a decimal digit.
pub open spec fn all_digits(s: Seq<char>) -> bool {
    forall|i: int| 0 <= i < s.len() ==> is_digit(#[trigger] s[i])
}

/// The value of a run of decimal digits, most significant first.
pub open spec fn digits_value(s: Seq<char>) -> nat
    decreases s.len(),
{
    if s.len() == 0 {
        0
    } else {
        10 * digits_value(s.drop_last()) + (s.last() as nat - '0' as nat) as nat
    }
}

/// An unsigned number in decimal as std reads it: an optional `+`, then one
/// or more digits, with a value of at most `max`.
pub open spec fn parse_unsigned(s: Seq<char>, max: nat) -> Option<nat> {
    let t = if s.len() > 0 && s[0] == '+' {
        s.drop_first()
    } else {
        s
    };
    if t.len() > 0 && all_digits(t) && digits_value(t) <= max {
        Some(digits_value(t))
    } else {
        None
    }
}

proof fn lemma_digits_value_grows(s: Seq<char>, i: int)
    requires
        0 <= i <= s.len(),
        all_digits(s),
    ensures
        digits_value(s.take(i)) <= digits_value(s),
    decreases s.len() - i,
{
    if i < s.len() {
        lemma_digits_value_grows(s, i + 1);
        assert(s.take(i + 1).drop_last() =~= s.take(i));
        assert(is_digit(s[i]));
    } else {
        assert(s.take(i) =~= s);
    }
}

/// Reads an unsigned decimal number of at most `max`, as std's `parse` does.
pub fn parse_unsigned_chars(s: &[char], max: u64) -> (r: Option<u64>)
    ensures
        r matches Some(v) ==> parse_unsigned(s@, max as nat) == Some(v as nat),
        r is None ==> parse_unsigned(s@, max as nat) is None,
{
    let start: usize = if s.len() > 0 && s[0] == '+' {
        1
    } else {
        0
    };
    let ghost t = if s@.len() > 0 && s@[0] == '+' {
        s@.drop_first()
    } else {
        s@
    };
    assert(t =~= s@.skip(start as int));
    if start == s.len() {
        return None;
    }
    let mut acc: u64 = 0;
    let mut i: usize = start;
    while i < s.len()
        invariant
            start <= i <= s.len(),
            t =~= s@.skip(start as int),
            parse_unsigned(s@, max as nat) == (if t.len() > 0 && all_digits(t) && digits_value(t)
                <= max as nat {
                Some(digits_value(t))
            } else {
                None
            }),
            all_digits(t.take(i - start)),
            acc as nat == digits_value(t.take(i - start)),
            acc <= max,
        decreases s.len() - i,
    {
        let c = s[i];
        assert(t.take(i + 1 - start).drop_last() =~= t.take(i - start));
        assert(t[i - start] == c);
        if !('0' <= c && c <= '9') {
            assert(!is_digit(t[i - start]));
            assert(!all_digits(t));
            return None;
        }
        let d: u64 = (c as u64) - ('0' as u64);
        assert(forall|k: int| 0 <= k < i + 1 - start ==> #[trigger] t.take(i + 1 - start)[k]
            == t[k]);
        if d > max || acc > (max - d) / 10 {
            assert(digits_value(t.take(i + 1 - start)) > max) by (nonlinear_arith)
                requires
                    d > max || acc > (max - d) / 10,
                    digits_value(t.take(i + 1 - start)) == 10 * acc + d,
            ;
            proof {
                if all_digits(t) {
                    lemma_digits_value_grows(t, i + 1 - start);
                }
            }
            return None;
        }
        assert(10 * acc + d <= max) by (nonlinear_arith)
            requires
                acc <= (max - d) / 10,
                d <= max,
        ;
        acc = acc * 10 + d;
        i = i + 1;
    }
    assert(t.take(i - start) =~= t);
    Some(acc)
}

/// What remains of `s` once every leading copy of `p` is taken off.
pub open spec fn strip_leading(s: Seq<char>, p: Seq<char>) -> Seq<char>
    decreases s.len(),
{
    if p.len() > 0 && p.len() <= s.len() && s.take(p.len() as int) == p {
        strip_leading(s.skip(p.len() as int), p)
    } else {
        s
    }
}

/// Whether `s` starts with `p`.
pub open spec fn starts_with(s: Seq<char>, p: Seq<char>) -> bool {
    p.len() <= s.len() && s.take(p.len() as int) == p
}

pub fn starts_with_at(s: &Vec<char>, at: usize, p: &Vec<char>) -> (r: bool)
    requires
        at <= s.len(),
    ensures
        r == starts_with(s@.skip(at as int), p@),
{
    if p.len() > s.len() - at {
        return false;
    }
    let mut j: usize = 0;
    while j < p.len()
        invariant
            at <= s.len(),
            p.len() <= s.len() - at,
            j <= p.len(),
            forall|k: int| 0 <= k < j ==> s@[at + k] == p@[k],
        decreases p.len() - j,
    {
        if s[at + j] != p[j] {
            assert(s@.skip(at as int).take(p.len() as int)[j as int] != p@[j as int]);
            return false;
        }
        j = j + 1;
    }
    assert(s@.skip(at as int).take(p.len() as int) =~= p@);
    true
}

/// Where `s` continues once every leading copy of `p` is taken off.
pub fn stripped_start(s: &Vec<char>, p: &Vec<char>) -> (r: usize)
    requires
        p@.len() > 0,
    ensures
        r <= s@.len(),
        s@.skip(r as int) == strip_leading(s@, p@),
{
    let mut at: usize = 0;
    assert(s@.skip(0) =~= s@);
    while starts_with_at(s, at, p)
        invariant
            at <= s.len(),
            p@.len() > 0,
            strip_leading(s@, p@) == strip_leading(s@.skip(at as int), p@),
        decreases s.len() - at,
    {
        assert(s@.skip(at as int).skip(p@.len() as int) =~= s@.skip(at + p@.len()));
        at = at + p.len();
    }
    at
}

} // verus!
