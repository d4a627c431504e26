use vstd::prelude::*;

verus! {

/// `c` with the ASCII capitals `A`..=`Z` mapped to `a`..=`z`, other characters kept.
pub open spec fn ascii_lower(c: char) -> char {
    if 'A' <= c && c <= 'Z' {
        ((c as u32) + 32) as char
    } else {
        c
    }
}

/// The ASCII lowercase of one character.
pub fn ascii_lower_char(c: char) -> (r: char)
    ensures
        r == ascii_lower(c),
{
    if 'A' <= c && c <= 'Z' {
        let code = (c as u8) + 32;
        code as char
    } else {
        c
    }
}

/// Every character of `s` through `ascii_lower`.
pub open spec fn ascii_lowercase_of(s: Seq<char>) -> Seq<char> {
    s.map_values(|c: char| ascii_lower(c))
}

/// `String::push` of std: appends one character.
#[verifier::external_body]
pub(crate) fn push_char(s: &mut String, c: char)
    ensures
        final(s)@ == old(s)@.push(c),
{
    s.push(c);
}

/// A copy of `s` with ASCII capitals lowered and every other character kept, as
/// `str::to_ascii_lowercase` gives it.
pub fn ascii_lowercase(s: &str) -> (res: String)
    ensures
        res@ == ascii_lowercase_of(s@),
{
    let n = s.unicode_len();
    let mut res = String::new();
    let mut i: usize = 0;
    while i < n
        invariant
            i <= n,
            n == s@.len(),
            res@ == ascii_lowercase_of(s@.take(i as int)),
        decreases n - i,
    {
        let c = s.get_char(i);
        let lower = ascii_lower_char(c);
        push_char(&mut res, lower);
        proof {
            assert(ascii_lowercase_of(s@.take(i + 1)) =~= ascii_lowercase_of(s@.take(i as int)).push(
                lower,
            ));
        }
        i = i + 1;
    }
    proof {
        assert(s@.take(n as int) =~= s@);
    }
    res
}

/// Whether the two texts are the same characters.
pub fn text_eq(a: &str, b: &str) -> (res: bool)
    ensures
        res == (a@ == b@),
{
    let n = a.unicode_len();
    if n != b.unicode_len() {
        return false;
    }
    let mut i: usize = 0;
    while i < n
        invariant
            i <= n,
            n == a@.len(),
            n == b@.len(),
            forall|j: int| 0 <= j < i ==> a@[j] == b@[j],
        decreases n - i,
    {
        if a.get_char(i) != b.get_char(i) {
            return false;
        }
        i = i + 1;
    }
    proof {
        assert(a@ =~= b@);
    }
    true
}

/// Whether `s` ends with the character `c`.
pub fn ends_with_char(s: &str, c: char) -> (res: bool)
    ensures
        res == (s@.len() > 0 && s@.last() == c),
{
    let n = s.unicode_len();
    n > 0 && s.get_char(n - 1) == c
}

/// The position of the first `c` in `s`, if there is one.
pub fn find_char(s: &str, c: char) -> (res: Option<usize>)
    ensures
        match res {
            Some(i) => i < s@.len() && s@[i as int] == c && forall|j: int| 0 <= j < i ==> s@[j] != c,
            None => forall|j: int| 0 <= j < s@.len() ==> s@[j] != c,
        },
{
    let n = s.unicode_len();
    let mut i: usize = 0;
    while i < n
        invariant
            i <= n,
            n == s@.len(),
            forall|j: int| 0 <= j < i ==> s@[j] != c,
        decreases n - i,
    {
        if s.get_char(i) == c {
            return Some(i);
        }
        i = i + 1;
    }
    None
}

/// The character of a decimal digit `d` (below 10).
pub open spec fn digit_char(d: nat) -> char {
    ((d + 48) as u8) as char
}

/// The decimal digits of `n`, most significant first, with no leading zeros (`0` is
/// the one digit `0`).
pub open spec fn decimal(n: nat) -> Seq<char>
    decreases n,
{
    if n < 10 {
        seq![digit_char(n)]
    } else {
        decimal(n / 10).push(digit_char(n % 10))
    }
}

/// Appends the decimal digits of `n` to `s`.
pub fn push_decimal(s: &mut String, n: u64)
    ensures
        final(s)@ == old(s)@ + decimal(n as nat),
    decreases n,
{
    if n >= 10 {
        push_decimal(s, n / 10);
    }
    let d: u8 = (n % 10) as u8;
    let c = (d + 48) as char;
    push_char(s, c);
    proof {
        if n >= 10 {
            assert(decimal(n as nat) == decimal((n / 10) as nat).push(digit_char((n % 10) as nat)));
        }
    }
}

/// Whether `c` is a decimal digit.
pub open spec fn is_digit(c: char) -> bool {
    '0' <= c && c <= '9'
}

/// The value of a digit character.
pub open spec fn digit_value(c: char) -> nat {
    ((c as u32) - 48) as nat
}

/// The number that the digits `s` write, most significant first.
pub open spec fn digits_value(s: Seq<char>) -> nat
    decreases s.len(),
{
    if s.len() == 0 {
        0
    } else {
        digits_value(s.drop_last()) * 10 + digit_value(s.last())
    }
}

/// `s` without one leading `+`.
pub open spec fn unsigned_digits(s: Seq<char>) -> Seq<char> {
    if s.len() > 0 && s[0] == '+' {
        s.drop_first()
    } else {
        s
    }
}

/// What `str::parse::<u16>` gives: an optional `+`, then one or more decimal digits
/// whose value fits in `u16`; anything else is refused.
pub open spec fn parse_u16_spec(s: Seq<char>) -> Option<u16> {
    let d = unsigned_digits(s);
    if d.len() > 0 && (forall|i: int| 0 <= i < d.len() ==> is_digit(#[trigger] d[i]))
        && digits_value(d) <= u16::MAX {
        Some(digits_value(d) as u16)
    } else {
        None
    }
}

/// Parses a port number as `str::parse::<u16>` does.
pub fn parse_u16(s: &str) -> (res: Option<u16>)
    ensures
        res == parse_u16_spec(s@),
{
    let n = s.unicode_len();
    let start: usize = if n > 0 && s.get_char(0) == '+' {
        1
    } else {
        0
    };
    let ghost d = unsigned_digits(s@);
    proof {
        assert(d =~= s@.subrange(start as int, n as int));
    }
    if start == n {
        return None;
    }
    let mut acc: u32 = 0;
    let mut i: usize = start;
    proof {
        assert(d.take(0) =~= Seq::<char>::empty());
    }
    while i < n
        invariant
            start <= i <= n,
            n == s@.len(),
            d =~= s@.subrange(start as int, n as int),
            d == unsigned_digits(s@),
            forall|j: int| 0 <= j < i - start ==> is_digit(#[trigger] d[j]),
            acc <= 65536,
            acc == if digits_value(d.take(i - start)) <= 65535 {
                digits_value(d.take(i - start))
            } else {
                65536
            },
        decreases n - i,
    {
        let c = s.get_char(i);
        if !('0' <= c && c <= '9') {
            proof {
                assert(d[i - start] == c);
                assert(!is_digit(d[i - start]));
            }
            return None;
        }
        let dv = (c as u32) - 48;
        proof {
            let k = i - start;
            assert(d.take(k + 1).drop_last() =~= d.take(k));
            assert(d.take(k + 1).last() == c);
            assert(digits_value(d.take(k + 1)) == digits_value(d.take(k)) * 10 + digit_value(c));
        }
        if acc <= 65535 {
            let next = acc * 10 + dv;
            acc = if next <= 65535 {
                next
            } else {
                65536
            };
        }
        i = i + 1;
    }
    proof {
        assert(d.take(n - start) =~= d);
    }
    if acc <= 65535 {
        Some(acc as u16)
    } else {
        None
    }
}

/// What `str::to_lowercase` gives for a text: its Unicode lowercase.
pub uninterp spec fn unicode_lowercase(s: Seq<char>) -> Seq<char>;

/// Whether every character of `s` is ASCII.
pub open spec fn all_ascii(s: Seq<char>) -> bool {
    forall|i: int| 0 <= i < s.len() ==> (#[trigger] s[i] as u32) < 128
}

/// `str::to_lowercase` of std: the Unicode lowercase of `s`, a function of `s` alone,
/// named `unicode_lowercase`. Claimed beside the name: an all-ASCII text lowercases
/// character by character, `A`..=`Z` to `a`..=`z` (the Unicode lowercase mapping of
/// ASCII). Nothing is claimed of other texts.
#[verifier::external_body]
pub(crate) fn to_lowercase(s: &str) -> (res: String)
    ensures
        res@ == unicode_lowercase(s@),
        all_ascii(s@) ==> res@ == ascii_lowercase_of(s@),
{
    s.to_lowercase()
}


/// Lowering ASCII capitals a second time changes nothing.
pub proof fn lemma_ascii_lowercase_idempotent(s: Seq<char>)
    ensures
        ascii_lowercase_of(ascii_lowercase_of(s)) == ascii_lowercase_of(s),
{
    assert forall|i: int| 0 <= i < s.len() implies ascii_lower(ascii_lower(s[i])) == ascii_lower(
        s[i],
    ) by {
        let c = s[i];
        if 'A' <= c && c <= 'Z' {
            assert((c as u32) + 32 >= 97);
        }
    }
    assert(ascii_lowercase_of(ascii_lowercase_of(s)) =~= ascii_lowercase_of(s));
}

/// The ASCII lowercase of an all-ASCII text is all ASCII.
pub proof fn lemma_ascii_lowercase_keeps_ascii(s: Seq<char>)
    requires
        all_ascii(s),
    ensures
        all_ascii(ascii_lowercase_of(s)),
{
    assert forall|i: int| 0 <= i < ascii_lowercase_of(s).len() implies (#[trigger] ascii_lowercase_of(
        s,
    )[i] as u32) < 128 by {
        let c = s[i];
        assert((c as u32) < 128);
        if 'A' <= c && c <= 'Z' {
            assert((c as u32) + 32 < 128);
        }
    }
}

} // verus!
