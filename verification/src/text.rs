//! Text helpers: character sequences, decimal numerals and whitespace trimming,
//! each stated over `Seq<char>`.
use vstd::prelude::*;
use vstd::string::StringExecFns;

verus! {

broadcast use vstd::string::group_string_axioms;

/// Appends one character to a string: std's `String::push`.
#[verifier::external_body]
pub(crate) fn push_char(s: &mut String, c: char)
    ensures
        final(s)@ == old(s)@.push(c),
{
    s.push(c);
}

/// The characters of a string slice, in order.
pub fn chars_of(s: &str) -> (v: Vec<char>)
    ensures
        v@ == s@,
{
    let mut v: Vec<char> = Vec::new();
    for c in it: s.chars()
        invariant
            it.seq() == s@,
            v@ == it.seq().take(it.index() as int),
    {
        v.push(c);
    }
    v
}

/// Whether two character sequences are equal.
pub fn chars_eq(a: &Vec<char>, b: &Vec<char>) -> (r: bool)
    ensures
        r == (a@ == b@),
{
    if a.len() != b.len() {
        return false;
    }
    let mut i: usize = 0;
    while i < a.len()
        invariant
            a.len() == b.len(),
            i <= a.len(),
            forall|j: int| 0 <= j < i ==> a@[j] == b@[j],
        decreases a.len() - i,
    {
        if a[i] != b[i] {
            return false;
        }
        i = i + 1;
    }
    assert(a@ =~= b@);
    true
}

/// Whether a string slice spells out exactly the given characters.
pub fn str_eq(a: &str, b: &str) -> (r: bool)
    ensures
        r == (a@ == b@),
{
    let x = chars_of(a);
    let y = chars_of(b);
    chars_eq(&x, &y)
}

/// Whether `prefix` is a prefix of `s`.
pub open spec fn has_prefix(s: Seq<char>, prefix: Seq<char>) -> bool {
    prefix.len() <= s.len() && s.take(prefix.len() as int) == prefix
}

/// Whether the characters of `s` begin with those of `prefix`.
pub fn chars_start_with(s: &Vec<char>, prefix: &Vec<char>) -> (r: bool)
    ensures
        r == has_prefix(s@, prefix@),
{
    if prefix.len() > s.len() {
        return false;
    }
    let mut i: usize = 0;
    while i < prefix.len()
        invariant
            prefix.len() <= s.len(),
            i <= prefix.len(),
            forall|j: int| 0 <= j < i ==> s@[j] == prefix@[j],
        decreases prefix.len() - i,
    {
        if s[i] != prefix[i] {
            assert(s@.take(prefix.len() as int)[i as int] != prefix@[i as int]);
            return false;
        }
        i = i + 1;
    }
    assert(s@.take(prefix.len() as int) =~= prefix@);
    true
}

/// Builds a string from its characters.
pub fn string_of(v: &Vec<char>) -> (s: String)
    ensures
        s@ == v@,
{
    let mut s = String::new();
    let mut i: usize = 0;
    while i < v.len()
        invariant
            i <= v.len(),
            s@ == v@.take(i as int),
        decreases v.len() - i,
    {
        push_char(&mut s, v[i]);
        assert(v@.take(i + 1) =~= v@.take(i as int).push(v@[i as int]));
        i = i + 1;
    }
    assert(v@.take(v.len() as int) =~= v@);
    s
}

/// Appends the characters of a string slice.
pub fn push_str(v: &mut Vec<char>, s: &str)
    ensures
        final(v)@ == old(v)@ + s@,
{
    let mut w = chars_of(s);
    v.append(&mut w);
}

/// Appends a sequence of characters.
pub fn push_chars(v: &mut Vec<char>, w: &Vec<char>)
    ensures
        final(v)@ == old(v)@ + w@,
{
    let mut i: usize = 0;
    while i < w.len()
        invariant
            i <= w.len(),
            v@ == old(v)@ + w@.take(i as int),
        decreases w.len() - i,
    {
        v.push(w[i]);
        assert(w@.take(i + 1) =~= w@.take(i as int).push(w@[i as int]));
        i = i + 1;
    }
    assert(w@.take(w.len() as int) =~= w@);
}

/// The decimal digit character for `d` (`d < 10`).
pub open spec fn digit_char(d: nat) -> char {
    (48 + d) as char
}

/// The decimal numeral of `n`, without leading zeros (`0` is written `"0"`),
/// as `Display` writes an unsigned integer.
pub open spec fn decimal(n: nat) -> Seq<char>
    decreases n,
{
    if n < 10 {
        seq![digit_char(n)]
    } else {
        decimal(n / 10).push(digit_char(n % 10))
    }
}

/// The decimal numeral of a signed integer, with a leading `-` when negative,
/// as `Display` writes a signed integer.
pub open spec fn signed_decimal(n: int) -> Seq<char> {
    if n < 0 {
        seq!['-'] + decimal((-n) as nat)
    } else {
        decimal(n as nat)
    }
}

/// Appends the decimal numeral of `n`.
pub fn push_decimal(v: &mut Vec<char>, n: u128)
    ensures
        final(v)@ == old(v)@ + decimal(n as nat),
    decreases n,
{
    if n >= 10 {
        push_decimal(v, n / 10);
    }
    let d: u8 = (n % 10) as u8;
    let c: char = (48u8 + d) as char;
    assert(c == digit_char((n % 10) as nat));
    v.push(c);
    assert(n < 10 ==> decimal(n as nat) =~= seq![digit_char(n as nat)]);
}

/// Appends the decimal numeral of a signed integer.
pub fn push_signed_decimal(v: &mut Vec<char>, n: i64)
    ensures
        final(v)@ == old(v)@ + signed_decimal(n as int),
{
    if n < 0 {
        v.push('-');
        let m: u128 = (0i128 - (n as i128)) as u128;
        push_decimal(v, m);
        assert(final(v)@ =~= old(v)@ + signed_decimal(n as int)) by {
            assert(seq!['-'] + decimal(m as nat) =~= signed_decimal(n as int));
        }
    } else {
        push_decimal(v, n as u128);
    }
}

/// The characters that `char::is_whitespace` accepts: the Unicode
/// `White_Space` property.
pub open spec fn is_white_space(c: char) -> bool {
    let u = c as u32;
    ||| 0x09 <= u <= 0x0D
    ||| u == 0x20
    ||| u == 0x85
    ||| u == 0xA0
    ||| u == 0x1680
    ||| 0x2000 <= u <= 0x200A
    ||| u == 0x2028
    ||| u == 0x2029
    ||| u == 0x202F
    ||| u == 0x205F
    ||| u == 0x3000
}

/// Executable form of `is_white_space`.
pub fn char_is_white_space(c: char) -> (r: bool)
    ensures
        r == is_white_space(c),
{
    let u: u32 = c as u32;
    (0x09 <= u && u <= 0x0D) || u == 0x20 || u == 0x85 || u == 0xA0 || u == 0x1680 || (0x2000
        <= u && u <= 0x200A) || u == 0x2028 || u == 0x2029 || u == 0x202F || u == 0x205F || u
        == 0x3000
}

/// Number of leading white-space characters of `s`.
pub open spec fn leading_white(s: Seq<char>) -> nat
    decreases s.len(),
{
    if s.len() > 0 && is_white_space(s[0]) {
        1 + leading_white(s.drop_first())
    } else {
        0
    }
}

/// Number of trailing white-space characters of `s`.
pub open spec fn trailing_white(s: Seq<char>) -> nat
    decreases s.len(),
{
    if s.len() > 0 && is_white_space(s.last()) {
        1 + trailing_white(s.drop_last())
    } else {
        0
    }
}

/// `s` without leading and trailing white space, as `str::trim` returns it.
pub open spec fn trimmed(s: Seq<char>) -> Seq<char> {
    let a = leading_white(s);
    let rest = s.skip(a as int);
    rest.take(rest.len() - trailing_white(rest))
}

/// Counts leading white space from position `i` on.
fn count_leading_white(v: &Vec<char>, i: usize) -> (n: usize)
    requires
        i <= v.len(),
    ensures
        n == leading_white(v@.skip(i as int)),
        i + n <= v.len(),
    decreases v.len() - i,
{
    let ghost rest = v@.skip(i as int);
    if i < v.len() && char_is_white_space(v[i]) {
        assert(rest.drop_first() =~= v@.skip(i + 1));
        let m = count_leading_white(v, i + 1);
        m + 1
    } else {
        0
    }
}

/// Counts trailing white space among the first `end` characters.
fn count_trailing_white(v: &Vec<char>, end: usize) -> (n: usize)
    requires
        end <= v.len(),
    ensures
        n == trailing_white(v@.take(end as int)),
        n <= end,
    decreases end,
{
    let ghost pre = v@.take(end as int);
    if end > 0 && char_is_white_space(v[end - 1]) {
        assert(pre.drop_last() =~= v@.take(end - 1));
        let m = count_trailing_white(v, end - 1);
        m + 1
    } else {
        0
    }
}

/// The characters of `v` from `start` up to `end`.
pub fn sub_chars(v: &Vec<char>, start: usize, end: usize) -> (r: Vec<char>)
    requires
        start <= end <= v.len(),
    ensures
        r@ == v@.subrange(start as int, end as int),
{
    let mut r: Vec<char> = Vec::new();
    let mut i = start;
    while i < end
        invariant
            start <= i <= end <= v.len(),
            r@ == v@.subrange(start as int, i as int),
        decreases end - i,
    {
        r.push(v[i]);
        assert(v@.subrange(start as int, i + 1) =~= v@.subrange(start as int, i as int).push(
            v@[i as int],
        ));
        i = i + 1;
    }
    r
}

/// `str::trim` on a character sequence.
pub fn trim_chars(v: &Vec<char>) -> (r: Vec<char>)
    ensures
        r@ == trimmed(v@),
{
    let a = count_leading_white(v, 0);
    assert(v@.skip(0) =~= v@);
    let rest = sub_chars(v, a, v.len());
    assert(rest@ =~= v@.skip(a as int));
    let b = count_trailing_white(&rest, rest.len());
    assert(rest@.take(rest.len() as int) =~= rest@);
    let r = sub_chars(&rest, 0, rest.len() - b);
    assert(r@ =~= trimmed(v@));
    r
}


/// The concatenation of two string slices.
pub fn concat2(a: &str, b: &str) -> (r: String)
    ensures
        r@ == a@ + b@,
{
    let mut r = a.to_owned();
    r.append(b);
    r
}

/// The concatenation of three string slices.
pub fn concat3(a: &str, b: &str, c: &str) -> (r: String)
    ensures
        r@ == a@ + b@ + c@,
{
    let mut r = a.to_owned();
    r.append(b);
    r.append(c);
    r
}

/// The decimal numeral of `n` as a string.
pub fn decimal_string(n: u128) -> (r: String)
    ensures
        r@ == decimal(n as nat),
{
    let mut v: Vec<char> = Vec::new();
    push_decimal(&mut v, n);
    assert(v@ =~= decimal(n as nat));
    string_of(&v)
}

/// A string from a string slice.
pub fn owned(s: &str) -> (r: String)
    ensures
        r@ == s@,
{
    s.to_owned()
}

/// Whether `c` is an ASCII decimal digit.
pub open spec fn is_decimal_digit(c: char) -> bool {
    '0' <= c <= '9'
}

/// The number that a string of decimal digits denotes (most significant first).
pub open spec fn digits_value(s: Seq<char>) -> int
    decreases s.len(),
{
    if s.len() == 0 {
        0
    } else {
        digits_value(s.drop_last()) * 10 + (s.last() as int - '0' as int)
    }
}

/// The number that an optionally `-`-signed string of decimal digits denotes.
pub open spec fn signed_value(s: Seq<char>) -> int {
    if s.len() > 0 && s[0] == '-' {
        -digits_value(s.drop_first())
    } else {
        digits_value(s)
    }
}

/// A decimal numeral is made of digits only, and reads back to its number.
pub proof fn law_decimal_reads_back(n: nat)
    ensures
        decimal(n).len() > 0,
        forall|i: int| 0 <= i < decimal(n).len() ==> is_decimal_digit(#[trigger] decimal(n)[i]),
        digits_value(decimal(n)) == n,
    decreases n,
{
    if n >= 10 {
        law_decimal_reads_back(n / 10);
        let d = decimal(n / 10);
        let c = digit_char(n % 10);
        assert(decimal(n) == d.push(c));
        assert(d.push(c).drop_last() =~= d);
        assert(c as int == 48 + n % 10);
        assert forall|i: int| 0 <= i < decimal(n).len() implies is_decimal_digit(
            #[trigger] decimal(n)[i],
        ) by {
            if i < d.len() {
                assert(decimal(n)[i] == d[i]);
            }
        }
        assert('0' as int == 48);
        assert(digits_value(decimal(n)) == digits_value(d) * 10 + (c as int - '0' as int));
        assert(n == (n / 10) * 10 + n % 10);
    } else {
        let c = digit_char(n);
        assert(decimal(n) == seq![c]);
        assert(seq![c].drop_last() =~= Seq::<char>::empty());
        assert(c as int == 48 + n);
        assert('0' as int == 48);
        assert(digits_value(seq![c]) == digits_value(Seq::<char>::empty()) * 10 + (c as int
            - '0' as int));
    }
}

/// A signed decimal numeral has no character but digits after an optional leading
/// `-`, begins with `-` exactly for a negative number, and reads back to its number.
pub proof fn law_signed_decimal_reads_back(n: int)
    ensures
        signed_decimal(n).len() > 0,
        (signed_decimal(n)[0] == '-') == (n < 0),
        forall|i: int| 1 <= i < signed_decimal(n).len() ==> is_decimal_digit(
            #[trigger] signed_decimal(n)[i],
        ),
        !signed_decimal(n).contains(','),
        signed_value(signed_decimal(n)) == n,
{
    let m: nat = if n < 0 { (-n) as nat } else { n as nat };
    law_decimal_reads_back(m);
    let d = decimal(m);
    if n < 0 {
        assert(signed_decimal(n) == seq!['-'] + d);
        assert((seq!['-'] + d).drop_first() =~= d);
        assert forall|i: int| 1 <= i < signed_decimal(n).len() implies is_decimal_digit(
            #[trigger] signed_decimal(n)[i],
        ) by {
            assert(signed_decimal(n)[i] == d[i - 1]);
        }
        if signed_decimal(n).contains(',') {
            let i = choose|i: int| 0 <= i < signed_decimal(n).len() && signed_decimal(n)[i] == ',';
            if i >= 1 {
                assert(is_decimal_digit(signed_decimal(n)[i]));
            }
        }
    } else {
        assert(is_decimal_digit(d[0]));
        if signed_decimal(n).contains(',') {
            let i = choose|i: int| 0 <= i < signed_decimal(n).len() && signed_decimal(n)[i] == ',';
            assert(is_decimal_digit(d[i]));
        }
    }
}

} // verus!
