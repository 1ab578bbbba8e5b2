//! Text: comparing strings, quoting them, and writing numbers as digits.

use vstd::prelude::*;
use vstd::utf8::*;

verus! {

/// The character of `s` at `i`, or the null character where `s` has none there.
pub open spec fn char_at(s: Seq<char>, i: int) -> char {
    if 0 <= i < s.len() {
        s[i]
    } else {
        '\0'
    }
}

/// Whether two string slices hold the same characters.
pub fn str_eq(a: &str, b: &str) -> (r: bool)
    ensures
        r == (a@ == b@),
{
    let x = a.as_bytes();
    let y = b.as_bytes();
    proof {
        encode_utf8_decode_utf8(a@);
        encode_utf8_decode_utf8(b@);
    }
    if x.len() != y.len() {
        return false;
    }
    let n = x.len();
    let mut i: usize = 0;
    while i < n
        invariant
            i <= n,
            n == x@.len(),
            n == y@.len(),
            x@ == encode_utf8(a@),
            y@ == encode_utf8(b@),
            forall|j: int| 0 <= j < i ==> x@[j] == y@[j],
        decreases n - i,
    {
        if x[i] != y[i] {
            return false;
        }
        i += 1;
    }
    assert(x@ =~= y@);
    true
}

/// Whether `s` begins with `prefix`.
pub open spec fn starts_with(s: Seq<char>, prefix: Seq<char>) -> bool {
    prefix.len() <= s.len() && s.subrange(0, prefix.len() as int) == prefix
}

/// Whether `s` begins with `prefix`.
pub fn str_starts_with(s: &str, prefix: &str) -> (r: bool)
    ensures
        r == starts_with(s@, prefix@),
{
    let n = prefix.unicode_len();
    if s.unicode_len() < n {
        return false;
    }
    let mut i: usize = 0;
    while i < n
        invariant
            i <= n,
            n == prefix@.len(),
            n <= s@.len(),
            forall|j: int| 0 <= j < i ==> s@[j] == prefix@[j],
        decreases n - i,
    {
        if s.get_char(i) != prefix.get_char(i) {
            assert(s@.subrange(0, n as int)[i as int] != prefix@[i as int]);
            return false;
        }
        i += 1;
    }
    assert(s@.subrange(0, n as int) =~= prefix@);
    true
}

/// The quote character: the single quote or the double quote.
pub open spec fn quote_mark(single: bool) -> char {
    if single {
        '\''
    } else {
        '"'
    }
}

/// The text `s` as it stands between two quote characters `mark`: with a
/// backslash before each such character and each backslash.
pub open spec fn escaped(s: Seq<char>, mark: char) -> Seq<char>
    decreases s.len(),
{
    if s.len() == 0 {
        s
    } else if s.last() == mark || s.last() == '\\' {
        escaped(s.drop_last(), mark).push('\\').push(s.last())
    } else {
        escaped(s.drop_last(), mark).push(s.last())
    }
}

/// The text `s` between two quote characters `mark`.
pub open spec fn quoted_text(s: Seq<char>, mark: char) -> Seq<char> {
    seq![mark] + escaped(s, mark) + seq![mark]
}

/// The text `s` in quotes: in single quotes, or else in double quotes.
pub fn quote(s: &str, single: bool) -> (r: String)
    ensures
        r@ == quoted_text(s@, quote_mark(single)),
{
    proof {
        reveal_strlit("\"");
        reveal_strlit("'");
    }
    let ghost mark = quote_mark(single);
    let mark_text = if single {
        "'"
    } else {
        "\""
    };
    assert(mark_text@ =~= seq![mark]);
    let mut out = String::from_str(mark_text);
    let n = s.unicode_len();
    let mut i: usize = 0;
    while i < n
        invariant
            i <= n,
            n == s@.len(),
            mark == quote_mark(single),
            out@ == seq![mark] + escaped(s@.take(i as int), mark),
        decreases n - i,
    {
        let c = s.get_char(i);
        let ghost next = s@.take(i + 1);
        assert(next.drop_last() =~= s@.take(i as int));
        assert(next.last() == c);
        let ghost before = out@;
        if (single && c == '\'') || (!single && c == '"') || c == '\\' {
            proof {
                reveal_strlit("\\");
            }
            out.append("\\");
            assert(out@ =~= before.push('\\'));
        }
        let ghost middle = out@;
        out.append(s.substring_char(i, i + 1));
        assert(s@.subrange(i as int, i + 1) =~= seq![c]);
        assert(out@ =~= middle.push(c));
        assert(out@ =~= seq![mark] + escaped(next, mark));
        i += 1;
    }
    assert(s@.take(n as int) =~= s@);
    out.append(mark_text);
    assert(out@ =~= quoted_text(s@, mark));
    out
}

/// The character for one decimal digit.
pub open spec fn digit_char(d: int) -> char {
    if d == 0 {
        '0'
    } else if d == 1 {
        '1'
    } else if d == 2 {
        '2'
    } else if d == 3 {
        '3'
    } else if d == 4 {
        '4'
    } else if d == 5 {
        '5'
    } else if d == 6 {
        '6'
    } else if d == 7 {
        '7'
    } else if d == 8 {
        '8'
    } else {
        '9'
    }
}

/// The character for one hexadecimal digit, in lower case.
pub open spec fn hex_char(d: int) -> char {
    if d < 10 {
        digit_char(d)
    } else if d == 10 {
        'a'
    } else if d == 11 {
        'b'
    } else if d == 12 {
        'c'
    } else if d == 13 {
        'd'
    } else if d == 14 {
        'e'
    } else {
        'f'
    }
}

/// The two hexadecimal digits of a byte.
pub open spec fn hex_text(n: int) -> Seq<char> {
    seq![hex_char(n / 16), hex_char(n % 16)]
}

/// The decimal digits of `n`, the most significant first, without leading zeros.
pub open spec fn nat_text(n: nat) -> Seq<char>
    decreases n,
{
    if n < 10 {
        seq![digit_char(n as int)]
    } else {
        nat_text(n / 10).push(digit_char((n % 10) as int))
    }
}

/// One decimal digit as a string.
pub(crate) fn digit_str(d: u8) -> (s: &'static str)
    requires
        d < 10,
    ensures
        s@ == seq![digit_char(d as int)],
{
    proof {
        reveal_strlit("0");
        reveal_strlit("1");
        reveal_strlit("2");
        reveal_strlit("3");
        reveal_strlit("4");
        reveal_strlit("5");
        reveal_strlit("6");
        reveal_strlit("7");
        reveal_strlit("8");
        reveal_strlit("9");
    }
    let s = match d {
        0 => "0",
        1 => "1",
        2 => "2",
        3 => "3",
        4 => "4",
        5 => "5",
        6 => "6",
        7 => "7",
        8 => "8",
        _ => "9",
    };
    assert(s@ =~= seq![digit_char(d as int)]);
    s
}

/// One hexadecimal digit as a string.
pub(crate) fn hex_str(d: u8) -> (s: &'static str)
    requires
        d < 16,
    ensures
        s@ == seq![hex_char(d as int)],
{
    if d < 10 {
        return digit_str(d);
    }
    proof {
        reveal_strlit("a");
        reveal_strlit("b");
        reveal_strlit("c");
        reveal_strlit("d");
        reveal_strlit("e");
        reveal_strlit("f");
    }
    let s = match d {
        10 => "a",
        11 => "b",
        12 => "c",
        13 => "d",
        14 => "e",
        _ => "f",
    };
    assert(s@ =~= seq![hex_char(d as int)]);
    s
}

/// Writes the two hexadecimal digits of `n` at the end of `out`.
pub fn append_hex(out: &mut String, n: u8)
    ensures
        final(out)@ == old(out)@ + hex_text(n as int),
{
    out.append(hex_str(n / 16));
    out.append(hex_str(n % 16));
    assert(final(out)@ =~= old(out)@ + hex_text(n as int));
}

/// Writes the decimal digits of `n` at the end of `out`.
pub fn append_nat(out: &mut String, n: u128)
    ensures
        final(out)@ == old(out)@ + nat_text(n as nat),
    decreases n,
{
    if n >= 10 {
        append_nat(out, n / 10);
    }
    let d: u8 = (n % 10) as u8;
    out.append(digit_str(d));
    assert(final(out)@ =~= old(out)@ + nat_text(n as nat));
}

/// The decimal digits of `n` as a string.
pub fn nat_to_string(n: usize) -> (s: String)
    ensures
        s@ == nat_text(n as nat),
{
    let mut s = String::new();
    append_nat(&mut s, n as u128);
    assert(s@ =~= nat_text(n as nat));
    s
}

} // verus!
