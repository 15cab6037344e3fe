//! Building JSON text for the wire messages.
//!
//! The discovery protocol and the ingestion replies are JSON documents of a
//! fixed shape, so the text is produced here character by character against
//! spec-level definitions of the format: decimal number tokens, escaped and
//! quoted string tokens, and arrays of strings.
use vstd::prelude::*;
use vstd::string::StrSliceExecFns;

verus! {

/// The character for one digit value, decimal or hexadecimal.
pub open spec fn hex_digit(d: int) -> char {
    if d == 0 {
        '0'
    } else if d == 1 {
        '1'
    } else if d == 2 {
        '2'
    } else if d == 3 {
        '3'
    } else if d == 4 {
        '4'
    } else if d == 5 {
        '5'
    } else if d == 6 {
        '6'
    } else if d == 7 {
        '7'
    } else if d == 8 {
        '8'
    } else if d == 9 {
        '9'
    } else if d == 10 {
        'a'
    } else if d == 11 {
        'b'
    } else if d == 12 {
        'c'
    } else if d == 13 {
        'd'
    } else if d == 14 {
        'e'
    } else {
        'f'
    }
}

/// The decimal representation of a natural number, most significant digit first.
pub open spec fn dec_digits(n: nat) -> Seq<char>
    decreases n,
{
    if n < 10 {
        seq![hex_digit(n as int)]
    } else {
        dec_digits((n / 10) as nat).push(hex_digit((n % 10) as int))
    }
}

/// The decimal representation of an integer, with a leading minus sign when negative.
pub open spec fn dec_int(i: int) -> Seq<char> {
    if i >= 0 {
        dec_digits(i as nat)
    } else {
        seq!['-'] + dec_digits((-i) as nat)
    }
}

/// How one character appears inside a JSON string literal: quote and backslash
/// get a backslash escape, control characters a `\u00XX` escape, and every
/// other character stands for itself.
pub open spec fn escaped_char(c: char) -> Seq<char> {
    if c == '"' {
        seq!['\\', '"']
    } else if c == '\\' {
        seq!['\\', '\\']
    } else if (c as u32) < 32 {
        seq!['\\', 'u', '0', '0', hex_digit(c as u32 as int / 16), hex_digit(c as u32 as int % 16)]
    } else {
        seq![c]
    }
}

/// A character sequence with every character escaped for a JSON string literal.
pub open spec fn escaped(s: Seq<char>) -> Seq<char>
    decreases s.len(),
{
    if s.len() == 0 {
        Seq::empty()
    } else {
        escaped(s.drop_last()) + escaped_char(s.last())
    }
}

/// A JSON string token: the escaped characters between double quotes.
pub open spec fn quoted(s: Seq<char>) -> Seq<char> {
    seq!['"'] + escaped(s) + seq!['"']
}

/// The comma-separated items of a JSON array of string tokens.
pub open spec fn string_array_items(elems: Seq<Seq<char>>) -> Seq<char>
    decreases elems.len(),
{
    if elems.len() == 0 {
        Seq::empty()
    } else if elems.len() == 1 {
        quoted(elems[0])
    } else {
        string_array_items(elems.drop_last()) + seq![','] + quoted(elems.last())
    }
}

/// A JSON array of string tokens.
pub open spec fn string_array(elems: Seq<Seq<char>>) -> Seq<char> {
    seq!['['] + string_array_items(elems) + seq![']']
}

/// The character for one digit value below 16.
pub fn hex_digit_char(d: u8) -> (c: char)
    requires
        d < 16,
    ensures
        c == hex_digit(d as int),
{
    if d == 0 {
        '0'
    } else if d == 1 {
        '1'
    } else if d == 2 {
        '2'
    } else if d == 3 {
        '3'
    } else if d == 4 {
        '4'
    } else if d == 5 {
        '5'
    } else if d == 6 {
        '6'
    } else if d == 7 {
        '7'
    } else if d == 8 {
        '8'
    } else if d == 9 {
        '9'
    } else if d == 10 {
        'a'
    } else if d == 11 {
        'b'
    } else if d == 12 {
        'c'
    } else if d == 13 {
        'd'
    } else if d == 14 {
        'e'
    } else {
        'f'
    }
}

/// Appends every character of `s` to `out`.
pub fn push_literal(out: &mut Vec<char>, s: &str)
    ensures
        final(out)@ == old(out)@ + s@,
{
    let n: usize = s.unicode_len();
    let mut i: usize = 0;
    while i < n
        invariant
            i <= n,
            n == s@.len(),
            out@ == old(out)@ + s@.subrange(0, i as int),
        decreases n - i,
    {
        let c = s.get_char(i);
        out.push(c);
        i = i + 1;
        proof {
            assert(s@.subrange(0, i as int) =~= s@.subrange(0, i - 1).push(s@[i - 1]));
        }
    }
    proof {
        assert(s@.subrange(0, n as int) =~= s@);
    }
}

/// Appends the escape sequence of one character to `out`.
pub fn push_escaped_char(out: &mut Vec<char>, c: char)
    ensures
        final(out)@ == old(out)@ + escaped_char(c),
{
    if c == '"' {
        out.push('\\');
        out.push('"');
        proof {
            assert(out@ =~= old(out)@ + escaped_char(c));
        }
    } else if c == '\\' {
        out.push('\\');
        out.push('\\');
        proof {
            assert(out@ =~= old(out)@ + escaped_char(c));
        }
    } else if (c as u32) < 32 {
        let v: u32 = c as u32;
        out.push('\\');
        out.push('u');
        out.push('0');
        out.push('0');
        out.push(hex_digit_char((v / 16) as u8));
        out.push(hex_digit_char((v % 16) as u8));
        proof {
            assert(out@ =~= old(out)@ + escaped_char(c));
        }
    } else {
        out.push(c);
        proof {
            assert(out@ =~= old(out)@ + escaped_char(c));
        }
    }
}

proof fn lemma_escaped_step(s: Seq<char>, i: int)
    requires
        0 <= i < s.len(),
    ensures
        escaped(s.subrange(0, i + 1)) == escaped(s.subrange(0, i)) + escaped_char(s[i]),
{
    let pre = s.subrange(0, i + 1);
    assert(pre.drop_last() =~= s.subrange(0, i));
    assert(pre.last() == s[i]);
}

/// Appends the escaped form of every character of `s` to `out`.
pub fn push_escaped(out: &mut Vec<char>, s: &str)
    ensures
        final(out)@ == old(out)@ + escaped(s@),
{
    let n: usize = s.unicode_len();
    let mut i: usize = 0;
    while i < n
        invariant
            i <= n,
            n == s@.len(),
            out@ == old(out)@ + escaped(s@.subrange(0, i as int)),
        decreases n - i,
    {
        let c = s.get_char(i);
        push_escaped_char(out, c);
        i = i + 1;
        proof {
            lemma_escaped_step(s@, i - 1);
        }
    }
    proof {
        assert(s@.subrange(0, n as int) =~= s@);
    }
}

/// Appends the quoted JSON string token for `s` to `out`.
pub fn push_quoted(out: &mut Vec<char>, s: &str)
    ensures
        final(out)@ == old(out)@ + quoted(s@),
{
    out.push('"');
    push_escaped(out, s);
    out.push('"');
    proof {
        assert(out@ =~= old(out)@ + quoted(s@));
    }
}

/// Appends the decimal digits of `n` to `out`.
pub fn push_u64_dec(out: &mut Vec<char>, n: u64)
    ensures
        final(out)@ == old(out)@ + dec_digits(n as nat),
    decreases n,
{
    if n < 10 {
        out.push(hex_digit_char(n as u8));
        proof {
            assert(out@ =~= old(out)@ + dec_digits(n as nat));
        }
    } else {
        push_u64_dec(out, n / 10);
        out.push(hex_digit_char((n % 10) as u8));
        proof {
            assert(out@ =~= old(out)@ + dec_digits(n as nat));
        }
    }
}

/// Appends the decimal digits of `n` to `out`.
pub fn push_u16_dec(out: &mut Vec<char>, n: u16)
    ensures
        final(out)@ == old(out)@ + dec_digits(n as nat),
{
    push_u64_dec(out, n as u64);
}

/// Appends the signed decimal representation of `n` to `out`.
pub fn push_i64_dec(out: &mut Vec<char>, n: i64)
    ensures
        final(out)@ == old(out)@ + dec_int(n as int),
{
    if n >= 0 {
        push_u64_dec(out, n as u64);
    } else {
        out.push('-');
        let m: u64 = ((-(n + 1)) as u64) + 1;
        proof {
            assert(m as int == -(n as int));
        }
        push_u64_dec(out, m);
        proof {
            assert(out@ =~= old(out)@ + dec_int(n as int));
        }
    }
}

proof fn lemma_string_array_items_step(elems: Seq<Seq<char>>, i: int)
    requires
        1 <= i < elems.len(),
    ensures
        string_array_items(elems.subrange(0, i + 1)) == string_array_items(elems.subrange(0, i))
            + seq![','] + quoted(elems[i]),
{
    let pre = elems.subrange(0, i + 1);
    assert(pre.drop_last() =~= elems.subrange(0, i));
    assert(pre.last() == elems[i]);
}

/// Appends the JSON array of the strings in `elems` to `out`.
pub fn push_string_array(out: &mut Vec<char>, elems: &Vec<String>)
    ensures
        final(out)@ == old(out)@ + string_array(elems.deep_view()),
{
    let ghost dv: Seq<Seq<char>> = elems.deep_view();
    proof {
        assert(dv.len() == elems@.len());
    }
    out.push('[');
    let mut i: usize = 0;
    while i < elems.len()
        invariant
            i <= elems.len(),
            dv == elems.deep_view(),
            dv.len() == elems@.len(),
            out@ == old(out)@ + seq!['['] + string_array_items(dv.subrange(0, i as int)),
        decreases elems.len() - i,
    {
        if i > 0 {
            out.push(',');
        }
        proof {
            assert(dv[i as int] == elems@[i as int]@);
        }
        push_quoted(out, elems[i].as_str());
        i = i + 1;
        proof {
            if i == 1 {
                assert(dv.subrange(0, 1).len() == 1);
                assert(dv.subrange(0, 1)[0] == dv[0]);
                assert(out@ =~= old(out)@ + seq!['['] + string_array_items(dv.subrange(0, 1)));
            } else {
                lemma_string_array_items_step(dv, i - 1);
                assert(out@ =~= old(out)@ + seq!['['] + string_array_items(
                    dv.subrange(0, i as int),
                ));
            }
        }
    }
    out.push(']');
    proof {
        assert(dv.subrange(0, dv.len() as int) =~= dv);
        assert(out@ =~= old(out)@ + string_array(dv));
    }
}

/// The first character of a decimal representation is a decimal digit.
pub proof fn lemma_dec_digits_first(n: nat)
    ensures
        dec_digits(n).len() >= 1,
        exists|d: int| 0 <= d < 10 && dec_digits(n)[0] == hex_digit(d),
        n >= 10 ==> dec_digits(n).len() >= 2,
    decreases n,
{
    if n >= 10 {
        lemma_dec_digits_first((n / 10) as nat);
        let d = choose|d: int| 0 <= d < 10 && dec_digits((n / 10) as nat)[0] == hex_digit(d);
        assert(dec_digits(n)[0] == dec_digits((n / 10) as nat)[0]);
        assert(dec_digits(n)[0] == hex_digit(d));
    } else {
        assert(dec_digits(n)[0] == hex_digit(n as int));
    }
}

/// Distinct naturals have distinct decimal representations.
pub proof fn lemma_dec_digits_injective(a: nat, b: nat)
    requires
        dec_digits(a) == dec_digits(b),
    ensures
        a == b,
    decreases a + b,
{
    if a < 10 && b < 10 {
        assert(dec_digits(a)[0] == hex_digit(a as int));
        assert(dec_digits(b)[0] == hex_digit(b as int));
        assert(hex_digit(a as int) == hex_digit(b as int));
    } else if a < 10 && b >= 10 {
        lemma_dec_digits_first(b);
        assert(dec_digits(a).len() == 1);
        assert(false);
    } else if a >= 10 && b < 10 {
        lemma_dec_digits_first(a);
        assert(dec_digits(b).len() == 1);
        assert(false);
    } else {
        let pa = dec_digits((a / 10) as nat);
        let pb = dec_digits((b / 10) as nat);
        assert(dec_digits(a) == pa.push(hex_digit((a % 10) as int)));
        assert(dec_digits(b) == pb.push(hex_digit((b % 10) as int)));
        assert(pa.push(hex_digit((a % 10) as int)).last() == hex_digit((a % 10) as int));
        assert(hex_digit((a % 10) as int) == hex_digit((b % 10) as int));
        assert(a % 10 == b % 10);
        assert(pa.len() == pb.len());
        assert forall|i: int| 0 <= i < pa.len() implies pa[i] == pb[i] by {
            assert(pa[i] == dec_digits(a)[i]);
            assert(pb[i] == dec_digits(b)[i]);
        }
        assert(pa =~= pb);
        lemma_dec_digits_injective((a / 10) as nat, (b / 10) as nat);
    }
}

/// Distinct integers have distinct decimal representations.
pub proof fn lemma_dec_int_injective(a: int, b: int)
    requires
        dec_int(a) == dec_int(b),
    ensures
        a == b,
{
    if a >= 0 && b >= 0 {
        lemma_dec_digits_injective(a as nat, b as nat);
    } else if a < 0 && b < 0 {
        let pa = dec_digits((-a) as nat);
        let pb = dec_digits((-b) as nat);
        assert(dec_int(a) == seq!['-'] + pa);
        assert(dec_int(b) == seq!['-'] + pb);
        assert((seq!['-'] + pa).len() == 1 + pa.len());
        assert((seq!['-'] + pb).len() == 1 + pb.len());
        assert(pa.len() == pb.len());
        assert forall|i: int| 0 <= i < pa.len() implies pa[i] == pb[i] by {
            assert(pa[i] == (seq!['-'] + pa)[i + 1]);
            assert(pb[i] == (seq!['-'] + pb)[i + 1]);
        }
        assert(pa =~= pb);
        lemma_dec_digits_injective((-a) as nat, (-b) as nat);
    } else if a >= 0 && b < 0 {
        lemma_dec_digits_first(a as nat);
        let d = choose|d: int| 0 <= d < 10 && dec_digits(a as nat)[0] == hex_digit(d);
        assert(dec_int(b)[0] == '-');
        assert(hex_digit(d) != '-');
        assert(false);
    } else {
        lemma_dec_digits_first(b as nat);
        let d = choose|d: int| 0 <= d < 10 && dec_digits(b as nat)[0] == hex_digit(d);
        assert(dec_int(a)[0] == '-');
        assert(hex_digit(d) != '-');
        assert(false);
    }
}

/// Relies on `String`'s `FromIterator` impl: collecting `char`s yields the
/// string of exactly those characters in order.
#[verifier::external_body]
pub(crate) fn collect_string(chars: &Vec<char>) -> (s: String)
    ensures
        s@ == chars@,
{
    chars.iter().collect()
}

} // verus!
