//! Small string-building helpers.  The only operations taken on trust are
//! the two std calls that vstd gives no specification for; everything that
//! decides which characters are produced is verified code.

use vstd::prelude::*;

verus! {

/// Relies on String::push: appends exactly one character to the string.
#[verifier::external_body]
pub fn string_push_char(s: &mut String, c: char)
    ensures
        final(s)@ == old(s)@.push(c),
{
    s.push(c);
}

/// Relies on String::from_utf8: decodes the bytes as UTF-8, or yields the
/// empty string when they are not valid UTF-8.
#[verifier::external_body]
pub fn utf8_or_empty(bytes: Vec<u8>) -> String {
    String::from_utf8(bytes).unwrap_or_default()
}

/// Relies on String::from_utf8: decodes the bytes as UTF-8, or reports
/// that they are not valid UTF-8.
#[verifier::external_body]
pub fn utf8_checked(bytes: Vec<u8>) -> Option<String> {
    String::from_utf8(bytes).ok()
}

/// The character for decimal digit `d`.
pub open spec fn digit_char_spec(d: int) -> char {
    ((d + 0x30) as u8) as char
}

/// The character for hexadecimal digit `d`, uppercase.
pub open spec fn hex_char_spec(d: int) -> char {
    if d < 10 {
        ((d + 0x30) as u8) as char
    } else {
        ((d + 0x37) as u8) as char
    }
}

/// The decimal digit characters of `n`, most significant first.
pub open spec fn dec_digits(n: nat) -> Seq<char>
    decreases n,
{
    if n < 10 {
        seq![digit_char_spec(n as int)]
    } else {
        dec_digits(n / 10).push(digit_char_spec((n % 10) as int))
    }
}

/// The reverse of a character sequence.
pub open spec fn rev_chars(s: Seq<char>) -> Seq<char>
    decreases s.len(),
{
    if s.len() == 0 {
        Seq::empty()
    } else {
        seq![s.last()] + rev_chars(s.drop_last())
    }
}

/// Reversal moves a trailing character to the front.
proof fn lemma_rev_push(s: Seq<char>, c: char)
    ensures
        rev_chars(s.push(c)) == seq![c] + rev_chars(s),
{
    assert(s.push(c).last() == c);
    assert(s.push(c).drop_last() =~= s);
}

/// A single character reverses to itself.
proof fn lemma_rev_single(c: char)
    ensures
        rev_chars(seq![c]) == seq![c],
{
    assert(Seq::<char>::empty().push(c) =~= seq![c]);
    lemma_rev_push(Seq::empty(), c);
    assert(seq![c] + rev_chars(Seq::<char>::empty()) =~= seq![c]);
}

/// Reversal moves a leading character to the end.
proof fn lemma_rev_cons(a: char, t: Seq<char>)
    ensures
        rev_chars(seq![a] + t) == rev_chars(t) + seq![a],
    decreases t.len(),
{
    let s = seq![a] + t;
    if t.len() == 0 {
        assert(s =~= seq![a]);
        lemma_rev_single(a);
        assert(rev_chars(t) + seq![a] =~= seq![a]);
    } else {
        assert(s =~= (seq![a] + t.drop_last()).push(t.last()));
        lemma_rev_push(seq![a] + t.drop_last(), t.last());
        lemma_rev_cons(a, t.drop_last());
        assert(rev_chars(t) == seq![t.last()] + rev_chars(t.drop_last()));
        assert(seq![t.last()] + (rev_chars(t.drop_last()) + seq![a]) =~= (seq![t.last()]
            + rev_chars(t.drop_last())) + seq![a]);
    }
}

/// Appends the decimal digits of `n` to `s`, most significant first.
pub fn push_decimal(s: &mut String, n: u64)
    ensures
        final(s)@ == old(s)@ + dec_digits(n as nat),
        final(s)@.len() > old(s)@.len(),
{
    let mut digits: Vec<char> = Vec::new();
    let mut rest: u64 = n;
    let d0: u64 = rest % 10;
    digits.push(digit_char(d0 as u8));
    rest = rest / 10;
    proof {
        assert(digits@ =~= seq![digit_char_spec((n % 10) as int)]);
        lemma_rev_single(digit_char_spec((n % 10) as int));
        if rest > 0 {
            assert(dec_digits(n as nat) == dec_digits((n / 10) as nat).push(
                digit_char_spec((n % 10) as int),
            ));
            assert(dec_digits(n as nat) =~= dec_digits(rest as nat) + rev_chars(digits@));
        } else {
            assert(dec_digits(n as nat) =~= rev_chars(digits@));
        }
    }
    while rest > 0
        invariant
            digits@.len() >= 1,
            dec_digits(n as nat) == (if rest > 0 {
                dec_digits(rest as nat) + rev_chars(digits@)
            } else {
                rev_chars(digits@)
            }),
        decreases rest,
    {
        let ghost pre = digits@;
        let ghost prest = rest;
        let d: u64 = rest % 10;
        digits.push(digit_char(d as u8));
        rest = rest / 10;
        proof {
            assert(digits@ =~= pre.push(digit_char_spec((prest % 10) as int)));
            lemma_rev_push(pre, digit_char_spec((prest % 10) as int));
            assert(rev_chars(digits@) == seq![digit_char_spec((prest % 10) as int)]
                + rev_chars(pre));
            if rest > 0 {
                assert(dec_digits(prest as nat) == dec_digits(rest as nat).push(
                    digit_char_spec((prest % 10) as int),
                ));
                assert(dec_digits(n as nat) =~= dec_digits(rest as nat) + rev_chars(digits@));
            } else {
                assert(dec_digits(prest as nat) =~= seq![
                    digit_char_spec((prest % 10) as int),
                ]);
                assert(dec_digits(n as nat) =~= rev_chars(digits@));
            }
        }
    }
    proof {
        assert(digits@.skip(digits@.len() as int) =~= Seq::empty());
        assert(s@ + rev_chars(digits@.skip(digits@.len() as int)) =~= s@);
    }
    let mut k: usize = digits.len();
    while k > 0
        invariant
            k <= digits@.len(),
            digits@.len() >= 1,
            dec_digits(n as nat) == rev_chars(digits@),
            s@ == old(s)@ + rev_chars(digits@.skip(k as int)),
        decreases k,
    {
        k = k - 1;
        string_push_char(s, digits[k]);
        proof {
            assert(digits@.skip(k as int) =~= seq![digits@[k as int]] + digits@.skip(
                k as int + 1,
            ));
            lemma_rev_cons(digits@[k as int], digits@.skip(k as int + 1));
            assert(s@ =~= old(s)@ + rev_chars(digits@.skip(k as int)));
        }
    }
    proof {
        assert(digits@.skip(0) =~= digits@);
        assert(dec_digits(n as nat).len() >= 1);
    }
}

/// Appends `n` as exactly two uppercase hexadecimal digits.
pub fn push_hex_byte_upper(s: &mut String, n: u8)
    ensures
        final(s)@ == old(s)@.push(hex_char_spec(n as int / 16)).push(hex_char_spec(n as int % 16)),
        final(s)@.len() == old(s)@.len() + 2,
{
    string_push_char(s, hex_char_upper(n / 16));
    string_push_char(s, hex_char_upper(n % 16));
}

/// The character for one decimal digit.
pub fn digit_char(d: u8) -> (c: char)
    requires
        d < 10,
    ensures
        c == digit_char_spec(d as int),
        c as int == d + 0x30,
{
    (d + 0x30) as char
}

/// The character for one hexadecimal digit, uppercase.
pub fn hex_char_upper(d: u8) -> (c: char)
    requires
        d < 16,
    ensures
        c == hex_char_spec(d as int),
        d < 10 ==> c as int == d + 0x30,
        d >= 10 ==> c as int == d - 10 + 0x41,
{
    if d < 10 {
        (d + 0x30) as char
    } else {
        (d - 10 + 0x41) as char
    }
}

} // verus!
