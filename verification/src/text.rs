//! Decimal text of integers, used by the textual forms of values.

use vstd::prelude::*;
use vstd::string::StringExecFns;

verus! {

/// The character of the decimal digit `d`.
pub open spec fn digit_char(d: nat) -> char {
    (48 + d) as char
}

/// The decimal representation of `n`, without leading zeros.
pub open spec fn decimal_digits(n: nat) -> Seq<char>
    decreases n,
{
    if n < 10 {
        seq![digit_char(n)]
    } else {
        decimal_digits(n / 10) + seq![digit_char(n % 10)]
    }
}

/// The one-character text of the decimal digit `d`.
fn digit_text(d: u64) -> (text: &'static str)
    requires
        d < 10,
    ensures
        text@ == seq![digit_char(d as nat)],
{
    proof {
        reveal_strlit("0");
        reveal_strlit("1");
        reveal_strlit("2");
        reveal_strlit("3");
        reveal_strlit("4");
        reveal_strlit("5");
        reveal_strlit("6");
        reveal_strlit("7");
        reveal_strlit("8");
        reveal_strlit("9");
    }
    match d {
        0 => "0",
        1 => "1",
        2 => "2",
        3 => "3",
        4 => "4",
        5 => "5",
        6 => "6",
        7 => "7",
        8 => "8",
        _ => "9",
    }
}

/// Appends the decimal representation of `n` to `text`.
pub fn append_decimal(text: &mut String, n: u64)
    ensures
        final(text)@ == old(text)@ + decimal_digits(n as nat),
    decreases n,
{
    if n >= 10 {
        append_decimal(text, n / 10);
    }
    text.append(digit_text(n % 10));
    assert(final(text)@ =~= old(text)@ + decimal_digits(n as nat));
}

/// The decimal representation of `n`, as `Display` writes integers.
pub fn decimal_text(n: u64) -> (text: String)
    ensures
        text@ == decimal_digits(n as nat),
{
    let mut text = String::new();
    append_decimal(&mut text, n);
    assert(text@ =~= decimal_digits(n as nat));
    text
}

/// The elements of `s` in decimal, separated by `, `.
pub open spec fn bytes_list(s: Seq<u8>) -> Seq<char>
    decreases s.len(),
{
    if s.len() == 0 {
        Seq::empty()
    } else if s.len() == 1 {
        decimal_digits(s[0] as nat)
    } else {
        bytes_list(s.drop_last()) + ", "@ + decimal_digits(s.last() as nat)
    }
}

/// The text `[1, 2, 3]` that `Debug` writes for a byte vector.
pub open spec fn bytes_text(s: Seq<u8>) -> Seq<char> {
    "["@ + bytes_list(s) + "]"@
}

/// Appends the `Debug` text of `bytes` to `text`.
pub fn append_bytes_text(text: &mut String, bytes: &[u8])
    ensures
        final(text)@ == old(text)@ + bytes_text(bytes@),
{
    text.append("[");
    let mut i: usize = 0;
    assert(bytes@.take(0) =~= Seq::<u8>::empty());
    while i < bytes.len()
        invariant
            i <= bytes@.len(),
            text@ == old(text)@ + "["@ + bytes_list(bytes@.take(i as int)),
        decreases bytes@.len() - i,
    {
        let ghost before = text@;
        if i > 0 {
            text.append(", ");
        }
        append_decimal(text, bytes[i] as u64);
        proof {
            let t = bytes@.take(i as int + 1);
            assert(t.drop_last() =~= bytes@.take(i as int));
            assert(t.last() == bytes@[i as int]);
            if i == 0 {
                assert(text@ =~= old(text)@ + "["@ + bytes_list(t));
            } else {
                assert(text@ =~= old(text)@ + "["@ + bytes_list(t));
            }
        }
        i = i + 1;
    }
    text.append("]");
    assert(bytes@.take(i as int) =~= bytes@);
    assert(final(text)@ =~= old(text)@ + bytes_text(bytes@));
}

} // verus!

verus! {

/// The number that the decimal digits `s` stand for.
pub open spec fn digits_value(s: Seq<char>) -> int
    decreases s.len(),
{
    if s.len() == 0 {
        0
    } else {
        digits_value(s.drop_last()) * 10 + (s.last() as int - 48)
    }
}

/// The decimal text of `n` is a non-empty run of the digits `0` to `9` that
/// stands for `n`, with no leading zero unless `n` is zero.
pub proof fn lemma_decimal_digits(n: nat)
    ensures
        decimal_digits(n).len() >= 1,
        forall|i: int|
            0 <= i < decimal_digits(n).len() ==> '0' <= #[trigger] decimal_digits(n)[i] <= '9',
        digits_value(decimal_digits(n)) == n,
        decimal_digits(n)[0] == '0' ==> n == 0,
    decreases n,
{
    let s = decimal_digits(n);
    let d = n % 10;
    assert(digit_char(d) as int == 48 + d);
    assert(s.last() == digit_char(d));
    if n < 10 {
        assert(s.drop_last() =~= Seq::<char>::empty());
        assert(digits_value(s.drop_last()) == 0);
    } else {
        lemma_decimal_digits(n / 10);
        let prefix = decimal_digits(n / 10);
        assert(s.drop_last() =~= prefix);
        assert(s[0] == prefix[0]);
        assert forall|i: int| 0 <= i < s.len() implies '0' <= #[trigger] s[i] <= '9' by {
            if i < prefix.len() {
                assert(s[i] == prefix[i]);
            }
        }
    }
}

} // verus!
