//! Numbers as decimal text, and the text of addresses.

use vstd::prelude::*;
use vstd::string::StringExecFns;

verus! {

/// The character of a decimal digit.
pub open spec fn digit(d: nat) -> char {
    if d == 0 {
        '0'
    } else if d == 1 {
        '1'
    } else if d == 2 {
        '2'
    } else if d == 3 {
        '3'
    } else if d == 4 {
        '4'
    } else if d == 5 {
        '5'
    } else if d == 6 {
        '6'
    } else if d == 7 {
        '7'
    } else if d == 8 {
        '8'
    } else {
        '9'
    }
}

/// A number in decimal, without leading zeros.
pub open spec fn decimal(n: nat) -> Seq<char>
    decreases n,
{
    if n < 10 {
        seq![digit(n)]
    } else {
        decimal(n / 10).push(digit(n % 10))
    }
}

/// The bytes in decimal, in order, with `separator` between each two.
pub open spec fn joined(bytes: Seq<u8>, separator: Seq<char>) -> Seq<char>
    decreases bytes.len(),
{
    if bytes.len() == 0 {
        Seq::empty()
    } else if bytes.len() == 1 {
        decimal(bytes[0] as nat)
    } else {
        joined(bytes.drop_last(), separator) + separator + decimal(bytes.last() as nat)
    }
}

/// A number has as many decimal digits as it takes: one below ten, two
/// below a hundred, three below a thousand.
pub proof fn lemma_decimal_digits(n: nat)
    ensures
        n < 10 ==> decimal(n) == seq![digit(n)],
        10 <= n < 100 ==> decimal(n) == seq![digit(n / 10), digit(n % 10)],
        100 <= n < 1000 ==> decimal(n) == seq![digit(n / 100), digit(n / 10 % 10), digit(n % 10)],
{
    reveal_with_fuel(decimal, 3);
    if 10 <= n < 100 {
        assert(decimal(n) =~= seq![digit(n / 10), digit(n % 10)]);
    }
    if 100 <= n < 1000 {
        assert(n / 10 / 10 == n / 100);
        assert(decimal(n) =~= seq![digit(n / 100), digit(n / 10 % 10), digit(n % 10)]);
    }
}

/// The text of a decimal digit.
fn digit_text(d: u8) -> (r: &'static str)
    requires
        d < 10,
    ensures
        r@ == seq![digit(d as nat)],
{
    proof {
        reveal_strlit("0");
        reveal_strlit("1");
        reveal_strlit("2");
        reveal_strlit("3");
        reveal_strlit("4");
        reveal_strlit("5");
        reveal_strlit("6");
        reveal_strlit("7");
        reveal_strlit("8");
        reveal_strlit("9");
    }
    let r = match d {
        0 => "0",
        1 => "1",
        2 => "2",
        3 => "3",
        4 => "4",
        5 => "5",
        6 => "6",
        7 => "7",
        8 => "8",
        _ => "9",
    };
    assert(r@ =~= seq![digit(d as nat)]);
    r
}

/// Appends a number in decimal to `text`.
pub fn push_number(text: &mut String, n: usize)
    ensures
        final(text)@ == old(text)@ + decimal(n as nat),
    decreases n,
{
    if n >= 10 {
        push_number(text, n / 10);
    }
    text.append(digit_text((n % 10) as u8));
    assert(text@ =~= old(text)@ + decimal(n as nat));
}

/// Appends a byte in decimal to `text`.
pub fn push_decimal(text: &mut String, b: u8)
    ensures
        final(text)@ == old(text)@ + decimal(b as nat),
{
    push_number(text, b as usize);
}

/// The bytes in decimal, in order, with `separator` between each two.
pub fn join_decimal(bytes: &[u8], separator: &str) -> (r: String)
    ensures
        r@ == joined(bytes@, separator@),
{
    let mut text = String::new();
    let mut i: usize = 0;
    while i < bytes.len()
        invariant
            i <= bytes.len(),
            text@ == joined(bytes@.take(i as int), separator@),
        decreases bytes.len() - i,
    {
        let ghost before = text@;
        if i > 0 {
            text.append(separator);
        }
        push_decimal(&mut text, bytes[i]);
        proof {
            let done = bytes@.take(i + 1);
            assert(done.drop_last() =~= bytes@.take(i as int));
            assert(done.last() == bytes@[i as int]);
            if i == 0 {
                assert(before =~= Seq::<char>::empty());
                assert(text@ =~= decimal(bytes@[0] as nat));
            }
        }
        i += 1;
    }
    assert(bytes@.take(i as int) =~= bytes@);
    text
}

/// A line that names a field and gives its number.
pub open spec fn field(label: Seq<char>, value: nat) -> Seq<char> {
    label + decimal(value) + seq!['\n']
}

/// A line that names a field and gives its text.
pub open spec fn text_field(label: Seq<char>, value: Seq<char>) -> Seq<char> {
    label + value + seq!['\n']
}

/// Appends the line of a field that holds a number.
pub fn push_field(text: &mut String, label: &str, value: usize)
    ensures
        final(text)@ == old(text)@ + field(label@, value as nat),
{
    proof {
        reveal_strlit("\n");
    }
    text.append(label);
    push_number(text, value);
    text.append("\n");
    assert("\n"@ =~= seq!['\n']);
    assert(text@ =~= old(text)@ + field(label@, value as nat));
}

/// Appends the line of a field that holds a text.
pub fn push_text_field(text: &mut String, label: &str, value: &str)
    ensures
        final(text)@ == old(text)@ + text_field(label@, value@),
{
    proof {
        reveal_strlit("\n");
    }
    text.append(label);
    text.append(value);
    text.append("\n");
    assert("\n"@ =~= seq!['\n']);
    assert(text@ =~= old(text)@ + text_field(label@, value@));
}

} // verus!
