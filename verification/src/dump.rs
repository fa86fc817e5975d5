//! A dump of bytes as lines of text: sixteen bytes to a line, in
//! hexadecimal in groups of four, and once more as characters.

use vstd::prelude::*;
use vstd::string::StringExecFns;

verus! {

/// The number of bytes in a line of a dump.
pub const LINE_BYTES: usize = 16;

/// The number of bytes in a group of a line.
pub const GROUP_BYTES: usize = 4;

/// The character of a hexadecimal digit.
pub open spec fn hex_digit(d: nat) -> char {
    if d == 0 {
        '0'
    } else if d == 1 {
        '1'
    } else if d == 2 {
        '2'
    } else if d == 3 {
        '3'
    } else if d == 4 {
        '4'
    } else if d == 5 {
        '5'
    } else if d == 6 {
        '6'
    } else if d == 7 {
        '7'
    } else if d == 8 {
        '8'
    } else if d == 9 {
        '9'
    } else if d == 10 {
        'a'
    } else if d == 11 {
        'b'
    } else if d == 12 {
        'c'
    } else if d == 13 {
        'd'
    } else if d == 14 {
        'e'
    } else {
        'f'
    }
}

/// Whether the character of a byte is white space: a tabulator, a line
/// feed, a vertical tabulator, a form feed, a carriage return, a space, a
/// next line or a no-break space.
pub open spec fn is_space(b: u8) -> bool {
    9 <= b <= 13 || b == 0x20 || b == 0x85 || b == 0xA0
}

/// The character that stands for a byte in a dump: its own, or a dot in
/// place of white space.
pub open spec fn glyph(b: u8) -> char {
    if is_space(b) {
        '.'
    } else {
        b as char
    }
}

/// The hexadecimal part of a line from byte `i` on: each byte as two digits
/// and a space, and one more space behind each group.
pub open spec fn hex_part(chunk: Seq<u8>, i: int) -> Seq<char>
    decreases chunk.len() - i,
{
    if i < 0 || i >= chunk.len() {
        Seq::empty()
    } else {
        let byte = seq![hex_digit((chunk[i] / 16) as nat), hex_digit((chunk[i] % 16) as nat), ' '];
        let gap = if i % 4 == 3 || i == chunk.len() - 1 {
            seq![' ']
        } else {
            Seq::empty()
        };
        byte + gap + hex_part(chunk, i + 1)
    }
}

/// The line of a dump for the bytes of `chunk`.
pub open spec fn dump_line(chunk: Seq<u8>) -> Seq<char> {
    "|    "@ + hex_part(chunk, 0) + "    "@ + chunk.map_values(|b: u8| glyph(b))
}

/// The number of lines that a dump of `len` bytes has.
pub open spec fn line_count(len: int) -> int {
    (len + LINE_BYTES - 1) / (LINE_BYTES as int)
}

/// The bytes of line `k` of a dump of `bytes`.
pub open spec fn line_bytes(bytes: Seq<u8>, k: int) -> Seq<u8> {
    bytes.subrange(
        k * LINE_BYTES,
        if (k + 1) * LINE_BYTES <= bytes.len() {
            (k + 1) * LINE_BYTES
        } else {
            bytes.len() as int
        },
    )
}

/// Appends `c` to `text` with `String::push`.
#[verifier::external_body]
fn push_char(text: &mut String, c: char)
    ensures
        final(text)@ == old(text)@.push(c),
{
    text.push(c)
}

/// The text of a hexadecimal digit.
fn hex_digit_text(d: u8) -> (r: &'static str)
    requires
        d < 16,
    ensures
        r@ == seq![hex_digit(d as nat)],
{
    proof {
        reveal_strlit("0");
        reveal_strlit("1");
        reveal_strlit("2");
        reveal_strlit("3");
        reveal_strlit("4");
        reveal_strlit("5");
        reveal_strlit("6");
        reveal_strlit("7");
        reveal_strlit("8");
        reveal_strlit("9");
        reveal_strlit("a");
        reveal_strlit("b");
        reveal_strlit("c");
        reveal_strlit("d");
        reveal_strlit("e");
        reveal_strlit("f");
    }
    let r = match d {
        0 => "0",
        1 => "1",
        2 => "2",
        3 => "3",
        4 => "4",
        5 => "5",
        6 => "6",
        7 => "7",
        8 => "8",
        9 => "9",
        10 => "a",
        11 => "b",
        12 => "c",
        13 => "d",
        14 => "e",
        _ => "f",
    };
    assert(r@ =~= seq![hex_digit(d as nat)]);
    r
}

/// The character that stands for a byte in a dump.
pub fn glyph_of(b: u8) -> (r: char)
    ensures
        r == glyph(b),
{
    if (9 <= b && b <= 13) || b == 0x20 || b == 0x85 || b == 0xA0 {
        '.'
    } else {
        b as char
    }
}

/// The line of a dump for the bytes of `chunk`.
pub fn line_of(chunk: &[u8]) -> (r: String)
    ensures
        r@ == dump_line(chunk@),
{
    let mut text = String::from_str("|    ");
    let ghost head = text@;
    let len = chunk.len();
    let mut j: usize = 0;
    while j < len
        invariant
            j <= len,
            len == chunk@.len(),
            text@ + hex_part(chunk@, j as int) == head + hex_part(chunk@, 0),
        decreases len - j,
    {
        let ghost before = text@;
        proof {
            reveal_strlit(" ");
        }
        let b = chunk[j];
        text.append(hex_digit_text(b / 16));
        text.append(hex_digit_text(b % 16));
        text.append(" ");
        if j % 4 == 3 || j == len - 1 {
            text.append(" ");
        }
        proof {
            let byte = seq![hex_digit((b / 16) as nat), hex_digit((b % 16) as nat), ' '];
            let gap = if j % 4 == 3 || j == len - 1 {
                seq![' ']
            } else {
                Seq::<char>::empty()
            };
            assert(" "@ =~= seq![' ']);
            assert(text@ =~= before + (byte + gap));
            assert(hex_part(chunk@, j as int) == byte + gap + hex_part(chunk@, j + 1));
            assert(text@ + hex_part(chunk@, j + 1) =~= before + hex_part(chunk@, j as int));
        }
        j += 1;
    }
    assert(text@ =~= head + hex_part(chunk@, 0)) by {
        assert(hex_part(chunk@, len as int) =~= Seq::<char>::empty());
    }
    text.append("    ");
    let ghost middle = text@;
    let mut k: usize = 0;
    while k < len
        invariant
            k <= len,
            len == chunk@.len(),
            text@ == middle + chunk@.take(k as int).map_values(|b: u8| glyph(b)),
        decreases len - k,
    {
        push_char(&mut text, glyph_of(chunk[k]));
        proof {
            assert(chunk@.take(k + 1).map_values(|b: u8| glyph(b)) =~= chunk@.take(
                k as int,
            ).map_values(|b: u8| glyph(b)).push(glyph(chunk@[k as int])));
        }
        k += 1;
    }
    assert(chunk@.take(len as int) =~= chunk@);
    assert(text@ =~= dump_line(chunk@));
    text
}

/// The dump of `payload`: one line for each sixteen bytes and one for the
/// bytes that are left, in order.
pub fn hex_dump(payload: &[u8]) -> (r: Vec<String>)
    ensures
        r@.len() == line_count(payload@.len() as int),
        forall|k: int| 0 <= k < r@.len() ==> (#[trigger] r@[k])@ == dump_line(line_bytes(payload@, k)),
{
    let mut lines: Vec<String> = Vec::new();
    let len = payload.len();
    let mut start: usize = 0;
    while start < len
        invariant
            start <= len,
            len == payload@.len(),
            start % LINE_BYTES == 0,
            lines@.len() == start / LINE_BYTES,
            forall|k: int|
                0 <= k < lines@.len() ==> (#[trigger] lines@[k])@ == dump_line(
                    line_bytes(payload@, k),
                ),
        decreases len - start,
    {
        let end: usize = if len - start >= LINE_BYTES {
            start + LINE_BYTES
        } else {
            len
        };
        let line = line_of(&payload[start..end]);
        proof {
            let k = lines@.len() as int;
            assert(k * LINE_BYTES == start);
            assert(payload@.subrange(start as int, end as int) == line_bytes(payload@, k));
        }
        lines.push(line);
        start = end;
        if start == len {
            assert(lines@.len() == line_count(len as int));
            return lines;
        }
    }
    lines
}

} // verus!
