//! A hexadecimal and ASCII rendering of a run of words.
use vstd::prelude::*;
use vstd::string::StringExecFns;

verus! {

/// The number of words shown on one line.
pub const WORDS_PER_LINE: usize = 4;

/// The upper-case character of a hexadecimal digit.
pub open spec fn hex_digit(d: nat) -> char
    recommends
        d < 16,
{
    if d < 10 {
        (48 + d) as char
    } else {
        (55 + d) as char
    }
}

/// The upper-case hexadecimal form of `n`, filled with leading zeros up to
/// `width` digits; it is longer where `n` needs more digits.
pub open spec fn hex_padded(n: nat, width: nat) -> Seq<char>
    decreases n, width,
{
    if n >= 16 || width > 1 {
        hex_padded(n / 16, if width > 0 {
            (width - 1) as nat
        } else {
            0
        }).push(hex_digit(n % 16))
    } else {
        seq![hex_digit(n % 16)]
    }
}

/// The byte of `word` at place `k`, counted from the highest byte.
pub open spec fn word_byte(word: u32, k: nat) -> u8
    recommends
        k < 4,
{
    ((word as nat / pow256((3 - k) as nat)) % 256) as u8
}

/// 256 to the power `k`, for `k` up to 3.
pub open spec fn pow256(k: nat) -> nat {
    if k == 0 {
        1
    } else if k == 1 {
        0x100
    } else if k == 2 {
        0x1_0000
    } else {
        0x100_0000
    }
}

/// The character a byte is shown as in the ASCII column: itself when it is
/// a space or a visible ASCII character, a dot otherwise.
pub open spec fn dump_char(b: u8) -> char {
    if 0x20 <= b <= 0x7e {
        b as char
    } else {
        '.'
    }
}

/// The hexadecimal column of a line: each word as eight digits and a
/// space.
pub open spec fn hex_column(chunk: Seq<u32>) -> Seq<char>
    decreases chunk.len(),
{
    if chunk.len() == 0 {
        Seq::empty()
    } else {
        hex_column(chunk.drop_last()) + hex_padded(chunk.last() as nat, 8) + " "@
    }
}

/// The filling that stands for `missing` words that a short last line
/// lacks: nine spaces for each.
pub open spec fn padding(missing: nat) -> Seq<char>
    decreases missing,
{
    if missing == 0 {
        Seq::empty()
    } else {
        padding((missing - 1) as nat) + "         "@
    }
}

/// The ASCII column of a line: the four bytes of each word, highest first.
pub open spec fn ascii_column(chunk: Seq<u32>) -> Seq<char>
    decreases chunk.len(),
{
    if chunk.len() == 0 {
        Seq::empty()
    } else {
        ascii_column(chunk.drop_last()) + seq![
            dump_char(word_byte(chunk.last(), 0)),
            dump_char(word_byte(chunk.last(), 1)),
            dump_char(word_byte(chunk.last(), 2)),
            dump_char(word_byte(chunk.last(), 3)),
        ]
    }
}

/// One line of the dump: the byte offset of the line as at least eight
/// hexadecimal digits, a colon and a space, the hexadecimal column filled
/// up to four words, and the ASCII column between bars.
pub open spec fn dump_line(index: nat, chunk: Seq<u32>) -> Seq<char> {
    hex_padded(index * 16, 8) + ": "@ + hex_column(chunk) + padding(
        (WORDS_PER_LINE - chunk.len()) as nat,
    ) + seq!['|'] + ascii_column(chunk) + seq!['|', '\n']
}

/// The first `lines` lines of the dump of `data`.
pub open spec fn dump_lines(data: Seq<u32>, lines: nat) -> Seq<char>
    decreases lines,
{
    if lines == 0 {
        Seq::empty()
    } else {
        let start = (lines - 1) * WORDS_PER_LINE;
        let end = if start + WORDS_PER_LINE <= data.len() {
            start + WORDS_PER_LINE
        } else {
            data.len() as int
        };
        dump_lines(data, (lines - 1) as nat) + dump_line(
            (lines - 1) as nat,
            data.subrange(start, end),
        )
    }
}

/// The dump of `data`: one line for every four words, the last line
/// possibly shorter.
pub open spec fn spec_hexdump(data: Seq<u32>) -> Seq<char> {
    dump_lines(data, ((data.len() + WORDS_PER_LINE - 1) / WORDS_PER_LINE as int) as nat)
}

fn hex_digit_of(d: u8) -> (c: char)
    requires
        d < 16,
    ensures
        c == hex_digit(d as nat),
{
    if d < 10 {
        (48u8 + d) as char
    } else {
        (55u8 + d) as char
    }
}

/// Appends the hexadecimal form of `n` with at least `width` digits.
fn push_hex(out: &mut String, n: u128, width: u32)
    ensures
        final(out)@ == old(out)@ + hex_padded(n as nat, width as nat),
    decreases n, width,
{
    if n >= 16 || width > 1 {
        push_hex(out, n / 16, if width > 0 {
            width - 1
        } else {
            0
        });
    }
    out.push(hex_digit_of((n % 16) as u8));
    assert(final(out)@ =~= old(out)@ + hex_padded(n as nat, width as nat));
}

fn dump_char_of(b: u8) -> (c: char)
    ensures
        c == dump_char(b),
{
    if 0x20 <= b && b <= 0x7e {
        b as char
    } else {
        '.'
    }
}

/// Appends the four ASCII-column characters of a word.
fn push_ascii(out: &mut String, word: u32)
    ensures
        final(out)@ == old(out)@ + seq![
            dump_char(word_byte(word, 0)),
            dump_char(word_byte(word, 1)),
            dump_char(word_byte(word, 2)),
            dump_char(word_byte(word, 3)),
        ],
{
    out.push(dump_char_of((word / 0x100_0000 % 256) as u8));
    out.push(dump_char_of((word / 0x1_0000 % 256) as u8));
    out.push(dump_char_of((word / 0x100 % 256) as u8));
    out.push(dump_char_of((word % 256) as u8));
    assert(final(out)@ =~= old(out)@ + seq![
        dump_char(word_byte(word, 0)),
        dump_char(word_byte(word, 1)),
        dump_char(word_byte(word, 2)),
        dump_char(word_byte(word, 3)),
    ]);
}

/// Appends one line of the dump.
fn push_line(out: &mut String, index: usize, data: &[u32], start: usize, end: usize)
    requires
        start <= end <= data@.len(),
        end - start <= WORDS_PER_LINE,
    ensures
        final(out)@ == old(out)@ + dump_line(index as nat, data@.subrange(start as int, end as int)),
{
    let ghost chunk = data@.subrange(start as int, end as int);
    push_hex(out, index as u128 * 16, 8);
    out.append(": ");
    let ghost head = out@;
    let mut i: usize = start;
    while i < end
        invariant
            start <= i <= end <= data@.len(),
            chunk == data@.subrange(start as int, end as int),
            out@ == head + hex_column(chunk.take(i - start)),
        decreases end - i,
    {
        assert(chunk.take(i + 1 - start).drop_last() =~= chunk.take(i - start));
        push_hex(out, data[i] as u128, 8);
        out.append(" ");
        i += 1;
    }
    assert(chunk.take(end - start) =~= chunk);
    let ghost hexed = out@;
    let missing = WORDS_PER_LINE - (end - start);
    let mut k: usize = 0;
    while k < missing
        invariant
            k <= missing,
            out@ == hexed + padding(k as nat),
        decreases missing - k,
    {
        out.append("         ");
        k += 1;
    }
    out.push('|');
    let ghost barred = out@;
    let mut i: usize = start;
    while i < end
        invariant
            start <= i <= end <= data@.len(),
            chunk == data@.subrange(start as int, end as int),
            out@ == barred + ascii_column(chunk.take(i - start)),
        decreases end - i,
    {
        assert(chunk.take(i + 1 - start).drop_last() =~= chunk.take(i - start));
        push_ascii(out, data[i]);
        i += 1;
    }
    out.push('|');
    out.push('\n');
    assert(out@ =~= old(out)@ + dump_line(index as nat, chunk));
}

/// Renders `data` as lines of four words: the byte offset, the words in
/// hexadecimal, and the bytes of the words as ASCII, with a dot for every
/// byte that is no visible ASCII character.
pub fn hexdump_to_string(data: &[u32]) -> (output: String)
    ensures
        output@ == spec_hexdump(data@),
{
    let mut output = String::new();
    let mut line: usize = 0;
    let mut start: usize = 0;
    while start < data.len()
        invariant
            start <= data@.len(),
            start == line * WORDS_PER_LINE,
            output@ == dump_lines(data@, line as nat),
        decreases data@.len() - start,
    {
        let end = if data.len() - start >= WORDS_PER_LINE {
            start + WORDS_PER_LINE
        } else {
            data.len()
        };
        push_line(&mut output, line, data, start, end);
        if end == data.len() {
            return output;
        }
        line += 1;
        start = end;
    }
    output
}

} // verus!
