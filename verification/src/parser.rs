//! The textual front end: from source text to the token stream.
//!
//! Every parser takes the text and a position and gives the position
//! after what it recognised together with its value, or nothing.
use crate::text::{chars_of, lower, lower_code, same_name};
use crate::tokens::{
    token_views, value_views, Cmd, CmdView, ConstValue, ConstView, DataAddressOffset, DataType, DataValue,
    DataValueView, MetaType, MetaView, OffsetView, Token, TokenView,
};
use vstd::prelude::*;
use vstd::string::StrSliceExecFns;

verus! {

/// A parser found nothing that it recognises at the start of the input.
#[derive(Debug, Clone, Copy, PartialEq, Eq, Structural)]
pub struct ParseError {}

/// The kinds of characters that the grammar takes in runs.
#[derive(Debug, Clone, Copy, PartialEq, Eq, Structural)]
pub enum CharClass {
    /// A space or a tab.
    Space,
    /// A space, a tab, a carriage return or a line feed.
    MultiSpace,
    /// An ASCII decimal digit.
    Digit,
    /// An ASCII hexadecimal digit.
    HexDigit,
    /// `0` or `1`.
    BinDigit,
    /// An ASCII letter or decimal digit.
    AlphaNum,
    /// Anything but a line feed.
    NotNewline,
    /// Anything but a double quote.
    NotQuote,
}

/// Whether the character with the number `c` is of the class.
pub open spec fn in_class(c: u32, class: CharClass) -> bool {
    match class {
        CharClass::Space => c == 32 || c == 9,
        CharClass::MultiSpace => c == 32 || c == 9 || c == 13 || c == 10,
        CharClass::Digit => 48 <= c <= 57,
        CharClass::HexDigit => 48 <= c <= 57 || 65 <= c <= 70 || 97 <= c <= 102,
        CharClass::BinDigit => c == 48 || c == 49,
        CharClass::AlphaNum => 48 <= c <= 57 || 65 <= c <= 90 || 97 <= c <= 122,
        CharClass::NotNewline => c != 10,
        CharClass::NotQuote => c != 34,
    }
}

/// The end of the longest run of characters of the class that starts at
/// `pos`.
pub open spec fn span(s: Seq<char>, pos: int, class: CharClass) -> int
    decreases s.len() - pos,
{
    if 0 <= pos < s.len() && in_class(s[pos] as u32, class) {
        span(s, pos + 1, class)
    } else {
        pos
    }
}

/// The end of the longest run of characters of the class that starts at
/// `pos`, if the run is not empty.
pub open spec fn span1(s: Seq<char>, pos: int, class: CharClass) -> Option<int> {
    if span(s, pos, class) > pos {
        Some(span(s, pos, class))
    } else {
        None
    }
}

/// The position after the character `c`, if it stands at `pos`.
pub open spec fn symbol(s: Seq<char>, pos: int, c: char) -> Option<int> {
    if 0 <= pos < s.len() && s[pos] == c {
        Some(pos + 1)
    } else {
        None
    }
}

/// The position after `word`, if it stands at `pos` in any mix of small
/// and capital ASCII letters.
pub open spec fn keyword(s: Seq<char>, pos: int, word: Seq<char>) -> Option<int> {
    if 0 <= pos && pos + word.len() <= s.len() && same_name(
        s.subrange(pos, pos + word.len()),
        word,
    ) {
        Some(pos + word.len())
    } else {
        None
    }
}

/// The position after `word` and at least one character of white space.
pub open spec fn keyword_space(s: Seq<char>, pos: int, word: Seq<char>) -> Option<int> {
    match keyword(s, pos, word) {
        Some(p) => span1(s, p, CharClass::MultiSpace),
        None => None,
    }
}

/// The first of two results that is one.
pub open spec fn first<T>(a: Option<T>, b: Option<T>) -> Option<T> {
    if a is Some {
        a
    } else {
        b
    }
}

/// The value of a digit in a base up to sixteen.
pub open spec fn digit_value(c: char) -> nat {
    let code = c as u32;
    if 48 <= code <= 57 {
        (code - 48) as nat
    } else if 65 <= code <= 70 {
        (code - 55) as nat
    } else if 97 <= code <= 102 {
        (code - 87) as nat
    } else {
        0
    }
}

/// The number that a run of digits stands for in the base `radix`.
pub open spec fn digits_value(digits: Seq<char>, radix: nat) -> nat
    decreases digits.len(),
{
    if digits.len() == 0 {
        0
    } else {
        digits_value(digits.drop_last(), radix) * radix + digit_value(digits.last())
    }
}

/// The number that the digits from `from` to `to` stand for, if a word can
/// hold it.
pub open spec fn radix_number(s: Seq<char>, from: int, to: int, radix: nat) -> Option<u32> {
    let value = digits_value(s.subrange(from, to), radix);
    if value <= u32::MAX {
        Some(value as u32)
    } else {
        None
    }
}

/// Whether the executable result `r` of a parser that started at `pos` is
/// what the grammar says: the same end and a value with the same content.
pub open spec fn parsed<T: View>(
    r: Option<(usize, T)>,
    expected: Option<(int, T::V)>,
    pos: int,
    len: int,
) -> bool {
    match expected {
        Some((end, value)) => r is Some && r->Some_0.0 == end && r->Some_0.1@ == value && pos
            <= end <= len,
        None => r is None,
    }
}

/// Whether the executable result `r` of a parser without a value that
/// started at `pos` is what the grammar says.
pub open spec fn reached(r: Option<usize>, expected: Option<int>, pos: int, len: int) -> bool {
    match expected {
        Some(end) => r is Some && r->Some_0 == end && pos <= end <= len,
        None => r is None,
    }
}

/// A number read in a longer base is at least the number read in its
/// first digits.
proof fn lemma_digits_grow(s: Seq<char>, from: int, mid: int, to: int, radix: nat)
    requires
        0 <= from <= mid <= to <= s.len(),
        radix >= 1,
    ensures
        digits_value(s.subrange(from, mid), radix) <= digits_value(s.subrange(from, to), radix),
    decreases to - mid,
{
    if mid < to {
        lemma_digits_grow(s, from, mid, to - 1, radix);
        assert(s.subrange(from, to).drop_last() =~= s.subrange(from, to - 1));
        let shorter = digits_value(s.subrange(from, to - 1), radix);
        assert(shorter * radix >= shorter) by (nonlinear_arith)
            requires
                radix >= 1,
                shorter >= 0,
        ;
    }
}

/// A source text together with its characters.
struct Source<'a> {
    text: &'a str,
    chars: Vec<char>,
}

impl<'a> Source<'a> {
    /// The characters of the source.
    spec fn view(&self) -> Seq<char> {
        self.chars@
    }

    /// The text of the source.
    spec fn text(&self) -> &'a str {
        self.text
    }

    /// The validity of a source: the characters are those of the text.
    spec fn wf(&self) -> bool {
        self.chars@ == self.text@
    }

    /// The source of a text.
    fn new(text: &'a str) -> (source: Self)
        ensures
            source.wf(),
            source@ == text@,
            source.text() == text,
    {
        Source { text, chars: chars_of(text) }
    }

    /// The number of characters.
    fn len(&self) -> (n: usize)
        ensures
            n == self@.len(),
    {
        self.chars.len()
    }

    /// The part of the text between two positions.
    fn slice(&self, from: usize, to: usize) -> (part: &'a str)
        requires
            self.wf(),
            from <= to <= self@.len(),
        ensures
            part@ == self@.subrange(from as int, to as int),
    {
        self.text.substring_char(from, to)
    }

    /// The part of the text from a position to the end.
    fn rest(&self, from: usize) -> (part: &'a str)
        requires
            self.wf(),
            from <= self@.len(),
        ensures
            part@ == self@.skip(from as int),
    {
        let part = self.text.substring_char(from, self.chars.len());
        assert(self@.subrange(from as int, self@.len() as int) =~= self@.skip(from as int));
        part
    }

    fn class_of(c: char, class: CharClass) -> (r: bool)
        ensures
            r == in_class(c as u32, class),
    {
        let c = c as u32;
        match class {
            CharClass::Space => c == 32 || c == 9,
            CharClass::MultiSpace => c == 32 || c == 9 || c == 13 || c == 10,
            CharClass::Digit => 48 <= c && c <= 57,
            CharClass::HexDigit => (48 <= c && c <= 57) || (65 <= c && c <= 70) || (97 <= c && c
                <= 102),
            CharClass::BinDigit => c == 48 || c == 49,
            CharClass::AlphaNum => (48 <= c && c <= 57) || (65 <= c && c <= 90) || (97 <= c && c
                <= 122),
            CharClass::NotNewline => c != 10,
            CharClass::NotQuote => c != 34,
        }
    }

    /// The end of the longest run of characters of the class from `pos`.
    fn span(&self, pos: usize, class: CharClass) -> (end: usize)
        requires
            pos <= self@.len(),
        ensures
            end == span(self@, pos as int, class),
            pos <= end <= self@.len(),
    {
        let mut end = pos;
        while end < self.chars.len() && Self::class_of(self.chars[end], class)
            invariant
                pos <= end <= self.chars.len(),
                span(self@, pos as int, class) == span(self@, end as int, class),
            decreases self.chars.len() - end,
        {
            end += 1;
        }
        end
    }

    /// The end of a run of characters of the class from `pos` that is not
    /// empty.
    fn span1(&self, pos: usize, class: CharClass) -> (r: Option<usize>)
        requires
            pos <= self@.len(),
        ensures
            reached(r, span1(self@, pos as int, class), pos as int, self@.len() as int),
            r matches Some(end) ==> pos < end,
    {
        let end = self.span(pos, class);
        if end > pos {
            Some(end)
        } else {
            None
        }
    }

    /// The position after the character `c` at `pos`.
    fn symbol(&self, pos: usize, c: char) -> (r: Option<usize>)
        requires
            pos <= self@.len(),
        ensures
            reached(r, symbol(self@, pos as int, c), pos as int, self@.len() as int),
            r matches Some(end) ==> pos < end,
    {
        if pos < self.chars.len() && self.chars[pos] == c {
            Some(pos + 1)
        } else {
            None
        }
    }

    /// The position after `word` at `pos`, whatever the case of its
    /// letters.
    fn keyword(&self, pos: usize, word: &str) -> (r: Option<usize>)
        requires
            pos <= self@.len(),
        ensures
            reached(r, keyword(self@, pos as int, word@), pos as int, self@.len() as int),
    {
        let letters = chars_of(word);
        if letters.len() > self.chars.len() - pos {
            return None;
        }
        let ghost part = self@.subrange(pos as int, pos + letters.len());
        let mut i: usize = 0;
        while i < letters.len()
            invariant
                i <= letters.len(),
                pos + letters.len() <= self.chars.len(),
                letters@ == word@,
                part == self@.subrange(pos as int, pos + letters.len()),
                forall|j: int| 0 <= j < i ==> lower(part[j]) == lower(letters@[j]),
            decreases letters.len() - i,
        {
            if lower_code(self.chars[pos + i]) != lower_code(letters[i]) {
                assert(lower(part[i as int]) != lower(word@[i as int]));
                return None;
            }
            i += 1;
        }
        Some(pos + letters.len())
    }

    /// The position after `word` and the white space behind it.
    fn keyword_space(&self, pos: usize, word: &str) -> (r: Option<usize>)
        requires
            pos <= self@.len(),
        ensures
            reached(r, keyword_space(self@, pos as int, word@), pos as int, self@.len() as int),
    {
        match self.keyword(pos, word) {
            Some(p) => self.span1(p, CharClass::MultiSpace),
            None => None,
        }
    }

    fn digit_of(c: char) -> (d: u64)
        ensures
            d == digit_value(c),
            d < 16,
    {
        let code = c as u32;
        if 48 <= code && code <= 57 {
            (code - 48) as u64
        } else if 65 <= code && code <= 70 {
            (code - 55) as u64
        } else if 97 <= code && code <= 102 {
            (code - 87) as u64
        } else {
            0
        }
    }

    /// The number that the digits from `from` to `to` stand for in the
    /// base `radix`, if a word can hold it.
    fn radix_number(&self, from: usize, to: usize, radix: u32) -> (r: Option<u32>)
        requires
            from <= to <= self@.len(),
            1 <= radix <= 16,
        ensures
            r == radix_number(self@, from as int, to as int, radix as nat),
    {
        let mut value: u64 = 0;
        let mut i: usize = from;
        assert(self@.subrange(from as int, from as int) =~= Seq::<char>::empty());
        while i < to
            invariant
                from <= i <= to <= self.chars.len(),
                1 <= radix <= 16,
                value == digits_value(self@.subrange(from as int, i as int), radix as nat),
                value <= u32::MAX,
            decreases to - i,
        {
            proof {
                assert(self@.subrange(from as int, i + 1).drop_last() =~= self@.subrange(
                    from as int,
                    i as int,
                ));
                assert(value * radix <= 0xffff_ffff * 16) by (nonlinear_arith)
                    requires
                        value <= 0xffff_ffff,
                        radix <= 16,
                ;
            }
            let next = value * (radix as u64) + Self::digit_of(self.chars[i]);
            if next > 0xffff_ffff {
                proof {
                    lemma_digits_grow(self@, from as int, i + 1, to as int, radix as nat);
                }
                return None;
            }
            value = next;
            i += 1;
        }
        Some(value as u32)
    }
}


/// Whether the executable result `r` of a parser applied to the whole of
/// `input` is what the grammar says: the rest of the input behind what was
/// recognised, and a value with the same content.
pub open spec fn complete<T: View>(
    r: Result<(&str, T), ParseError>,
    input: Seq<char>,
    expected: Option<(int, T::V)>,
) -> bool {
    match expected {
        Some((end, value)) => r is Ok && r->Ok_0.0@ == input.skip(end) && r->Ok_0.1@ == value,
        None => r is Err,
    }
}

/// A comment: a semicolon and everything up to the end of the line.
pub open spec fn spec_comment(s: Seq<char>, pos: int) -> Option<int> {
    match symbol(s, pos, ';') {
        Some(at1) => Some(span(s, at1, CharClass::NotNewline)),
        None => None,
    }
}

/// A number with a prefix: the prefix in any case, then a run of digits
/// of the class that stands for a number a word can hold.
pub open spec fn spec_prefixed(
    s: Seq<char>,
    pos: int,
    prefix: Seq<char>,
    class: CharClass,
    radix: nat,
) -> Option<(int, u32)> {
    match keyword(s, pos, prefix) {
        Some(at1) => match span1(s, at1, class) {
            Some(at2) => match radix_number(s, at1, at2, radix) {
                Some(n) => Some((at2, n)),
                None => None,
            },
            None => None,
        },
        None => None,
    }
}

/// A decimal number: a run of digits that stands for a number a word can
/// hold.
pub open spec fn spec_decimal(s: Seq<char>, pos: int) -> Option<(int, u32)> {
    match span1(s, pos, CharClass::Digit) {
        Some(at1) => match radix_number(s, pos, at1, 10) {
            Some(n) => Some((at1, n)),
            None => None,
        },
        None => None,
    }
}

/// A number: hexadecimal behind `0x`, binary behind `0b`, or else decimal.
pub open spec fn spec_number(s: Seq<char>, pos: int) -> Option<(int, u32)> {
    first(
        spec_prefixed(s, pos, "0x"@, CharClass::HexDigit, 16),
        first(spec_prefixed(s, pos, "0b"@, CharClass::BinDigit, 2), spec_decimal(s, pos)),
    )
}

/// The register of the given name and id.
pub open spec fn spec_reg_named(s: Seq<char>, pos: int, name: Seq<char>, id: u32) -> Option<
    (int, u32),
> {
    match keyword(s, pos, name) {
        Some(at1) => Some((at1, id)),
        None => None,
    }
}

/// A register name, in any case; the value is the register's id: 0 to 7
/// for `r0` to `r7`, 100 for `pc`.
pub open spec fn spec_reg(s: Seq<char>, pos: int) -> Option<(int, u32)> {
    first(
        spec_reg_named(s, pos, "r0"@, 0),
        first(
            spec_reg_named(s, pos, "r1"@, 1),
            first(
                spec_reg_named(s, pos, "r2"@, 2),
                first(
                    spec_reg_named(s, pos, "r3"@, 3),
                    first(
                        spec_reg_named(s, pos, "r4"@, 4),
                        first(
                            spec_reg_named(s, pos, "r5"@, 5),
                            first(
                                spec_reg_named(s, pos, "r6"@, 6),
                                first(
                                    spec_reg_named(s, pos, "r7"@, 7),
                                    spec_reg_named(s, pos, "pc"@, 100),
                                ),
                            ),
                        ),
                    ),
                ),
            ),
        ),
    )
}

/// The push that a reference to the value of a data identifier stands for.
pub open spec fn spec_push_of(v: OffsetView) -> CmdView {
    match v {
        OffsetView::Zero(id) => CmdView::PushIdValueConst(id, 0),
        OffsetView::Const(id, n) => CmdView::PushIdValueConst(id, n),
        OffsetView::Reg(id, r) => CmdView::PushIdValueReg(id, r),
    }
}

/// The move to the register `d` that a reference to the value of a data
/// identifier stands for.
pub open spec fn spec_move_of(d: u32, v: OffsetView) -> CmdView {
    match v {
        OffsetView::Zero(id) => CmdView::MoveIdValueConst(d, id, 0),
        OffsetView::Const(id, n) => CmdView::MoveIdValueConst(d, id, n),
        OffsetView::Reg(id, r) => CmdView::MoveIdValueReg(d, id, r),
    }
}

/// The data values that follow those already read, each behind white
/// space; the position is that behind the last value.
pub open spec fn spec_more_values(s: Seq<char>, pos: int, values: Seq<DataValueView>) -> (
    int,
    Seq<DataValueView>,
)
    decreases s.len() - pos,
{
    match span1(s, pos, CharClass::MultiSpace) {
        Some(at1) => match spec_data_value(s, at1) {
            Some((at2, v)) => if pos < at2 <= s.len() {
                spec_more_values(s, at2, values.push(v))
            } else {
                (pos, values)
            },
            None => (pos, values),
        },
        None => (pos, values),
    }
}

/// A run of data values separated by white space; it may be empty.
pub open spec fn spec_data_values(s: Seq<char>, pos: int) -> (int, Seq<DataValueView>) {
    match spec_data_value(s, pos) {
        Some((at1, v)) => spec_more_values(s, at1, seq![v]),
        None => (pos, Seq::empty()),
    }
}

/// A data definition: an identifier, a width and a run of values, with
/// white space between them and possibly before them.
pub open spec fn spec_data_def(s: Seq<char>, pos: int) -> Option<(int, TokenView)> {
    let at1 = span(s, pos, CharClass::MultiSpace);
    match spec_identifier(s, at1) {
        Some((at2, id)) => match span1(s, at2, CharClass::MultiSpace) {
            Some(at3) => match spec_data_type(s, at3) {
                Some((at4, typ)) => match span1(s, at4, CharClass::MultiSpace) {
                    Some(at5) => Some(
                        (
                            spec_data_values(s, at5).0,
                            TokenView::DataDef(id, typ, spec_data_values(s, at5).1),
                        ),
                    ),
                    None => None,
                },
                None => None,
            },
            None => None,
        },
        None => None,
    }
}

/// A string literal: the characters between two double quotes, none of which is
/// a double quote.
pub open spec fn spec_str(s: Seq<char>, pos: int) -> Option<(int, Seq<char>)> {
    match symbol(s, pos, '"') {
        Some(at1) => {
            let at2 = span(s, at1, CharClass::NotQuote);
            match symbol(s, at2, '"') {
                Some(at3) => Some((at3, s.subrange(at1, at2))),
                None => None,
            }
        },
        None => None,
    }
}

/// A label: a dot and a run of letters and digits; the value is the run.
pub open spec fn spec_label(s: Seq<char>, pos: int) -> Option<(int, Seq<char>)> {
    match symbol(s, pos, '.') {
        Some(at1) => match span1(s, at1, CharClass::AlphaNum) {
            Some(at2) => Some((at2, s.subrange(at1, at2))),
            None => None,
        },
        None => None,
    }
}

/// An address: an ampersand and a number.
pub open spec fn spec_address(s: Seq<char>, pos: int) -> Option<(int, u32)> {
    match symbol(s, pos, '&') {
        Some(at1) => match spec_number(s, at1) {
            Some((at2, n)) => Some((at2, n)),
            None => None,
        },
        None => None,
    }
}

/// A number as an immediate operand.
pub open spec fn spec_const_number(s: Seq<char>, pos: int) -> Option<(int, ConstView)> {
    match spec_number(s, pos) {
        Some((at1, n)) => Some((at1, ConstView::Number(n))),
        None => None,
    }
}

/// A label as an immediate operand.
pub open spec fn spec_const_label(s: Seq<char>, pos: int) -> Option<(int, ConstView)> {
    match spec_label(s, pos) {
        Some((at1, name)) => Some((at1, ConstView::Label(name))),
        None => None,
    }
}

/// An immediate operand: a number or else a label.
pub open spec fn spec_const_value(s: Seq<char>, pos: int) -> Option<(int, ConstView)> {
    first(spec_const_number(s, pos),
    spec_const_label(s, pos))
}

/// The directive `@org` with its number.
pub open spec fn spec_meta_org(s: Seq<char>, pos: int) -> Option<(int, MetaView)> {
    match symbol(s, pos, '@') {
        Some(at1) => match keyword(s, at1, "org"@) {
            Some(at2) => match span1(s, at2, CharClass::MultiSpace) {
                Some(at3) => match spec_number(s, at3) {
                    Some((at4, n)) => Some((at4, MetaView::Org(n))),
                    None => None,
                },
                None => None,
            },
            None => None,
        },
        None => None,
    }
}

/// The directive `@include` with its path.
pub open spec fn spec_meta_include(s: Seq<char>, pos: int) -> Option<(int, MetaView)> {
    match symbol(s, pos, '@') {
        Some(at1) => match keyword(s, at1, "include"@) {
            Some(at2) => match span1(s, at2, CharClass::MultiSpace) {
                Some(at3) => match spec_str(s, at3) {
                    Some((at4, path)) => Some((at4, MetaView::Include(path))),
                    None => None,
                },
                None => None,
            },
            None => None,
        },
        None => None,
    }
}

/// A directive: `@org` or `@include`.
pub open spec fn spec_meta(s: Seq<char>, pos: int) -> Option<(int, MetaView)> {
    first(spec_meta_org(s, pos),
    spec_meta_include(s, pos))
}

/// A section header: a name of letters and digits in square brackets.
pub open spec fn spec_section(s: Seq<char>, pos: int) -> Option<(int, Seq<char>)> {
    match symbol(s, pos, '[') {
        Some(at1) => match span1(s, at1, CharClass::AlphaNum) {
            Some(at2) => match symbol(s, at2, ']') {
                Some(at3) => Some((at3, s.subrange(at1, at2))),
                None => None,
            },
            None => None,
        },
        None => None,
    }
}

/// The width `b`.
pub open spec fn spec_type_byte(s: Seq<char>, pos: int) -> Option<(int, DataType)> {
    match keyword(s, pos, "b"@) {
        Some(at1) => Some((at1, DataType::Byte)),
        None => None,
    }
}

/// The width `w`.
pub open spec fn spec_type_word(s: Seq<char>, pos: int) -> Option<(int, DataType)> {
    match keyword(s, pos, "w"@) {
        Some(at1) => Some((at1, DataType::Word)),
        None => None,
    }
}

/// The width `dw`.
pub open spec fn spec_type_double(s: Seq<char>, pos: int) -> Option<(int, DataType)> {
    match keyword(s, pos, "dw"@) {
        Some(at1) => Some((at1, DataType::DoubleWord)),
        None => None,
    }
}

/// The width of a data definition: `b`, `w` or `dw`.
pub open spec fn spec_data_type(s: Seq<char>, pos: int) -> Option<(int, DataType)> {
    first(spec_type_byte(s, pos),
    first(spec_type_word(s, pos),
    spec_type_double(s, pos)))
}

/// A number as a data value.
pub open spec fn spec_value_number(s: Seq<char>, pos: int) -> Option<(int, DataValueView)> {
    match spec_number(s, pos) {
        Some((at1, n)) => Some((at1, DataValueView::Number(n))),
        None => None,
    }
}

/// A string as a data value.
pub open spec fn spec_value_text(s: Seq<char>, pos: int) -> Option<(int, DataValueView)> {
    match spec_str(s, pos) {
        Some((at1, text)) => Some((at1, DataValueView::Text(text))),
        None => None,
    }
}

/// A data value: a number or else a string.
pub open spec fn spec_data_value(s: Seq<char>, pos: int) -> Option<(int, DataValueView)> {
    first(spec_value_number(s, pos),
    spec_value_text(s, pos))
}

/// A data identifier: a dollar sign and a run of letters and digits; the value
/// is the run.
pub open spec fn spec_identifier(s: Seq<char>, pos: int) -> Option<(int, Seq<char>)> {
    match symbol(s, pos, '$') {
        Some(at1) => match span1(s, at1, CharClass::AlphaNum) {
            Some(at2) => Some((at2, s.subrange(at1, at2))),
            None => None,
        },
        None => None,
    }
}

/// A data identifier in square brackets, as a push of its address.
pub open spec fn spec_id_address(s: Seq<char>, pos: int) -> Option<(int, CmdView)> {
    match symbol(s, pos, '[') {
        Some(at1) => match spec_identifier(s, at1) {
            Some((at2, id)) => match symbol(s, at2, ']') {
                Some(at3) => Some((at3, CmdView::PushIdAddress(id))),
                None => None,
            },
            None => None,
        },
        None => None,
    }
}

/// A data identifier plus a number.
pub open spec fn spec_id_offset_const(s: Seq<char>, pos: int) -> Option<(int, OffsetView)> {
    {
        let at1 = span(s, pos, CharClass::MultiSpace);
        match spec_identifier(s, at1) {
            Some((at2, id)) => {
                let at3 = span(s, at2, CharClass::MultiSpace);
                match symbol(s, at3, '+') {
                    Some(at4) => {
                        let at5 = span(s, at4, CharClass::MultiSpace);
                        match spec_number(s, at5) {
                            Some((at6, n)) => Some((at6, OffsetView::Const(id, n))),
                            None => None,
                        }
                    },
                    None => None,
                }
            },
            None => None,
        }
    }
}

/// A data identifier alone.
pub open spec fn spec_id_offset_zero(s: Seq<char>, pos: int) -> Option<(int, OffsetView)> {
    {
        let at1 = span(s, pos, CharClass::MultiSpace);
        match spec_identifier(s, at1) {
            Some((at2, id)) => Some((at2, OffsetView::Zero(id))),
            None => None,
        }
    }
}

/// A data identifier plus a register.
pub open spec fn spec_id_offset_reg(s: Seq<char>, pos: int) -> Option<(int, OffsetView)> {
    {
        let at1 = span(s, pos, CharClass::MultiSpace);
        match spec_identifier(s, at1) {
            Some((at2, id)) => {
                let at3 = span(s, at2, CharClass::MultiSpace);
                match symbol(s, at3, '+') {
                    Some(at4) => {
                        let at5 = span(s, at4, CharClass::MultiSpace);
                        match spec_reg(s, at5) {
                            Some((at6, r)) => {
                                let at7 = span(s, at6, CharClass::MultiSpace);
                                Some((at7, OffsetView::Reg(id, r)))
                            },
                            None => None,
                        }
                    },
                    None => None,
                }
            },
            None => None,
        }
    }
}

/// A data identifier with a register, with a number, or else alone.
pub open spec fn spec_id_offset(s: Seq<char>, pos: int) -> Option<(int, OffsetView)> {
    first(spec_id_offset_reg(s, pos),
    first(spec_id_offset_const(s, pos),
    spec_id_offset_zero(s, pos)))
}

/// A reference to the value of a data identifier: the identifier, possibly with
/// an offset, in square brackets.
pub open spec fn spec_id_address_with_offset(s: Seq<char>, pos: int) -> Option<(int, OffsetView)> {
    match symbol(s, pos, '[') {
        Some(at1) => match spec_id_offset(s, at1) {
            Some((at2, v)) => match symbol(s, at2, ']') {
                Some(at3) => Some((at3, v)),
                None => None,
            },
            None => None,
        },
        None => None,
    }
}

/// A register id as a number.
pub open spec fn spec_noc_reg(s: Seq<char>, pos: int) -> Option<(int, ConstView)> {
    match spec_reg(s, pos) {
        Some((at1, r)) => Some((at1, ConstView::Number(r))),
        None => None,
    }
}

/// An address as a number.
pub open spec fn spec_noc_address(s: Seq<char>, pos: int) -> Option<(int, ConstView)> {
    match spec_address(s, pos) {
        Some((at1, a)) => Some((at1, ConstView::Number(a))),
        None => None,
    }
}

/// A register id, an address, or else an immediate operand, each as an
/// immediate operand.
pub open spec fn spec_number_or_const(s: Seq<char>, pos: int) -> Option<(int, ConstView)> {
    first(spec_noc_reg(s, pos),
    first(spec_noc_address(s, pos),
    spec_const_value(s, pos)))
}

/// `move` from a register to a register.
pub open spec fn spec_move_reg(s: Seq<char>, pos: int) -> Option<(int, CmdView)> {
    match keyword_space(s, pos, "move"@) {
        Some(at1) => match spec_reg(s, at1) {
            Some((at2, d)) => match span1(s, at2, CharClass::MultiSpace) {
                Some(at3) => match spec_reg(s, at3) {
                    Some((at4, r)) => Some((at4, CmdView::MoveReg(d, r))),
                    None => None,
                },
                None => None,
            },
            None => None,
        },
        None => None,
    }
}

/// `move` from an address to a register.
pub open spec fn spec_move_addr(s: Seq<char>, pos: int) -> Option<(int, CmdView)> {
    match keyword_space(s, pos, "move"@) {
        Some(at1) => match spec_reg(s, at1) {
            Some((at2, d)) => match span1(s, at2, CharClass::MultiSpace) {
                Some(at3) => match spec_address(s, at3) {
                    Some((at4, a)) => Some((at4, CmdView::MoveAddr(d, a))),
                    None => None,
                },
                None => None,
            },
            None => None,
        },
        None => None,
    }
}

/// `move` of an immediate operand to a register.
pub open spec fn spec_move_const(s: Seq<char>, pos: int) -> Option<(int, CmdView)> {
    match keyword_space(s, pos, "move"@) {
        Some(at1) => match spec_reg(s, at1) {
            Some((at2, d)) => match span1(s, at2, CharClass::MultiSpace) {
                Some(at3) => match spec_const_value(s, at3) {
                    Some((at4, c)) => Some((at4, CmdView::MoveConst(d, c))),
                    None => None,
                },
                None => None,
            },
            None => None,
        },
        None => None,
    }
}

/// `move` to a register from a register, from an address, or else of an
/// immediate operand.
pub open spec fn spec_move(s: Seq<char>, pos: int) -> Option<(int, CmdView)> {
    first(spec_move_reg(s, pos),
    first(spec_move_addr(s, pos),
    spec_move_const(s, pos)))
}

/// `store` of a register.
pub open spec fn spec_store_reg(s: Seq<char>, pos: int) -> Option<(int, CmdView)> {
    match keyword_space(s, pos, "store"@) {
        Some(at1) => match spec_number(s, at1) {
            Some((at2, d)) => match span1(s, at2, CharClass::MultiSpace) {
                Some(at3) => match spec_reg(s, at3) {
                    Some((at4, r)) => Some((at4, CmdView::StoreReg(d, r))),
                    None => None,
                },
                None => None,
            },
            None => None,
        },
        None => None,
    }
}

/// `store` of an immediate operand.
pub open spec fn spec_store_const(s: Seq<char>, pos: int) -> Option<(int, CmdView)> {
    match keyword_space(s, pos, "store"@) {
        Some(at1) => match spec_number(s, at1) {
            Some((at2, d)) => match span1(s, at2, CharClass::MultiSpace) {
                Some(at3) => match spec_number_or_const(s, at3) {
                    Some((at4, c)) => Some((at4, CmdView::StoreConst(d, c))),
                    None => None,
                },
                None => None,
            },
            None => None,
        },
        None => None,
    }
}

/// `store` of a register or else of an immediate operand.
pub open spec fn spec_store(s: Seq<char>, pos: int) -> Option<(int, CmdView)> {
    first(spec_store_reg(s, pos),
    spec_store_const(s, pos))
}

/// `push` with an immediate operand.
pub open spec fn spec_push_const(s: Seq<char>, pos: int) -> Option<(int, CmdView)> {
    match keyword_space(s, pos, "push"@) {
        Some(at1) => match spec_const_value(s, at1) {
            Some((at2, v)) => Some((at2, CmdView::PushConst(v))),
            None => None,
        },
        None => None,
    }
}

/// `push` with a register.
pub open spec fn spec_push_reg(s: Seq<char>, pos: int) -> Option<(int, CmdView)> {
    match keyword_space(s, pos, "push"@) {
        Some(at1) => match spec_reg(s, at1) {
            Some((at2, v)) => Some((at2, CmdView::PushReg(v))),
            None => None,
        },
        None => None,
    }
}

/// `push` with an address.
pub open spec fn spec_push_address(s: Seq<char>, pos: int) -> Option<(int, CmdView)> {
    match keyword_space(s, pos, "push"@) {
        Some(at1) => match spec_address(s, at1) {
            Some((at2, v)) => Some((at2, CmdView::PushAddr(v))),
            None => None,
        },
        None => None,
    }
}

/// `pop` with a register.
pub open spec fn spec_pop_reg(s: Seq<char>, pos: int) -> Option<(int, CmdView)> {
    match keyword_space(s, pos, "pop"@) {
        Some(at1) => match spec_reg(s, at1) {
            Some((at2, v)) => Some((at2, CmdView::PopReg(v))),
            None => None,
        },
        None => None,
    }
}

/// `pop` with an address.
pub open spec fn spec_pop_address(s: Seq<char>, pos: int) -> Option<(int, CmdView)> {
    match keyword_space(s, pos, "pop"@) {
        Some(at1) => match spec_address(s, at1) {
            Some((at2, v)) => Some((at2, CmdView::PopAddr(v))),
            None => None,
        },
        None => None,
    }
}

/// `dup` with a count.
pub open spec fn spec_dup_const(s: Seq<char>, pos: int) -> Option<(int, CmdView)> {
    match keyword_space(s, pos, "dup"@) {
        Some(at1) => match spec_number(s, at1) {
            Some((at2, v)) => Some((at2, CmdView::DupConst(v))),
            None => None,
        },
        None => None,
    }
}

/// `dup` with a register that holds the count.
pub open spec fn spec_dup_reg(s: Seq<char>, pos: int) -> Option<(int, CmdView)> {
    match keyword_space(s, pos, "dup"@) {
        Some(at1) => match spec_reg(s, at1) {
            Some((at2, v)) => Some((at2, CmdView::DupReg(v))),
            None => None,
        },
        None => None,
    }
}

/// The command `dup`.
pub open spec fn spec_dup(s: Seq<char>, pos: int) -> Option<(int, CmdView)> {
    match keyword(s, pos, "dup"@) {
        Some(at1) => Some((at1, CmdView::Dup)),
        None => None,
    }
}

/// `shr` with a number of bits.
pub open spec fn spec_shr_const(s: Seq<char>, pos: int) -> Option<(int, CmdView)> {
    match keyword_space(s, pos, "shr"@) {
        Some(at1) => match spec_number(s, at1) {
            Some((at2, v)) => Some((at2, CmdView::ShrConst(v))),
            None => None,
        },
        None => None,
    }
}

/// `shr` with a register that holds the number of bits.
pub open spec fn spec_shr_reg(s: Seq<char>, pos: int) -> Option<(int, CmdView)> {
    match keyword_space(s, pos, "shr"@) {
        Some(at1) => match spec_reg(s, at1) {
            Some((at2, v)) => Some((at2, CmdView::ShrReg(v))),
            None => None,
        },
        None => None,
    }
}

/// `shl` with a number of bits.
pub open spec fn spec_shl_const(s: Seq<char>, pos: int) -> Option<(int, CmdView)> {
    match keyword_space(s, pos, "shl"@) {
        Some(at1) => match spec_number(s, at1) {
            Some((at2, v)) => Some((at2, CmdView::ShlConst(v))),
            None => None,
        },
        None => None,
    }
}

/// `shl` with a register that holds the number of bits.
pub open spec fn spec_shl_reg(s: Seq<char>, pos: int) -> Option<(int, CmdView)> {
    match keyword_space(s, pos, "shl"@) {
        Some(at1) => match spec_reg(s, at1) {
            Some((at2, v)) => Some((at2, CmdView::ShlReg(v))),
            None => None,
        },
        None => None,
    }
}

/// `call` with an immediate operand.
pub open spec fn spec_call_const(s: Seq<char>, pos: int) -> Option<(int, CmdView)> {
    match keyword_space(s, pos, "call"@) {
        Some(at1) => match spec_const_value(s, at1) {
            Some((at2, v)) => Some((at2, CmdView::CallConst(v))),
            None => None,
        },
        None => None,
    }
}

/// `call` with a register.
pub open spec fn spec_call_reg(s: Seq<char>, pos: int) -> Option<(int, CmdView)> {
    match keyword_space(s, pos, "call"@) {
        Some(at1) => match spec_reg(s, at1) {
            Some((at2, v)) => Some((at2, CmdView::CallReg(v))),
            None => None,
        },
        None => None,
    }
}

/// `call` with an address.
pub open spec fn spec_call_address(s: Seq<char>, pos: int) -> Option<(int, CmdView)> {
    match keyword_space(s, pos, "call"@) {
        Some(at1) => match spec_address(s, at1) {
            Some((at2, v)) => Some((at2, CmdView::CallAddr(v))),
            None => None,
        },
        None => None,
    }
}

/// `safecall` with an immediate operand.
pub open spec fn spec_safecall_const(s: Seq<char>, pos: int) -> Option<(int, CmdView)> {
    match keyword_space(s, pos, "safecall"@) {
        Some(at1) => match spec_const_value(s, at1) {
            Some((at2, v)) => Some((at2, CmdView::SafeCallConst(v))),
            None => None,
        },
        None => None,
    }
}

/// `safecall` with a register.
pub open spec fn spec_safecall_reg(s: Seq<char>, pos: int) -> Option<(int, CmdView)> {
    match keyword_space(s, pos, "safecall"@) {
        Some(at1) => match spec_reg(s, at1) {
            Some((at2, v)) => Some((at2, CmdView::SafeCallReg(v))),
            None => None,
        },
        None => None,
    }
}

/// `safecall` with an address.
pub open spec fn spec_safecall_address(s: Seq<char>, pos: int) -> Option<(int, CmdView)> {
    match keyword_space(s, pos, "safecall"@) {
        Some(at1) => match spec_address(s, at1) {
            Some((at2, v)) => Some((at2, CmdView::SafeCallAddr(v))),
            None => None,
        },
        None => None,
    }
}

/// The command `add`.
pub open spec fn spec_add(s: Seq<char>, pos: int) -> Option<(int, CmdView)> {
    match keyword(s, pos, "add"@) {
        Some(at1) => Some((at1, CmdView::Add)),
        None => None,
    }
}

/// The command `sub`.
pub open spec fn spec_sub(s: Seq<char>, pos: int) -> Option<(int, CmdView)> {
    match keyword(s, pos, "sub"@) {
        Some(at1) => Some((at1, CmdView::Sub)),
        None => None,
    }
}

/// The command `swap`.
pub open spec fn spec_swap(s: Seq<char>, pos: int) -> Option<(int, CmdView)> {
    match keyword(s, pos, "swap"@) {
        Some(at1) => Some((at1, CmdView::Swap)),
        None => None,
    }
}

/// The command `and`.
pub open spec fn spec_and(s: Seq<char>, pos: int) -> Option<(int, CmdView)> {
    match keyword(s, pos, "and"@) {
        Some(at1) => Some((at1, CmdView::And)),
        None => None,
    }
}

/// The first group of commands, each tried in turn.
pub open spec fn spec_command_first(s: Seq<char>, pos: int) -> Option<(int, CmdView)> {
    first(spec_move(s, pos),
    first(spec_store(s, pos),
    first(spec_push_const(s, pos),
    first(spec_push_reg(s, pos),
    first(spec_push_address(s, pos),
    first(spec_pop_reg(s, pos),
    first(spec_pop_address(s, pos),
    first(spec_dup_const(s, pos),
    first(spec_dup_reg(s, pos),
    first(spec_dup(s, pos),
    first(spec_shr_const(s, pos),
    first(spec_shr_reg(s, pos),
    first(spec_shl_const(s, pos),
    first(spec_shl_reg(s, pos),
    first(spec_call_const(s, pos),
    first(spec_call_reg(s, pos),
    first(spec_call_address(s, pos),
    first(spec_safecall_const(s, pos),
    first(spec_safecall_reg(s, pos),
    first(spec_safecall_address(s, pos),
    first(spec_add(s, pos),
    first(spec_sub(s, pos),
    first(spec_swap(s, pos),
    spec_and(s, pos))))))))))))))))))))))))
}

/// `push` of the address of a data identifier.
pub open spec fn spec_push_id_address(s: Seq<char>, pos: int) -> Option<(int, CmdView)> {
    match keyword_space(s, pos, "push"@) {
        Some(at1) => match spec_identifier(s, at1) {
            Some((at2, id)) => Some((at2, CmdView::PushIdAddress(id))),
            None => None,
        },
        None => None,
    }
}

/// `push` of the value of a data identifier.
pub open spec fn spec_push_id_value(s: Seq<char>, pos: int) -> Option<(int, CmdView)> {
    match keyword_space(s, pos, "push"@) {
        Some(at1) => match spec_id_address_with_offset(s, at1) {
            Some((at2, v)) => Some((at2, spec_push_of(v))),
            None => None,
        },
        None => None,
    }
}

/// `move` of the address of a data identifier to a register.
pub open spec fn spec_move_id_address(s: Seq<char>, pos: int) -> Option<(int, CmdView)> {
    match keyword_space(s, pos, "move"@) {
        Some(at1) => match spec_reg(s, at1) {
            Some((at2, d)) => match span1(s, at2, CharClass::MultiSpace) {
                Some(at3) => match spec_identifier(s, at3) {
                    Some((at4, id)) => Some((at4, CmdView::MoveIdAddress(d, id))),
                    None => None,
                },
                None => None,
            },
            None => None,
        },
        None => None,
    }
}

/// `move` of the value of a data identifier to a register.
pub open spec fn spec_move_id_value(s: Seq<char>, pos: int) -> Option<(int, CmdView)> {
    match keyword_space(s, pos, "move"@) {
        Some(at1) => match spec_reg(s, at1) {
            Some((at2, d)) => match span1(s, at2, CharClass::MultiSpace) {
                Some(at3) => match spec_id_address_with_offset(s, at3) {
                    Some((at4, v)) => Some((at4, spec_move_of(d, v))),
                    None => None,
                },
                None => None,
            },
            None => None,
        },
        None => None,
    }
}

/// `inc` with a register.
pub open spec fn spec_inc(s: Seq<char>, pos: int) -> Option<(int, CmdView)> {
    match keyword_space(s, pos, "inc"@) {
        Some(at1) => match spec_reg(s, at1) {
            Some((at2, v)) => Some((at2, CmdView::Inc(v))),
            None => None,
        },
        None => None,
    }
}

/// `dec` with a register.
pub open spec fn spec_dec(s: Seq<char>, pos: int) -> Option<(int, CmdView)> {
    match keyword_space(s, pos, "dec"@) {
        Some(at1) => match spec_reg(s, at1) {
            Some((at2, v)) => Some((at2, CmdView::Dec(v))),
            None => None,
        },
        None => None,
    }
}

/// `int` with a module and a function.
pub open spec fn spec_int(s: Seq<char>, pos: int) -> Option<(int, CmdView)> {
    match keyword_space(s, pos, "int"@) {
        Some(at1) => match spec_number(s, at1) {
            Some((at2, m)) => match span1(s, at2, CharClass::MultiSpace) {
                Some(at3) => match spec_number(s, at3) {
                    Some((at4, f)) => Some((at4, CmdView::Int(m, f))),
                    None => None,
                },
                None => None,
            },
            None => None,
        },
        None => None,
    }
}

/// The command `drop`.
pub open spec fn spec_drop(s: Seq<char>, pos: int) -> Option<(int, CmdView)> {
    match keyword(s, pos, "drop"@) {
        Some(at1) => Some((at1, CmdView::Drop)),
        None => None,
    }
}

/// The command `or`.
pub open spec fn spec_or(s: Seq<char>, pos: int) -> Option<(int, CmdView)> {
    match keyword(s, pos, "or"@) {
        Some(at1) => Some((at1, CmdView::Or)),
        None => None,
    }
}

/// The command `xor`.
pub open spec fn spec_xor(s: Seq<char>, pos: int) -> Option<(int, CmdView)> {
    match keyword(s, pos, "xor"@) {
        Some(at1) => Some((at1, CmdView::Xor)),
        None => None,
    }
}

/// The command `not`.
pub open spec fn spec_not(s: Seq<char>, pos: int) -> Option<(int, CmdView)> {
    match keyword(s, pos, "not"@) {
        Some(at1) => Some((at1, CmdView::Not)),
        None => None,
    }
}

/// `jmp` with the label it goes to.
pub open spec fn spec_jmp(s: Seq<char>, pos: int) -> Option<(int, CmdView)> {
    match keyword_space(s, pos, "jmp"@) {
        Some(at1) => match spec_label(s, at1) {
            Some((at2, target)) => Some((at2, CmdView::Jmp(target))),
            None => None,
        },
        None => None,
    }
}

/// `jnz` with the label it goes to.
pub open spec fn spec_jnz(s: Seq<char>, pos: int) -> Option<(int, CmdView)> {
    match keyword_space(s, pos, "jnz"@) {
        Some(at1) => match spec_label(s, at1) {
            Some((at2, target)) => Some((at2, CmdView::Jnz(target))),
            None => None,
        },
        None => None,
    }
}

/// `jz` with the label it goes to.
pub open spec fn spec_jz(s: Seq<char>, pos: int) -> Option<(int, CmdView)> {
    match keyword_space(s, pos, "jz"@) {
        Some(at1) => match spec_label(s, at1) {
            Some((at2, target)) => Some((at2, CmdView::Jz(target))),
            None => None,
        },
        None => None,
    }
}

/// `jg` with the label it goes to.
pub open spec fn spec_jg(s: Seq<char>, pos: int) -> Option<(int, CmdView)> {
    match keyword_space(s, pos, "jg"@) {
        Some(at1) => match spec_label(s, at1) {
            Some((at2, target)) => Some((at2, CmdView::Jg(target))),
            None => None,
        },
        None => None,
    }
}

/// `jge` with the label it goes to.
pub open spec fn spec_jge(s: Seq<char>, pos: int) -> Option<(int, CmdView)> {
    match keyword_space(s, pos, "jge"@) {
        Some(at1) => match spec_label(s, at1) {
            Some((at2, target)) => Some((at2, CmdView::Jge(target))),
            None => None,
        },
        None => None,
    }
}

/// `jl` with the label it goes to.
pub open spec fn spec_jl(s: Seq<char>, pos: int) -> Option<(int, CmdView)> {
    match keyword_space(s, pos, "jl"@) {
        Some(at1) => match spec_label(s, at1) {
            Some((at2, target)) => Some((at2, CmdView::Jl(target))),
            None => None,
        },
        None => None,
    }
}

/// `jle` with the label it goes to.
pub open spec fn spec_jle(s: Seq<char>, pos: int) -> Option<(int, CmdView)> {
    match keyword_space(s, pos, "jle"@) {
        Some(at1) => match spec_label(s, at1) {
            Some((at2, target)) => Some((at2, CmdView::Jle(target))),
            None => None,
        },
        None => None,
    }
}

/// The command `ret`.
pub open spec fn spec_ret(s: Seq<char>, pos: int) -> Option<(int, CmdView)> {
    match keyword(s, pos, "ret"@) {
        Some(at1) => Some((at1, CmdView::Ret)),
        None => None,
    }
}

/// The command `term`.
pub open spec fn spec_term(s: Seq<char>, pos: int) -> Option<(int, CmdView)> {
    match keyword(s, pos, "term"@) {
        Some(at1) => Some((at1, CmdView::Term)),
        None => None,
    }
}

/// The command `mul`.
pub open spec fn spec_mul(s: Seq<char>, pos: int) -> Option<(int, CmdView)> {
    match keyword(s, pos, "mul"@) {
        Some(at1) => Some((at1, CmdView::Mul)),
        None => None,
    }
}

/// The second group of commands, each tried in turn.
pub open spec fn spec_command_second(s: Seq<char>, pos: int) -> Option<(int, CmdView)> {
    first(spec_push_id_address(s, pos),
    first(spec_push_id_value(s, pos),
    first(spec_move_id_address(s, pos),
    first(spec_move_id_value(s, pos),
    first(spec_inc(s, pos),
    first(spec_dec(s, pos),
    first(spec_int(s, pos),
    first(spec_drop(s, pos),
    first(spec_or(s, pos),
    first(spec_xor(s, pos),
    first(spec_not(s, pos),
    first(spec_jmp(s, pos),
    first(spec_jnz(s, pos),
    first(spec_jz(s, pos),
    first(spec_jg(s, pos),
    first(spec_jge(s, pos),
    first(spec_jl(s, pos),
    first(spec_jle(s, pos),
    first(spec_ret(s, pos),
    first(spec_term(s, pos),
    spec_mul(s, pos)))))))))))))))))))))
}

/// The command `div`.
pub open spec fn spec_div(s: Seq<char>, pos: int) -> Option<(int, CmdView)> {
    match keyword(s, pos, "div"@) {
        Some(at1) => Some((at1, CmdView::Div)),
        None => None,
    }
}

/// `move` to a register from the address that a register holds.
pub open spec fn spec_move_addr_reg(s: Seq<char>, pos: int) -> Option<(int, CmdView)> {
    match keyword_space(s, pos, "move"@) {
        Some(at1) => match spec_reg(s, at1) {
            Some((at2, d)) => match span1(s, at2, CharClass::MultiSpace) {
                Some(at3) => match symbol(s, at3, '&') {
                    Some(at4) => match spec_reg(s, at4) {
                        Some((at5, r)) => Some((at5, CmdView::MoveAddrReg(d, r))),
                        None => None,
                    },
                    None => None,
                },
                None => None,
            },
            None => None,
        },
        None => None,
    }
}

/// The last group of commands.
pub open spec fn spec_command_third(s: Seq<char>, pos: int) -> Option<(int, CmdView)> {
    first(spec_div(s, pos),
    spec_move_addr_reg(s, pos))
}

/// A command: the first of the commands, in their fixed order, that the text at
/// the position spells.
pub open spec fn spec_command(s: Seq<char>, pos: int) -> Option<(int, CmdView)> {
    first(spec_command_first(s, pos),
    first(spec_command_second(s, pos),
    spec_command_third(s, pos)))
}

/// A label as a token.
pub open spec fn spec_token_label(s: Seq<char>, pos: int) -> Option<(int, TokenView)> {
    match spec_label(s, pos) {
        Some((at1, name)) => Some((at1, TokenView::Label(name))),
        None => None,
    }
}

/// A directive as a token.
pub open spec fn spec_token_meta(s: Seq<char>, pos: int) -> Option<(int, TokenView)> {
    match spec_meta(s, pos) {
        Some((at1, m)) => Some((at1, TokenView::Meta(m))),
        None => None,
    }
}

/// A command as a token.
pub open spec fn spec_token_command(s: Seq<char>, pos: int) -> Option<(int, TokenView)> {
    match spec_command(s, pos) {
        Some((at1, c)) => Some((at1, TokenView::Command(c))),
        None => None,
    }
}

/// A section header as a token.
pub open spec fn spec_token_section(s: Seq<char>, pos: int) -> Option<(int, TokenView)> {
    match spec_section(s, pos) {
        Some((at1, name)) => Some((at1, TokenView::Section(name))),
        None => None,
    }
}

/// A token: a label, a directive, a command, a section header, or else a data
/// definition.
pub open spec fn spec_token(s: Seq<char>, pos: int) -> Option<(int, TokenView)> {
    first(spec_token_label(s, pos),
    first(spec_token_meta(s, pos),
    first(spec_token_command(s, pos),
    first(spec_token_section(s, pos),
    spec_data_def(s, pos)))))
}

/// The position behind a comment that follows spaces, or `pos` where
/// there is none.
pub open spec fn spec_trailing_comment(s: Seq<char>, pos: int) -> int {
    match spec_comment(s, span(s, pos, CharClass::Space)) {
        Some(end) => end,
        None => pos,
    }
}

/// One line: spaces, then a token with an optional comment and spaces
/// behind it, or a comment alone, or nothing.
pub open spec fn spec_line(s: Seq<char>, pos: int) -> (int, Option<TokenView>) {
    let at1 = span(s, pos, CharClass::Space);
    match spec_token(s, at1) {
        Some((at2, token)) => (
            span(s, spec_trailing_comment(s, at2), CharClass::Space),
            Some(token),
        ),
        None => match spec_comment(s, at1) {
            Some(end) => (end, None),
            None => (at1, None),
        },
    }
}

/// The end of a line: a line feed, or a carriage return and a line feed.
pub open spec fn spec_line_ending(s: Seq<char>, pos: int) -> Option<int> {
    match symbol(s, pos, '\n') {
        Some(end) => Some(end),
        None => match symbol(s, pos, '\r') {
            Some(at1) => symbol(s, at1, '\n'),
            None => None,
        },
    }
}

/// The tokens with the token of a line added, if the line has one.
pub open spec fn with_token(tokens: Seq<TokenView>, token: Option<TokenView>) -> Seq<TokenView> {
    match token {
        Some(token) => tokens.push(token),
        None => tokens,
    }
}

/// The lines that follow those already read, each behind the end of the
/// line before it; the position is that behind the last line.
pub open spec fn spec_more_lines(s: Seq<char>, pos: int, tokens: Seq<TokenView>) -> (
    int,
    Seq<TokenView>,
)
    decreases s.len() - pos,
{
    match spec_line_ending(s, pos) {
        Some(at1) => if pos < spec_line(s, at1).0 <= s.len() {
            spec_more_lines(s, spec_line(s, at1).0, with_token(tokens, spec_line(s, at1).1))
        } else {
            (pos, tokens)
        },
        None => (pos, tokens),
    }
}

/// A program: lines separated by line ends. The tokens are those of the
/// lines in order; reading stops, without an error, in front of the first
/// text that is neither a line nor a line end.
pub open spec fn spec_program(s: Seq<char>, pos: int) -> (int, Seq<TokenView>) {
    spec_more_lines(s, spec_line(s, pos).0, with_token(Seq::empty(), spec_line(s, pos).1))
}

impl<'a> Source<'a> {
    /// A comment: a semicolon and everything up to the end of the line.
    fn parse_comment(&self, pos: usize) -> (r: Option<usize>)
        requires
            self.wf(),
            pos <= self@.len(),
        ensures
            reached(r, spec_comment(self@, pos as int), pos as int, self@.len() as int),
    {
        let at1 = self.symbol(pos, ';')?;
        Some(self.span(at1, CharClass::NotNewline))
    }

    /// A number with a prefix.
    fn parse_prefixed(&self, pos: usize, prefix: &str, class: CharClass, radix: u32) -> (r: Option<
        (usize, u32),
    >)
        requires
            self.wf(),
            pos <= self@.len(),
            1 <= radix <= 16,
        ensures
            parsed(
                r,
                spec_prefixed(self@, pos as int, prefix@, class, radix as nat),
                pos as int,
                self@.len() as int,
            ),
    {
        let at1 = self.keyword(pos, prefix)?;
        let at2 = self.span1(at1, class)?;
        let n = self.radix_number(at1, at2, radix)?;
        Some((at2, n))
    }

    /// A decimal number.
    fn parse_decimal(&self, pos: usize) -> (r: Option<(usize, u32)>)
        requires
            self.wf(),
            pos <= self@.len(),
        ensures
            parsed(r, spec_decimal(self@, pos as int), pos as int, self@.len() as int),
    {
        let at1 = self.span1(pos, CharClass::Digit)?;
        let n = self.radix_number(pos, at1, 10)?;
        Some((at1, n))
    }

    /// A number: hexadecimal behind `0x`, binary behind `0b`, or else
    /// decimal.
    fn parse_number(&self, pos: usize) -> (r: Option<(usize, u32)>)
        requires
            self.wf(),
            pos <= self@.len(),
        ensures
            parsed(r, spec_number(self@, pos as int), pos as int, self@.len() as int),
    {
        if let Some(found) = self.parse_prefixed(pos, "0x", CharClass::HexDigit, 16) {
            return Some(found);
        }
        if let Some(found) = self.parse_prefixed(pos, "0b", CharClass::BinDigit, 2) {
            return Some(found);
        }
        self.parse_decimal(pos)
    }

    /// The register of the given name and id.
    fn parse_reg_named(&self, pos: usize, name: &str, id: u32) -> (r: Option<(usize, u32)>)
        requires
            self.wf(),
            pos <= self@.len(),
        ensures
            parsed(
                r,
                spec_reg_named(self@, pos as int, name@, id),
                pos as int,
                self@.len() as int,
            ),
    {
        let at1 = self.keyword(pos, name)?;
        Some((at1, id))
    }

    /// A register name, in any case; the value is the register's id.
    fn parse_reg(&self, pos: usize) -> (r: Option<(usize, u32)>)
        requires
            self.wf(),
            pos <= self@.len(),
        ensures
            parsed(r, spec_reg(self@, pos as int), pos as int, self@.len() as int),
    {
        if let Some(found) = self.parse_reg_named(pos, "r0", 0) {
            return Some(found);
        }
        if let Some(found) = self.parse_reg_named(pos, "r1", 1) {
            return Some(found);
        }
        if let Some(found) = self.parse_reg_named(pos, "r2", 2) {
            return Some(found);
        }
        if let Some(found) = self.parse_reg_named(pos, "r3", 3) {
            return Some(found);
        }
        if let Some(found) = self.parse_reg_named(pos, "r4", 4) {
            return Some(found);
        }
        if let Some(found) = self.parse_reg_named(pos, "r5", 5) {
            return Some(found);
        }
        if let Some(found) = self.parse_reg_named(pos, "r6", 6) {
            return Some(found);
        }
        if let Some(found) = self.parse_reg_named(pos, "r7", 7) {
            return Some(found);
        }
        self.parse_reg_named(pos, "pc", 100)
    }

    /// A run of data values separated by white space; it may be empty.
    fn parse_data_values(&self, pos: usize) -> (r: (usize, Vec<DataValue<'a>>))
        requires
            self.wf(),
            pos <= self@.len(),
        ensures
            r.0 == spec_data_values(self@, pos as int).0,
            value_views(r.1@) == spec_data_values(self@, pos as int).1,
            pos <= r.0 <= self@.len(),
    {
        let mut values: Vec<DataValue<'a>> = Vec::new();
        let mut end = match self.parse_data_value(pos) {
            Some((at1, v)) => {
                values.push(v);
                at1
            },
            None => {
                assert(value_views(values@) =~= Seq::<DataValueView>::empty());
                return (pos, values);
            },
        };
        assert(value_views(values@) =~= seq![values@[0]@]);
        loop
            invariant
                self.wf(),
                pos <= end <= self@.len(),
                spec_data_values(self@, pos as int) == spec_more_values(
                    self@,
                    end as int,
                    value_views(values@),
                ),
            decreases self@.len() - end,
        {
            let at1 = match self.span1(end, CharClass::MultiSpace) {
                Some(at1) => at1,
                None => {
                    return (end, values);
                },
            };
            let (at2, v) = match self.parse_data_value(at1) {
                Some(found) => found,
                None => {
                    return (end, values);
                },
            };
            let ghost before = value_views(values@);
            values.push(v);
            assert(value_views(values@) =~= before.push(v@));
            end = at2;
        }
    }

    /// A data definition.
    fn parse_data_def(&self, pos: usize) -> (r: Option<(usize, Token<'a>)>)
        requires
            self.wf(),
            pos <= self@.len(),
        ensures
            parsed(r, spec_data_def(self@, pos as int), pos as int, self@.len() as int),
    {
        let at1 = self.span(pos, CharClass::MultiSpace);
        let (at2, id) = self.parse_identifier(at1)?;
        let at3 = self.span1(at2, CharClass::MultiSpace)?;
        let (at4, typ) = self.parse_data_type(at3)?;
        let at5 = self.span1(at4, CharClass::MultiSpace)?;
        let (at6, values) = self.parse_data_values(at5);
        Some((at6, Token::DataDef(id, typ, values)))
    }

    /// A string literal: the characters between two double quotes, none of
    /// which is a double quote.
    fn parse_str(&self, pos: usize) -> (r: Option<(usize, &'a str)>)
        requires
            self.wf(),
            pos <= self@.len(),
        ensures
            parsed(r, spec_str(self@, pos as int), pos as int, self@.len() as int),
    {
        let at1 = self.symbol(pos, '"')?;
        let at2 = self.span(at1, CharClass::NotQuote);
        let text = self.slice(at1, at2);
        let at3 = self.symbol(at2, '"')?;
        Some((at3, text))
    }

    /// A label: a dot and a run of letters and digits; the value is the run.
    fn parse_label(&self, pos: usize) -> (r: Option<(usize, &'a str)>)
        requires
            self.wf(),
            pos <= self@.len(),
        ensures
            parsed(r, spec_label(self@, pos as int), pos as int, self@.len() as int),
    {
        let at1 = self.symbol(pos, '.')?;
        let at2 = self.span1(at1, CharClass::AlphaNum)?;
        let name = self.slice(at1, at2);
        Some((at2, name))
    }

    /// An address: an ampersand and a number.
    fn parse_address(&self, pos: usize) -> (r: Option<(usize, u32)>)
        requires
            self.wf(),
            pos <= self@.len(),
        ensures
            parsed(r, spec_address(self@, pos as int), pos as int, self@.len() as int),
    {
        let at1 = self.symbol(pos, '&')?;
        let (at2, n) = self.parse_number(at1)?;
        Some((at2, n))
    }

    /// A number as an immediate operand.
    fn parse_const_number(&self, pos: usize) -> (r: Option<(usize, ConstValue<'a>)>)
        requires
            self.wf(),
            pos <= self@.len(),
        ensures
            parsed(r, spec_const_number(self@, pos as int), pos as int, self@.len() as int),
    {
        let (at1, n) = self.parse_number(pos)?;
        Some((at1, ConstValue::Number(n)))
    }

    /// A label as an immediate operand.
    fn parse_const_label(&self, pos: usize) -> (r: Option<(usize, ConstValue<'a>)>)
        requires
            self.wf(),
            pos <= self@.len(),
        ensures
            parsed(r, spec_const_label(self@, pos as int), pos as int, self@.len() as int),
    {
        let (at1, name) = self.parse_label(pos)?;
        Some((at1, ConstValue::Label(name)))
    }

    /// An immediate operand: a number or else a label.
    fn parse_const_value(&self, pos: usize) -> (r: Option<(usize, ConstValue<'a>)>)
        requires
            self.wf(),
            pos <= self@.len(),
        ensures
            parsed(r, spec_const_value(self@, pos as int), pos as int, self@.len() as int),
    {
        if let Some(found) = self.parse_const_number(pos) {
            return Some(found);
        }
        self.parse_const_label(pos)
    }

    /// The directive `@org` with its number.
    fn parse_meta_org(&self, pos: usize) -> (r: Option<(usize, MetaType<'a>)>)
        requires
            self.wf(),
            pos <= self@.len(),
        ensures
            parsed(r, spec_meta_org(self@, pos as int), pos as int, self@.len() as int),
    {
        let at1 = self.symbol(pos, '@')?;
        let at2 = self.keyword(at1, "org")?;
        let at3 = self.span1(at2, CharClass::MultiSpace)?;
        let (at4, n) = self.parse_number(at3)?;
        Some((at4, MetaType::Org(n)))
    }

    /// The directive `@include` with its path.
    fn parse_meta_include(&self, pos: usize) -> (r: Option<(usize, MetaType<'a>)>)
        requires
            self.wf(),
            pos <= self@.len(),
        ensures
            parsed(r, spec_meta_include(self@, pos as int), pos as int, self@.len() as int),
    {
        let at1 = self.symbol(pos, '@')?;
        let at2 = self.keyword(at1, "include")?;
        let at3 = self.span1(at2, CharClass::MultiSpace)?;
        let (at4, path) = self.parse_str(at3)?;
        Some((at4, MetaType::Include(path)))
    }

    /// A directive: `@org` or `@include`.
    fn parse_meta(&self, pos: usize) -> (r: Option<(usize, MetaType<'a>)>)
        requires
            self.wf(),
            pos <= self@.len(),
        ensures
            parsed(r, spec_meta(self@, pos as int), pos as int, self@.len() as int),
    {
        if let Some(found) = self.parse_meta_org(pos) {
            return Some(found);
        }
        self.parse_meta_include(pos)
    }

    /// A section header: a name of letters and digits in square brackets.
    fn parse_section(&self, pos: usize) -> (r: Option<(usize, &'a str)>)
        requires
            self.wf(),
            pos <= self@.len(),
        ensures
            parsed(r, spec_section(self@, pos as int), pos as int, self@.len() as int),
    {
        let at1 = self.symbol(pos, '[')?;
        let at2 = self.span1(at1, CharClass::AlphaNum)?;
        let name = self.slice(at1, at2);
        let at3 = self.symbol(at2, ']')?;
        Some((at3, name))
    }

    /// The width `b`.
    fn parse_type_byte(&self, pos: usize) -> (r: Option<(usize, DataType)>)
        requires
            self.wf(),
            pos <= self@.len(),
        ensures
            parsed(r, spec_type_byte(self@, pos as int), pos as int, self@.len() as int),
    {
        let at1 = self.keyword(pos, "b")?;
        Some((at1, DataType::Byte))
    }

    /// The width `w`.
    fn parse_type_word(&self, pos: usize) -> (r: Option<(usize, DataType)>)
        requires
            self.wf(),
            pos <= self@.len(),
        ensures
            parsed(r, spec_type_word(self@, pos as int), pos as int, self@.len() as int),
    {
        let at1 = self.keyword(pos, "w")?;
        Some((at1, DataType::Word))
    }

    /// The width `dw`.
    fn parse_type_double(&self, pos: usize) -> (r: Option<(usize, DataType)>)
        requires
            self.wf(),
            pos <= self@.len(),
        ensures
            parsed(r, spec_type_double(self@, pos as int), pos as int, self@.len() as int),
    {
        let at1 = self.keyword(pos, "dw")?;
        Some((at1, DataType::DoubleWord))
    }

    /// The width of a data definition: `b`, `w` or `dw`.
    fn parse_data_type(&self, pos: usize) -> (r: Option<(usize, DataType)>)
        requires
            self.wf(),
            pos <= self@.len(),
        ensures
            parsed(r, spec_data_type(self@, pos as int), pos as int, self@.len() as int),
    {
        if let Some(found) = self.parse_type_byte(pos) {
            return Some(found);
        }
        if let Some(found) = self.parse_type_word(pos) {
            return Some(found);
        }
        self.parse_type_double(pos)
    }

    /// A number as a data value.
    fn parse_value_number(&self, pos: usize) -> (r: Option<(usize, DataValue<'a>)>)
        requires
            self.wf(),
            pos <= self@.len(),
        ensures
            parsed(r, spec_value_number(self@, pos as int), pos as int, self@.len() as int),
    {
        let (at1, n) = self.parse_number(pos)?;
        Some((at1, DataValue::Number(n)))
    }

    /// A string as a data value.
    fn parse_value_text(&self, pos: usize) -> (r: Option<(usize, DataValue<'a>)>)
        requires
            self.wf(),
            pos <= self@.len(),
        ensures
            parsed(r, spec_value_text(self@, pos as int), pos as int, self@.len() as int),
    {
        let (at1, text) = self.parse_str(pos)?;
        Some((at1, DataValue::String(text)))
    }

    /// A data value: a number or else a string.
    fn parse_data_value(&self, pos: usize) -> (r: Option<(usize, DataValue<'a>)>)
        requires
            self.wf(),
            pos <= self@.len(),
        ensures
            parsed(r, spec_data_value(self@, pos as int), pos as int, self@.len() as int),
    {
        if let Some(found) = self.parse_value_number(pos) {
            return Some(found);
        }
        self.parse_value_text(pos)
    }

    /// A data identifier: a dollar sign and a run of letters and digits; the
    /// value is the run.
    fn parse_identifier(&self, pos: usize) -> (r: Option<(usize, &'a str)>)
        requires
            self.wf(),
            pos <= self@.len(),
        ensures
            parsed(r, spec_identifier(self@, pos as int), pos as int, self@.len() as int),
    {
        let at1 = self.symbol(pos, '$')?;
        let at2 = self.span1(at1, CharClass::AlphaNum)?;
        let name = self.slice(at1, at2);
        Some((at2, name))
    }

    /// A data identifier in square brackets, as a push of its address.
    fn parse_id_address(&self, pos: usize) -> (r: Option<(usize, Cmd<'a>)>)
        requires
            self.wf(),
            pos <= self@.len(),
        ensures
            parsed(r, spec_id_address(self@, pos as int), pos as int, self@.len() as int),
    {
        let at1 = self.symbol(pos, '[')?;
        let (at2, id) = self.parse_identifier(at1)?;
        let at3 = self.symbol(at2, ']')?;
        Some((at3, Cmd::PushIdAddress(id)))
    }

    /// A data identifier plus a number.
    fn parse_id_offset_const(&self, pos: usize) -> (r: Option<(usize, DataAddressOffset<'a>)>)
        requires
            self.wf(),
            pos <= self@.len(),
        ensures
            parsed(r, spec_id_offset_const(self@, pos as int), pos as int, self@.len() as int),
    {
        let at1 = self.span(pos, CharClass::MultiSpace);
        let (at2, id) = self.parse_identifier(at1)?;
        let at3 = self.span(at2, CharClass::MultiSpace);
        let at4 = self.symbol(at3, '+')?;
        let at5 = self.span(at4, CharClass::MultiSpace);
        let (at6, n) = self.parse_number(at5)?;
        Some((at6, DataAddressOffset::Const(id, n)))
    }

    /// A data identifier alone.
    fn parse_id_offset_zero(&self, pos: usize) -> (r: Option<(usize, DataAddressOffset<'a>)>)
        requires
            self.wf(),
            pos <= self@.len(),
        ensures
            parsed(r, spec_id_offset_zero(self@, pos as int), pos as int, self@.len() as int),
    {
        let at1 = self.span(pos, CharClass::MultiSpace);
        let (at2, id) = self.parse_identifier(at1)?;
        Some((at2, DataAddressOffset::Zero(id)))
    }

    /// A data identifier plus a register.
    fn parse_id_offset_reg(&self, pos: usize) -> (r: Option<(usize, DataAddressOffset<'a>)>)
        requires
            self.wf(),
            pos <= self@.len(),
        ensures
            parsed(r, spec_id_offset_reg(self@, pos as int), pos as int, self@.len() as int),
    {
        let at1 = self.span(pos, CharClass::MultiSpace);
        let (at2, id) = self.parse_identifier(at1)?;
        let at3 = self.span(at2, CharClass::MultiSpace);
        let at4 = self.symbol(at3, '+')?;
        let at5 = self.span(at4, CharClass::MultiSpace);
        let (at6, r) = self.parse_reg(at5)?;
        let at7 = self.span(at6, CharClass::MultiSpace);
        Some((at7, DataAddressOffset::Reg(id, r)))
    }

    /// A data identifier with a register, with a number, or else alone.
    fn parse_id_offset(&self, pos: usize) -> (r: Option<(usize, DataAddressOffset<'a>)>)
        requires
            self.wf(),
            pos <= self@.len(),
        ensures
            parsed(r, spec_id_offset(self@, pos as int), pos as int, self@.len() as int),
    {
        if let Some(found) = self.parse_id_offset_reg(pos) {
            return Some(found);
        }
        if let Some(found) = self.parse_id_offset_const(pos) {
            return Some(found);
        }
        self.parse_id_offset_zero(pos)
    }

    /// A reference to the value of a data identifier: the identifier, possibly
    /// with an offset, in square brackets.
    fn parse_id_address_with_offset(&self, pos: usize) -> (r: Option<(usize, DataAddressOffset<'a>)>)
        requires
            self.wf(),
            pos <= self@.len(),
        ensures
            parsed(r, spec_id_address_with_offset(self@, pos as int), pos as int, self@.len() as int),
    {
        let at1 = self.symbol(pos, '[')?;
        let (at2, v) = self.parse_id_offset(at1)?;
        let at3 = self.symbol(at2, ']')?;
        Some((at3, v))
    }

    /// A register id as a number.
    fn parse_noc_reg(&self, pos: usize) -> (r: Option<(usize, ConstValue<'a>)>)
        requires
            self.wf(),
            pos <= self@.len(),
        ensures
            parsed(r, spec_noc_reg(self@, pos as int), pos as int, self@.len() as int),
    {
        let (at1, r) = self.parse_reg(pos)?;
        Some((at1, ConstValue::Number(r)))
    }

    /// An address as a number.
    fn parse_noc_address(&self, pos: usize) -> (r: Option<(usize, ConstValue<'a>)>)
        requires
            self.wf(),
            pos <= self@.len(),
        ensures
            parsed(r, spec_noc_address(self@, pos as int), pos as int, self@.len() as int),
    {
        let (at1, a) = self.parse_address(pos)?;
        Some((at1, ConstValue::Number(a)))
    }

    /// A register id, an address, or else an immediate operand, each as an
    /// immediate operand.
    fn parse_number_or_const(&self, pos: usize) -> (r: Option<(usize, ConstValue<'a>)>)
        requires
            self.wf(),
            pos <= self@.len(),
        ensures
            parsed(r, spec_number_or_const(self@, pos as int), pos as int, self@.len() as int),
    {
        if let Some(found) = self.parse_noc_reg(pos) {
            return Some(found);
        }
        if let Some(found) = self.parse_noc_address(pos) {
            return Some(found);
        }
        self.parse_const_value(pos)
    }

    /// `move` from a register to a register.
    fn parse_move_reg(&self, pos: usize) -> (r: Option<(usize, Cmd<'a>)>)
        requires
            self.wf(),
            pos <= self@.len(),
        ensures
            parsed(r, spec_move_reg(self@, pos as int), pos as int, self@.len() as int),
    {
        let at1 = self.keyword_space(pos, "move")?;
        let (at2, d) = self.parse_reg(at1)?;
        let at3 = self.span1(at2, CharClass::MultiSpace)?;
        let (at4, r) = self.parse_reg(at3)?;
        Some((at4, Cmd::MoveReg(d, r)))
    }

    /// `move` from an address to a register.
    fn parse_move_addr(&self, pos: usize) -> (r: Option<(usize, Cmd<'a>)>)
        requires
            self.wf(),
            pos <= self@.len(),
        ensures
            parsed(r, spec_move_addr(self@, pos as int), pos as int, self@.len() as int),
    {
        let at1 = self.keyword_space(pos, "move")?;
        let (at2, d) = self.parse_reg(at1)?;
        let at3 = self.span1(at2, CharClass::MultiSpace)?;
        let (at4, a) = self.parse_address(at3)?;
        Some((at4, Cmd::MoveAddr(d, a)))
    }

    /// `move` of an immediate operand to a register.
    fn parse_move_const(&self, pos: usize) -> (r: Option<(usize, Cmd<'a>)>)
        requires
            self.wf(),
            pos <= self@.len(),
        ensures
            parsed(r, spec_move_const(self@, pos as int), pos as int, self@.len() as int),
    {
        let at1 = self.keyword_space(pos, "move")?;
        let (at2, d) = self.parse_reg(at1)?;
        let at3 = self.span1(at2, CharClass::MultiSpace)?;
        let (at4, c) = self.parse_const_value(at3)?;
        Some((at4, Cmd::MoveConst(d, c)))
    }

    /// `move` to a register from a register, from an address, or else of an
    /// immediate operand.
    fn parse_move(&self, pos: usize) -> (r: Option<(usize, Cmd<'a>)>)
        requires
            self.wf(),
            pos <= self@.len(),
        ensures
            parsed(r, spec_move(self@, pos as int), pos as int, self@.len() as int),
    {
        if let Some(found) = self.parse_move_reg(pos) {
            return Some(found);
        }
        if let Some(found) = self.parse_move_addr(pos) {
            return Some(found);
        }
        self.parse_move_const(pos)
    }

    /// `store` of a register.
    fn parse_store_reg(&self, pos: usize) -> (r: Option<(usize, Cmd<'a>)>)
        requires
            self.wf(),
            pos <= self@.len(),
        ensures
            parsed(r, spec_store_reg(self@, pos as int), pos as int, self@.len() as int),
    {
        let at1 = self.keyword_space(pos, "store")?;
        let (at2, d) = self.parse_number(at1)?;
        let at3 = self.span1(at2, CharClass::MultiSpace)?;
        let (at4, r) = self.parse_reg(at3)?;
        Some((at4, Cmd::StoreReg(d, r)))
    }

    /// `store` of an immediate operand.
    fn parse_store_const(&self, pos: usize) -> (r: Option<(usize, Cmd<'a>)>)
        requires
            self.wf(),
            pos <= self@.len(),
        ensures
            parsed(r, spec_store_const(self@, pos as int), pos as int, self@.len() as int),
    {
        let at1 = self.keyword_space(pos, "store")?;
        let (at2, d) = self.parse_number(at1)?;
        let at3 = self.span1(at2, CharClass::MultiSpace)?;
        let (at4, c) = self.parse_number_or_const(at3)?;
        Some((at4, Cmd::StoreConst(d, c)))
    }

    /// `store` of a register or else of an immediate operand.
    fn parse_store(&self, pos: usize) -> (r: Option<(usize, Cmd<'a>)>)
        requires
            self.wf(),
            pos <= self@.len(),
        ensures
            parsed(r, spec_store(self@, pos as int), pos as int, self@.len() as int),
    {
        if let Some(found) = self.parse_store_reg(pos) {
            return Some(found);
        }
        self.parse_store_const(pos)
    }

    /// `push` with an immediate operand.
    fn parse_push_const(&self, pos: usize) -> (r: Option<(usize, Cmd<'a>)>)
        requires
            self.wf(),
            pos <= self@.len(),
        ensures
            parsed(r, spec_push_const(self@, pos as int), pos as int, self@.len() as int),
    {
        let at1 = self.keyword_space(pos, "push")?;
        let (at2, v) = self.parse_const_value(at1)?;
        Some((at2, Cmd::PushConst(v)))
    }

    /// `push` with a register.
    fn parse_push_reg(&self, pos: usize) -> (r: Option<(usize, Cmd<'a>)>)
        requires
            self.wf(),
            pos <= self@.len(),
        ensures
            parsed(r, spec_push_reg(self@, pos as int), pos as int, self@.len() as int),
    {
        let at1 = self.keyword_space(pos, "push")?;
        let (at2, v) = self.parse_reg(at1)?;
        Some((at2, Cmd::PushReg(v)))
    }

    /// `push` with an address.
    fn parse_push_address(&self, pos: usize) -> (r: Option<(usize, Cmd<'a>)>)
        requires
            self.wf(),
            pos <= self@.len(),
        ensures
            parsed(r, spec_push_address(self@, pos as int), pos as int, self@.len() as int),
    {
        let at1 = self.keyword_space(pos, "push")?;
        let (at2, v) = self.parse_address(at1)?;
        Some((at2, Cmd::PushAddr(v)))
    }

    /// `pop` with a register.
    fn parse_pop_reg(&self, pos: usize) -> (r: Option<(usize, Cmd<'a>)>)
        requires
            self.wf(),
            pos <= self@.len(),
        ensures
            parsed(r, spec_pop_reg(self@, pos as int), pos as int, self@.len() as int),
    {
        let at1 = self.keyword_space(pos, "pop")?;
        let (at2, v) = self.parse_reg(at1)?;
        Some((at2, Cmd::PopReg(v)))
    }

    /// `pop` with an address.
    fn parse_pop_address(&self, pos: usize) -> (r: Option<(usize, Cmd<'a>)>)
        requires
            self.wf(),
            pos <= self@.len(),
        ensures
            parsed(r, spec_pop_address(self@, pos as int), pos as int, self@.len() as int),
    {
        let at1 = self.keyword_space(pos, "pop")?;
        let (at2, v) = self.parse_address(at1)?;
        Some((at2, Cmd::PopAddr(v)))
    }

    /// `dup` with a count.
    fn parse_dup_const(&self, pos: usize) -> (r: Option<(usize, Cmd<'a>)>)
        requires
            self.wf(),
            pos <= self@.len(),
        ensures
            parsed(r, spec_dup_const(self@, pos as int), pos as int, self@.len() as int),
    {
        let at1 = self.keyword_space(pos, "dup")?;
        let (at2, v) = self.parse_number(at1)?;
        Some((at2, Cmd::DupConst(v)))
    }

    /// `dup` with a register that holds the count.
    fn parse_dup_reg(&self, pos: usize) -> (r: Option<(usize, Cmd<'a>)>)
        requires
            self.wf(),
            pos <= self@.len(),
        ensures
            parsed(r, spec_dup_reg(self@, pos as int), pos as int, self@.len() as int),
    {
        let at1 = self.keyword_space(pos, "dup")?;
        let (at2, v) = self.parse_reg(at1)?;
        Some((at2, Cmd::DupReg(v)))
    }

    /// The command `dup`.
    fn parse_dup(&self, pos: usize) -> (r: Option<(usize, Cmd<'a>)>)
        requires
            self.wf(),
            pos <= self@.len(),
        ensures
            parsed(r, spec_dup(self@, pos as int), pos as int, self@.len() as int),
    {
        let at1 = self.keyword(pos, "dup")?;
        Some((at1, Cmd::Dup))
    }

    /// `shr` with a number of bits.
    fn parse_shr_const(&self, pos: usize) -> (r: Option<(usize, Cmd<'a>)>)
        requires
            self.wf(),
            pos <= self@.len(),
        ensures
            parsed(r, spec_shr_const(self@, pos as int), pos as int, self@.len() as int),
    {
        let at1 = self.keyword_space(pos, "shr")?;
        let (at2, v) = self.parse_number(at1)?;
        Some((at2, Cmd::ShrConst(v)))
    }

    /// `shr` with a register that holds the number of bits.
    fn parse_shr_reg(&self, pos: usize) -> (r: Option<(usize, Cmd<'a>)>)
        requires
            self.wf(),
            pos <= self@.len(),
        ensures
            parsed(r, spec_shr_reg(self@, pos as int), pos as int, self@.len() as int),
    {
        let at1 = self.keyword_space(pos, "shr")?;
        let (at2, v) = self.parse_reg(at1)?;
        Some((at2, Cmd::ShrReg(v)))
    }

    /// `shl` with a number of bits.
    fn parse_shl_const(&self, pos: usize) -> (r: Option<(usize, Cmd<'a>)>)
        requires
            self.wf(),
            pos <= self@.len(),
        ensures
            parsed(r, spec_shl_const(self@, pos as int), pos as int, self@.len() as int),
    {
        let at1 = self.keyword_space(pos, "shl")?;
        let (at2, v) = self.parse_number(at1)?;
        Some((at2, Cmd::ShlConst(v)))
    }

    /// `shl` with a register that holds the number of bits.
    fn parse_shl_reg(&self, pos: usize) -> (r: Option<(usize, Cmd<'a>)>)
        requires
            self.wf(),
            pos <= self@.len(),
        ensures
            parsed(r, spec_shl_reg(self@, pos as int), pos as int, self@.len() as int),
    {
        let at1 = self.keyword_space(pos, "shl")?;
        let (at2, v) = self.parse_reg(at1)?;
        Some((at2, Cmd::ShlReg(v)))
    }

    /// `call` with an immediate operand.
    fn parse_call_const(&self, pos: usize) -> (r: Option<(usize, Cmd<'a>)>)
        requires
            self.wf(),
            pos <= self@.len(),
        ensures
            parsed(r, spec_call_const(self@, pos as int), pos as int, self@.len() as int),
    {
        let at1 = self.keyword_space(pos, "call")?;
        let (at2, v) = self.parse_const_value(at1)?;
        Some((at2, Cmd::CallConst(v)))
    }

    /// `call` with a register.
    fn parse_call_reg(&self, pos: usize) -> (r: Option<(usize, Cmd<'a>)>)
        requires
            self.wf(),
            pos <= self@.len(),
        ensures
            parsed(r, spec_call_reg(self@, pos as int), pos as int, self@.len() as int),
    {
        let at1 = self.keyword_space(pos, "call")?;
        let (at2, v) = self.parse_reg(at1)?;
        Some((at2, Cmd::CallReg(v)))
    }

    /// `call` with an address.
    fn parse_call_address(&self, pos: usize) -> (r: Option<(usize, Cmd<'a>)>)
        requires
            self.wf(),
            pos <= self@.len(),
        ensures
            parsed(r, spec_call_address(self@, pos as int), pos as int, self@.len() as int),
    {
        let at1 = self.keyword_space(pos, "call")?;
        let (at2, v) = self.parse_address(at1)?;
        Some((at2, Cmd::CallAddr(v)))
    }

    /// `safecall` with an immediate operand.
    fn parse_safecall_const(&self, pos: usize) -> (r: Option<(usize, Cmd<'a>)>)
        requires
            self.wf(),
            pos <= self@.len(),
        ensures
            parsed(r, spec_safecall_const(self@, pos as int), pos as int, self@.len() as int),
    {
        let at1 = self.keyword_space(pos, "safecall")?;
        let (at2, v) = self.parse_const_value(at1)?;
        Some((at2, Cmd::SafeCallConst(v)))
    }

    /// `safecall` with a register.
    fn parse_safecall_reg(&self, pos: usize) -> (r: Option<(usize, Cmd<'a>)>)
        requires
            self.wf(),
            pos <= self@.len(),
        ensures
            parsed(r, spec_safecall_reg(self@, pos as int), pos as int, self@.len() as int),
    {
        let at1 = self.keyword_space(pos, "safecall")?;
        let (at2, v) = self.parse_reg(at1)?;
        Some((at2, Cmd::SafeCallReg(v)))
    }

    /// `safecall` with an address.
    fn parse_safecall_address(&self, pos: usize) -> (r: Option<(usize, Cmd<'a>)>)
        requires
            self.wf(),
            pos <= self@.len(),
        ensures
            parsed(r, spec_safecall_address(self@, pos as int), pos as int, self@.len() as int),
    {
        let at1 = self.keyword_space(pos, "safecall")?;
        let (at2, v) = self.parse_address(at1)?;
        Some((at2, Cmd::SafeCallAddr(v)))
    }

    /// The command `add`.
    fn parse_add(&self, pos: usize) -> (r: Option<(usize, Cmd<'a>)>)
        requires
            self.wf(),
            pos <= self@.len(),
        ensures
            parsed(r, spec_add(self@, pos as int), pos as int, self@.len() as int),
    {
        let at1 = self.keyword(pos, "add")?;
        Some((at1, Cmd::Add))
    }

    /// The command `sub`.
    fn parse_sub(&self, pos: usize) -> (r: Option<(usize, Cmd<'a>)>)
        requires
            self.wf(),
            pos <= self@.len(),
        ensures
            parsed(r, spec_sub(self@, pos as int), pos as int, self@.len() as int),
    {
        let at1 = self.keyword(pos, "sub")?;
        Some((at1, Cmd::Sub))
    }

    /// The command `swap`.
    fn parse_swap(&self, pos: usize) -> (r: Option<(usize, Cmd<'a>)>)
        requires
            self.wf(),
            pos <= self@.len(),
        ensures
            parsed(r, spec_swap(self@, pos as int), pos as int, self@.len() as int),
    {
        let at1 = self.keyword(pos, "swap")?;
        Some((at1, Cmd::Swap))
    }

    /// The command `and`.
    fn parse_and(&self, pos: usize) -> (r: Option<(usize, Cmd<'a>)>)
        requires
            self.wf(),
            pos <= self@.len(),
        ensures
            parsed(r, spec_and(self@, pos as int), pos as int, self@.len() as int),
    {
        let at1 = self.keyword(pos, "and")?;
        Some((at1, Cmd::And))
    }

    /// The first group of commands, each tried in turn.
    fn parse_command_first(&self, pos: usize) -> (r: Option<(usize, Cmd<'a>)>)
        requires
            self.wf(),
            pos <= self@.len(),
        ensures
            parsed(r, spec_command_first(self@, pos as int), pos as int, self@.len() as int),
    {
        if let Some(found) = self.parse_move(pos) {
            return Some(found);
        }
        if let Some(found) = self.parse_store(pos) {
            return Some(found);
        }
        if let Some(found) = self.parse_push_const(pos) {
            return Some(found);
        }
        if let Some(found) = self.parse_push_reg(pos) {
            return Some(found);
        }
        if let Some(found) = self.parse_push_address(pos) {
            return Some(found);
        }
        if let Some(found) = self.parse_pop_reg(pos) {
            return Some(found);
        }
        if let Some(found) = self.parse_pop_address(pos) {
            return Some(found);
        }
        if let Some(found) = self.parse_dup_const(pos) {
            return Some(found);
        }
        if let Some(found) = self.parse_dup_reg(pos) {
            return Some(found);
        }
        if let Some(found) = self.parse_dup(pos) {
            return Some(found);
        }
        if let Some(found) = self.parse_shr_const(pos) {
            return Some(found);
        }
        if let Some(found) = self.parse_shr_reg(pos) {
            return Some(found);
        }
        if let Some(found) = self.parse_shl_const(pos) {
            return Some(found);
        }
        if let Some(found) = self.parse_shl_reg(pos) {
            return Some(found);
        }
        if let Some(found) = self.parse_call_const(pos) {
            return Some(found);
        }
        if let Some(found) = self.parse_call_reg(pos) {
            return Some(found);
        }
        if let Some(found) = self.parse_call_address(pos) {
            return Some(found);
        }
        if let Some(found) = self.parse_safecall_const(pos) {
            return Some(found);
        }
        if let Some(found) = self.parse_safecall_reg(pos) {
            return Some(found);
        }
        if let Some(found) = self.parse_safecall_address(pos) {
            return Some(found);
        }
        if let Some(found) = self.parse_add(pos) {
            return Some(found);
        }
        if let Some(found) = self.parse_sub(pos) {
            return Some(found);
        }
        if let Some(found) = self.parse_swap(pos) {
            return Some(found);
        }
        self.parse_and(pos)
    }

    /// `push` of the address of a data identifier.
    fn parse_push_id_address(&self, pos: usize) -> (r: Option<(usize, Cmd<'a>)>)
        requires
            self.wf(),
            pos <= self@.len(),
        ensures
            parsed(r, spec_push_id_address(self@, pos as int), pos as int, self@.len() as int),
    {
        let at1 = self.keyword_space(pos, "push")?;
        let (at2, id) = self.parse_identifier(at1)?;
        Some((at2, Cmd::PushIdAddress(id)))
    }

    /// `push` of the value of a data identifier.
    fn parse_push_id_value(&self, pos: usize) -> (r: Option<(usize, Cmd<'a>)>)
        requires
            self.wf(),
            pos <= self@.len(),
        ensures
            parsed(r, spec_push_id_value(self@, pos as int), pos as int, self@.len() as int),
    {
        let at1 = self.keyword_space(pos, "push")?;
        let (at2, v) = self.parse_id_address_with_offset(at1)?;
        Some((at2, push_of(v)))
    }

    /// `move` of the address of a data identifier to a register.
    fn parse_move_id_address(&self, pos: usize) -> (r: Option<(usize, Cmd<'a>)>)
        requires
            self.wf(),
            pos <= self@.len(),
        ensures
            parsed(r, spec_move_id_address(self@, pos as int), pos as int, self@.len() as int),
    {
        let at1 = self.keyword_space(pos, "move")?;
        let (at2, d) = self.parse_reg(at1)?;
        let at3 = self.span1(at2, CharClass::MultiSpace)?;
        let (at4, id) = self.parse_identifier(at3)?;
        Some((at4, Cmd::MoveIdAddress(d, id)))
    }

    /// `move` of the value of a data identifier to a register.
    fn parse_move_id_value(&self, pos: usize) -> (r: Option<(usize, Cmd<'a>)>)
        requires
            self.wf(),
            pos <= self@.len(),
        ensures
            parsed(r, spec_move_id_value(self@, pos as int), pos as int, self@.len() as int),
    {
        let at1 = self.keyword_space(pos, "move")?;
        let (at2, d) = self.parse_reg(at1)?;
        let at3 = self.span1(at2, CharClass::MultiSpace)?;
        let (at4, v) = self.parse_id_address_with_offset(at3)?;
        Some((at4, move_of(d, v)))
    }

    /// `inc` with a register.
    fn parse_inc(&self, pos: usize) -> (r: Option<(usize, Cmd<'a>)>)
        requires
            self.wf(),
            pos <= self@.len(),
        ensures
            parsed(r, spec_inc(self@, pos as int), pos as int, self@.len() as int),
    {
        let at1 = self.keyword_space(pos, "inc")?;
        let (at2, v) = self.parse_reg(at1)?;
        Some((at2, Cmd::Inc(v)))
    }

    /// `dec` with a register.
    fn parse_dec(&self, pos: usize) -> (r: Option<(usize, Cmd<'a>)>)
        requires
            self.wf(),
            pos <= self@.len(),
        ensures
            parsed(r, spec_dec(self@, pos as int), pos as int, self@.len() as int),
    {
        let at1 = self.keyword_space(pos, "dec")?;
        let (at2, v) = self.parse_reg(at1)?;
        Some((at2, Cmd::Dec(v)))
    }

    /// `int` with a module and a function.
    fn parse_int(&self, pos: usize) -> (r: Option<(usize, Cmd<'a>)>)
        requires
            self.wf(),
            pos <= self@.len(),
        ensures
            parsed(r, spec_int(self@, pos as int), pos as int, self@.len() as int),
    {
        let at1 = self.keyword_space(pos, "int")?;
        let (at2, m) = self.parse_number(at1)?;
        let at3 = self.span1(at2, CharClass::MultiSpace)?;
        let (at4, f) = self.parse_number(at3)?;
        Some((at4, Cmd::Int(m, f)))
    }

    /// The command `drop`.
    fn parse_drop(&self, pos: usize) -> (r: Option<(usize, Cmd<'a>)>)
        requires
            self.wf(),
            pos <= self@.len(),
        ensures
            parsed(r, spec_drop(self@, pos as int), pos as int, self@.len() as int),
    {
        let at1 = self.keyword(pos, "drop")?;
        Some((at1, Cmd::Drop))
    }

    /// The command `or`.
    fn parse_or(&self, pos: usize) -> (r: Option<(usize, Cmd<'a>)>)
        requires
            self.wf(),
            pos <= self@.len(),
        ensures
            parsed(r, spec_or(self@, pos as int), pos as int, self@.len() as int),
    {
        let at1 = self.keyword(pos, "or")?;
        Some((at1, Cmd::Or))
    }

    /// The command `xor`.
    fn parse_xor(&self, pos: usize) -> (r: Option<(usize, Cmd<'a>)>)
        requires
            self.wf(),
            pos <= self@.len(),
        ensures
            parsed(r, spec_xor(self@, pos as int), pos as int, self@.len() as int),
    {
        let at1 = self.keyword(pos, "xor")?;
        Some((at1, Cmd::Xor))
    }

    /// The command `not`.
    fn parse_not(&self, pos: usize) -> (r: Option<(usize, Cmd<'a>)>)
        requires
            self.wf(),
            pos <= self@.len(),
        ensures
            parsed(r, spec_not(self@, pos as int), pos as int, self@.len() as int),
    {
        let at1 = self.keyword(pos, "not")?;
        Some((at1, Cmd::Not))
    }

    /// `jmp` with the label it goes to.
    fn parse_jmp(&self, pos: usize) -> (r: Option<(usize, Cmd<'a>)>)
        requires
            self.wf(),
            pos <= self@.len(),
        ensures
            parsed(r, spec_jmp(self@, pos as int), pos as int, self@.len() as int),
    {
        let at1 = self.keyword_space(pos, "jmp")?;
        let (at2, target) = self.parse_label(at1)?;
        Some((at2, Cmd::Jmp(target)))
    }

    /// `jnz` with the label it goes to.
    fn parse_jnz(&self, pos: usize) -> (r: Option<(usize, Cmd<'a>)>)
        requires
            self.wf(),
            pos <= self@.len(),
        ensures
            parsed(r, spec_jnz(self@, pos as int), pos as int, self@.len() as int),
    {
        let at1 = self.keyword_space(pos, "jnz")?;
        let (at2, target) = self.parse_label(at1)?;
        Some((at2, Cmd::Jnz(target)))
    }

    /// `jz` with the label it goes to.
    fn parse_jz(&self, pos: usize) -> (r: Option<(usize, Cmd<'a>)>)
        requires
            self.wf(),
            pos <= self@.len(),
        ensures
            parsed(r, spec_jz(self@, pos as int), pos as int, self@.len() as int),
    {
        let at1 = self.keyword_space(pos, "jz")?;
        let (at2, target) = self.parse_label(at1)?;
        Some((at2, Cmd::Jz(target)))
    }

    /// `jg` with the label it goes to.
    fn parse_jg(&self, pos: usize) -> (r: Option<(usize, Cmd<'a>)>)
        requires
            self.wf(),
            pos <= self@.len(),
        ensures
            parsed(r, spec_jg(self@, pos as int), pos as int, self@.len() as int),
    {
        let at1 = self.keyword_space(pos, "jg")?;
        let (at2, target) = self.parse_label(at1)?;
        Some((at2, Cmd::Jg(target)))
    }

    /// `jge` with the label it goes to.
    fn parse_jge(&self, pos: usize) -> (r: Option<(usize, Cmd<'a>)>)
        requires
            self.wf(),
            pos <= self@.len(),
        ensures
            parsed(r, spec_jge(self@, pos as int), pos as int, self@.len() as int),
    {
        let at1 = self.keyword_space(pos, "jge")?;
        let (at2, target) = self.parse_label(at1)?;
        Some((at2, Cmd::Jge(target)))
    }

    /// `jl` with the label it goes to.
    fn parse_jl(&self, pos: usize) -> (r: Option<(usize, Cmd<'a>)>)
        requires
            self.wf(),
            pos <= self@.len(),
        ensures
            parsed(r, spec_jl(self@, pos as int), pos as int, self@.len() as int),
    {
        let at1 = self.keyword_space(pos, "jl")?;
        let (at2, target) = self.parse_label(at1)?;
        Some((at2, Cmd::Jl(target)))
    }

    /// `jle` with the label it goes to.
    fn parse_jle(&self, pos: usize) -> (r: Option<(usize, Cmd<'a>)>)
        requires
            self.wf(),
            pos <= self@.len(),
        ensures
            parsed(r, spec_jle(self@, pos as int), pos as int, self@.len() as int),
    {
        let at1 = self.keyword_space(pos, "jle")?;
        let (at2, target) = self.parse_label(at1)?;
        Some((at2, Cmd::Jle(target)))
    }

    /// The command `ret`.
    fn parse_ret(&self, pos: usize) -> (r: Option<(usize, Cmd<'a>)>)
        requires
            self.wf(),
            pos <= self@.len(),
        ensures
            parsed(r, spec_ret(self@, pos as int), pos as int, self@.len() as int),
    {
        let at1 = self.keyword(pos, "ret")?;
        Some((at1, Cmd::Ret))
    }

    /// The command `term`.
    fn parse_term(&self, pos: usize) -> (r: Option<(usize, Cmd<'a>)>)
        requires
            self.wf(),
            pos <= self@.len(),
        ensures
            parsed(r, spec_term(self@, pos as int), pos as int, self@.len() as int),
    {
        let at1 = self.keyword(pos, "term")?;
        Some((at1, Cmd::Term))
    }

    /// The command `mul`.
    fn parse_mul(&self, pos: usize) -> (r: Option<(usize, Cmd<'a>)>)
        requires
            self.wf(),
            pos <= self@.len(),
        ensures
            parsed(r, spec_mul(self@, pos as int), pos as int, self@.len() as int),
    {
        let at1 = self.keyword(pos, "mul")?;
        Some((at1, Cmd::Mul))
    }

    /// The second group of commands, each tried in turn.
    fn parse_command_second(&self, pos: usize) -> (r: Option<(usize, Cmd<'a>)>)
        requires
            self.wf(),
            pos <= self@.len(),
        ensures
            parsed(r, spec_command_second(self@, pos as int), pos as int, self@.len() as int),
    {
        if let Some(found) = self.parse_push_id_address(pos) {
            return Some(found);
        }
        if let Some(found) = self.parse_push_id_value(pos) {
            return Some(found);
        }
        if let Some(found) = self.parse_move_id_address(pos) {
            return Some(found);
        }
        if let Some(found) = self.parse_move_id_value(pos) {
            return Some(found);
        }
        if let Some(found) = self.parse_inc(pos) {
            return Some(found);
        }
        if let Some(found) = self.parse_dec(pos) {
            return Some(found);
        }
        if let Some(found) = self.parse_int(pos) {
            return Some(found);
        }
        if let Some(found) = self.parse_drop(pos) {
            return Some(found);
        }
        if let Some(found) = self.parse_or(pos) {
            return Some(found);
        }
        if let Some(found) = self.parse_xor(pos) {
            return Some(found);
        }
        if let Some(found) = self.parse_not(pos) {
            return Some(found);
        }
        if let Some(found) = self.parse_jmp(pos) {
            return Some(found);
        }
        if let Some(found) = self.parse_jnz(pos) {
            return Some(found);
        }
        if let Some(found) = self.parse_jz(pos) {
            return Some(found);
        }
        if let Some(found) = self.parse_jg(pos) {
            return Some(found);
        }
        if let Some(found) = self.parse_jge(pos) {
            return Some(found);
        }
        if let Some(found) = self.parse_jl(pos) {
            return Some(found);
        }
        if let Some(found) = self.parse_jle(pos) {
            return Some(found);
        }
        if let Some(found) = self.parse_ret(pos) {
            return Some(found);
        }
        if let Some(found) = self.parse_term(pos) {
            return Some(found);
        }
        self.parse_mul(pos)
    }

    /// The command `div`.
    fn parse_div(&self, pos: usize) -> (r: Option<(usize, Cmd<'a>)>)
        requires
            self.wf(),
            pos <= self@.len(),
        ensures
            parsed(r, spec_div(self@, pos as int), pos as int, self@.len() as int),
    {
        let at1 = self.keyword(pos, "div")?;
        Some((at1, Cmd::Div))
    }

    /// `move` to a register from the address that a register holds.
    fn parse_move_addr_reg(&self, pos: usize) -> (r: Option<(usize, Cmd<'a>)>)
        requires
            self.wf(),
            pos <= self@.len(),
        ensures
            parsed(r, spec_move_addr_reg(self@, pos as int), pos as int, self@.len() as int),
    {
        let at1 = self.keyword_space(pos, "move")?;
        let (at2, d) = self.parse_reg(at1)?;
        let at3 = self.span1(at2, CharClass::MultiSpace)?;
        let at4 = self.symbol(at3, '&')?;
        let (at5, r) = self.parse_reg(at4)?;
        Some((at5, Cmd::MoveAddrReg(d, r)))
    }

    /// The last group of commands.
    fn parse_command_third(&self, pos: usize) -> (r: Option<(usize, Cmd<'a>)>)
        requires
            self.wf(),
            pos <= self@.len(),
        ensures
            parsed(r, spec_command_third(self@, pos as int), pos as int, self@.len() as int),
    {
        if let Some(found) = self.parse_div(pos) {
            return Some(found);
        }
        self.parse_move_addr_reg(pos)
    }

    /// A command: the first of the commands, in their fixed order, that the
    /// text at the position spells.
    fn parse_command(&self, pos: usize) -> (r: Option<(usize, Cmd<'a>)>)
        requires
            self.wf(),
            pos <= self@.len(),
        ensures
            parsed(r, spec_command(self@, pos as int), pos as int, self@.len() as int),
    {
        if let Some(found) = self.parse_command_first(pos) {
            return Some(found);
        }
        if let Some(found) = self.parse_command_second(pos) {
            return Some(found);
        }
        self.parse_command_third(pos)
    }

    /// A label as a token.
    fn parse_token_label(&self, pos: usize) -> (r: Option<(usize, Token<'a>)>)
        requires
            self.wf(),
            pos <= self@.len(),
        ensures
            parsed(r, spec_token_label(self@, pos as int), pos as int, self@.len() as int),
    {
        let (at1, name) = self.parse_label(pos)?;
        Some((at1, Token::Label(name)))
    }

    /// A directive as a token.
    fn parse_token_meta(&self, pos: usize) -> (r: Option<(usize, Token<'a>)>)
        requires
            self.wf(),
            pos <= self@.len(),
        ensures
            parsed(r, spec_token_meta(self@, pos as int), pos as int, self@.len() as int),
    {
        let (at1, m) = self.parse_meta(pos)?;
        Some((at1, Token::Meta(m)))
    }

    /// A command as a token.
    fn parse_token_command(&self, pos: usize) -> (r: Option<(usize, Token<'a>)>)
        requires
            self.wf(),
            pos <= self@.len(),
        ensures
            parsed(r, spec_token_command(self@, pos as int), pos as int, self@.len() as int),
    {
        let (at1, c) = self.parse_command(pos)?;
        Some((at1, Token::Command(c)))
    }

    /// A section header as a token.
    fn parse_token_section(&self, pos: usize) -> (r: Option<(usize, Token<'a>)>)
        requires
            self.wf(),
            pos <= self@.len(),
        ensures
            parsed(r, spec_token_section(self@, pos as int), pos as int, self@.len() as int),
    {
        let (at1, name) = self.parse_section(pos)?;
        Some((at1, Token::Section(name)))
    }

    /// A token: a label, a directive, a command, a section header, or else a
    /// data definition.
    fn parse_token(&self, pos: usize) -> (r: Option<(usize, Token<'a>)>)
        requires
            self.wf(),
            pos <= self@.len(),
        ensures
            parsed(r, spec_token(self@, pos as int), pos as int, self@.len() as int),
    {
        if let Some(found) = self.parse_token_label(pos) {
            return Some(found);
        }
        if let Some(found) = self.parse_token_meta(pos) {
            return Some(found);
        }
        if let Some(found) = self.parse_token_command(pos) {
            return Some(found);
        }
        if let Some(found) = self.parse_token_section(pos) {
            return Some(found);
        }
        self.parse_data_def(pos)
    }

    /// One line: the position behind it and its token, if it has one.
    fn parse_line(&self, pos: usize) -> (r: (usize, Option<Token<'a>>))
        requires
            self.wf(),
            pos <= self@.len(),
        ensures
            r.0 == spec_line(self@, pos as int).0,
            pos <= r.0 <= self@.len(),
            match spec_line(self@, pos as int).1 {
                Some(token) => r.1 is Some && r.1->Some_0@ == token,
                None => r.1 is None,
            },
    {
        let at1 = self.span(pos, CharClass::Space);
        match self.parse_token(at1) {
            Some((at2, token)) => {
                let at3 = match self.parse_comment(self.span(at2, CharClass::Space)) {
                    Some(end) => end,
                    None => at2,
                };
                (self.span(at3, CharClass::Space), Some(token))
            },
            None => match self.parse_comment(at1) {
                Some(end) => (end, None),
                None => (at1, None),
            },
        }
    }

    /// The end of a line.
    fn parse_line_ending(&self, pos: usize) -> (r: Option<usize>)
        requires
            self.wf(),
            pos <= self@.len(),
        ensures
            reached(r, spec_line_ending(self@, pos as int), pos as int, self@.len() as int),
            r matches Some(end) ==> pos < end,
    {
        if let Some(end) = self.symbol(pos, '\n') {
            return Some(end);
        }
        let at1 = self.symbol(pos, '\r')?;
        self.symbol(at1, '\n')
    }

    /// A program: the position where reading stopped and the tokens of
    /// the lines read.
    fn parse_program(&self, pos: usize) -> (r: (usize, Vec<Token<'a>>))
        requires
            self.wf(),
            pos <= self@.len(),
        ensures
            r.0 == spec_program(self@, pos as int).0,
            token_views(r.1@) == spec_program(self@, pos as int).1,
            pos <= r.0 <= self@.len(),
    {
        let mut tokens: Vec<Token<'a>> = Vec::new();
        assert(token_views(tokens@) =~= Seq::<TokenView>::empty());
        let (first_end, first_token) = self.parse_line(pos);
        let mut end = first_end;
        if let Some(token) = first_token {
            let ghost before = token_views(tokens@);
            let ghost content = token@;
            tokens.push(token);
            assert(token_views(tokens@) =~= before.push(content));
        }
        loop
            invariant
                self.wf(),
                pos <= end <= self@.len(),
                spec_program(self@, pos as int) == spec_more_lines(
                    self@,
                    end as int,
                    token_views(tokens@),
                ),
            decreases self@.len() - end,
        {
            let at1 = match self.parse_line_ending(end) {
                Some(at1) => at1,
                None => {
                    return (end, tokens);
                },
            };
            let (at2, line_token) = self.parse_line(at1);
            if let Some(token) = line_token {
                let ghost before = token_views(tokens@);
                let ghost content = token@;
                tokens.push(token);
                assert(token_views(tokens@) =~= before.push(content));
            }
            end = at2;
        }
    }
}

/// The push that a reference to the value of a data identifier stands for.
fn push_of<'a>(v: DataAddressOffset<'a>) -> (cmd: Cmd<'a>)
    ensures
        cmd@ == spec_push_of(v@),
{
    match v {
        DataAddressOffset::Zero(id) => Cmd::PushIdValueConst(id, 0),
        DataAddressOffset::Const(id, n) => Cmd::PushIdValueConst(id, n),
        DataAddressOffset::Reg(id, r) => Cmd::PushIdValueReg(id, r),
    }
}

/// The move to the register `d` that a reference to the value of a data
/// identifier stands for.
fn move_of<'a>(d: u32, v: DataAddressOffset<'a>) -> (cmd: Cmd<'a>)
    ensures
        cmd@ == spec_move_of(d, v@),
{
    match v {
        DataAddressOffset::Zero(id) => Cmd::MoveIdValueConst(d, id, 0),
        DataAddressOffset::Const(id, n) => Cmd::MoveIdValueConst(d, id, n),
        DataAddressOffset::Reg(id, r) => Cmd::MoveIdValueReg(d, id, r),
    }
}

/// Parses a comment at the start of `input`: a semicolon and everything
/// up to the end of the line.
pub fn parse_comment<'a>(input: &'a str) -> (r: Result<(&'a str, ()), ParseError>)
    ensures
        match spec_comment(input@, 0) {
            Some(end) => r is Ok && r->Ok_0.0@ == input@.skip(end),
            None => r is Err,
        },
{
    let source = Source::new(input);
    match source.parse_comment(0) {
        Some(end) => Ok((source.rest(end), ())),
        None => Err(ParseError {  }),
    }
}

/// Parses a number at the start of `input`: hexadecimal behind `0x`,
/// binary behind `0b`, or else decimal.
pub fn parse_number<'a>(input: &'a str) -> (r: Result<(&'a str, u32), ParseError>)
    ensures
        complete(r, input@, spec_number(input@, 0)),
{
    let source = Source::new(input);
    match source.parse_number(0) {
        Some((end, value)) => Ok((source.rest(end), value)),
        None => Err(ParseError {  }),
    }
}

/// Parses a register name at the start of `input`; the value is the
/// register's id.
pub fn parse_reg<'a>(input: &'a str) -> (r: Result<(&'a str, u32), ParseError>)
    ensures
        complete(r, input@, spec_reg(input@, 0)),
{
    let source = Source::new(input);
    match source.parse_reg(0) {
        Some((end, value)) => Ok((source.rest(end), value)),
        None => Err(ParseError {  }),
    }
}

/// Parses a run of data values at the start of `input`; the run may be
/// empty.
pub fn parse_data_values<'a>(input: &'a str) -> (r: Result<
    (&'a str, Vec<DataValue<'a>>),
    ParseError,
>)
    ensures
        r is Ok,
        r->Ok_0.0@ == input@.skip(spec_data_values(input@, 0).0),
        value_views(r->Ok_0.1@) == spec_data_values(input@, 0).1,
{
    let source = Source::new(input);
    let (end, values) = source.parse_data_values(0);
    Ok((source.rest(end), values))
}

/// Parses a data definition at the start of `input`.
pub fn parse_data_def<'a>(input: &'a str) -> (r: Result<(&'a str, Token<'a>), ParseError>)
    ensures
        complete(r, input@, spec_data_def(input@, 0)),
{
    let source = Source::new(input);
    match source.parse_data_def(0) {
        Some((end, value)) => Ok((source.rest(end), value)),
        None => Err(ParseError {  }),
    }
}

/// Parses one line at the start of `input`: its token, if it has one.
pub fn parse_line<'a>(input: &'a str) -> (r: Result<(&'a str, Option<Token<'a>>), ParseError>)
    ensures
        r is Ok,
        r->Ok_0.0@ == input@.skip(spec_line(input@, 0).0),
        match spec_line(input@, 0).1 {
            Some(token) => r->Ok_0.1 is Some && r->Ok_0.1->Some_0@ == token,
            None => r->Ok_0.1 is None,
        },
{
    let source = Source::new(input);
    let (end, token) = source.parse_line(0);
    Ok((source.rest(end), token))
}

/// The tokens of a program text: those of its lines in order, up to the
/// first text that is neither a line nor a line end.
pub fn tokenize<'a>(input: &'a str) -> (tokens: Vec<Token<'a>>)
    ensures
        token_views(tokens@) == spec_program(input@, 0).1,
{
    let source = Source::new(input);
    let (_, tokens) = source.parse_program(0);
    tokens
}

/// Parses a program: the tokens of its lines, and the rest of the input
/// where reading stopped. A program is never refused: reading stops in
/// front of the first text that is neither a line nor a line end.
pub fn parse_program<'a>(input: &'a str) -> (r: Result<(&'a str, Vec<Token<'a>>), ParseError>)
    ensures
        r is Ok,
        r->Ok_0.0@ == input@.skip(spec_program(input@, 0).0),
        token_views(r->Ok_0.1@) == spec_program(input@, 0).1,
{
    let source = Source::new(input);
    let (end, tokens) = source.parse_program(0);
    Ok((source.rest(end), tokens))
}

/// Parses, at the start of `input`: a string literal: the characters between
/// two double quotes, none of which is a double quote.
pub fn parse_str<'a>(input: &'a str) -> (r: Result<(&'a str, &'a str), ParseError>)
    ensures
        complete(r, input@, spec_str(input@, 0)),
{
    let source = Source::new(input);
    match source.parse_str(0) {
        Some((end, value)) => Ok((source.rest(end), value)),
        None => Err(ParseError {}),
    }
}

/// Parses, at the start of `input`: a label: a dot and a run of letters and
/// digits; the value is the run.
pub fn parse_label<'a>(input: &'a str) -> (r: Result<(&'a str, &'a str), ParseError>)
    ensures
        complete(r, input@, spec_label(input@, 0)),
{
    let source = Source::new(input);
    match source.parse_label(0) {
        Some((end, value)) => Ok((source.rest(end), value)),
        None => Err(ParseError {}),
    }
}

/// Parses, at the start of `input`: an address: an ampersand and a number.
pub fn parse_address<'a>(input: &'a str) -> (r: Result<(&'a str, u32), ParseError>)
    ensures
        complete(r, input@, spec_address(input@, 0)),
{
    let source = Source::new(input);
    match source.parse_address(0) {
        Some((end, value)) => Ok((source.rest(end), value)),
        None => Err(ParseError {}),
    }
}

/// Parses, at the start of `input`: an immediate operand: a number or else a
/// label.
pub fn parse_const_value<'a>(input: &'a str) -> (r: Result<(&'a str, ConstValue<'a>), ParseError>)
    ensures
        complete(r, input@, spec_const_value(input@, 0)),
{
    let source = Source::new(input);
    match source.parse_const_value(0) {
        Some((end, value)) => Ok((source.rest(end), value)),
        None => Err(ParseError {}),
    }
}

/// Parses, at the start of `input`: a directive: `@org` or `@include`.
pub fn parse_meta<'a>(input: &'a str) -> (r: Result<(&'a str, MetaType<'a>), ParseError>)
    ensures
        complete(r, input@, spec_meta(input@, 0)),
{
    let source = Source::new(input);
    match source.parse_meta(0) {
        Some((end, value)) => Ok((source.rest(end), value)),
        None => Err(ParseError {}),
    }
}

/// Parses, at the start of `input`: a section header: a name of letters and
/// digits in square brackets.
pub fn parse_section<'a>(input: &'a str) -> (r: Result<(&'a str, &'a str), ParseError>)
    ensures
        complete(r, input@, spec_section(input@, 0)),
{
    let source = Source::new(input);
    match source.parse_section(0) {
        Some((end, value)) => Ok((source.rest(end), value)),
        None => Err(ParseError {}),
    }
}

/// Parses, at the start of `input`: the width of a data definition: `b`, `w` or
/// `dw`.
pub fn parse_data_type<'a>(input: &'a str) -> (r: Result<(&'a str, DataType), ParseError>)
    ensures
        complete(r, input@, spec_data_type(input@, 0)),
{
    let source = Source::new(input);
    match source.parse_data_type(0) {
        Some((end, value)) => Ok((source.rest(end), value)),
        None => Err(ParseError {}),
    }
}

/// Parses, at the start of `input`: a data identifier: a dollar sign and a run
/// of letters and digits; the value is the run.
pub fn parse_identifier<'a>(input: &'a str) -> (r: Result<(&'a str, &'a str), ParseError>)
    ensures
        complete(r, input@, spec_identifier(input@, 0)),
{
    let source = Source::new(input);
    match source.parse_identifier(0) {
        Some((end, value)) => Ok((source.rest(end), value)),
        None => Err(ParseError {}),
    }
}

/// Parses, at the start of `input`: a data identifier in square brackets, as a
/// push of its address.
pub fn parse_id_address<'a>(input: &'a str) -> (r: Result<(&'a str, Cmd<'a>), ParseError>)
    ensures
        complete(r, input@, spec_id_address(input@, 0)),
{
    let source = Source::new(input);
    match source.parse_id_address(0) {
        Some((end, value)) => Ok((source.rest(end), value)),
        None => Err(ParseError {}),
    }
}

/// Parses, at the start of `input`: a data identifier plus a number.
pub fn parse_id_offset_const<'a>(input: &'a str) -> (r: Result<(&'a str, DataAddressOffset<'a>), ParseError>)
    ensures
        complete(r, input@, spec_id_offset_const(input@, 0)),
{
    let source = Source::new(input);
    match source.parse_id_offset_const(0) {
        Some((end, value)) => Ok((source.rest(end), value)),
        None => Err(ParseError {}),
    }
}

/// Parses, at the start of `input`: a data identifier alone.
pub fn parse_id_offset_zero<'a>(input: &'a str) -> (r: Result<(&'a str, DataAddressOffset<'a>), ParseError>)
    ensures
        complete(r, input@, spec_id_offset_zero(input@, 0)),
{
    let source = Source::new(input);
    match source.parse_id_offset_zero(0) {
        Some((end, value)) => Ok((source.rest(end), value)),
        None => Err(ParseError {}),
    }
}

/// Parses, at the start of `input`: a data identifier plus a register.
pub fn parse_id_offset_reg<'a>(input: &'a str) -> (r: Result<(&'a str, DataAddressOffset<'a>), ParseError>)
    ensures
        complete(r, input@, spec_id_offset_reg(input@, 0)),
{
    let source = Source::new(input);
    match source.parse_id_offset_reg(0) {
        Some((end, value)) => Ok((source.rest(end), value)),
        None => Err(ParseError {}),
    }
}

/// Parses, at the start of `input`: a reference to the value of a data
/// identifier: the identifier, possibly with an offset, in square brackets.
pub fn parse_id_address_with_offset<'a>(input: &'a str) -> (r: Result<(&'a str, DataAddressOffset<'a>), ParseError>)
    ensures
        complete(r, input@, spec_id_address_with_offset(input@, 0)),
{
    let source = Source::new(input);
    match source.parse_id_address_with_offset(0) {
        Some((end, value)) => Ok((source.rest(end), value)),
        None => Err(ParseError {}),
    }
}

/// Parses, at the start of `input`: a register id, an address, or else an
/// immediate operand, each as an immediate operand.
pub fn parse_number_or_const<'a>(input: &'a str) -> (r: Result<(&'a str, ConstValue<'a>), ParseError>)
    ensures
        complete(r, input@, spec_number_or_const(input@, 0)),
{
    let source = Source::new(input);
    match source.parse_number_or_const(0) {
        Some((end, value)) => Ok((source.rest(end), value)),
        None => Err(ParseError {}),
    }
}

/// Parses, at the start of `input`: `push` of the address of a data identifier.
pub fn parse_push_id_address<'a>(input: &'a str) -> (r: Result<(&'a str, Cmd<'a>), ParseError>)
    ensures
        complete(r, input@, spec_push_id_address(input@, 0)),
{
    let source = Source::new(input);
    match source.parse_push_id_address(0) {
        Some((end, value)) => Ok((source.rest(end), value)),
        None => Err(ParseError {}),
    }
}

/// Parses, at the start of `input`: `push` of the value of a data identifier.
pub fn parse_push_id_value<'a>(input: &'a str) -> (r: Result<(&'a str, Cmd<'a>), ParseError>)
    ensures
        complete(r, input@, spec_push_id_value(input@, 0)),
{
    let source = Source::new(input);
    match source.parse_push_id_value(0) {
        Some((end, value)) => Ok((source.rest(end), value)),
        None => Err(ParseError {}),
    }
}

/// Parses, at the start of `input`: `move` of the address of a data identifier
/// to a register.
pub fn parse_move_id_address<'a>(input: &'a str) -> (r: Result<(&'a str, Cmd<'a>), ParseError>)
    ensures
        complete(r, input@, spec_move_id_address(input@, 0)),
{
    let source = Source::new(input);
    match source.parse_move_id_address(0) {
        Some((end, value)) => Ok((source.rest(end), value)),
        None => Err(ParseError {}),
    }
}

/// Parses, at the start of `input`: `move` of the value of a data identifier to
/// a register.
pub fn parse_move_id_value<'a>(input: &'a str) -> (r: Result<(&'a str, Cmd<'a>), ParseError>)
    ensures
        complete(r, input@, spec_move_id_value(input@, 0)),
{
    let source = Source::new(input);
    match source.parse_move_id_value(0) {
        Some((end, value)) => Ok((source.rest(end), value)),
        None => Err(ParseError {}),
    }
}

/// Parses, at the start of `input`: a command: the first of the commands, in
/// their fixed order, that the text at the position spells.
pub fn parse_command<'a>(input: &'a str) -> (r: Result<(&'a str, Cmd<'a>), ParseError>)
    ensures
        complete(r, input@, spec_command(input@, 0)),
{
    let source = Source::new(input);
    match source.parse_command(0) {
        Some((end, value)) => Ok((source.rest(end), value)),
        None => Err(ParseError {}),
    }
}

/// Parses, at the start of `input`: a token: a label, a directive, a command, a
/// section header, or else a data definition.
pub fn parse_token<'a>(input: &'a str) -> (r: Result<(&'a str, Token<'a>), ParseError>)
    ensures
        complete(r, input@, spec_token(input@, 0)),
{
    let source = Source::new(input);
    match source.parse_token(0) {
        Some((end, value)) => Ok((source.rest(end), value)),
        None => Err(ParseError {}),
    }
}

} // verus!
