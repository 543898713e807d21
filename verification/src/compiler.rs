//! The assembler back end: from a token stream to the word stream that the
//! machine executes.
use crate::alu::word;
use crate::opcode::{
    combine_hl, header, lemma_extract_header, spec_extract, Opcode, OpcodeVariant,
};
use crate::parser::{spec_program, tokenize};
use crate::semantics::arity;
use crate::text::{chars_equal, chars_of, eq_ignore_case, same_name};
use crate::tokens::{
    token_views, value_views, Cmd, CmdView, ConstValue, ConstView, DataType, DataValue, DataValueView, MetaType,
    MetaView, Token, TokenView,
};
use vstd::prelude::*;

verus! {

/// Why a token stream cannot be assembled.
#[derive(Debug, Clone, Copy, PartialEq, Eq, Structural)]
pub enum AssemblerError {
    /// A section header names neither `text` nor `data`.
    UnknownSection,
    /// A command or a label stands in the data section, or a data
    /// definition outside it.
    SectionMismatch,
    /// A command refers to a label that no token defines.
    UndefinedLabel,
    /// A command refers to a data identifier that no token defines.
    UndefinedData,
    /// A data value does not fit the width of its definition.
    DataValueOverflow,
}

/// An assembled program: where it is to be loaded, where execution starts,
/// and its words, text first and data after it.
#[derive(Debug)]
pub struct CompiledFrame {
    pub origin: u32,
    pub entry: u32,
    pub binary: Vec<u32>,
}

/// The mathematical content of a [`CompiledFrame`].
pub struct FrameView {
    pub origin: u32,
    pub entry: u32,
    pub binary: Seq<u32>,
}

impl View for CompiledFrame {
    type V = FrameView;

    open spec fn view(&self) -> FrameView {
        FrameView { origin: self.origin, entry: self.entry, binary: self.binary@ }
    }
}

/// One word of the text before addresses are known: a finished word, a
/// reference to a label, or a reference to a data identifier with a
/// constant offset.
#[derive(Debug, Clone, Copy)]
pub enum Slot<'a> {
    Word(u32),
    Label(&'a str),
    Data(&'a str, u32),
}

/// The mathematical content of a [`Slot`].
pub enum SlotView {
    Word(u32),
    Label(Seq<char>),
    Data(Seq<char>, u32),
}

impl<'a> View for Slot<'a> {
    type V = SlotView;

    open spec fn view(&self) -> SlotView {
        match self {
            Slot::Word(w) => SlotView::Word(*w),
            Slot::Label(name) => SlotView::Label(name@),
            Slot::Data(name, offset) => SlotView::Data(name@, *offset),
        }
    }
}

/// The contents of a run of slots.
pub open spec fn slot_views(slots: Seq<Slot>) -> Seq<SlotView> {
    Seq::new(slots.len(), |i: int| slots[i]@)
}

/// The slot of an immediate operand.
pub open spec fn const_slot(value: ConstView) -> SlotView {
    match value {
        ConstView::Number(n) => SlotView::Word(n),
        ConstView::Label(name) => SlotView::Label(name),
    }
}

/// The opcode and the variant that a command is encoded with.
pub open spec fn cmd_header(cmd: CmdView) -> (Opcode, OpcodeVariant) {
    match cmd {
        CmdView::PushConst(_) => (Opcode::Push, OpcodeVariant::PushConst),
        CmdView::PushReg(_) => (Opcode::Push, OpcodeVariant::PushReg),
        CmdView::PushAddr(_) => (Opcode::Push, OpcodeVariant::PushAddr),
        CmdView::PushIdAddress(_) => (Opcode::Push, OpcodeVariant::PushConst),
        CmdView::PushIdValueConst(_, _) => (Opcode::Push, OpcodeVariant::PushAddr),
        CmdView::PushIdValueReg(_, _) => (Opcode::Push, OpcodeVariant::PushAddrOffsetReg),
        CmdView::PopReg(_) => (Opcode::Pop, OpcodeVariant::PopReg),
        CmdView::PopAddr(_) => (Opcode::Pop, OpcodeVariant::PopAddr),
        CmdView::Add => (Opcode::Add, OpcodeVariant::Default),
        CmdView::Drop => (Opcode::Drop, OpcodeVariant::Default),
        CmdView::Sub => (Opcode::Sub, OpcodeVariant::Default),
        CmdView::Swap => (Opcode::Swap, OpcodeVariant::Default),
        CmdView::MoveConst(_, _) => (Opcode::Move, OpcodeVariant::MoveConst),
        CmdView::MoveReg(_, _) => (Opcode::Move, OpcodeVariant::MoveReg),
        CmdView::MoveAddr(_, _) => (Opcode::Move, OpcodeVariant::MoveAddr),
        CmdView::MoveAddrReg(_, _) => (Opcode::Move, OpcodeVariant::MoveAddrReg),
        CmdView::MoveIdAddress(_, _) => (Opcode::Move, OpcodeVariant::MoveConst),
        CmdView::MoveIdValueConst(_, _, _) => (Opcode::Move, OpcodeVariant::MoveAddr),
        CmdView::MoveIdValueReg(_, _, _) => (Opcode::Move, OpcodeVariant::MoveAddrOffsetReg),
        CmdView::StoreConst(_, _) => (Opcode::Store, OpcodeVariant::StoreConst),
        CmdView::StoreReg(_, _) => (Opcode::Store, OpcodeVariant::StoreReg),
        CmdView::Jmp(_) => (Opcode::Jump, OpcodeVariant::Default),
        CmdView::Jnz(_) => (Opcode::Jump, OpcodeVariant::JumpNotZero),
        CmdView::Jz(_) => (Opcode::Jump, OpcodeVariant::JumpZero),
        CmdView::Jg(_) => (Opcode::Jump, OpcodeVariant::JumpGreater),
        CmdView::Jge(_) => (Opcode::Jump, OpcodeVariant::JumpGreaterEqual),
        CmdView::Jl(_) => (Opcode::Jump, OpcodeVariant::JumpLesser),
        CmdView::Jle(_) => (Opcode::Jump, OpcodeVariant::JumpLesserEqual),
        CmdView::And => (Opcode::And, OpcodeVariant::Default),
        CmdView::Or => (Opcode::Or, OpcodeVariant::Default),
        CmdView::Xor => (Opcode::Xor, OpcodeVariant::Default),
        CmdView::Not => (Opcode::Not, OpcodeVariant::Default),
        CmdView::Mul => (Opcode::Mul, OpcodeVariant::Default),
        CmdView::Div => (Opcode::Div, OpcodeVariant::Default),
        CmdView::Inc(_) => (Opcode::Inc, OpcodeVariant::Default),
        CmdView::Dec(_) => (Opcode::Dec, OpcodeVariant::Default),
        CmdView::ShrConst(_) => (Opcode::SHR, OpcodeVariant::SHRConst),
        CmdView::ShrReg(_) => (Opcode::SHR, OpcodeVariant::SHRReg),
        CmdView::ShlConst(_) => (Opcode::SHL, OpcodeVariant::SHLConst),
        CmdView::ShlReg(_) => (Opcode::SHL, OpcodeVariant::SHLReg),
        CmdView::CallConst(_) => (Opcode::Call, OpcodeVariant::CallConst),
        CmdView::CallReg(_) => (Opcode::Call, OpcodeVariant::CallReg),
        CmdView::CallAddr(_) => (Opcode::Call, OpcodeVariant::CallAddr),
        CmdView::SafeCallConst(_) => (Opcode::SafeCall, OpcodeVariant::SafeCallConst),
        CmdView::SafeCallReg(_) => (Opcode::SafeCall, OpcodeVariant::SafeCallReg),
        CmdView::SafeCallAddr(_) => (Opcode::SafeCall, OpcodeVariant::SafeCallAddr),
        CmdView::Ret => (Opcode::Ret, OpcodeVariant::Default),
        CmdView::Dup => (Opcode::Dup, OpcodeVariant::Default),
        CmdView::DupConst(_) => (Opcode::Dup, OpcodeVariant::DupConst),
        CmdView::DupReg(_) => (Opcode::Dup, OpcodeVariant::DupReg),
        CmdView::Int(_, _) => (Opcode::Int, OpcodeVariant::Default),
        CmdView::Term => (Opcode::Terminate, OpcodeVariant::Default),
    }
}

/// The operand slots that follow the header of a command, in order.
pub open spec fn cmd_operands(cmd: CmdView) -> Seq<SlotView> {
    match cmd {
        CmdView::PushConst(value) | CmdView::CallConst(value) | CmdView::SafeCallConst(value) => seq![
            const_slot(value),
        ],
        CmdView::PushReg(x)
        | CmdView::PushAddr(x)
        | CmdView::PopReg(x)
        | CmdView::PopAddr(x)
        | CmdView::Inc(x)
        | CmdView::Dec(x)
        | CmdView::ShrConst(x)
        | CmdView::ShrReg(x)
        | CmdView::ShlConst(x)
        | CmdView::ShlReg(x)
        | CmdView::CallReg(x)
        | CmdView::CallAddr(x)
        | CmdView::SafeCallReg(x)
        | CmdView::SafeCallAddr(x)
        | CmdView::DupConst(x)
        | CmdView::DupReg(x) => seq![SlotView::Word(x)],
        CmdView::PushIdAddress(id) => seq![SlotView::Data(id, 0)],
        CmdView::PushIdValueConst(id, offset) => seq![SlotView::Data(id, offset)],
        CmdView::PushIdValueReg(id, reg) => seq![SlotView::Data(id, 0), SlotView::Word(reg)],
        CmdView::MoveConst(x, value) | CmdView::StoreConst(x, value) => seq![
            SlotView::Word(x),
            const_slot(value),
        ],
        CmdView::MoveReg(x, y)
        | CmdView::MoveAddr(x, y)
        | CmdView::MoveAddrReg(x, y)
        | CmdView::StoreReg(x, y)
        | CmdView::Int(x, y) => seq![SlotView::Word(x), SlotView::Word(y)],
        CmdView::MoveIdAddress(reg, id) => seq![SlotView::Word(reg), SlotView::Data(id, 0)],
        CmdView::MoveIdValueConst(reg, id, offset) => seq![SlotView::Word(reg), SlotView::Data(id, offset)],
        CmdView::MoveIdValueReg(reg, id, index) => seq![
            SlotView::Word(reg),
            SlotView::Data(id, 0),
            SlotView::Word(index),
        ],
        CmdView::Jmp(label)
        | CmdView::Jnz(label)
        | CmdView::Jz(label)
        | CmdView::Jg(label)
        | CmdView::Jge(label)
        | CmdView::Jl(label)
        | CmdView::Jle(label) => seq![SlotView::Label(label)],
        CmdView::Add
        | CmdView::Drop
        | CmdView::Sub
        | CmdView::Swap
        | CmdView::And
        | CmdView::Or
        | CmdView::Xor
        | CmdView::Not
        | CmdView::Mul
        | CmdView::Div
        | CmdView::Ret
        | CmdView::Dup
        | CmdView::Term => Seq::empty(),
    }
}

/// The slots a command emits: its header word, then its operands.
pub open spec fn cmd_slots(cmd: CmdView) -> Seq<SlotView> {
    seq![SlotView::Word(header(cmd_header(cmd).0, cmd_header(cmd).1))] + cmd_operands(cmd)
}

/// The word of four bytes, the first in the highest place.
pub open spec fn byte_word(b1: u8, b2: u8, b3: u8, b4: u8) -> u32 {
    ((b1 as u32) << 24) | ((b2 as u32) << 16) | ((b3 as u32) << 8) | (b4 as u32)
}

/// The word of two 16-bit values, the first in the high half.
pub open spec fn half_word(high: u16, low: u16) -> u32 {
    ((high as u32) << 16) | (low as u32)
}

/// The byte at `i`, or zero past the end.
pub open spec fn byte_at(v: Seq<u8>, i: int) -> u8 {
    if 0 <= i < v.len() {
        v[i]
    } else {
        0
    }
}

/// The 16-bit value at `i`, or zero past the end.
pub open spec fn half_at(v: Seq<u16>, i: int) -> u16 {
    if 0 <= i < v.len() {
        v[i]
    } else {
        0
    }
}

/// Bytes packed four to a word, the first byte of each word in the highest
/// place; the last word is filled up with zero bytes.
pub open spec fn spec_pack_u8(v: Seq<u8>) -> Seq<u32> {
    Seq::new(
        ((v.len() + 3) / 4) as nat,
        |i: int|
            byte_word(
                byte_at(v, 4 * i),
                byte_at(v, 4 * i + 1),
                byte_at(v, 4 * i + 2),
                byte_at(v, 4 * i + 3),
            ),
    )
}

/// 16-bit values packed two to a word, the first of each word in the high
/// half; the last word is filled up with a zero.
pub open spec fn spec_pack_u16(v: Seq<u16>) -> Seq<u32> {
    Seq::new(
        ((v.len() + 1) / 2) as nat,
        |i: int| half_word(half_at(v, 2 * i), half_at(v, 2 * i + 1)),
    )
}

/// Packs 16-bit values two to a word, high half first.
pub fn pack_u16_to_u32(v: Vec<u16>) -> (out: Vec<u32>)
    ensures
        out@ == spec_pack_u16(v@),
{
    let mut out: Vec<u32> = Vec::new();
    let mut i: usize = 0;
    while i < v.len()
        invariant
            i <= v.len(),
            i % 2 == 0,
            out.len() == i / 2,
            forall|j: int| 0 <= j < out.len() ==> out@[j] == spec_pack_u16(v@)[j],
        decreases v.len() - i,
    {
        let high = v[i];
        if v.len() - i >= 2 {
            let low = v[i + 1];
            out.push(((high as u32) << 16) | (low as u32));
            i += 2;
        } else {
            out.push(((high as u32) << 16) | (0u16 as u32));
            i = v.len();
            assert(out@ =~= spec_pack_u16(v@));
            return out;
        }
    }
    assert(out@ =~= spec_pack_u16(v@));
    out
}

/// Packs bytes four to a word, big-endian within the word.
pub fn pack_u8_to_u32(v: Vec<u8>) -> (out: Vec<u32>)
    ensures
        out@ == spec_pack_u8(v@),
{
    let mut out: Vec<u32> = Vec::new();
    let mut i: usize = 0;
    while i < v.len()
        invariant
            i <= v.len(),
            i % 4 == 0,
            out.len() == i / 4,
            forall|j: int| 0 <= j < out.len() ==> out@[j] == spec_pack_u8(v@)[j],
        decreases v.len() - i,
    {
        let left = v.len() - i;
        let b1 = v[i];
        let b2 = if left >= 2 {
            v[i + 1]
        } else {
            0
        };
        let b3 = if left >= 3 {
            v[i + 2]
        } else {
            0
        };
        let b4 = if left >= 4 {
            v[i + 3]
        } else {
            0
        };
        out.push(((b1 as u32) << 24) | ((b2 as u32) << 16) | ((b3 as u32) << 8) | (b4 as u32));
        if left > 4 {
            i += 4;
        } else {
            assert(out@ =~= spec_pack_u8(v@));
            return out;
        }
    }
    assert(out@ =~= spec_pack_u8(v@));
    out
}

/// The largest number a data value of the given width may be.
pub open spec fn unit_limit(typ: DataType) -> u32 {
    match typ {
        DataType::Byte => 0xff,
        DataType::Word => 0xffff,
        DataType::DoubleWord => 0xffff_ffff,
    }
}

/// The value a character of a string stands for in a data definition of
/// the given width: its number, cut to that width.
pub open spec fn char_unit(c: char, typ: DataType) -> u32 {
    match typ {
        DataType::Byte => (c as u32 % 0x100) as u32,
        DataType::Word => (c as u32 % 0x1_0000) as u32,
        DataType::DoubleWord => c as u32,
    }
}

/// The values one item of a data definition stands for: the number
/// itself, if it fits the width, or one value for each character of the
/// string.
pub open spec fn value_units(value: DataValueView, typ: DataType) -> Option<Seq<u32>> {
    match value {
        DataValueView::Number(n) => if n <= unit_limit(typ) {
            Some(seq![n])
        } else {
            None
        },
        DataValueView::Text(s) => Some(Seq::new(s.len(), |i: int| char_unit(s[i], typ))),
    }
}

/// The values of all items of a data definition in order, or `None` when
/// a number does not fit the width.
pub open spec fn data_units(values: Seq<DataValueView>, typ: DataType) -> Option<Seq<u32>>
    decreases values.len(),
{
    if values.len() == 0 {
        Some(Seq::empty())
    } else {
        match (data_units(values.drop_last(), typ), value_units(values.last(), typ)) {
            (Some(before), Some(units)) => Some(before + units),
            _ => None,
        }
    }
}

/// The words of a data definition: its values packed by their width.
pub open spec fn blob(typ: DataType, values: Seq<DataValueView>) -> Option<Seq<u32>> {
    match data_units(values, typ) {
        None => None,
        Some(units) => Some(
            match typ {
                DataType::Byte => spec_pack_u8(Seq::new(units.len(), |i: int| units[i] as u8)),
                DataType::Word => spec_pack_u16(Seq::new(units.len(), |i: int| units[i] as u16)),
                DataType::DoubleWord => units,
            },
        ),
    }
}

/// What the assembler knows after a run of tokens.
pub struct Scan {
    /// The origin; the last `Org` directive sets it.
    pub origin: u32,
    /// The name of the current section, if a section header was seen.
    pub section: Option<Seq<char>>,
    /// The text so far.
    pub slots: Seq<SlotView>,
    /// The names of the labels, in the order of their definitions.
    pub label_names: Seq<Seq<char>>,
    /// For each label, the position in the text that it names.
    pub label_offsets: Seq<usize>,
    /// The names of the data definitions, in the order of their definitions.
    pub blob_names: Seq<Seq<char>>,
    /// For each data definition, its packed words.
    pub blobs: Seq<Seq<u32>>,
}

impl Scan {
    /// The validity of what the assembler knows: every label has its
    /// position and every data identifier its blob.
    pub open spec fn wf(self) -> bool {
        &&& self.label_names.len() == self.label_offsets.len()
        &&& self.blob_names.len() == self.blobs.len()
    }
}

/// Whether a token for the section `target` may stand where the current
/// section is `current`. Before the first section header the current
/// section is the text.
pub open spec fn in_section(target: Seq<char>, current: Option<Seq<char>>) -> bool {
    match current {
        Some(name) => same_name(target, name),
        None => same_name(target, "text"@),
    }
}

/// The name behind an optional section name.
pub open spec fn section_view(current: Option<&str>) -> Option<Seq<char>> {
    match current {
        Some(name) => Some(name@),
        None => None,
    }
}

/// What the assembler knows before the first token.
pub open spec fn scan_start() -> Scan {
    Scan {
        origin: 0,
        section: None,
        slots: Seq::empty(),
        label_names: Seq::empty(),
        label_offsets: Seq::empty(),
        blob_names: Seq::empty(),
        blobs: Seq::empty(),
    }
}

/// What one more token adds to what the assembler knows, or the error the
/// token meets.
pub open spec fn scan_token(st: Scan, token: TokenView) -> Result<Scan, AssemblerError> {
    match token {
        TokenView::Meta(MetaView::Org(n)) => Ok(Scan { origin: n, ..st }),
        TokenView::Meta(MetaView::Include(_)) => Ok(st),
        TokenView::Section(name) => if same_name(name, "text"@) || same_name(name, "data"@) {
            Ok(Scan { section: Some(name), ..st })
        } else {
            Err(AssemblerError::UnknownSection)
        },
        TokenView::Label(name) => if in_section("text"@, st.section) {
            Ok(
                Scan {
                    label_names: st.label_names.push(name),
                    label_offsets: st.label_offsets.push(st.slots.len() as usize),
                    ..st
                },
            )
        } else {
            Err(AssemblerError::SectionMismatch)
        },
        TokenView::Command(cmd) => if in_section("text"@, st.section) {
            Ok(Scan { slots: st.slots + cmd_slots(cmd), ..st })
        } else {
            Err(AssemblerError::SectionMismatch)
        },
        TokenView::DataDef(id, typ, values) => if !in_section("data"@, st.section) {
            Err(AssemblerError::SectionMismatch)
        } else {
            match blob(typ, values) {
                Some(words) => Ok(
                    Scan {
                        blob_names: st.blob_names.push(id),
                        blobs: st.blobs.push(words),
                        ..st
                    },
                ),
                None => Err(AssemblerError::DataValueOverflow),
            }
        },
    }
}

/// What the assembler knows after all of `tokens`, or the error of the
/// first token that meets one.
pub open spec fn scan(tokens: Seq<TokenView>) -> Result<Scan, AssemblerError>
    decreases tokens.len(),
{
    if tokens.len() == 0 {
        Ok(scan_start())
    } else {
        match scan(tokens.drop_last()) {
            Ok(st) => scan_token(st, tokens.last()),
            Err(e) => Err(e),
        }
    }
}

/// The index of the last definition of `name`, if there is one: a later
/// definition of a name replaces an earlier one.
pub open spec fn last_named(names: Seq<Seq<char>>, name: Seq<char>) -> Option<int>
    decreases names.len(),
{
    if names.len() == 0 {
        None
    } else if names.last() == name {
        Some(names.len() - 1)
    } else {
        last_named(names.drop_last(), name)
    }
}

/// The number of words of all blobs together.
pub open spec fn total_len(blobs: Seq<Seq<u32>>) -> nat
    decreases blobs.len(),
{
    if blobs.len() == 0 {
        0
    } else {
        total_len(blobs.drop_last()) + blobs.last().len()
    }
}

/// The words of all blobs, one blob after the other.
pub open spec fn all_words(blobs: Seq<Seq<u32>>) -> Seq<u32>
    decreases blobs.len(),
{
    if blobs.len() == 0 {
        Seq::empty()
    } else {
        all_words(blobs.drop_last()) + blobs.last()
    }
}

/// The address a label stands for: the origin plus its position in the
/// text, as a word.
pub open spec fn label_address(st: Scan, name: Seq<char>) -> Option<u32> {
    match last_named(st.label_names, name) {
        Some(i) => Some(word(st.origin + st.label_offsets[i])),
        None => None,
    }
}

/// The address a data identifier stands for: the origin plus the index of
/// the first word of its blob in the binary, as a word. The blobs follow
/// the text in the order of their definitions.
pub open spec fn data_address(st: Scan, name: Seq<char>) -> Option<u32> {
    match last_named(st.blob_names, name) {
        Some(i) => Some(word(st.origin + st.slots.len() + total_len(st.blobs.take(i)))),
        None => None,
    }
}

/// The final word of a slot, or `None` when it refers to a name that is
/// not defined.
pub open spec fn resolved(st: Scan, slot: SlotView) -> Option<u32> {
    match slot {
        SlotView::Word(w) => Some(w),
        SlotView::Label(name) => label_address(st, name),
        SlotView::Data(name, offset) => match data_address(st, name) {
            Some(address) => Some(word(address + offset)),
            None => None,
        },
    }
}

/// Whether some slot refers to a label that is not defined.
pub open spec fn label_missing(st: Scan) -> bool {
    exists|i: int|
        0 <= i < st.slots.len() && (#[trigger] st.slots[i]) is Label && resolved(
            st,
            st.slots[i],
        ) is None
}

/// Whether some slot refers to a data identifier that is not defined.
pub open spec fn data_missing(st: Scan) -> bool {
    exists|i: int|
        0 <= i < st.slots.len() && (#[trigger] st.slots[i]) is Data && resolved(
            st,
            st.slots[i],
        ) is None
}

/// The frame that comes of what the assembler knows after the last token:
/// every slot of the text as its final word, then the blobs. The entry is
/// the origin.
pub open spec fn link(st: Scan) -> Result<FrameView, AssemblerError> {
    if label_missing(st) {
        Err(AssemblerError::UndefinedLabel)
    } else if data_missing(st) {
        Err(AssemblerError::UndefinedData)
    } else {
        Ok(
            FrameView {
                origin: st.origin,
                entry: st.origin,
                binary: Seq::new(st.slots.len(), |i: int| resolved(st, st.slots[i]).unwrap())
                    + all_words(st.blobs),
            },
        )
    }
}

/// The frame a token stream assembles to, or the error that stops the
/// assembly: that of the first token that meets one, else
/// `UndefinedLabel`, else `UndefinedData`.
pub open spec fn assemble(tokens: Seq<TokenView>) -> Result<FrameView, AssemblerError> {
    match scan(tokens) {
        Ok(st) => link(st),
        Err(e) => Err(e),
    }
}

/// The views of a run of vectors.
pub open spec fn views<T>(v: Seq<Vec<T>>) -> Seq<Seq<T>> {
    Seq::new(v.len(), |i: int| v[i]@)
}

/// Checks that a token for the section `target` may stand in the current
/// section; before the first section header the current section is the
/// text. Names are compared without regard to case.
pub fn check_section(target: &str, current: &Option<&str>) -> (r: Result<(), AssemblerError>)
    ensures
        in_section(target@, section_view(*current)) ==> r is Ok,
        !in_section(target@, section_view(*current)) ==> r == Err::<(), AssemblerError>(
            AssemblerError::SectionMismatch,
        ),
{
    let fits = match current {
        Some(name) => eq_ignore_case(target, name),
        None => eq_ignore_case(target, "text"),
    };
    if fits {
        Ok(())
    } else {
        Err(AssemblerError::SectionMismatch)
    }
}

fn const_slot_of<'a>(value: ConstValue<'a>) -> (slot: Slot<'a>)
    ensures
        slot@ == const_slot(value@),
{
    match value {
        ConstValue::Number(n) => Slot::Word(n),
        ConstValue::Label(name) => Slot::Label(name),
    }
}

fn header_of(cmd: Cmd) -> (r: (Opcode, OpcodeVariant))
    ensures
        r == cmd_header(cmd@),
{
    match cmd {
        Cmd::PushConst(_) => (Opcode::Push, OpcodeVariant::PushConst),
        Cmd::PushReg(_) => (Opcode::Push, OpcodeVariant::PushReg),
        Cmd::PushAddr(_) => (Opcode::Push, OpcodeVariant::PushAddr),
        Cmd::PushIdAddress(_) => (Opcode::Push, OpcodeVariant::PushConst),
        Cmd::PushIdValueConst(_, _) => (Opcode::Push, OpcodeVariant::PushAddr),
        Cmd::PushIdValueReg(_, _) => (Opcode::Push, OpcodeVariant::PushAddrOffsetReg),
        Cmd::PopReg(_) => (Opcode::Pop, OpcodeVariant::PopReg),
        Cmd::PopAddr(_) => (Opcode::Pop, OpcodeVariant::PopAddr),
        Cmd::Add => (Opcode::Add, OpcodeVariant::Default),
        Cmd::Drop => (Opcode::Drop, OpcodeVariant::Default),
        Cmd::Sub => (Opcode::Sub, OpcodeVariant::Default),
        Cmd::Swap => (Opcode::Swap, OpcodeVariant::Default),
        Cmd::MoveConst(_, _) => (Opcode::Move, OpcodeVariant::MoveConst),
        Cmd::MoveReg(_, _) => (Opcode::Move, OpcodeVariant::MoveReg),
        Cmd::MoveAddr(_, _) => (Opcode::Move, OpcodeVariant::MoveAddr),
        Cmd::MoveAddrReg(_, _) => (Opcode::Move, OpcodeVariant::MoveAddrReg),
        Cmd::MoveIdAddress(_, _) => (Opcode::Move, OpcodeVariant::MoveConst),
        Cmd::MoveIdValueConst(_, _, _) => (Opcode::Move, OpcodeVariant::MoveAddr),
        Cmd::MoveIdValueReg(_, _, _) => (Opcode::Move, OpcodeVariant::MoveAddrOffsetReg),
        Cmd::StoreConst(_, _) => (Opcode::Store, OpcodeVariant::StoreConst),
        Cmd::StoreReg(_, _) => (Opcode::Store, OpcodeVariant::StoreReg),
        Cmd::Jmp(_) => (Opcode::Jump, OpcodeVariant::Default),
        Cmd::Jnz(_) => (Opcode::Jump, OpcodeVariant::JumpNotZero),
        Cmd::Jz(_) => (Opcode::Jump, OpcodeVariant::JumpZero),
        Cmd::Jg(_) => (Opcode::Jump, OpcodeVariant::JumpGreater),
        Cmd::Jge(_) => (Opcode::Jump, OpcodeVariant::JumpGreaterEqual),
        Cmd::Jl(_) => (Opcode::Jump, OpcodeVariant::JumpLesser),
        Cmd::Jle(_) => (Opcode::Jump, OpcodeVariant::JumpLesserEqual),
        Cmd::And => (Opcode::And, OpcodeVariant::Default),
        Cmd::Or => (Opcode::Or, OpcodeVariant::Default),
        Cmd::Xor => (Opcode::Xor, OpcodeVariant::Default),
        Cmd::Not => (Opcode::Not, OpcodeVariant::Default),
        Cmd::Mul => (Opcode::Mul, OpcodeVariant::Default),
        Cmd::Div => (Opcode::Div, OpcodeVariant::Default),
        Cmd::Inc(_) => (Opcode::Inc, OpcodeVariant::Default),
        Cmd::Dec(_) => (Opcode::Dec, OpcodeVariant::Default),
        Cmd::ShrConst(_) => (Opcode::SHR, OpcodeVariant::SHRConst),
        Cmd::ShrReg(_) => (Opcode::SHR, OpcodeVariant::SHRReg),
        Cmd::ShlConst(_) => (Opcode::SHL, OpcodeVariant::SHLConst),
        Cmd::ShlReg(_) => (Opcode::SHL, OpcodeVariant::SHLReg),
        Cmd::CallConst(_) => (Opcode::Call, OpcodeVariant::CallConst),
        Cmd::CallReg(_) => (Opcode::Call, OpcodeVariant::CallReg),
        Cmd::CallAddr(_) => (Opcode::Call, OpcodeVariant::CallAddr),
        Cmd::SafeCallConst(_) => (Opcode::SafeCall, OpcodeVariant::SafeCallConst),
        Cmd::SafeCallReg(_) => (Opcode::SafeCall, OpcodeVariant::SafeCallReg),
        Cmd::SafeCallAddr(_) => (Opcode::SafeCall, OpcodeVariant::SafeCallAddr),
        Cmd::Ret => (Opcode::Ret, OpcodeVariant::Default),
        Cmd::Dup => (Opcode::Dup, OpcodeVariant::Default),
        Cmd::DupConst(_) => (Opcode::Dup, OpcodeVariant::DupConst),
        Cmd::DupReg(_) => (Opcode::Dup, OpcodeVariant::DupReg),
        Cmd::Int(_, _) => (Opcode::Int, OpcodeVariant::Default),
        Cmd::Term => (Opcode::Terminate, OpcodeVariant::Default),
    }
}

/// Appends the slots of a command to the text: the header word, then one
/// slot for each operand.
pub fn emit<'a>(cmd: Cmd<'a>, slots: &mut Vec<Slot<'a>>)
    ensures
        slot_views(final(slots)@) == slot_views(old(slots)@) + cmd_slots(cmd@),
{
    let (opcode, variant) = header_of(cmd);
    slots.push(Slot::Word(combine_hl(opcode.code(), variant.code())));
    match cmd {
        Cmd::PushConst(value) | Cmd::CallConst(value) | Cmd::SafeCallConst(value) => {
            slots.push(const_slot_of(value));
        },
        Cmd::PushReg(x)
        | Cmd::PushAddr(x)
        | Cmd::PopReg(x)
        | Cmd::PopAddr(x)
        | Cmd::Inc(x)
        | Cmd::Dec(x)
        | Cmd::ShrConst(x)
        | Cmd::ShrReg(x)
        | Cmd::ShlConst(x)
        | Cmd::ShlReg(x)
        | Cmd::CallReg(x)
        | Cmd::CallAddr(x)
        | Cmd::SafeCallReg(x)
        | Cmd::SafeCallAddr(x)
        | Cmd::DupConst(x)
        | Cmd::DupReg(x) => {
            slots.push(Slot::Word(x));
        },
        Cmd::PushIdAddress(id) => {
            slots.push(Slot::Data(id, 0));
        },
        Cmd::PushIdValueConst(id, offset) => {
            slots.push(Slot::Data(id, offset));
        },
        Cmd::PushIdValueReg(id, reg) => {
            slots.push(Slot::Data(id, 0));
            slots.push(Slot::Word(reg));
        },
        Cmd::MoveConst(x, value) | Cmd::StoreConst(x, value) => {
            slots.push(Slot::Word(x));
            slots.push(const_slot_of(value));
        },
        Cmd::MoveReg(x, y)
        | Cmd::MoveAddr(x, y)
        | Cmd::MoveAddrReg(x, y)
        | Cmd::StoreReg(x, y)
        | Cmd::Int(x, y) => {
            slots.push(Slot::Word(x));
            slots.push(Slot::Word(y));
        },
        Cmd::MoveIdAddress(reg, id) => {
            slots.push(Slot::Word(reg));
            slots.push(Slot::Data(id, 0));
        },
        Cmd::MoveIdValueConst(reg, id, offset) => {
            slots.push(Slot::Word(reg));
            slots.push(Slot::Data(id, offset));
        },
        Cmd::MoveIdValueReg(reg, id, index) => {
            slots.push(Slot::Word(reg));
            slots.push(Slot::Data(id, 0));
            slots.push(Slot::Word(index));
        },
        Cmd::Jmp(label)
        | Cmd::Jnz(label)
        | Cmd::Jz(label)
        | Cmd::Jg(label)
        | Cmd::Jge(label)
        | Cmd::Jl(label)
        | Cmd::Jle(label) => {
            slots.push(Slot::Label(label));
        },
        _ => {},
    }
    assert(slot_views(slots@) =~= slot_views(old(slots)@) + cmd_slots(cmd@));
}

/// Adding under `word` may be done on words: the low 32 bits of a sum
/// depend only on the low 32 bits of its parts.
pub proof fn lemma_word_absorb(a: int, b: int)
    requires
        a >= 0,
        b >= 0,
    ensures
        word(word(a) + b) == word(a + b),
        word(a + word(b)) == word(a + b),
        0 <= a <= u32::MAX ==> word(a) == a,
{
    vstd::arithmetic::div_mod::lemma_add_mod_noop(a, b, 0x1_0000_0000);
    vstd::arithmetic::div_mod::lemma_mod_twice(a, 0x1_0000_0000);
    vstd::arithmetic::div_mod::lemma_mod_twice(b, 0x1_0000_0000);
    vstd::arithmetic::div_mod::lemma_add_mod_noop(a % 0x1_0000_0000, b, 0x1_0000_0000);
    vstd::arithmetic::div_mod::lemma_add_mod_noop(a, b % 0x1_0000_0000, 0x1_0000_0000);
}

/// A run of data values that fails to fit on a prefix fails as a whole.
proof fn lemma_units_prefix(values: Seq<DataValueView>, typ: DataType, k: int)
    requires
        0 <= k <= values.len(),
        data_units(values.take(k), typ) is None,
    ensures
        data_units(values, typ) is None,
    decreases values.len() - k,
{
    if k == values.len() {
        assert(values.take(k) =~= values);
    } else {
        assert(values.take(k + 1).drop_last() =~= values.take(k));
        lemma_units_prefix(values, typ, k + 1);
    }
}

/// The error of a prefix of a token stream is the error of the stream.
proof fn lemma_scan_prefix(tokens: Seq<TokenView>, k: int)
    requires
        0 <= k <= tokens.len(),
        scan(tokens.take(k)) is Err,
    ensures
        scan(tokens) == scan(tokens.take(k)),
    decreases tokens.len() - k,
{
    if k == tokens.len() {
        assert(tokens.take(k) =~= tokens);
    } else {
        assert(tokens.take(k + 1).drop_last() =~= tokens.take(k));
        lemma_scan_prefix(tokens, k + 1);
    }
}

/// The word `base + n`, wrapped.
fn offset_word(base: u32, n: usize) -> (r: u32)
    ensures
        r == word(base + n),
{
    let low = (n as u64 % 0x1_0000_0000) as u32;
    proof {
        lemma_word_absorb(base as int, n as int);
    }
    base.wrapping_add(low)
}

fn char_unit_of(c: char, typ: DataType) -> (u: u32)
    ensures
        u == char_unit(c, typ),
{
    let code = c as u32;
    match typ {
        DataType::Byte => code % 0x100,
        DataType::Word => code % 0x1_0000,
        DataType::DoubleWord => code,
    }
}

/// The values of the items of a data definition, or `None` when a number
/// does not fit the width.
fn collect_units(values: &Vec<DataValue>, typ: DataType) -> (r: Option<Vec<u32>>)
    ensures
        match data_units(value_views(values@), typ) {
            Some(units) => r is Some && r->Some_0@ == units,
            None => r is None,
        },
{
    let ghost all = value_views(values@);
    let limit: u32 = match typ {
        DataType::Byte => 0xff,
        DataType::Word => 0xffff,
        DataType::DoubleWord => 0xffff_ffff,
    };
    let mut out: Vec<u32> = Vec::new();
    let mut i: usize = 0;
    while i < values.len()
        invariant
            i <= values.len(),
            limit == unit_limit(typ),
            all == value_views(values@),
            data_units(all.take(i as int), typ) == Some(out@),
        decreases values.len() - i,
    {
        proof {
            assert(all.take(i + 1).drop_last() =~= all.take(i as int));
            assert(all.take(i + 1).last() == values@[i as int]@);
        }
        let ghost before = out@;
        match &values[i] {
            DataValue::Number(n) => {
                if *n > limit {
                    proof {
                        lemma_units_prefix(all, typ, i + 1);
                    }
                    return None;
                }
                out.push(*n);
                assert(out@ =~= before + seq![*n]);
            },
            DataValue::String(s) => {
                let chars = chars_of(s);
                let mut k: usize = 0;
                while k < chars.len()
                    invariant
                        k <= chars.len(),
                        chars@ == s@,
                        out@ == before + Seq::new(k as nat, |j: int| char_unit(s@[j], typ)),
                    decreases chars.len() - k,
                {
                    out.push(char_unit_of(chars[k], typ));
                    k += 1;
                    assert(out@ =~= before + Seq::new(k as nat, |j: int| char_unit(s@[j], typ)));
                }
            },
        }
        i += 1;
    }
    assert(all.take(i as int) =~= all);
    Some(out)
}

/// The words of a data definition, or `None` when a number does not fit
/// the width.
pub fn build_blob(typ: DataType, values: &Vec<DataValue>) -> (r: Option<Vec<u32>>)
    ensures
        match blob(typ, value_views(values@)) {
            Some(words) => r is Some && r->Some_0@ == words,
            None => r is None,
        },
{
    let units = match collect_units(values, typ) {
        Some(units) => units,
        None => {
            return None;
        },
    };
    match typ {
        DataType::Byte => {
            let mut bytes: Vec<u8> = Vec::new();
            let mut i: usize = 0;
            while i < units.len()
                invariant
                    i <= units.len(),
                    bytes@ == Seq::new(i as nat, |j: int| units@[j] as u8),
                decreases units.len() - i,
            {
                bytes.push(#[verifier::truncate] (units[i] as u8));
                i += 1;
                assert(bytes@ =~= Seq::new(i as nat, |j: int| units@[j] as u8));
            }
            Some(pack_u8_to_u32(bytes))
        },
        DataType::Word => {
            let mut halves: Vec<u16> = Vec::new();
            let mut i: usize = 0;
            while i < units.len()
                invariant
                    i <= units.len(),
                    halves@ == Seq::new(i as nat, |j: int| units@[j] as u16),
                decreases units.len() - i,
            {
                halves.push(#[verifier::truncate] (units[i] as u16));
                i += 1;
                assert(halves@ =~= Seq::new(i as nat, |j: int| units@[j] as u16));
            }
            Some(pack_u16_to_u32(halves))
        },
        DataType::DoubleWord => Some(units),
    }
}

/// The index of the last of `names` that equals `name`.
fn find_last(names: &Vec<Vec<char>>, name: &Vec<char>) -> (r: Option<usize>)
    ensures
        match last_named(views(names@), name@) {
            Some(i) => r == Some(i as usize) && 0 <= i < names.len(),
            None => r is None,
        },
{
    let ghost all = views(names@);
    let mut i: usize = names.len();
    assert(all.take(i as int) =~= all);
    while i > 0
        invariant
            i <= names.len(),
            all == views(names@),
            last_named(all, name@) == last_named(all.take(i as int), name@),
        decreases i,
    {
        i -= 1;
        assert(all.take(i + 1).drop_last() =~= all.take(i as int));
        assert(all.take(i + 1).last() == names@[i as int]@);
        if chars_equal(&names[i], name) {
            return Some(i);
        }
    }
    None
}

/// The state of an assembly in progress.
struct Assembler<'a> {
    origin: u32,
    section: Option<&'a str>,
    slots: Vec<Slot<'a>>,
    label_names: Vec<Vec<char>>,
    label_offsets: Vec<usize>,
    blob_names: Vec<Vec<char>>,
    blobs: Vec<Vec<u32>>,
}

impl<'a> Assembler<'a> {
    /// What the assembler knows so far.
    spec fn view(&self) -> Scan {
        Scan {
            origin: self.origin,
            section: section_view(self.section),
            slots: slot_views(self.slots@),
            label_names: views(self.label_names@),
            label_offsets: self.label_offsets@,
            blob_names: views(self.blob_names@),
            blobs: views(self.blobs@),
        }
    }

    /// An assembler that has seen no token.
    fn new() -> (a: Self)
        ensures
            a@ == scan_start(),
            a@.wf(),
    {
        let a = Assembler {
            origin: 0,
            section: None,
            slots: Vec::new(),
            label_names: Vec::new(),
            label_offsets: Vec::new(),
            blob_names: Vec::new(),
            blobs: Vec::new(),
        };
        assert(views(a.label_names@) =~= Seq::<Seq<char>>::empty());
        assert(views(a.blob_names@) =~= Seq::<Seq<char>>::empty());
        assert(views(a.blobs@) =~= Seq::<Seq<u32>>::empty());
        assert(slot_views(a.slots@) =~= Seq::<SlotView>::empty());
        a
    }

    /// Takes one more token in. On an error the assembler is as it was.
    fn take(&mut self, token: &Token<'a>) -> (r: Result<(), AssemblerError>)
        requires
            old(self)@.wf(),
        ensures
            final(self)@.wf(),
            match scan_token(old(self)@, token@) {
                Ok(st) => r is Ok && final(self)@ == st,
                Err(e) => r == Err::<(), AssemblerError>(e) && final(self)@ == old(self)@,
            },
    {
        match token {
            Token::Meta(meta) => {
                match meta {
                    MetaType::Org(n) => {
                        self.origin = *n;
                    },
                    MetaType::Include(_) => {},
                }
                Ok(())
            },
            Token::Section(name) => {
                if eq_ignore_case(name, "text") || eq_ignore_case(name, "data") {
                    self.section = Some(*name);
                    Ok(())
                } else {
                    Err(AssemblerError::UnknownSection)
                }
            },
            Token::Label(name) => {
                match check_section("text", &self.section) {
                    Ok(()) => {},
                    Err(e) => {
                        return Err(e);
                    },
                }
                self.label_names.push(chars_of(name));
                self.label_offsets.push(self.slots.len());
                assert(views(self.label_names@) =~= views(old(self).label_names@).push(name@));
                Ok(())
            },
            Token::Command(cmd) => {
                match check_section("text", &self.section) {
                    Ok(()) => {},
                    Err(e) => {
                        return Err(e);
                    },
                }
                emit(*cmd, &mut self.slots);
                Ok(())
            },
            Token::DataDef(id, typ, values) => {
                match check_section("data", &self.section) {
                    Ok(()) => {},
                    Err(e) => {
                        return Err(e);
                    },
                }
                let words = match build_blob(*typ, values) {
                    Some(words) => words,
                    None => {
                        return Err(AssemblerError::DataValueOverflow);
                    },
                };
                self.blob_names.push(chars_of(id));
                self.blobs.push(words);
                assert(views(self.blob_names@) =~= views(old(self).blob_names@).push(id@));
                assert(views(self.blobs@) =~= views(old(self).blobs@).push(words@));
                Ok(())
            },
        }
    }

    /// Resolves every reference and puts the frame together.
    fn link(self) -> (r: Result<CompiledFrame, AssemblerError>)
        requires
            self@.wf(),
        ensures
            match link(self@) {
                Ok(frame) => r is Ok && r->Ok_0@ == frame,
                Err(e) => r == Err::<CompiledFrame, AssemblerError>(e),
            },
    {
        let ghost st = self@;
        let ghost blobs = views(self.blobs@);
        let base = offset_word(self.origin, self.slots.len());
        let mut starts: Vec<u32> = Vec::new();
        let mut tail: Vec<u32> = Vec::new();
        let mut address: u32 = base;
        let mut j: usize = 0;
        while j < self.blobs.len()
            invariant
                j <= self.blobs.len(),
                blobs == views(self.blobs@),
                st == self@,
                starts.len() == j,
                forall|k: int|
                    0 <= k < j ==> starts@[k] == word(
                        st.origin + st.slots.len() + total_len(blobs.take(k)),
                    ),
                address == word(st.origin + st.slots.len() + total_len(blobs.take(j as int))),
                tail@ == all_words(blobs.take(j as int)),
            decreases self.blobs.len() - j,
        {
            proof {
                assert(blobs.take(j + 1).drop_last() =~= blobs.take(j as int));
                lemma_word_absorb(
                    st.origin + st.slots.len() + total_len(blobs.take(j as int)),
                    blobs[j as int].len() as int,
                );
            }
            starts.push(address);
            address = offset_word(address, self.blobs[j].len());
            let blob = &self.blobs[j];
            let mut k: usize = 0;
            let ghost before = tail@;
            while k < blob.len()
                invariant
                    k <= blob.len(),
                    tail@ == before + blob@.take(k as int),
                decreases blob.len() - k,
            {
                tail.push(blob[k]);
                k += 1;
                assert(tail@ =~= before + blob@.take(k as int));
            }
            assert(blob@.take(k as int) =~= blob@);
            j += 1;
        }
        assert(blobs.take(j as int) =~= blobs);
        let mut binary: Vec<u32> = Vec::new();
        let mut data_lost = false;
        let mut i: usize = 0;
        while i < self.slots.len()
            invariant
                i <= self.slots.len(),
                st == self@,
                st.wf(),
                blobs == views(self.blobs@),
                starts.len() == self.blobs.len(),
                forall|k: int|
                    0 <= k < starts.len() ==> starts@[k] == word(
                        st.origin + st.slots.len() + total_len(blobs.take(k)),
                    ),
                binary.len() == i,
                forall|k: int|
                    0 <= k < i && (#[trigger] st.slots[k]) is Label ==> resolved(st, st.slots[k])
                        is Some,
                data_lost <==> exists|k: int|
                    0 <= k < i && (#[trigger] st.slots[k]) is Data && resolved(st, st.slots[k])
                        is None,
                forall|k: int|
                    0 <= k < i && resolved(st, #[trigger] st.slots[k]) is Some ==> binary@[k]
                        == resolved(st, st.slots[k]).unwrap(),
            decreases self.slots.len() - i,
        {
            assert(st.slots[i as int] == self.slots@[i as int]@);
            let w = match self.slots[i] {
                Slot::Word(w) => w,
                Slot::Label(name) => {
                    match find_last(&self.label_names, &chars_of(name)) {
                        Some(at) => offset_word(self.origin, self.label_offsets[at]),
                        None => {
                            assert(label_missing(st));
                            return Err(AssemblerError::UndefinedLabel);
                        },
                    }
                },
                Slot::Data(name, offset) => {
                    match find_last(&self.blob_names, &chars_of(name)) {
                        Some(at) => starts[at].wrapping_add(offset),
                        None => {
                            data_lost = true;
                            0
                        },
                    }
                },
            };
            binary.push(w);
            i += 1;
        }
        if data_lost {
            assert(data_missing(st));
            return Err(AssemblerError::UndefinedData);
        }
        let ghost text = binary@;
        binary.append(&mut tail);
        assert(text =~= Seq::new(st.slots.len(), |i: int| resolved(st, st.slots[i]).unwrap()));
        Ok(CompiledFrame { origin: self.origin, entry: self.origin, binary })
    }
}

/// Assembles a token stream.
///
/// The text is the words of the commands in order, the data the blobs of
/// the data definitions in order, after the text. A label stands for the
/// origin plus its position in the text, a data identifier for the origin
/// plus the position of its blob in the binary. Fails with the error of
/// the first token that meets one, else with `UndefinedLabel`, else with
/// `UndefinedData`.
pub fn compile_tokens<'a>(tokens: &Vec<Token<'a>>) -> (r: Result<CompiledFrame, AssemblerError>)
    ensures
        match assemble(token_views(tokens@)) {
            Ok(frame) => r is Ok && r->Ok_0@ == frame,
            Err(e) => r == Err::<CompiledFrame, AssemblerError>(e),
        },
{
    let ghost all = token_views(tokens@);
    let mut assembler = Assembler::new();
    let mut i: usize = 0;
    assert(all.take(0) =~= Seq::<TokenView>::empty());
    while i < tokens.len()
        invariant
            i <= tokens.len(),
            all == token_views(tokens@),
            scan(all.take(i as int)) == Ok::<Scan, AssemblerError>(assembler@),
            assembler@.wf(),
        decreases tokens.len() - i,
    {
        proof {
            assert(all.take(i + 1).drop_last() =~= all.take(i as int));
            assert(all.take(i + 1).last() == tokens@[i as int]@);
        }
        match assembler.take(&tokens[i]) {
            Ok(()) => {},
            Err(e) => {
                proof {
                    lemma_scan_prefix(all, i + 1);
                }
                return Err(e);
            },
        }
        i += 1;
    }
    assert(all.take(i as int) =~= all);
    assembler.link()
}

/// Assembles a program text: reads its tokens and assembles them.
///
/// The text is read up to the first place that is neither a line nor a
/// line end; what follows is left out.
pub fn compile(code: String) -> (r: Result<CompiledFrame, AssemblerError>)
    ensures
        match assemble(spec_program(code@, 0).1) {
            Ok(frame) => r is Ok && r->Ok_0@ == frame,
            Err(e) => r == Err::<CompiledFrame, AssemblerError>(e),
        },
{
    let tokens = tokenize(code.as_str());
    compile_tokens(&tokens)
}

/// The assembler emits what the engine consumes: the header of every
/// command decodes to the command's opcode and variant, and the command
/// has as many operand slots as the engine reads operand words for them.
pub proof fn lemma_command_fits_engine(cmd: CmdView)
    ensures
        spec_extract(cmd_slots(cmd)[0]->Word_0) == Some(cmd_header(cmd)),
        arity(cmd_header(cmd).0, cmd_header(cmd).1) == Some(cmd_operands(cmd).len()),
        cmd_slots(cmd).len() == 1 + cmd_operands(cmd).len(),
{
    lemma_extract_header(cmd_header(cmd).0, cmd_header(cmd).1);
}

/// The words of the blob at index `j` stand in the run of all blobs from
/// the place that the lengths of the blobs before it give.
pub proof fn lemma_blob_in_all_words(blobs: Seq<Seq<u32>>, j: int, k: int)
    requires
        0 <= j < blobs.len(),
        0 <= k < blobs[j].len(),
    ensures
        total_len(blobs.take(j)) + k < all_words(blobs).len(),
        all_words(blobs).len() == total_len(blobs),
        all_words(blobs)[total_len(blobs.take(j)) + k] == blobs[j][k],
    decreases blobs.len(),
{
    lemma_all_words_len(blobs);
    lemma_all_words_len(blobs.drop_last());
    if j == blobs.len() - 1 {
        assert(blobs.take(j) =~= blobs.drop_last());
    } else {
        lemma_blob_in_all_words(blobs.drop_last(), j, k);
        assert(blobs.drop_last().take(j) =~= blobs.take(j));
    }
}

/// All blobs together have as many words as their lengths add up to.
pub proof fn lemma_all_words_len(blobs: Seq<Seq<u32>>)
    ensures
        all_words(blobs).len() == total_len(blobs),
    decreases blobs.len(),
{
    if blobs.len() > 0 {
        lemma_all_words_len(blobs.drop_last());
    }
}

/// Label round trip: in a frame that was linked, the word at the place of
/// a reference to a label is the origin plus the position that the last
/// definition of the label names, as a word; it is that sum itself when
/// the sum fits a word.
pub proof fn lemma_label_reference_resolved(st: Scan, i: int, k: int)
    requires
        link(st) is Ok,
        0 <= i < st.slots.len(),
        st.slots[i] is Label,
        last_named(st.label_names, st.slots[i]->Label_0) == Some(k),
    ensures
        link(st)->Ok_0.binary[i] == word(st.origin + st.label_offsets[k]),
        st.origin + st.label_offsets[k] <= u32::MAX ==> link(st)->Ok_0.binary[i] == st.origin
            + st.label_offsets[k],
{
    lemma_word_absorb(st.origin + st.label_offsets[k], 0);
}

/// Data round trip: in a frame that was linked, the word at the place of
/// a reference to a data identifier with a constant offset is the address
/// of the identifier's blob plus the offset, as a word, where the address
/// is the origin plus the index in the binary of the first word of the
/// last blob defined under that name; and the words of that blob stand
/// in the binary from that index on.
pub proof fn lemma_data_reference_resolved(st: Scan, i: int, j: int)
    requires
        st.wf(),
        link(st) is Ok,
        0 <= i < st.slots.len(),
        st.slots[i] is Data,
        last_named(st.blob_names, st.slots[i]->Data_0) == Some(j),
    ensures
        0 <= j < st.blobs.len(),
        link(st)->Ok_0.binary[i] == word(
            st.origin + st.slots.len() + total_len(st.blobs.take(j)) + st.slots[i]->Data_1,
        ),
        st.origin + st.slots.len() + total_len(st.blobs.take(j)) + st.slots[i]->Data_1
            <= u32::MAX ==> link(st)->Ok_0.binary[i] == st.origin + st.slots.len() + total_len(
            st.blobs.take(j),
        ) + st.slots[i]->Data_1,
        forall|k: int|
            0 <= k < st.blobs[j].len() ==> #[trigger] link(st)->Ok_0.binary[st.slots.len()
                + total_len(st.blobs.take(j)) + k] == st.blobs[j][k],
{
    lemma_last_named_in_range(st.blob_names, st.slots[i]->Data_0);
    let start = st.origin + st.slots.len() + total_len(st.blobs.take(j));
    lemma_word_absorb(start, st.slots[i]->Data_1 as int);
    lemma_word_absorb(start + st.slots[i]->Data_1, 0);
    assert forall|k: int| 0 <= k < st.blobs[j].len() implies #[trigger] link(
        st,
    )->Ok_0.binary[st.slots.len() + total_len(st.blobs.take(j)) + k] == st.blobs[j][k] by {
        lemma_blob_in_all_words(st.blobs, j, k);
    }
}

/// The last definition of a name is one of the definitions, and it has
/// that name.
pub proof fn lemma_last_named_in_range(names: Seq<Seq<char>>, name: Seq<char>)
    ensures
        last_named(names, name) matches Some(i) ==> 0 <= i < names.len() && names[i] == name,
        last_named(names, name) is None ==> forall|i: int|
            0 <= i < names.len() ==> names[i] != name,
    decreases names.len(),
{
    if names.len() > 0 {
        lemma_last_named_in_range(names.drop_last(), name);
        if last_named(names, name) is None {
            assert forall|i: int| 0 <= i < names.len() implies names[i] != name by {
                if i < names.len() - 1 {
                    assert(names.drop_last()[i] == names[i]);
                }
            }
        }
    }
}

/// What the assembler knows after any token stream is valid, and every
/// label names a position inside the text or at its end.
pub proof fn lemma_scan_wf(tokens: Seq<TokenView>)
    ensures
        scan(tokens) matches Ok(st) ==> st.wf() && forall|k: int|
            0 <= k < st.label_offsets.len() ==> st.label_offsets[k] <= st.slots.len(),
    decreases tokens.len(),
{
    if tokens.len() > 0 {
        lemma_scan_wf(tokens.drop_last());
    }
}

} // verus!
