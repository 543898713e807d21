//! The token stream that the assembler consumes.
use vstd::prelude::*;

verus! {

/// A directive to the assembler.
#[derive(Debug, Clone, Copy)]
pub enum MetaType<'a> {
    /// Sets the origin: the address at which the program will be loaded.
    Org(u32),
    /// Names a file to include; reserved, with no effect on the output.
    Include(&'a str),
}

/// An immediate operand: a number or a reference to a label.
#[derive(Debug, Clone, Copy)]
pub enum ConstValue<'a> {
    Number(u32),
    Label(&'a str),
}

/// The width of the values of a data definition.
#[derive(Debug, Clone, Copy, PartialEq, Eq, Structural)]
pub enum DataType {
    /// 8 bits; four values to a word.
    Byte,
    /// 16 bits; two values to a word.
    Word,
    /// 32 bits; one value to a word.
    DoubleWord,
}

/// One value of a data definition.
#[derive(Debug, Clone, Copy)]
pub enum DataValue<'a> {
    Number(u32),
    String(&'a str),
}

/// A reference to a data identifier, alone or with an offset.
#[derive(Debug, Clone, Copy)]
pub enum DataAddressOffset<'a> {
    Zero(&'a str),
    Const(&'a str, u32),
    Reg(&'a str, u32),
}

/// A command of the assembly language with its operands.
#[derive(Debug, Clone, Copy)]
pub enum Cmd<'a> {
    PushConst(ConstValue<'a>),
    PushReg(u32),
    PushAddr(u32),
    PushIdAddress(&'a str),
    PushIdValueConst(&'a str, u32),
    PushIdValueReg(&'a str, u32),
    PopReg(u32),
    PopAddr(u32),
    Add,
    Drop,
    Sub,
    Swap,
    MoveConst(u32, ConstValue<'a>),
    MoveReg(u32, u32),
    MoveAddr(u32, u32),
    MoveAddrReg(u32, u32),
    MoveIdAddress(u32, &'a str),
    MoveIdValueConst(u32, &'a str, u32),
    MoveIdValueReg(u32, &'a str, u32),
    StoreConst(u32, ConstValue<'a>),
    StoreReg(u32, u32),
    Jmp(&'a str),
    Jnz(&'a str),
    Jz(&'a str),
    Jg(&'a str),
    Jge(&'a str),
    Jl(&'a str),
    Jle(&'a str),
    And,
    Or,
    Xor,
    Not,
    Mul,
    Div,
    Inc(u32),
    Dec(u32),
    ShrConst(u32),
    ShrReg(u32),
    ShlConst(u32),
    ShlReg(u32),
    CallConst(ConstValue<'a>),
    CallReg(u32),
    CallAddr(u32),
    SafeCallConst(ConstValue<'a>),
    SafeCallReg(u32),
    SafeCallAddr(u32),
    Ret,
    Dup,
    DupConst(u32),
    DupReg(u32),
    Int(u32, u32),
    Term,
}

/// One item of the token stream.
#[derive(Debug)]
pub enum Token<'a> {
    /// A directive.
    Meta(MetaType<'a>),
    /// A command; emits one or more words into the text.
    Command(Cmd<'a>),
    /// Binds a name to the current position in the text.
    Label(&'a str),
    /// Switches to the section of the given name, `text` or `data`.
    Section(&'a str),
    /// A named, typed run of data values.
    DataDef(&'a str, DataType, Vec<DataValue<'a>>),
}

/// The mathematical content of a [`MetaType`].
pub enum MetaView {
    Org(u32),
    Include(Seq<char>),
}

/// The mathematical content of a [`ConstValue`].
pub enum ConstView {
    Number(u32),
    Label(Seq<char>),
}

/// The mathematical content of a [`DataValue`].
pub enum DataValueView {
    Number(u32),
    Text(Seq<char>),
}

/// The mathematical content of a [`DataAddressOffset`].
pub enum OffsetView {
    Zero(Seq<char>),
    Const(Seq<char>, u32),
    Reg(Seq<char>, u32),
}

/// The mathematical content of a [`Cmd`].
pub enum CmdView {
    PushConst(ConstView),
    PushReg(u32),
    PushAddr(u32),
    PushIdAddress(Seq<char>),
    PushIdValueConst(Seq<char>, u32),
    PushIdValueReg(Seq<char>, u32),
    PopReg(u32),
    PopAddr(u32),
    Add,
    Drop,
    Sub,
    Swap,
    MoveConst(u32, ConstView),
    MoveReg(u32, u32),
    MoveAddr(u32, u32),
    MoveAddrReg(u32, u32),
    MoveIdAddress(u32, Seq<char>),
    MoveIdValueConst(u32, Seq<char>, u32),
    MoveIdValueReg(u32, Seq<char>, u32),
    StoreConst(u32, ConstView),
    StoreReg(u32, u32),
    Jmp(Seq<char>),
    Jnz(Seq<char>),
    Jz(Seq<char>),
    Jg(Seq<char>),
    Jge(Seq<char>),
    Jl(Seq<char>),
    Jle(Seq<char>),
    And,
    Or,
    Xor,
    Not,
    Mul,
    Div,
    Inc(u32),
    Dec(u32),
    ShrConst(u32),
    ShrReg(u32),
    ShlConst(u32),
    ShlReg(u32),
    CallConst(ConstView),
    CallReg(u32),
    CallAddr(u32),
    SafeCallConst(ConstView),
    SafeCallReg(u32),
    SafeCallAddr(u32),
    Ret,
    Dup,
    DupConst(u32),
    DupReg(u32),
    Int(u32, u32),
    Term,
}

/// The mathematical content of a [`Token`].
pub enum TokenView {
    Meta(MetaView),
    Command(CmdView),
    Label(Seq<char>),
    Section(Seq<char>),
    DataDef(Seq<char>, DataType, Seq<DataValueView>),
}

impl<'a> View for MetaType<'a> {
    type V = MetaView;

    open spec fn view(&self) -> MetaView {
        match self {
            MetaType::Org(n) => MetaView::Org(*n),
            MetaType::Include(path) => MetaView::Include(path@),
        }
    }
}

impl<'a> View for ConstValue<'a> {
    type V = ConstView;

    open spec fn view(&self) -> ConstView {
        match self {
            ConstValue::Number(n) => ConstView::Number(*n),
            ConstValue::Label(name) => ConstView::Label(name@),
        }
    }
}

impl View for DataType {
    type V = DataType;

    open spec fn view(&self) -> DataType {
        *self
    }
}

impl<'a> View for DataValue<'a> {
    type V = DataValueView;

    open spec fn view(&self) -> DataValueView {
        match self {
            DataValue::Number(n) => DataValueView::Number(*n),
            DataValue::String(text) => DataValueView::Text(text@),
        }
    }
}

impl<'a> View for DataAddressOffset<'a> {
    type V = OffsetView;

    open spec fn view(&self) -> OffsetView {
        match self {
            DataAddressOffset::Zero(id) => OffsetView::Zero(id@),
            DataAddressOffset::Const(id, n) => OffsetView::Const(id@, *n),
            DataAddressOffset::Reg(id, r) => OffsetView::Reg(id@, *r),
        }
    }
}

impl<'a> View for Cmd<'a> {
    type V = CmdView;

    open spec fn view(&self) -> CmdView {
        match *self {
            Cmd::PushConst(a) => CmdView::PushConst(a@),
            Cmd::PushReg(a) => CmdView::PushReg(a),
            Cmd::PushAddr(a) => CmdView::PushAddr(a),
            Cmd::PushIdAddress(a) => CmdView::PushIdAddress(a@),
            Cmd::PushIdValueConst(a, b) => CmdView::PushIdValueConst(a@, b),
            Cmd::PushIdValueReg(a, b) => CmdView::PushIdValueReg(a@, b),
            Cmd::PopReg(a) => CmdView::PopReg(a),
            Cmd::PopAddr(a) => CmdView::PopAddr(a),
            Cmd::Add => CmdView::Add,
            Cmd::Drop => CmdView::Drop,
            Cmd::Sub => CmdView::Sub,
            Cmd::Swap => CmdView::Swap,
            Cmd::MoveConst(a, b) => CmdView::MoveConst(a, b@),
            Cmd::MoveReg(a, b) => CmdView::MoveReg(a, b),
            Cmd::MoveAddr(a, b) => CmdView::MoveAddr(a, b),
            Cmd::MoveAddrReg(a, b) => CmdView::MoveAddrReg(a, b),
            Cmd::MoveIdAddress(a, b) => CmdView::MoveIdAddress(a, b@),
            Cmd::MoveIdValueConst(a, b, c) => CmdView::MoveIdValueConst(a, b@, c),
            Cmd::MoveIdValueReg(a, b, c) => CmdView::MoveIdValueReg(a, b@, c),
            Cmd::StoreConst(a, b) => CmdView::StoreConst(a, b@),
            Cmd::StoreReg(a, b) => CmdView::StoreReg(a, b),
            Cmd::Jmp(a) => CmdView::Jmp(a@),
            Cmd::Jnz(a) => CmdView::Jnz(a@),
            Cmd::Jz(a) => CmdView::Jz(a@),
            Cmd::Jg(a) => CmdView::Jg(a@),
            Cmd::Jge(a) => CmdView::Jge(a@),
            Cmd::Jl(a) => CmdView::Jl(a@),
            Cmd::Jle(a) => CmdView::Jle(a@),
            Cmd::And => CmdView::And,
            Cmd::Or => CmdView::Or,
            Cmd::Xor => CmdView::Xor,
            Cmd::Not => CmdView::Not,
            Cmd::Mul => CmdView::Mul,
            Cmd::Div => CmdView::Div,
            Cmd::Inc(a) => CmdView::Inc(a),
            Cmd::Dec(a) => CmdView::Dec(a),
            Cmd::ShrConst(a) => CmdView::ShrConst(a),
            Cmd::ShrReg(a) => CmdView::ShrReg(a),
            Cmd::ShlConst(a) => CmdView::ShlConst(a),
            Cmd::ShlReg(a) => CmdView::ShlReg(a),
            Cmd::CallConst(a) => CmdView::CallConst(a@),
            Cmd::CallReg(a) => CmdView::CallReg(a),
            Cmd::CallAddr(a) => CmdView::CallAddr(a),
            Cmd::SafeCallConst(a) => CmdView::SafeCallConst(a@),
            Cmd::SafeCallReg(a) => CmdView::SafeCallReg(a),
            Cmd::SafeCallAddr(a) => CmdView::SafeCallAddr(a),
            Cmd::Ret => CmdView::Ret,
            Cmd::Dup => CmdView::Dup,
            Cmd::DupConst(a) => CmdView::DupConst(a),
            Cmd::DupReg(a) => CmdView::DupReg(a),
            Cmd::Int(a, b) => CmdView::Int(a, b),
            Cmd::Term => CmdView::Term,
        }
    }
}

/// The contents of a run of data values.
pub open spec fn value_views(values: Seq<DataValue>) -> Seq<DataValueView> {
    Seq::new(values.len(), |i: int| values[i]@)
}

impl<'a> View for Token<'a> {
    type V = TokenView;

    open spec fn view(&self) -> TokenView {
        match self {
            Token::Meta(meta) => TokenView::Meta(meta@),
            Token::Command(cmd) => TokenView::Command(cmd@),
            Token::Label(name) => TokenView::Label(name@),
            Token::Section(name) => TokenView::Section(name@),
            Token::DataDef(id, typ, values) => TokenView::DataDef(id@, *typ, value_views(values@)),
        }
    }
}

/// The contents of a run of tokens.
pub open spec fn token_views(tokens: Seq<Token>) -> Seq<TokenView> {
    Seq::new(tokens.len(), |i: int| tokens[i]@)
}

} // verus!
