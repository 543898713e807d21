use crate::errors::{fault_is, Fault, VMError};
use vstd::prelude::*;

verus! {

/// The primary opcode: the high half of an instruction header.
#[derive(Debug, Clone, Copy, PartialEq, Eq, Structural)]
pub enum Opcode {
    /// 0xf001: push a word on the stack
    Push,
    /// 0xf002: pop the stack into a register or a cell
    Pop,
    /// 0xf003: add the two top words
    Add,
    /// 0xf004: subtract the second word from the top word
    Sub,
    /// 0xf005: exchange the two top words
    Swap,
    /// 0xf006: load a register
    Move,
    /// 0xf007: write a data cell
    Store,
    /// 0xf008: transfer control, possibly on a condition
    Jump,
    /// 0xf009: bitwise and of the two top words
    And,
    /// 0xf00a: bitwise or of the two top words
    Or,
    /// 0xf00b: bitwise exclusive or of the two top words
    Xor,
    /// 0xf00c: bitwise complement of the top word
    Not,
    /// 0xf00d: logical right shift of the top word
    SHR,
    /// 0xf00e: left shift of the top word
    SHL,
    /// 0xf00f: call a procedure
    Call,
    /// 0xf010: return from a procedure
    Ret,
    /// 0xf011: duplicate the top word
    Dup,
    /// 0xf012: call a host service
    Int,
    /// 0xf013: pop and discard the top word
    Drop,
    /// 0xf014: multiply the two top words
    Mul,
    /// 0xf015: divide the top word by the second word
    Div,
    /// 0xf016: add one to a register
    Inc,
    /// 0xf017: subtract one from a register
    Dec,
    /// 0xf018: call a procedure, saving registers and flags
    SafeCall,
    /// 0xffff: end the program
    Terminate,
}

impl Opcode {
    /// The 16-bit number that stands for this opcode in an instruction header.
    pub open spec fn spec_code(self) -> u32 {
        match self {
            Opcode::Push => 0xf001,
            Opcode::Pop => 0xf002,
            Opcode::Add => 0xf003,
            Opcode::Sub => 0xf004,
            Opcode::Swap => 0xf005,
            Opcode::Move => 0xf006,
            Opcode::Store => 0xf007,
            Opcode::Jump => 0xf008,
            Opcode::And => 0xf009,
            Opcode::Or => 0xf00a,
            Opcode::Xor => 0xf00b,
            Opcode::Not => 0xf00c,
            Opcode::SHR => 0xf00d,
            Opcode::SHL => 0xf00e,
            Opcode::Call => 0xf00f,
            Opcode::Ret => 0xf010,
            Opcode::Dup => 0xf011,
            Opcode::Int => 0xf012,
            Opcode::Drop => 0xf013,
            Opcode::Mul => 0xf014,
            Opcode::Div => 0xf015,
            Opcode::Inc => 0xf016,
            Opcode::Dec => 0xf017,
            Opcode::SafeCall => 0xf018,
            Opcode::Terminate => 0xffff,
        }
    }

    /// The opcode that `value` stands for, if any.
    pub open spec fn spec_from_num(value: u32) -> Option<Opcode> {
        if value == 0xf001 {
            Some(Opcode::Push)
        } else if value == 0xf002 {
            Some(Opcode::Pop)
        } else if value == 0xf003 {
            Some(Opcode::Add)
        } else if value == 0xf004 {
            Some(Opcode::Sub)
        } else if value == 0xf005 {
            Some(Opcode::Swap)
        } else if value == 0xf006 {
            Some(Opcode::Move)
        } else if value == 0xf007 {
            Some(Opcode::Store)
        } else if value == 0xf008 {
            Some(Opcode::Jump)
        } else if value == 0xf009 {
            Some(Opcode::And)
        } else if value == 0xf00a {
            Some(Opcode::Or)
        } else if value == 0xf00b {
            Some(Opcode::Xor)
        } else if value == 0xf00c {
            Some(Opcode::Not)
        } else if value == 0xf00d {
            Some(Opcode::SHR)
        } else if value == 0xf00e {
            Some(Opcode::SHL)
        } else if value == 0xf00f {
            Some(Opcode::Call)
        } else if value == 0xf010 {
            Some(Opcode::Ret)
        } else if value == 0xf011 {
            Some(Opcode::Dup)
        } else if value == 0xf012 {
            Some(Opcode::Int)
        } else if value == 0xf013 {
            Some(Opcode::Drop)
        } else if value == 0xf014 {
            Some(Opcode::Mul)
        } else if value == 0xf015 {
            Some(Opcode::Div)
        } else if value == 0xf016 {
            Some(Opcode::Inc)
        } else if value == 0xf017 {
            Some(Opcode::Dec)
        } else if value == 0xf018 {
            Some(Opcode::SafeCall)
        } else if value == 0xffff {
            Some(Opcode::Terminate)
        } else {
            None
        }
    }

    /// The 16-bit number that stands for this opcode in an instruction header.
    #[verifier::when_used_as_spec(spec_code)]
    pub fn code(self) -> (c: u32)
        ensures
            c == self.spec_code(),
            c <= 0xffff,
    {
        match self {
            Opcode::Push => 0xf001,
            Opcode::Pop => 0xf002,
            Opcode::Add => 0xf003,
            Opcode::Sub => 0xf004,
            Opcode::Swap => 0xf005,
            Opcode::Move => 0xf006,
            Opcode::Store => 0xf007,
            Opcode::Jump => 0xf008,
            Opcode::And => 0xf009,
            Opcode::Or => 0xf00a,
            Opcode::Xor => 0xf00b,
            Opcode::Not => 0xf00c,
            Opcode::SHR => 0xf00d,
            Opcode::SHL => 0xf00e,
            Opcode::Call => 0xf00f,
            Opcode::Ret => 0xf010,
            Opcode::Dup => 0xf011,
            Opcode::Int => 0xf012,
            Opcode::Drop => 0xf013,
            Opcode::Mul => 0xf014,
            Opcode::Div => 0xf015,
            Opcode::Inc => 0xf016,
            Opcode::Dec => 0xf017,
            Opcode::SafeCall => 0xf018,
            Opcode::Terminate => 0xffff,
        }
    }

    /// Decodes the number of an opcode.
    ///
    /// Fails with `InvalidOpcode` exactly when no opcode has the number `value`.
    pub fn from_num(value: u32) -> (r: Result<Opcode, VMError>)
        ensures
            match Self::spec_from_num(value) {
                Some(decoded) => r == Ok::<Opcode, VMError>(decoded),
                None => fault_is(r, Fault::InvalidOpcode),
            },
    {
        match value {
            0xf001 => Ok(Opcode::Push),
            0xf002 => Ok(Opcode::Pop),
            0xf003 => Ok(Opcode::Add),
            0xf004 => Ok(Opcode::Sub),
            0xf005 => Ok(Opcode::Swap),
            0xf006 => Ok(Opcode::Move),
            0xf007 => Ok(Opcode::Store),
            0xf008 => Ok(Opcode::Jump),
            0xf009 => Ok(Opcode::And),
            0xf00a => Ok(Opcode::Or),
            0xf00b => Ok(Opcode::Xor),
            0xf00c => Ok(Opcode::Not),
            0xf00d => Ok(Opcode::SHR),
            0xf00e => Ok(Opcode::SHL),
            0xf00f => Ok(Opcode::Call),
            0xf010 => Ok(Opcode::Ret),
            0xf011 => Ok(Opcode::Dup),
            0xf012 => Ok(Opcode::Int),
            0xf013 => Ok(Opcode::Drop),
            0xf014 => Ok(Opcode::Mul),
            0xf015 => Ok(Opcode::Div),
            0xf016 => Ok(Opcode::Inc),
            0xf017 => Ok(Opcode::Dec),
            0xf018 => Ok(Opcode::SafeCall),
            0xffff => Ok(Opcode::Terminate),
            _ => Err(VMError::InvalidOpcode),
        }
    }

    /// Decoding inverts `code`: a number decodes to an opcode exactly when it is
    /// that opcode's code, so every number outside the table decodes to nothing.
    pub proof fn lemma_from_num_inverts_code(value: u32, decoded: Opcode)
        ensures
            Self::spec_from_num(value) == Some(decoded) <==> decoded.spec_code() == value,
            Self::spec_from_num(value) is None <==> forall|other: Opcode| other.spec_code() != value,
    {
        if Self::spec_from_num(value) is Some {
            assert(Self::spec_from_num(value).unwrap().spec_code() == value);
        }
    }
}

/// The variant: the low half of an instruction header, which tells the
/// forms of one opcode apart.
#[derive(Debug, Clone, Copy, PartialEq, Eq, Structural)]
pub enum OpcodeVariant {
    /// 0x0000: the only form of an opcode without variants
    Default,
    /// 0xa001: push a constant
    PushConst,
    /// 0xa002: push the value of a register
    PushReg,
    /// 0xa003: push the word at an address
    PushAddr,
    /// 0xa004: pop into a register
    PopReg,
    /// 0xa005: pop into the cell at an address
    PopAddr,
    /// 0xa006: load a constant into a register
    MoveConst,
    /// 0xa007: copy a register into a register
    MoveReg,
    /// 0xa008: load the word at an address into a register
    MoveAddr,
    /// 0xa009: store a constant in memory
    StoreConst,
    /// 0xa00a: store a register in memory
    StoreReg,
    /// 0xa00b: jump if the zero flag is clear
    JumpNotZero,
    /// 0xa00c: jump if the zero flag is set
    JumpZero,
    /// 0xa00d: jump if greater
    JumpGreater,
    /// 0xa00e: jump if greater or equal
    JumpGreaterEqual,
    /// 0xa00f: jump if lesser
    JumpLesser,
    /// 0xa010: jump if lesser or equal
    JumpLesserEqual,
    /// 0xa011: shift right by a constant
    SHRConst,
    /// 0xa012: shift right by the value of a register
    SHRReg,
    /// 0xa013: shift left by a constant
    SHLConst,
    /// 0xa014: shift left by the value of a register
    SHLReg,
    /// 0xa015: call a constant address
    CallConst,
    /// 0xa016: call the address held in a register
    CallReg,
    /// 0xa017: call the address held in the cell that a cell points to
    CallAddr,
    /// 0xa018: duplicate a constant number of times
    DupConst,
    /// 0xa019: duplicate as many times as a register says
    DupReg,
    /// 0xa01a: load the word at the address held in a register
    MoveAddrReg,
    /// 0xa01b: load the word at an address plus a constant
    MoveAddrOffsetConst,
    /// 0xa01c: load the word at an address plus a register
    MoveAddrOffsetReg,
    /// 0xa01d: push the word at an address plus a constant
    PushAddrOffsetConst,
    /// 0xa01e: push the word at an address plus a register
    PushAddrOffsetReg,
    /// 0xa01f: safe call of a constant address
    SafeCallConst,
    /// 0xa020: safe call of the address held in a register
    SafeCallReg,
    /// 0xa021: safe call of the address held in the cell that a cell points to
    SafeCallAddr,
}

impl OpcodeVariant {
    /// The 16-bit number that stands for this variant in an instruction header.
    pub open spec fn spec_code(self) -> u32 {
        match self {
            OpcodeVariant::Default => 0x0000,
            OpcodeVariant::PushConst => 0xa001,
            OpcodeVariant::PushReg => 0xa002,
            OpcodeVariant::PushAddr => 0xa003,
            OpcodeVariant::PopReg => 0xa004,
            OpcodeVariant::PopAddr => 0xa005,
            OpcodeVariant::MoveConst => 0xa006,
            OpcodeVariant::MoveReg => 0xa007,
            OpcodeVariant::MoveAddr => 0xa008,
            OpcodeVariant::StoreConst => 0xa009,
            OpcodeVariant::StoreReg => 0xa00a,
            OpcodeVariant::JumpNotZero => 0xa00b,
            OpcodeVariant::JumpZero => 0xa00c,
            OpcodeVariant::JumpGreater => 0xa00d,
            OpcodeVariant::JumpGreaterEqual => 0xa00e,
            OpcodeVariant::JumpLesser => 0xa00f,
            OpcodeVariant::JumpLesserEqual => 0xa010,
            OpcodeVariant::SHRConst => 0xa011,
            OpcodeVariant::SHRReg => 0xa012,
            OpcodeVariant::SHLConst => 0xa013,
            OpcodeVariant::SHLReg => 0xa014,
            OpcodeVariant::CallConst => 0xa015,
            OpcodeVariant::CallReg => 0xa016,
            OpcodeVariant::CallAddr => 0xa017,
            OpcodeVariant::DupConst => 0xa018,
            OpcodeVariant::DupReg => 0xa019,
            OpcodeVariant::MoveAddrReg => 0xa01a,
            OpcodeVariant::MoveAddrOffsetConst => 0xa01b,
            OpcodeVariant::MoveAddrOffsetReg => 0xa01c,
            OpcodeVariant::PushAddrOffsetConst => 0xa01d,
            OpcodeVariant::PushAddrOffsetReg => 0xa01e,
            OpcodeVariant::SafeCallConst => 0xa01f,
            OpcodeVariant::SafeCallReg => 0xa020,
            OpcodeVariant::SafeCallAddr => 0xa021,
        }
    }

    /// The variant that `value` stands for, if any.
    pub open spec fn spec_from_num(value: u32) -> Option<OpcodeVariant> {
        if value == 0x0000 {
            Some(OpcodeVariant::Default)
        } else if value == 0xa001 {
            Some(OpcodeVariant::PushConst)
        } else if value == 0xa002 {
            Some(OpcodeVariant::PushReg)
        } else if value == 0xa003 {
            Some(OpcodeVariant::PushAddr)
        } else if value == 0xa004 {
            Some(OpcodeVariant::PopReg)
        } else if value == 0xa005 {
            Some(OpcodeVariant::PopAddr)
        } else if value == 0xa006 {
            Some(OpcodeVariant::MoveConst)
        } else if value == 0xa007 {
            Some(OpcodeVariant::MoveReg)
        } else if value == 0xa008 {
            Some(OpcodeVariant::MoveAddr)
        } else if value == 0xa009 {
            Some(OpcodeVariant::StoreConst)
        } else if value == 0xa00a {
            Some(OpcodeVariant::StoreReg)
        } else if value == 0xa00b {
            Some(OpcodeVariant::JumpNotZero)
        } else if value == 0xa00c {
            Some(OpcodeVariant::JumpZero)
        } else if value == 0xa00d {
            Some(OpcodeVariant::JumpGreater)
        } else if value == 0xa00e {
            Some(OpcodeVariant::JumpGreaterEqual)
        } else if value == 0xa00f {
            Some(OpcodeVariant::JumpLesser)
        } else if value == 0xa010 {
            Some(OpcodeVariant::JumpLesserEqual)
        } else if value == 0xa011 {
            Some(OpcodeVariant::SHRConst)
        } else if value == 0xa012 {
            Some(OpcodeVariant::SHRReg)
        } else if value == 0xa013 {
            Some(OpcodeVariant::SHLConst)
        } else if value == 0xa014 {
            Some(OpcodeVariant::SHLReg)
        } else if value == 0xa015 {
            Some(OpcodeVariant::CallConst)
        } else if value == 0xa016 {
            Some(OpcodeVariant::CallReg)
        } else if value == 0xa017 {
            Some(OpcodeVariant::CallAddr)
        } else if value == 0xa018 {
            Some(OpcodeVariant::DupConst)
        } else if value == 0xa019 {
            Some(OpcodeVariant::DupReg)
        } else if value == 0xa01a {
            Some(OpcodeVariant::MoveAddrReg)
        } else if value == 0xa01b {
            Some(OpcodeVariant::MoveAddrOffsetConst)
        } else if value == 0xa01c {
            Some(OpcodeVariant::MoveAddrOffsetReg)
        } else if value == 0xa01d {
            Some(OpcodeVariant::PushAddrOffsetConst)
        } else if value == 0xa01e {
            Some(OpcodeVariant::PushAddrOffsetReg)
        } else if value == 0xa01f {
            Some(OpcodeVariant::SafeCallConst)
        } else if value == 0xa020 {
            Some(OpcodeVariant::SafeCallReg)
        } else if value == 0xa021 {
            Some(OpcodeVariant::SafeCallAddr)
        } else {
            None
        }
    }

    /// The 16-bit number that stands for this variant in an instruction header.
    #[verifier::when_used_as_spec(spec_code)]
    pub fn code(self) -> (c: u32)
        ensures
            c == self.spec_code(),
            c <= 0xffff,
    {
        match self {
            OpcodeVariant::Default => 0x0000,
            OpcodeVariant::PushConst => 0xa001,
            OpcodeVariant::PushReg => 0xa002,
            OpcodeVariant::PushAddr => 0xa003,
            OpcodeVariant::PopReg => 0xa004,
            OpcodeVariant::PopAddr => 0xa005,
            OpcodeVariant::MoveConst => 0xa006,
            OpcodeVariant::MoveReg => 0xa007,
            OpcodeVariant::MoveAddr => 0xa008,
            OpcodeVariant::StoreConst => 0xa009,
            OpcodeVariant::StoreReg => 0xa00a,
            OpcodeVariant::JumpNotZero => 0xa00b,
            OpcodeVariant::JumpZero => 0xa00c,
            OpcodeVariant::JumpGreater => 0xa00d,
            OpcodeVariant::JumpGreaterEqual => 0xa00e,
            OpcodeVariant::JumpLesser => 0xa00f,
            OpcodeVariant::JumpLesserEqual => 0xa010,
            OpcodeVariant::SHRConst => 0xa011,
            OpcodeVariant::SHRReg => 0xa012,
            OpcodeVariant::SHLConst => 0xa013,
            OpcodeVariant::SHLReg => 0xa014,
            OpcodeVariant::CallConst => 0xa015,
            OpcodeVariant::CallReg => 0xa016,
            OpcodeVariant::CallAddr => 0xa017,
            OpcodeVariant::DupConst => 0xa018,
            OpcodeVariant::DupReg => 0xa019,
            OpcodeVariant::MoveAddrReg => 0xa01a,
            OpcodeVariant::MoveAddrOffsetConst => 0xa01b,
            OpcodeVariant::MoveAddrOffsetReg => 0xa01c,
            OpcodeVariant::PushAddrOffsetConst => 0xa01d,
            OpcodeVariant::PushAddrOffsetReg => 0xa01e,
            OpcodeVariant::SafeCallConst => 0xa01f,
            OpcodeVariant::SafeCallReg => 0xa020,
            OpcodeVariant::SafeCallAddr => 0xa021,
        }
    }

    /// Decodes the number of a variant.
    ///
    /// Fails with `InvalidOpcode` exactly when no variant has the number `value`.
    pub fn from_num(value: u32) -> (r: Result<OpcodeVariant, VMError>)
        ensures
            match Self::spec_from_num(value) {
                Some(decoded) => r == Ok::<OpcodeVariant, VMError>(decoded),
                None => fault_is(r, Fault::InvalidOpcode),
            },
    {
        match value {
            0x0000 => Ok(OpcodeVariant::Default),
            0xa001 => Ok(OpcodeVariant::PushConst),
            0xa002 => Ok(OpcodeVariant::PushReg),
            0xa003 => Ok(OpcodeVariant::PushAddr),
            0xa004 => Ok(OpcodeVariant::PopReg),
            0xa005 => Ok(OpcodeVariant::PopAddr),
            0xa006 => Ok(OpcodeVariant::MoveConst),
            0xa007 => Ok(OpcodeVariant::MoveReg),
            0xa008 => Ok(OpcodeVariant::MoveAddr),
            0xa009 => Ok(OpcodeVariant::StoreConst),
            0xa00a => Ok(OpcodeVariant::StoreReg),
            0xa00b => Ok(OpcodeVariant::JumpNotZero),
            0xa00c => Ok(OpcodeVariant::JumpZero),
            0xa00d => Ok(OpcodeVariant::JumpGreater),
            0xa00e => Ok(OpcodeVariant::JumpGreaterEqual),
            0xa00f => Ok(OpcodeVariant::JumpLesser),
            0xa010 => Ok(OpcodeVariant::JumpLesserEqual),
            0xa011 => Ok(OpcodeVariant::SHRConst),
            0xa012 => Ok(OpcodeVariant::SHRReg),
            0xa013 => Ok(OpcodeVariant::SHLConst),
            0xa014 => Ok(OpcodeVariant::SHLReg),
            0xa015 => Ok(OpcodeVariant::CallConst),
            0xa016 => Ok(OpcodeVariant::CallReg),
            0xa017 => Ok(OpcodeVariant::CallAddr),
            0xa018 => Ok(OpcodeVariant::DupConst),
            0xa019 => Ok(OpcodeVariant::DupReg),
            0xa01a => Ok(OpcodeVariant::MoveAddrReg),
            0xa01b => Ok(OpcodeVariant::MoveAddrOffsetConst),
            0xa01c => Ok(OpcodeVariant::MoveAddrOffsetReg),
            0xa01d => Ok(OpcodeVariant::PushAddrOffsetConst),
            0xa01e => Ok(OpcodeVariant::PushAddrOffsetReg),
            0xa01f => Ok(OpcodeVariant::SafeCallConst),
            0xa020 => Ok(OpcodeVariant::SafeCallReg),
            0xa021 => Ok(OpcodeVariant::SafeCallAddr),
            _ => Err(VMError::InvalidOpcode),
        }
    }

    /// Decoding inverts `code`: a number decodes to a variant exactly when it is
    /// that variant's code, so every number outside the table decodes to nothing.
    pub proof fn lemma_from_num_inverts_code(value: u32, decoded: OpcodeVariant)
        ensures
            Self::spec_from_num(value) == Some(decoded) <==> decoded.spec_code() == value,
            Self::spec_from_num(value) is None <==> forall|other: OpcodeVariant| other.spec_code() != value,
    {
        if Self::spec_from_num(value) is Some {
            assert(Self::spec_from_num(value).unwrap().spec_code() == value);
        }
    }
}

/// The high half of an instruction header word.
pub open spec fn high_half(word: u32) -> u32 {
    word >> 16
}

/// The low half of an instruction header word.
pub open spec fn low_half(word: u32) -> u32 {
    word & 0xffff
}

/// The opcode and variant that the header word `word` holds, if both halves
/// are in their tables.
pub open spec fn spec_extract(word: u32) -> Option<(Opcode, OpcodeVariant)> {
    match (Opcode::spec_from_num(high_half(word)), OpcodeVariant::spec_from_num(low_half(word))) {
        (Some(opcode), Some(variant)) => Some((opcode, variant)),
        _ => None,
    }
}

/// The header word made of the low 16 bits of `high` and of `low`.
pub open spec fn spec_combine_hl(high: u32, low: u32) -> u32 {
    ((high & 0xffff) << 16) | (low & 0xffff)
}

/// The header word of an instruction.
pub open spec fn header(opcode: Opcode, variant: OpcodeVariant) -> u32 {
    spec_combine_hl(opcode.spec_code(), variant.spec_code())
}

impl Opcode {
    /// Splits an instruction header into its opcode and its variant.
    ///
    /// Fails with `InvalidOpcode` exactly when the high half is no opcode's
    /// number or the low half is no variant's number. Whether the two fit
    /// together is not examined here.
    pub fn extract(value: u32) -> (r: Result<(Opcode, OpcodeVariant), VMError>)
        ensures
            match spec_extract(value) {
                Some(pair) => r == Ok::<(Opcode, OpcodeVariant), VMError>(pair),
                None => fault_is(r, Fault::InvalidOpcode),
            },
    {
        let high = value >> 16;
        let low = value & 0xffff;
        let opcode = match Self::from_num(high) {
            Ok(opcode) => opcode,
            Err(e) => {
                return Err(e);
            },
        };
        let variant = match OpcodeVariant::from_num(low) {
            Ok(variant) => variant,
            Err(e) => {
                return Err(e);
            },
        };
        Ok((opcode, variant))
    }
}

/// Builds a header word from a high and a low half; bits above the low 16
/// of either argument are dropped.
pub fn combine_hl(high: u32, low: u32) -> (word: u32)
    ensures
        word == spec_combine_hl(high, low),
{
    ((high & 0xffff) << 16) | (low & 0xffff)
}

/// The two halves of a combined word are the low 16 bits of its parts.
pub proof fn lemma_combine_halves(high: u32, low: u32)
    ensures
        high_half(spec_combine_hl(high, low)) == high & 0xffff,
        low_half(spec_combine_hl(high, low)) == low & 0xffff,
        high <= 0xffff ==> high & 0xffff == high,
        low <= 0xffff ==> low & 0xffff == low,
{
    assert((((high & 0xffff) << 16) | (low & 0xffff)) >> 16 == high & 0xffff) by (bit_vector);
    assert((((high & 0xffff) << 16) | (low & 0xffff)) & 0xffff == low & 0xffff) by (bit_vector);
    assert(high <= 0xffff ==> high & 0xffff == high) by (bit_vector);
    assert(low <= 0xffff ==> low & 0xffff == low) by (bit_vector);
}

/// Encoding then decoding gives back the opcode and the variant.
pub proof fn lemma_extract_header(opcode: Opcode, variant: OpcodeVariant)
    ensures
        spec_extract(header(opcode, variant)) == Some((opcode, variant)),
{
    lemma_combine_halves(opcode.spec_code(), variant.spec_code());
    Opcode::lemma_from_num_inverts_code(opcode.spec_code(), opcode);
    OpcodeVariant::lemma_from_num_inverts_code(variant.spec_code(), variant);
}

/// A word decodes exactly when its two halves are the codes of an opcode
/// and of a variant; every other word is rejected.
pub proof fn lemma_extract_iff_in_table(word: u32)
    ensures
        spec_extract(word) is Some <==> exists|opcode: Opcode, variant: OpcodeVariant|
            opcode.spec_code() == high_half(word) && variant.spec_code() == low_half(word),
        spec_extract(word) matches Some(pair) ==> pair.0.spec_code() == high_half(word)
            && pair.1.spec_code() == low_half(word),
{
    let high = high_half(word);
    let low = low_half(word);
    match (Opcode::spec_from_num(high), OpcodeVariant::spec_from_num(low)) {
        (Some(opcode), Some(variant)) => {
            Opcode::lemma_from_num_inverts_code(high, opcode);
            OpcodeVariant::lemma_from_num_inverts_code(low, variant);
        },
        (None, _) => {
            Opcode::lemma_from_num_inverts_code(high, Opcode::Push);
        },
        (_, None) => {
            OpcodeVariant::lemma_from_num_inverts_code(low, OpcodeVariant::Default);
        },
    }
}

} // verus!
