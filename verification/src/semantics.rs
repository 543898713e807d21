//! The meaning of the machine's instructions, as functions on the
//! mathematical state of a machine.
use crate::alu::{
    add_flags, add_result, div_flags, flags_of_value, mul_flags, mul_result, shl_result,
    shr_result, sub_flags, sub_result,
};
use crate::errors::{fault_is, Fault, VMError};
use crate::flag::Flag;
use crate::interrupts::handler::interrupt_effect;
use crate::memory::MemoryView;
use crate::opcode::{spec_extract, Opcode, OpcodeVariant};
use crate::register::Register;
use vstd::prelude::*;

verus! {

/// The word that marks the top of a safecall frame on the call stack.
pub const SENTINEL: u32 = 0x1998;

/// The number of call-stack words of one safecall frame: the return
/// address, eight registers, four flags and the sentinel.
pub const SAFE_FRAME: usize = 14;

/// The mathematical state of a machine.
pub struct MachineView {
    pub memory: MemoryView,
    pub register: Register,
    pub flag: Flag,
    pub call_stack: Seq<u32>,
    pub output: Seq<char>,
}

/// How control goes on after an instruction did its work.
#[derive(Debug, Clone, Copy, PartialEq, Eq, Structural)]
pub enum Next {
    /// The program counter still points into the instruction and is to be
    /// moved past it.
    Advance,
    /// The instruction assigned the program counter.
    Stay,
    /// The program ended.
    Halt,
}

/// The state an instruction leaves, and how control goes on or which
/// error stopped the instruction. After an error the state is the one
/// reached when the error was met.
pub struct Effect {
    pub state: MachineView,
    pub result: Result<Next, Fault>,
}

impl Effect {
    /// The same effect, with a success that moves past the instruction.
    pub open spec fn advancing(self) -> Effect {
        Effect {
            state: self.state,
            result: match self.result {
                Ok(_) => Ok(Next::Advance),
                Err(fault) => Err(fault),
            },
        }
    }
}

/// Where a machine stands after a step.
pub enum Status {
    Running,
    Halted,
    Faulted(Fault),
}

/// The state after a step and the standing of the machine.
pub struct Outcome {
    pub state: MachineView,
    pub status: Status,
}

/// The program counter after moving one word on; it wraps at the end of
/// the word range.
pub open spec fn next_pc(pc: u32) -> u32 {
    if pc == u32::MAX {
        0
    } else {
        (pc + 1) as u32
    }
}

impl MachineView {
    /// The validity of a machine state: that of its memory.
    pub open spec fn wf(self) -> bool {
        self.memory.wf()
    }

    /// The state of a machine just built over `memory`.
    pub open spec fn initial(memory: MemoryView) -> MachineView {
        MachineView {
            memory,
            register: Register::zeroed(),
            flag: Flag { zero: false, negative: false, overflow: false, carry: false },
            call_stack: Seq::empty(),
            output: Seq::empty(),
        }
    }

    /// The work is done and the program counter is to move on.
    pub open spec fn advance(self) -> Effect {
        Effect { state: self, result: Ok(Next::Advance) }
    }

    /// The work is done and the program counter was assigned.
    pub open spec fn stay(self) -> Effect {
        Effect { state: self, result: Ok(Next::Stay) }
    }

    /// The program ended in this state.
    pub open spec fn halt(self) -> Effect {
        Effect { state: self, result: Ok(Next::Halt) }
    }

    /// The instruction met the error `fault` in this state.
    pub open spec fn fail(self, fault: Fault) -> Effect {
        Effect { state: self, result: Err(fault) }
    }

    /// The state with the program counter at `pc`.
    pub open spec fn with_pc(self, pc: u32) -> MachineView {
        MachineView { register: Register { pc, ..self.register }, ..self }
    }

    /// The state with another memory.
    pub open spec fn with_memory(self, memory: MemoryView) -> MachineView {
        MachineView { memory, ..self }
    }

    /// The state with other flags.
    pub open spec fn with_flag(self, flag: Flag) -> MachineView {
        MachineView { flag, ..self }
    }

    /// The state with another printed text.
    pub open spec fn with_output(self, output: Seq<char>) -> MachineView {
        MachineView { output, ..self }
    }

    /// The state with the top of the stack taken off.
    pub open spec fn popped(self) -> MachineView {
        self.with_memory(self.memory.pop())
    }

    /// The state with `zero` and `negative` set from `value`.
    pub open spec fn flagged(self, value: u32) -> MachineView {
        self.with_flag(flags_of_value(self.flag, value))
    }

    /// Pushes `value`, or fails with `StackOverflow`.
    pub open spec fn push_word(self, value: u32) -> Effect {
        if self.memory.can_push() {
            self.with_memory(self.memory.push(value)).advance()
        } else {
            self.fail(Fault::StackOverflow)
        }
    }

    /// Pushes the word at `address`, or fails with `InvalidAddress`.
    pub open spec fn push_from(self, address: int) -> Effect {
        if self.memory.can_read(address) {
            self.push_word(self.memory.cells[address])
        } else {
            self.fail(Fault::InvalidAddress)
        }
    }

    /// Sets the register `reg_num` to `value`, or fails with
    /// `InvalidRegister`.
    pub open spec fn load(self, reg_num: u32, value: u32) -> Effect {
        if Register::valid_id(reg_num) {
            MachineView { register: self.register.with(reg_num, value), ..self }.advance()
        } else {
            self.fail(Fault::InvalidRegister)
        }
    }

    /// Sets the register `reg_num` to the word at `address`, or fails with
    /// `InvalidAddress`, or else with `InvalidRegister`.
    pub open spec fn load_from(self, reg_num: u32, address: int) -> Effect {
        if self.memory.can_read(address) {
            self.load(reg_num, self.memory.cells[address])
        } else {
            self.fail(Fault::InvalidAddress)
        }
    }

    /// Writes `value` to the data cell at `address`, or fails with
    /// `InvalidAddress`.
    pub open spec fn store(self, address: u32, value: u32) -> Effect {
        if self.memory.can_write(address as int, 1) {
            self.with_memory(self.memory.write(address as int, seq![value])).advance()
        } else {
            self.fail(Fault::InvalidAddress)
        }
    }

    /// The words a safecall saves above the return address: `r0` to `r7`,
    /// then carry, negative, overflow and zero as 0 or 1, then the sentinel.
    pub open spec fn snapshot(self) -> Seq<u32> {
        seq![
            self.register.r0,
            self.register.r1,
            self.register.r2,
            self.register.r3,
            self.register.r4,
            self.register.r5,
            self.register.r6,
            self.register.r7,
            bit(self.flag.carry),
            bit(self.flag.negative),
            bit(self.flag.overflow),
            bit(self.flag.zero),
            SENTINEL,
        ]
    }
}

/// A flag as a word: 1 when set, 0 when clear.
pub open spec fn bit(b: bool) -> u32 {
    if b {
        1
    } else {
        0
    }
}

/// The number of operand words that follow the header of an instruction,
/// or `None` when the opcode has no such variant.
///
/// `Pop` with the default variant is the older encoding of `Drop`.
pub open spec fn arity(opcode: Opcode, variant: OpcodeVariant) -> Option<nat> {
    match (opcode, variant) {
        (Opcode::Push, OpcodeVariant::PushConst) => Some(1),
        (Opcode::Push, OpcodeVariant::PushReg) => Some(1),
        (Opcode::Push, OpcodeVariant::PushAddr) => Some(1),
        (Opcode::Push, OpcodeVariant::PushAddrOffsetConst) => Some(2),
        (Opcode::Push, OpcodeVariant::PushAddrOffsetReg) => Some(2),
        (Opcode::Pop, OpcodeVariant::PopReg) => Some(1),
        (Opcode::Pop, OpcodeVariant::PopAddr) => Some(1),
        (Opcode::Pop, OpcodeVariant::Default) => Some(0),
        (Opcode::Drop, OpcodeVariant::Default) => Some(0),
        (Opcode::Add, OpcodeVariant::Default) => Some(0),
        (Opcode::Sub, OpcodeVariant::Default) => Some(0),
        (Opcode::Mul, OpcodeVariant::Default) => Some(0),
        (Opcode::Div, OpcodeVariant::Default) => Some(0),
        (Opcode::Swap, OpcodeVariant::Default) => Some(0),
        (Opcode::And, OpcodeVariant::Default) => Some(0),
        (Opcode::Or, OpcodeVariant::Default) => Some(0),
        (Opcode::Xor, OpcodeVariant::Default) => Some(0),
        (Opcode::Not, OpcodeVariant::Default) => Some(0),
        (Opcode::SHR, OpcodeVariant::SHRConst) => Some(1),
        (Opcode::SHR, OpcodeVariant::SHRReg) => Some(1),
        (Opcode::SHL, OpcodeVariant::SHLConst) => Some(1),
        (Opcode::SHL, OpcodeVariant::SHLReg) => Some(1),
        (Opcode::Move, OpcodeVariant::MoveConst) => Some(2),
        (Opcode::Move, OpcodeVariant::MoveReg) => Some(2),
        (Opcode::Move, OpcodeVariant::MoveAddr) => Some(2),
        (Opcode::Move, OpcodeVariant::MoveAddrReg) => Some(2),
        (Opcode::Move, OpcodeVariant::MoveAddrOffsetConst) => Some(3),
        (Opcode::Move, OpcodeVariant::MoveAddrOffsetReg) => Some(3),
        (Opcode::Store, OpcodeVariant::StoreConst) => Some(2),
        (Opcode::Store, OpcodeVariant::StoreReg) => Some(2),
        (Opcode::Jump, OpcodeVariant::Default) => Some(1),
        (Opcode::Jump, OpcodeVariant::JumpNotZero) => Some(1),
        (Opcode::Jump, OpcodeVariant::JumpZero) => Some(1),
        (Opcode::Jump, OpcodeVariant::JumpGreater) => Some(1),
        (Opcode::Jump, OpcodeVariant::JumpGreaterEqual) => Some(1),
        (Opcode::Jump, OpcodeVariant::JumpLesser) => Some(1),
        (Opcode::Jump, OpcodeVariant::JumpLesserEqual) => Some(1),
        (Opcode::Call, OpcodeVariant::CallConst) => Some(1),
        (Opcode::Call, OpcodeVariant::CallReg) => Some(1),
        (Opcode::Call, OpcodeVariant::CallAddr) => Some(1),
        (Opcode::SafeCall, OpcodeVariant::SafeCallConst) => Some(1),
        (Opcode::SafeCall, OpcodeVariant::SafeCallReg) => Some(1),
        (Opcode::SafeCall, OpcodeVariant::SafeCallAddr) => Some(1),
        (Opcode::Ret, OpcodeVariant::Default) => Some(0),
        (Opcode::Dup, OpcodeVariant::Default) => Some(0),
        (Opcode::Dup, OpcodeVariant::DupConst) => Some(1),
        (Opcode::Dup, OpcodeVariant::DupReg) => Some(1),
        (Opcode::Inc, OpcodeVariant::Default) => Some(1),
        (Opcode::Dec, OpcodeVariant::Default) => Some(1),
        (Opcode::Int, OpcodeVariant::Default) => Some(2),
        (Opcode::Terminate, OpcodeVariant::Default) => Some(0),
        _ => None,
    }
}

/// `Push`: puts a constant, a register or a memory word on the stack.
pub open spec fn push_effect(variant: OpcodeVariant, s: MachineView, x0: u32, x1: u32) -> Effect {
    match variant {
        OpcodeVariant::PushConst => s.push_word(x0),
        OpcodeVariant::PushReg => if Register::valid_id(x0) {
            s.push_word(s.register.value(x0))
        } else {
            s.fail(Fault::InvalidRegister)
        },
        OpcodeVariant::PushAddr => s.push_from(x0 as int),
        OpcodeVariant::PushAddrOffsetConst => s.push_from(x0 + x1),
        OpcodeVariant::PushAddrOffsetReg => if Register::valid_id(x1) {
            s.push_from(x0 + s.register.value(x1))
        } else {
            s.fail(Fault::InvalidRegister)
        },
        _ => s.fail(Fault::InvalidOpcode),
    }
}

/// `Pop` and `Drop`: take the top word off, set `zero` and `negative`
/// from it, and store it in a register, in a data cell, or nowhere.
pub open spec fn pop_effect(variant: OpcodeVariant, s: MachineView, x0: u32) -> Effect {
    if s.memory.sp == 0 {
        s.fail(Fault::EmptyContainer)
    } else {
        let value = s.memory.top();
        let taken = s.popped().flagged(value);
        match variant {
            OpcodeVariant::PopReg => taken.load(x0, value),
            OpcodeVariant::PopAddr => taken.store(x0, value),
            _ => taken.advance(),
        }
    }
}

/// The instructions that take two words off the stack: `top` first, then
/// `second`. All but `Swap` push one word back.
pub open spec fn binary_effect(opcode: Opcode, s: MachineView) -> Effect {
    if s.memory.sp == 0 {
        s.fail(Fault::EmptyContainer)
    } else if s.memory.sp == 1 {
        s.popped().fail(Fault::EmptyContainer)
    } else {
        let top = s.memory.top();
        let second = s.memory.pop().top();
        let rest = s.popped().popped();
        match opcode {
            Opcode::Add => rest.with_flag(add_flags(top, second)).with_memory(
                rest.memory.push(add_result(top, second)),
            ).advance(),
            Opcode::Sub => rest.with_flag(sub_flags(top, second)).with_memory(
                rest.memory.push(sub_result(top, second)),
            ).advance(),
            Opcode::Mul => rest.with_flag(mul_flags(top, second)).with_memory(
                rest.memory.push(mul_result(top, second)),
            ).advance(),
            Opcode::Div => if second == 0 {
                rest.fail(Fault::DivisionByZero)
            } else {
                MachineView {
                    memory: rest.memory.push((top / second) as u32),
                    register: Register { r3: (top % second) as u32, ..rest.register },
                    flag: div_flags((top / second) as u32),
                    ..rest
                }.advance()
            },
            Opcode::Swap => rest.with_memory(rest.memory.push(top).push(second)).advance(),
            Opcode::And => rest.with_memory(rest.memory.push(top & second)).advance(),
            Opcode::Or => rest.with_memory(rest.memory.push(top | second)).advance(),
            Opcode::Xor => rest.with_memory(rest.memory.push(top ^ second)).advance(),
            _ => s.fail(Fault::InvalidOpcode),
        }
    }
}

/// The stack with its top word replaced by `value`; fails with
/// `EmptyContainer` on an empty stack.
pub open spec fn replace_top(s: MachineView, value: u32) -> Effect {
    if s.memory.sp == 0 {
        s.fail(Fault::EmptyContainer)
    } else {
        s.with_memory(s.memory.pop().push(value)).advance()
    }
}

/// The word that `Not` or a shift by `amount` bits puts in place of the
/// top word.
pub open spec fn unary_result(opcode: Opcode, top: u32, amount: u32) -> u32 {
    match opcode {
        Opcode::SHR => shr_result(top, amount),
        Opcode::SHL => shl_result(top, amount),
        _ => !top,
    }
}

/// `Not` and the shifts, with the amount in hand: the top word is
/// replaced by the result; the flags stay.
pub open spec fn unary_effect(opcode: Opcode, s: MachineView, amount: u32) -> Effect {
    replace_top(s, unary_result(opcode, s.memory.top(), amount))
}

/// `SHR` and `SHL`: shift the top word by a constant or by the value of a
/// register.
pub open spec fn shift_effect(
    opcode: Opcode,
    variant: OpcodeVariant,
    s: MachineView,
    x0: u32,
) -> Effect {
    match variant {
        OpcodeVariant::SHRConst | OpcodeVariant::SHLConst => unary_effect(opcode, s, x0),
        _ => if Register::valid_id(x0) {
            unary_effect(opcode, s, s.register.value(x0))
        } else {
            s.fail(Fault::InvalidRegister)
        },
    }
}

/// `Move`: loads the register `x0` from a constant, a register or memory.
pub open spec fn move_effect(
    variant: OpcodeVariant,
    s: MachineView,
    x0: u32,
    x1: u32,
    x2: u32,
) -> Effect {
    match variant {
        OpcodeVariant::MoveConst => s.load(x0, x1),
        OpcodeVariant::MoveReg => if Register::valid_id(x1) {
            s.load(x0, s.register.value(x1))
        } else {
            s.fail(Fault::InvalidRegister)
        },
        OpcodeVariant::MoveAddr => s.load_from(x0, x1 as int),
        OpcodeVariant::MoveAddrReg => if Register::valid_id(x1) {
            s.load_from(x0, s.register.value(x1) as int)
        } else {
            s.fail(Fault::InvalidRegister)
        },
        OpcodeVariant::MoveAddrOffsetConst => s.load_from(x0, x1 + x2),
        OpcodeVariant::MoveAddrOffsetReg => if Register::valid_id(x2) {
            s.load_from(x0, x1 + s.register.value(x2))
        } else {
            s.fail(Fault::InvalidRegister)
        },
        _ => s.fail(Fault::InvalidOpcode),
    }
}

/// `Store`: writes a constant or a register to the data cell `x0`.
pub open spec fn store_effect(variant: OpcodeVariant, s: MachineView, x0: u32, x1: u32) -> Effect {
    match variant {
        OpcodeVariant::StoreConst => s.store(x0, x1),
        OpcodeVariant::StoreReg => if Register::valid_id(x1) {
            s.store(x0, s.register.value(x1))
        } else {
            s.fail(Fault::InvalidRegister)
        },
        _ => s.fail(Fault::InvalidOpcode),
    }
}

/// Whether a jump of the given variant is taken under `flag`.
pub open spec fn jump_taken(variant: OpcodeVariant, flag: Flag) -> bool {
    match variant {
        OpcodeVariant::Default => true,
        OpcodeVariant::JumpZero => flag.zero,
        OpcodeVariant::JumpNotZero => !flag.zero,
        OpcodeVariant::JumpGreater => !flag.zero && flag.negative == flag.overflow,
        OpcodeVariant::JumpGreaterEqual => flag.negative == flag.overflow,
        OpcodeVariant::JumpLesser => flag.negative != flag.overflow,
        OpcodeVariant::JumpLesserEqual => flag.zero || flag.negative != flag.overflow,
        _ => false,
    }
}

/// `Jump`: a taken jump assigns the program counter; one not taken only
/// moves past its operand.
pub open spec fn jump_effect(variant: OpcodeVariant, s: MachineView, x0: u32) -> Effect {
    if jump_taken(variant, s.flag) {
        s.with_pc(x0).stay()
    } else {
        s.advance()
    }
}

/// The address a call transfers to: the operand, the value of the register
/// it names, or the word at the address held in the cell it names.
pub open spec fn call_target(variant: OpcodeVariant, s: MachineView, x0: u32) -> Result<
    u32,
    Fault,
> {
    match variant {
        OpcodeVariant::CallConst | OpcodeVariant::SafeCallConst => Ok(x0),
        OpcodeVariant::CallReg | OpcodeVariant::SafeCallReg => if Register::valid_id(x0) {
            Ok(s.register.value(x0))
        } else {
            Err(Fault::InvalidRegister)
        },
        OpcodeVariant::CallAddr | OpcodeVariant::SafeCallAddr => if s.memory.can_read(x0 as int)
            && s.memory.can_read(s.memory.cells[x0 as int] as int) {
            Ok(s.memory.cells[s.memory.cells[x0 as int] as int])
        } else {
            Err(Fault::InvalidAddress)
        },
        _ => Err(Fault::InvalidOpcode),
    }
}

/// `Call`: puts the address of the operand word on the call stack and
/// transfers to the target.
pub open spec fn call_effect(variant: OpcodeVariant, s: MachineView, x0: u32) -> Effect {
    match call_target(variant, s, x0) {
        Ok(target) => MachineView {
            call_stack: s.call_stack.push(s.register.pc),
            ..s
        }.with_pc(target).stay(),
        Err(fault) => s.fail(fault),
    }
}

/// `SafeCall`: like `Call`, and the snapshot of registers and flags goes
/// on the call stack above the return address.
pub open spec fn safecall_effect(variant: OpcodeVariant, s: MachineView, x0: u32) -> Effect {
    match call_target(variant, s, x0) {
        Ok(target) => MachineView {
            call_stack: s.call_stack.push(s.register.pc) + s.snapshot(),
            ..s
        }.with_pc(target).stay(),
        Err(fault) => s.fail(fault),
    }
}

/// Whether the call stack ends in a whole safecall frame.
pub open spec fn safe_frame_on_top(call_stack: Seq<u32>) -> bool {
    call_stack.len() >= SAFE_FRAME && call_stack.last() == SENTINEL
}

/// The registers a safecall frame on top of `stack` holds; the program
/// counter is that of `register`.
pub open spec fn saved_register(stack: Seq<u32>, register: Register) -> Register
    recommends
        stack.len() >= SAFE_FRAME,
{
    let base = stack.len() - SAFE_FRAME;
    Register {
        r0: stack[base + 1],
        r1: stack[base + 2],
        r2: stack[base + 3],
        r3: stack[base + 4],
        r4: stack[base + 5],
        r5: stack[base + 6],
        r6: stack[base + 7],
        r7: stack[base + 8],
        pc: register.pc,
    }
}

/// The flags a safecall frame on top of `stack` holds: a flag is set when
/// its word is 1.
pub open spec fn saved_flag(stack: Seq<u32>) -> Flag
    recommends
        stack.len() >= SAFE_FRAME,
{
    let base = stack.len() - SAFE_FRAME;
    Flag {
        carry: stack[base + 9] == 1,
        negative: stack[base + 10] == 1,
        overflow: stack[base + 11] == 1,
        zero: stack[base + 12] == 1,
    }
}

/// `Ret`: takes the return address off the call stack and transfers to the
/// word after it. When the top of the call stack is the sentinel, the
/// registers and flags saved below it are restored first. Fails with
/// `InvalidReturn` when the call stack is empty or ends in the sentinel
/// without a whole frame below it.
pub open spec fn ret_effect(s: MachineView) -> Effect {
    let stack = s.call_stack;
    if stack.len() == 0 {
        s.fail(Fault::InvalidReturn)
    } else if stack.last() != SENTINEL {
        MachineView { call_stack: stack.drop_last(), ..s }.with_pc(next_pc(stack.last())).stay()
    } else if stack.len() < SAFE_FRAME {
        s.fail(Fault::InvalidReturn)
    } else {
        MachineView {
            register: saved_register(stack, s.register),
            flag: saved_flag(stack),
            call_stack: stack.take(stack.len() - SAFE_FRAME),
            ..s
        }.with_pc(next_pc(stack[stack.len() - SAFE_FRAME])).stay()
    }
}

/// One duplication: sets `zero` and `negative` from the top word and
/// pushes a copy of it.
pub open spec fn dup_once(s: MachineView) -> Effect {
    if s.memory.sp == 0 {
        s.fail(Fault::EmptyContainer)
    } else {
        s.flagged(s.memory.top()).push_word(s.memory.top())
    }
}

/// `count` duplications in a row, stopping at the first that fails.
pub open spec fn dup_repeat(s: MachineView, count: nat) -> Effect
    decreases count,
{
    if count == 0 {
        s.advance()
    } else {
        let once = dup_once(s);
        if once.result is Ok {
            dup_repeat(once.state, (count - 1) as nat)
        } else {
            once
        }
    }
}

/// `Dup`: duplicates the top word once, a constant number of times, or as
/// many times as a register says.
pub open spec fn dup_effect(variant: OpcodeVariant, s: MachineView, x0: u32) -> Effect {
    match variant {
        OpcodeVariant::Default => dup_once(s),
        OpcodeVariant::DupConst => dup_repeat(s, x0 as nat),
        OpcodeVariant::DupReg => if Register::valid_id(x0) {
            dup_repeat(s, s.register.value(x0) as nat)
        } else {
            s.fail(Fault::InvalidRegister)
        },
        _ => s.fail(Fault::InvalidOpcode),
    }
}

/// `Inc` and `Dec`: the register `x0` plus or minus one, with the flags of
/// that sum or difference.
pub open spec fn count_effect(opcode: Opcode, s: MachineView, x0: u32) -> Effect {
    if !Register::valid_id(x0) {
        s.fail(Fault::InvalidRegister)
    } else {
        let value = s.register.value(x0);
        match opcode {
            Opcode::Inc => MachineView {
                register: s.register.with(x0, add_result(value, 1)),
                flag: add_flags(value, 1),
                ..s
            }.advance(),
            Opcode::Dec => MachineView {
                register: s.register.with(x0, sub_result(value, 1)),
                flag: sub_flags(value, 1),
                ..s
            }.advance(),
            _ => s.fail(Fault::InvalidOpcode),
        }
    }
}

/// What the instruction `(opcode, variant)` with the operands `x0`, `x1`,
/// `x2` does to a state whose program counter points at the last word of
/// the instruction.
pub open spec fn effect(
    opcode: Opcode,
    variant: OpcodeVariant,
    s: MachineView,
    x0: u32,
    x1: u32,
    x2: u32,
) -> Effect {
    if arity(opcode, variant) is None {
        s.fail(Fault::InvalidOpcode)
    } else {
        match opcode {
            Opcode::Push => push_effect(variant, s, x0, x1),
            Opcode::Pop | Opcode::Drop => pop_effect(variant, s, x0),
            Opcode::Add
            | Opcode::Sub
            | Opcode::Mul
            | Opcode::Div
            | Opcode::Swap
            | Opcode::And
            | Opcode::Or
            | Opcode::Xor => binary_effect(opcode, s),
            Opcode::Not => unary_effect(opcode, s, 0),
            Opcode::SHR | Opcode::SHL => shift_effect(opcode, variant, s, x0),
            Opcode::Move => move_effect(variant, s, x0, x1, x2),
            Opcode::Store => store_effect(variant, s, x0, x1),
            Opcode::Jump => jump_effect(variant, s, x0),
            Opcode::Call => call_effect(variant, s, x0),
            Opcode::SafeCall => safecall_effect(variant, s, x0),
            Opcode::Ret => ret_effect(s),
            Opcode::Dup => dup_effect(variant, s, x0),
            Opcode::Inc | Opcode::Dec => count_effect(opcode, s, x0),
            Opcode::Int => interrupt_effect(s, x0, x1).advancing(),
            Opcode::Terminate => s.halt(),
        }
    }
}

/// The `k`-th operand word of the instruction at the program counter, for
/// an instruction of `count` operands; 0 beyond them.
pub open spec fn operand(s: MachineView, count: nat, k: nat) -> u32 {
    if 1 <= k <= count {
        s.memory.cells[s.register.pc + k]
    } else {
        0
    }
}

/// The standing after an instruction, and the state with the program
/// counter moved on where the instruction did not assign it.
pub open spec fn settle(e: Effect) -> Outcome {
    match e.result {
        Ok(Next::Advance) => Outcome {
            state: e.state.with_pc(next_pc(e.state.register.pc)),
            status: Status::Running,
        },
        Ok(Next::Stay) => Outcome { state: e.state, status: Status::Running },
        Ok(Next::Halt) => Outcome { state: e.state, status: Status::Halted },
        Err(fault) => Outcome { state: e.state, status: Status::Faulted(fault) },
    }
}

/// One step of the machine: read the header at the program counter,
/// decode it, read the operand words one by one, do the instruction's
/// work, and move the program counter on unless the instruction assigned
/// it.
///
/// A header outside memory gives `InvalidAddress`; a header that does not
/// decode, or whose opcode and variant do not fit, gives `InvalidOpcode`.
/// An operand word outside memory gives `InvalidAddress`, with the
/// program counter at that word.
pub open spec fn step(s: MachineView) -> Outcome {
    let pc = s.register.pc;
    if !s.memory.can_read(pc as int) {
        Outcome { state: s, status: Status::Faulted(Fault::InvalidAddress) }
    } else {
        match spec_extract(s.memory.cells[pc as int]) {
            None => Outcome { state: s, status: Status::Faulted(Fault::InvalidOpcode) },
            Some((opcode, variant)) => match arity(opcode, variant) {
                None => Outcome { state: s, status: Status::Faulted(Fault::InvalidOpcode) },
                Some(count) => if pc + count >= s.memory.cells.len() {
                    Outcome {
                        state: s.with_pc(s.memory.cells.len() as u32),
                        status: Status::Faulted(Fault::InvalidAddress),
                    }
                } else {
                    settle(
                        effect(
                            opcode,
                            variant,
                            s.with_pc((pc + count) as u32),
                            operand(s, count, 1),
                            operand(s, count, 2),
                            operand(s, count, 3),
                        ),
                    )
                },
            },
        }
    }
}

/// The machine after at most `fuel` steps: it stops at the first step
/// that halts or fails, and with `StepLimit` when the steps run out.
pub open spec fn run(s: MachineView, fuel: nat) -> Outcome
    decreases fuel,
{
    if fuel == 0 {
        Outcome { state: s, status: Status::Faulted(Fault::StepLimit) }
    } else {
        let o = step(s);
        match o.status {
            Status::Running => run(o.state, (fuel - 1) as nat),
            _ => o,
        }
    }
}

/// Whether the state `after` and the executable result `r` are what the
/// effect `e` says, whatever value a success carries.
pub open spec fn performs<T>(after: MachineView, r: Result<T, VMError>, e: Effect) -> bool {
    &&& after == e.state
    &&& match e.result {
        Ok(_) => r is Ok,
        Err(fault) => fault_is(r, fault),
    }
}

/// Whether the state `after` and the executable result `r` are what the
/// effect `e` says.
pub open spec fn realizes(after: MachineView, r: Result<Next, VMError>, e: Effect) -> bool {
    &&& performs(after, r, e)
    &&& r matches Ok(next) ==> e.result == Ok::<Next, Fault>(next)
}

/// Whether the executable result `r` of a step tells the standing
/// `status`: `Ok(true)` for a halt, `Ok(false)` for a machine that goes on.
pub open spec fn tells(r: Result<bool, VMError>, status: Status) -> bool {
    match status {
        Status::Running => r == Ok::<bool, VMError>(false),
        Status::Halted => r == Ok::<bool, VMError>(true),
        Status::Faulted(fault) => fault_is(r, fault),
    }
}

} // verus!
