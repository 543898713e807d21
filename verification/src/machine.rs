use crate::alu::{add_words, mul_words, shl_word, shr_word, sub_words, value_flags};
use crate::errors::{fault_is, Fault, VMError};
use crate::flag::Flag;
use crate::interrupts::handler::interrupt_handler;
use crate::memory::{Memory, MemoryView};
use crate::opcode::{Opcode, OpcodeVariant};
use crate::register::Register;
use crate::semantics::{
    arity, binary_effect, call_effect, call_target, count_effect, dup_effect, dup_once, dup_repeat,
    effect, jump_effect, move_effect, operand, pop_effect, push_effect, realizes, ret_effect, run,
    safecall_effect, saved_flag, saved_register, shift_effect, step, store_effect, tells,
    unary_effect, MachineView, Next, Status, SAFE_FRAME, SENTINEL,
};
use vstd::prelude::*;

verus! {

/// The number of steps one call of `execute` takes at most.
pub const STEP_LIMIT: u64 = 0xffff_ffff_ffff_ffff;

/// The sizes a machine is built with.
#[derive(Debug)]
pub struct MachineOptions {
    pub memory_cells: u32,
    pub memory_stack_size: u32,
}

/// The virtual machine: memory, registers, flags, the call stack, and the
/// text its programs have printed.
#[derive(Debug)]
pub struct Machine {
    pub memory: Memory,
    pub register: Register,
    pub flag: Flag,
    /// The text printed so far by the interrupt services.
    pub output: String,
    pub(crate) call_stack: Vec<u32>,
}

impl Machine {
    /// The mathematical state of the machine.
    pub open(crate) spec fn view(&self) -> MachineView {
        MachineView {
            memory: self.memory@,
            register: self.register,
            flag: self.flag,
            call_stack: self.call_stack@,
            output: self.output@,
        }
    }

    /// Builds a machine with zeroed memory and registers, clear flags, an
    /// empty call stack and no output.
    ///
    /// Fails with `InvalidSize` when the stack would not leave a data cell.
    pub fn new(options: MachineOptions) -> (r: Result<Self, VMError>)
        ensures
            options.memory_stack_size < options.memory_cells ==> r is Ok && r->Ok_0@
                == MachineView::initial(
                MemoryView::zeroed(
                    options.memory_cells as nat,
                    options.memory_stack_size as nat,
                ),
            ) && r->Ok_0@.wf(),
            options.memory_stack_size >= options.memory_cells ==> fault_is(
                r,
                Fault::InvalidSize,
            ),
            r matches Err(VMError::InvalidSize(m)) ==> m@
                == "Stack size cannot be more than total memory cells"@,
    {
        let memory = match Memory::new(options.memory_cells, options.memory_stack_size) {
            Ok(memory) => memory,
            Err(e) => {
                return Err(e);
            },
        };
        Ok(
            Self {
                memory,
                register: Register::new(),
                flag: Flag::new(),
                output: String::new(),
                call_stack: Vec::new(),
            },
        )
    }

    /// Copies `data` into the data region, starting at `address`.
    ///
    /// Fails with `InvalidAddress`, leaving the machine as it was, when the
    /// copy would reach into the stack region.
    pub fn load_data(&mut self, address: u32, data: &[u32]) -> (r: Result<(), VMError>)
        ensures
            old(self)@.wf(),
            final(self)@.wf(),
            old(self)@.memory.can_write(address as int, data@.len()) ==> r is Ok && final(self)@
                == old(self)@.with_memory(old(self)@.memory.write(address as int, data@)),
            !old(self)@.memory.can_write(address as int, data@.len()) ==> fault_is(
                r,
                Fault::InvalidAddress,
            ) && final(self)@ == old(self)@,
    {
        self.memory.write(address, data)
    }

    /// Sets the address at which execution starts.
    pub fn set_start(&mut self, address: u32)
        ensures
            final(self)@ == old(self)@.with_pc(address),
    {
        self.register.pc = address;
    }

    /// Reads the register that `reg_num` names.
    ///
    /// Fails with `InvalidRegister` when `reg_num` names no register.
    pub fn read_register(&self, reg_num: u32) -> (r: Result<u32, VMError>)
        ensures
            Register::valid_id(reg_num) ==> r == Ok::<u32, VMError>(
                self@.register.value(reg_num),
            ),
            !Register::valid_id(reg_num) ==> fault_is(r, Fault::InvalidRegister),
    {
        self.register.get(reg_num)
    }

    /// The number of words on the call stack.
    pub fn call_depth(&self) -> (n: usize)
        ensures
            n == self@.call_stack.len(),
    {
        self.call_stack.len()
    }

    fn push_word(&mut self, value: u32) -> (r: Result<Next, VMError>)
        ensures
            realizes(final(self)@, r, old(self)@.push_word(value)),
    {
        match self.memory.push(value) {
            Ok(()) => Ok(Next::Advance),
            Err(e) => Err(e),
        }
    }

    fn push_from(&mut self, address: Option<u32>) -> (r: Result<Next, VMError>)
        ensures
            address matches Some(a) ==> realizes(final(self)@, r, old(self)@.push_from(a as int)),
            address is None ==> realizes(
                final(self)@,
                r,
                old(self)@.fail(Fault::InvalidAddress),
            ),
    {
        match address {
            Some(a) => match self.memory.read(a) {
                Ok(value) => self.push_word(value),
                Err(e) => Err(e),
            },
            None => Err(VMError::InvalidAddress),
        }
    }

    fn load(&mut self, reg_num: u32, value: u32) -> (r: Result<Next, VMError>)
        ensures
            realizes(final(self)@, r, old(self)@.load(reg_num, value)),
    {
        match self.register.set(reg_num, value) {
            Ok(()) => Ok(Next::Advance),
            Err(e) => Err(e),
        }
    }

    fn load_from(&mut self, reg_num: u32, address: Option<u32>) -> (r: Result<Next, VMError>)
        ensures
            address matches Some(a) ==> realizes(
                final(self)@,
                r,
                old(self)@.load_from(reg_num, a as int),
            ),
            address is None ==> realizes(
                final(self)@,
                r,
                old(self)@.fail(Fault::InvalidAddress),
            ),
    {
        match address {
            Some(a) => match self.memory.read(a) {
                Ok(value) => self.load(reg_num, value),
                Err(e) => Err(e),
            },
            None => Err(VMError::InvalidAddress),
        }
    }

    fn store(&mut self, address: u32, value: u32) -> (r: Result<Next, VMError>)
        ensures
            realizes(final(self)@, r, old(self)@.store(address, value)),
    {
        let data = [value];
        assert(data@ =~= seq![value]);
        match self.memory.write(address, data.as_slice()) {
            Ok(()) => Ok(Next::Advance),
            Err(e) => Err(e),
        }
    }

    fn do_push(&mut self, variant: OpcodeVariant, x0: u32, x1: u32) -> (r: Result<Next, VMError>)
        requires
            arity(Opcode::Push, variant) is Some,
        ensures
            realizes(final(self)@, r, push_effect(variant, old(self)@, x0, x1)),
    {
        proof {
            use_type_invariant(&self.memory);
        }
        match variant {
            OpcodeVariant::PushConst => self.push_word(x0),
            OpcodeVariant::PushReg => match self.register.get(x0) {
                Ok(value) => self.push_word(value),
                Err(e) => Err(e),
            },
            OpcodeVariant::PushAddr => self.push_from(Some(x0)),
            OpcodeVariant::PushAddrOffsetConst => self.push_from(x0.checked_add(x1)),
            _ => match self.register.get(x1) {
                Ok(value) => self.push_from(x0.checked_add(value)),
                Err(e) => Err(e),
            },
        }
    }

    fn do_pop(&mut self, variant: OpcodeVariant, x0: u32) -> (r: Result<Next, VMError>)
        ensures
            realizes(final(self)@, r, pop_effect(variant, old(self)@, x0)),
    {
        let value = match self.memory.pop() {
            Ok(value) => value,
            Err(e) => {
                return Err(e);
            },
        };
        self.flag = value_flags(self.flag, value);
        match variant {
            OpcodeVariant::PopReg => self.load(x0, value),
            OpcodeVariant::PopAddr => self.store(x0, value),
            _ => Ok(Next::Advance),
        }
    }

    fn do_binary(&mut self, opcode: Opcode) -> (r: Result<Next, VMError>)
        requires
            opcode is Add || opcode is Sub || opcode is Mul || opcode is Div || opcode is Swap
                || opcode is And || opcode is Or || opcode is Xor,
        ensures
            realizes(final(self)@, r, binary_effect(opcode, old(self)@)),
    {
        let top = match self.memory.pop() {
            Ok(value) => value,
            Err(e) => {
                return Err(e);
            },
        };
        let second = match self.memory.pop() {
            Ok(value) => value,
            Err(e) => {
                return Err(e);
            },
        };
        let result = match opcode {
            Opcode::Add => {
                let (result, flag) = add_words(top, second);
                self.flag = flag;
                result
            },
            Opcode::Sub => {
                let (result, flag) = sub_words(top, second);
                self.flag = flag;
                result
            },
            Opcode::Mul => {
                let (result, flag) = mul_words(top, second);
                self.flag = flag;
                result
            },
            Opcode::Div => {
                if second == 0 {
                    return Err(VMError::DivisionByZero);
                }
                let quotient = top / second;
                self.register.r3 = top % second;
                self.flag = Flag {
                    zero: quotient == 0,
                    negative: false,
                    overflow: false,
                    carry: false,
                };
                quotient
            },
            Opcode::Swap => {
                match self.memory.push(top) {
                    Ok(()) => {},
                    Err(e) => {
                        return Err(e);
                    },
                }
                second
            },
            Opcode::And => top & second,
            Opcode::Or => top | second,
            _ => top ^ second,
        };
        self.push_word(result)
    }

    fn do_unary(&mut self, opcode: Opcode, amount: u32) -> (r: Result<Next, VMError>)
        ensures
            realizes(final(self)@, r, unary_effect(opcode, old(self)@, amount)),
    {
        let value = match self.memory.pop() {
            Ok(value) => value,
            Err(e) => {
                return Err(e);
            },
        };
        let result = match opcode {
            Opcode::SHR => shr_word(value, amount),
            Opcode::SHL => shl_word(value, amount),
            _ => !value,
        };
        self.push_word(result)
    }

    fn do_shift(&mut self, opcode: Opcode, variant: OpcodeVariant, x0: u32) -> (r: Result<
        Next,
        VMError,
    >)
        ensures
            realizes(final(self)@, r, shift_effect(opcode, variant, old(self)@, x0)),
    {
        match variant {
            OpcodeVariant::SHRConst | OpcodeVariant::SHLConst => self.do_unary(opcode, x0),
            _ => match self.register.get(x0) {
                Ok(amount) => self.do_unary(opcode, amount),
                Err(e) => Err(e),
            },
        }
    }

    fn do_move(&mut self, variant: OpcodeVariant, x0: u32, x1: u32, x2: u32) -> (r: Result<
        Next,
        VMError,
    >)
        requires
            arity(Opcode::Move, variant) is Some,
        ensures
            realizes(final(self)@, r, move_effect(variant, old(self)@, x0, x1, x2)),
    {
        proof {
            use_type_invariant(&self.memory);
        }
        match variant {
            OpcodeVariant::MoveConst => self.load(x0, x1),
            OpcodeVariant::MoveReg => match self.register.get(x1) {
                Ok(value) => self.load(x0, value),
                Err(e) => Err(e),
            },
            OpcodeVariant::MoveAddr => self.load_from(x0, Some(x1)),
            OpcodeVariant::MoveAddrReg => match self.register.get(x1) {
                Ok(address) => self.load_from(x0, Some(address)),
                Err(e) => Err(e),
            },
            OpcodeVariant::MoveAddrOffsetConst => self.load_from(x0, x1.checked_add(x2)),
            _ => match self.register.get(x2) {
                Ok(offset) => self.load_from(x0, x1.checked_add(offset)),
                Err(e) => Err(e),
            },
        }
    }

    fn do_store(&mut self, variant: OpcodeVariant, x0: u32, x1: u32) -> (r: Result<Next, VMError>)
        requires
            arity(Opcode::Store, variant) is Some,
        ensures
            realizes(final(self)@, r, store_effect(variant, old(self)@, x0, x1)),
    {
        match variant {
            OpcodeVariant::StoreConst => self.store(x0, x1),
            _ => match self.register.get(x1) {
                Ok(value) => self.store(x0, value),
                Err(e) => Err(e),
            },
        }
    }

    fn do_jump(&mut self, variant: OpcodeVariant, x0: u32) -> (r: Result<Next, VMError>)
        requires
            arity(Opcode::Jump, variant) is Some,
        ensures
            realizes(final(self)@, r, jump_effect(variant, old(self)@, x0)),
    {
        let flag = self.flag;
        let taken = match variant {
            OpcodeVariant::Default => true,
            OpcodeVariant::JumpZero => flag.zero,
            OpcodeVariant::JumpNotZero => !flag.zero,
            OpcodeVariant::JumpGreater => !flag.zero && flag.negative == flag.overflow,
            OpcodeVariant::JumpGreaterEqual => flag.negative == flag.overflow,
            OpcodeVariant::JumpLesser => flag.negative != flag.overflow,
            _ => flag.zero || flag.negative != flag.overflow,
        };
        if taken {
            self.register.pc = x0;
            Ok(Next::Stay)
        } else {
            Ok(Next::Advance)
        }
    }

    fn target(&self, variant: OpcodeVariant, x0: u32) -> (r: Result<u32, VMError>)
        requires
            arity(Opcode::Call, variant) is Some || arity(Opcode::SafeCall, variant) is Some,
        ensures
            match call_target(variant, self@, x0) {
                Ok(address) => r == Ok::<u32, VMError>(address),
                Err(fault) => fault_is(r, fault),
            },
    {
        match variant {
            OpcodeVariant::CallConst | OpcodeVariant::SafeCallConst => Ok(x0),
            OpcodeVariant::CallReg | OpcodeVariant::SafeCallReg => self.register.get(x0),
            _ => match self.memory.read(x0) {
                Ok(inner) => self.memory.read(inner),
                Err(e) => Err(e),
            },
        }
    }

    fn do_call(&mut self, variant: OpcodeVariant, x0: u32) -> (r: Result<Next, VMError>)
        requires
            arity(Opcode::Call, variant) is Some,
        ensures
            realizes(final(self)@, r, call_effect(variant, old(self)@, x0)),
    {
        let address = match self.target(variant, x0) {
            Ok(address) => address,
            Err(e) => {
                return Err(e);
            },
        };
        self.call_stack.push(self.register.pc);
        self.register.pc = address;
        Ok(Next::Stay)
    }

    fn do_safecall(&mut self, variant: OpcodeVariant, x0: u32) -> (r: Result<Next, VMError>)
        requires
            arity(Opcode::SafeCall, variant) is Some,
        ensures
            realizes(final(self)@, r, safecall_effect(variant, old(self)@, x0)),
    {
        let address = match self.target(variant, x0) {
            Ok(address) => address,
            Err(e) => {
                return Err(e);
            },
        };
        self.call_stack.push(self.register.pc);
        self.preserve_state();
        self.register.pc = address;
        Ok(Next::Stay)
    }

    /// Puts the registers `r0` to `r7`, the four flags and the sentinel on
    /// the call stack.
    fn preserve_state(&mut self)
        ensures
            final(self)@ == (MachineView {
                call_stack: old(self)@.call_stack + old(self)@.snapshot(),
                ..old(self)@
            }),
    {
        self.call_stack.push(self.register.r0);
        self.call_stack.push(self.register.r1);
        self.call_stack.push(self.register.r2);
        self.call_stack.push(self.register.r3);
        self.call_stack.push(self.register.r4);
        self.call_stack.push(self.register.r5);
        self.call_stack.push(self.register.r6);
        self.call_stack.push(self.register.r7);
        self.call_stack.push(if self.flag.carry { 1 } else { 0 });
        self.call_stack.push(if self.flag.negative { 1 } else { 0 });
        self.call_stack.push(if self.flag.overflow { 1 } else { 0 });
        self.call_stack.push(if self.flag.zero { 1 } else { 0 });
        self.call_stack.push(SENTINEL);
        assert(self.call_stack@ =~= old(self).call_stack@ + old(self)@.snapshot());
    }

    /// Takes a whole safecall frame but its return address off the call
    /// stack and restores the registers `r0` to `r7` and the flags from it.
    fn rollback_state(&mut self)
        requires
            old(self)@.call_stack.len() >= SAFE_FRAME,
        ensures
            final(self)@ == (MachineView {
                register: saved_register(old(self)@.call_stack, old(self)@.register),
                flag: saved_flag(old(self)@.call_stack),
                call_stack: old(self)@.call_stack.take(
                    old(self)@.call_stack.len() - SAFE_FRAME + 1,
                ),
                ..old(self)@
            }),
    {
        let base = self.call_stack.len() - SAFE_FRAME;
        self.register.r0 = self.call_stack[base + 1];
        self.register.r1 = self.call_stack[base + 2];
        self.register.r2 = self.call_stack[base + 3];
        self.register.r3 = self.call_stack[base + 4];
        self.register.r4 = self.call_stack[base + 5];
        self.register.r5 = self.call_stack[base + 6];
        self.register.r6 = self.call_stack[base + 7];
        self.register.r7 = self.call_stack[base + 8];
        self.flag.carry = self.call_stack[base + 9] == 1;
        self.flag.negative = self.call_stack[base + 10] == 1;
        self.flag.overflow = self.call_stack[base + 11] == 1;
        self.flag.zero = self.call_stack[base + 12] == 1;
        self.call_stack.truncate(base + 1);
    }

    fn do_ret(&mut self) -> (r: Result<Next, VMError>)
        ensures
            realizes(final(self)@, r, ret_effect(old(self)@)),
    {
        let len = self.call_stack.len();
        if len == 0 {
            return Err(VMError::InvalidReturn);
        }
        if self.call_stack[len - 1] == SENTINEL {
            if len < SAFE_FRAME {
                return Err(VMError::InvalidReturn);
            }
            self.rollback_state();
        }
        match self.call_stack.pop() {
            Some(address) => {
                self.register.pc = address.wrapping_add(1);
                assert(self.call_stack@ =~= ret_effect(old(self)@).state.call_stack);
                Ok(Next::Stay)
            },
            None => Err(VMError::InvalidReturn),
        }
    }

    fn dup(&mut self) -> (r: Result<Next, VMError>)
        ensures
            realizes(final(self)@, r, dup_once(old(self)@)),
    {
        let a = match self.memory.pop() {
            Ok(a) => a,
            Err(e) => {
                return Err(e);
            },
        };
        self.flag = value_flags(self.flag, a);
        match self.memory.push(a) {
            Ok(()) => {},
            Err(e) => {
                return Err(e);
            },
        }
        assert(self.memory@.cells =~= old(self).memory@.cells);
        self.push_word(a)
    }

    fn dup_times(&mut self, amount: u32) -> (r: Result<Next, VMError>)
        ensures
            realizes(final(self)@, r, dup_repeat(old(self)@, amount as nat)),
    {
        let mut i: u32 = 0;
        while i < amount
            invariant
                i <= amount,
                dup_repeat(old(self)@, amount as nat) == dup_repeat(self@, (amount - i) as nat),
            decreases amount - i,
        {
            match self.dup() {
                Ok(_) => {},
                Err(e) => {
                    return Err(e);
                },
            }
            i += 1;
        }
        Ok(Next::Advance)
    }

    fn do_dup(&mut self, variant: OpcodeVariant, x0: u32) -> (r: Result<Next, VMError>)
        requires
            arity(Opcode::Dup, variant) is Some,
        ensures
            realizes(final(self)@, r, dup_effect(variant, old(self)@, x0)),
    {
        match variant {
            OpcodeVariant::Default => self.dup(),
            OpcodeVariant::DupConst => self.dup_times(x0),
            _ => match self.register.get(x0) {
                Ok(amount) => self.dup_times(amount),
                Err(e) => Err(e),
            },
        }
    }

    fn do_count(&mut self, opcode: Opcode, x0: u32) -> (r: Result<Next, VMError>)
        requires
            opcode is Inc || opcode is Dec,
        ensures
            realizes(final(self)@, r, count_effect(opcode, old(self)@, x0)),
    {
        let value = match self.register.get(x0) {
            Ok(value) => value,
            Err(e) => {
                return Err(e);
            },
        };
        let (result, flag) = match opcode {
            Opcode::Inc => add_words(value, 1),
            _ => sub_words(value, 1),
        };
        self.flag = flag;
        self.load(x0, result)
    }

    /// Does the work of one decoded instruction; the program counter
    /// points at the last word of the instruction.
    fn perform(&mut self, opcode: Opcode, variant: OpcodeVariant, x0: u32, x1: u32, x2: u32) -> (r:
        Result<Next, VMError>)
        requires
            arity(opcode, variant) is Some,
        ensures
            realizes(final(self)@, r, effect(opcode, variant, old(self)@, x0, x1, x2)),
    {
        match opcode {
            Opcode::Push => self.do_push(variant, x0, x1),
            Opcode::Pop | Opcode::Drop => self.do_pop(variant, x0),
            Opcode::Add
            | Opcode::Sub
            | Opcode::Mul
            | Opcode::Div
            | Opcode::Swap
            | Opcode::And
            | Opcode::Or
            | Opcode::Xor => self.do_binary(opcode),
            Opcode::Not => self.do_unary(opcode, 0),
            Opcode::SHR | Opcode::SHL => self.do_shift(opcode, variant, x0),
            Opcode::Move => self.do_move(variant, x0, x1, x2),
            Opcode::Store => self.do_store(variant, x0, x1),
            Opcode::Jump => self.do_jump(variant, x0),
            Opcode::Call => self.do_call(variant, x0),
            Opcode::SafeCall => self.do_safecall(variant, x0),
            Opcode::Ret => self.do_ret(),
            Opcode::Dup => self.do_dup(variant, x0),
            Opcode::Inc | Opcode::Dec => self.do_count(opcode, x0),
            Opcode::Int => match interrupt_handler(self, x0, x1) {
                Ok(()) => Ok(Next::Advance),
                Err(e) => Err(e),
            },
            Opcode::Terminate => Ok(Next::Halt),
        }
    }

    /// Moves the program counter to the next word and reads it.
    fn fetch(&mut self) -> (r: Result<u32, VMError>)
        requires
            old(self)@.register.pc < old(self)@.memory.cells.len(),
        ensures
            final(self)@ == old(self)@.with_pc((old(self)@.register.pc + 1) as u32),
            old(self)@.register.pc + 1 < old(self)@.memory.cells.len() ==> r == Ok::<
                u32,
                VMError,
            >(old(self)@.memory.cells[old(self)@.register.pc + 1]),
            old(self)@.register.pc + 1 >= old(self)@.memory.cells.len() ==> fault_is(
                r,
                Fault::InvalidAddress,
            ),
    {
        proof {
            use_type_invariant(&self.memory);
        }
        self.register.pc += 1;
        self.memory.read(self.register.pc)
    }

    /// Reads the `count` operand words that follow the header at the
    /// program counter, moving the program counter to each in turn.
    fn fetch_operands(&mut self, count: u8) -> (r: Result<(u32, u32, u32), VMError>)
        requires
            count <= 3,
            old(self)@.register.pc < old(self)@.memory.cells.len(),
        ensures
            old(self)@.register.pc + count < old(self)@.memory.cells.len() ==> r == Ok::<
                (u32, u32, u32),
                VMError,
            >(
                (
                    operand(old(self)@, count as nat, 1),
                    operand(old(self)@, count as nat, 2),
                    operand(old(self)@, count as nat, 3),
                ),
            ) && final(self)@ == old(self)@.with_pc((old(self)@.register.pc + count) as u32),
            old(self)@.register.pc + count >= old(self)@.memory.cells.len() ==> fault_is(
                r,
                Fault::InvalidAddress,
            ) && final(self)@ == old(self)@.with_pc(old(self)@.memory.cells.len() as u32),
    {
        proof {
            use_type_invariant(&self.memory);
        }
        let mut x0: u32 = 0;
        let mut x1: u32 = 0;
        let mut x2: u32 = 0;
        if count >= 1 {
            x0 = match self.fetch() {
                Ok(word) => word,
                Err(e) => {
                    return Err(e);
                },
            };
        }
        if count >= 2 {
            x1 = match self.fetch() {
                Ok(word) => word,
                Err(e) => {
                    return Err(e);
                },
            };
        }
        if count >= 3 {
            x2 = match self.fetch() {
                Ok(word) => word,
                Err(e) => {
                    return Err(e);
                },
            };
        }
        Ok((x0, x1, x2))
    }

    /// Executes the instruction at the program counter.
    ///
    /// Returns `true` when the instruction was `Terminate`. After an error
    /// the machine is in the state it had reached when the error was met.
    pub fn execute_next(&mut self) -> (r: Result<bool, VMError>)
        ensures
            old(self)@.wf(),
            final(self)@.wf(),
            final(self)@ == step(old(self)@).state,
            tells(r, step(old(self)@).status),
    {
        let header = match self.memory.read(self.register.pc) {
            Ok(header) => header,
            Err(e) => {
                return Err(e);
            },
        };
        let (opcode, variant) = match Opcode::extract(header) {
            Ok(pair) => pair,
            Err(e) => {
                return Err(e);
            },
        };
        let count = match operand_count(opcode, variant) {
            Some(count) => count,
            None => {
                return Err(VMError::InvalidOpcode);
            },
        };
        let (x0, x1, x2) = match self.fetch_operands(count) {
            Ok(words) => words,
            Err(e) => {
                return Err(e);
            },
        };
        let next = match self.perform(opcode, variant, x0, x1, x2) {
            Ok(next) => next,
            Err(e) => {
                proof {
                    use_type_invariant(&self.memory);
                }
                return Err(e);
            },
        };
        proof {
            use_type_invariant(&self.memory);
        }
        match next {
            Next::Advance => {
                self.register.pc = self.register.pc.wrapping_add(1);
                Ok(false)
            },
            Next::Stay => Ok(false),
            Next::Halt => Ok(true),
        }
    }

    /// Runs the program from the program counter for at most `limit`
    /// steps.
    ///
    /// The result and the final state are those of `run` with `limit`
    /// steps: success when a `Terminate` is reached, the error of the first
    /// step that fails, or `StepLimit` when the program is still running
    /// after `limit` steps.
    pub fn execute_within(&mut self, limit: u64) -> (r: Result<(), VMError>)
        ensures
            final(self)@ == run(old(self)@, limit as nat).state,
            match run(old(self)@, limit as nat).status {
                Status::Faulted(fault) => fault_is(r, fault),
                _ => r is Ok,
            },
            !(run(old(self)@, limit as nat).status is Running),
    {
        let mut steps: u64 = 0;
        while steps < limit
            invariant
                steps <= limit,
                run(old(self)@, limit as nat) == run(self@, (limit - steps) as nat),
            decreases limit - steps,
        {
            let done = match self.execute_next() {
                Ok(done) => done,
                Err(e) => {
                    return Err(e);
                },
            };
            if done {
                return Ok(());
            }
            steps += 1;
        }
        Err(VMError::StepLimit)
    }

    /// Runs the program from the program counter until it terminates or
    /// fails.
    ///
    /// The result and the final state are those of `run` with `STEP_LIMIT`
    /// steps: success when a `Terminate` is reached, the error of the first
    /// step that fails, or `StepLimit` when the program is still running
    /// after `STEP_LIMIT` steps.
    pub fn execute(&mut self) -> (r: Result<(), VMError>)
        ensures
            final(self)@ == run(old(self)@, STEP_LIMIT as nat).state,
            match run(old(self)@, STEP_LIMIT as nat).status {
                Status::Faulted(fault) => fault_is(r, fault),
                _ => r is Ok,
            },
            !(run(old(self)@, STEP_LIMIT as nat).status is Running),
    {
        self.execute_within(STEP_LIMIT)
    }
}

/// The number of operand words of an instruction, or `None` when the
/// opcode has no such variant.
pub fn operand_count(opcode: Opcode, variant: OpcodeVariant) -> (r: Option<u8>)
    ensures
        match arity(opcode, variant) {
            Some(n) => r == Some(n as u8) && n <= 3,
            None => r is None,
        },
{
    match opcode {
        Opcode::Push => match variant {
            OpcodeVariant::PushConst | OpcodeVariant::PushReg | OpcodeVariant::PushAddr => Some(1),
            OpcodeVariant::PushAddrOffsetConst | OpcodeVariant::PushAddrOffsetReg => Some(2),
            _ => None,
        },
        Opcode::Pop => match variant {
            OpcodeVariant::PopReg | OpcodeVariant::PopAddr => Some(1),
            OpcodeVariant::Default => Some(0),
            _ => None,
        },
        Opcode::SHR => match variant {
            OpcodeVariant::SHRConst | OpcodeVariant::SHRReg => Some(1),
            _ => None,
        },
        Opcode::SHL => match variant {
            OpcodeVariant::SHLConst | OpcodeVariant::SHLReg => Some(1),
            _ => None,
        },
        Opcode::Move => match variant {
            OpcodeVariant::MoveConst
            | OpcodeVariant::MoveReg
            | OpcodeVariant::MoveAddr
            | OpcodeVariant::MoveAddrReg => Some(2),
            OpcodeVariant::MoveAddrOffsetConst | OpcodeVariant::MoveAddrOffsetReg => Some(3),
            _ => None,
        },
        Opcode::Store => match variant {
            OpcodeVariant::StoreConst | OpcodeVariant::StoreReg => Some(2),
            _ => None,
        },
        Opcode::Jump => match variant {
            OpcodeVariant::Default
            | OpcodeVariant::JumpNotZero
            | OpcodeVariant::JumpZero
            | OpcodeVariant::JumpGreater
            | OpcodeVariant::JumpGreaterEqual
            | OpcodeVariant::JumpLesser
            | OpcodeVariant::JumpLesserEqual => Some(1),
            _ => None,
        },
        Opcode::Call => match variant {
            OpcodeVariant::CallConst | OpcodeVariant::CallReg | OpcodeVariant::CallAddr => Some(1),
            _ => None,
        },
        Opcode::SafeCall => match variant {
            OpcodeVariant::SafeCallConst
            | OpcodeVariant::SafeCallReg
            | OpcodeVariant::SafeCallAddr => Some(1),
            _ => None,
        },
        Opcode::Dup => match variant {
            OpcodeVariant::Default => Some(0),
            OpcodeVariant::DupConst | OpcodeVariant::DupReg => Some(1),
            _ => None,
        },
        Opcode::Inc | Opcode::Dec => match variant {
            OpcodeVariant::Default => Some(1),
            _ => None,
        },
        Opcode::Int => match variant {
            OpcodeVariant::Default => Some(2),
            _ => None,
        },
        _ => match variant {
            OpcodeVariant::Default => Some(0),
            _ => None,
        },
    }
}

} // verus!
