//! Properties of the machine that follow from the meaning of its
//! instructions.
use crate::interrupts::handler::interrupt_effect;
use crate::interrupts::io::{
    print_counted_from, print_effect, print_string_from, print_until_from, scalar_char,
};
use crate::machine::STEP_LIMIT;
use crate::opcode::{spec_extract, Opcode, OpcodeVariant};
use crate::register::Register;
use crate::semantics::{
    arity, binary_effect, call_effect, count_effect, dup_effect, dup_once, dup_repeat, effect,
    jump_effect, move_effect, next_pc, operand, pop_effect, push_effect, ret_effect, run,
    safe_frame_on_top, safecall_effect, shift_effect, step, store_effect, unary_effect,
    MachineView, SAFE_FRAME, SENTINEL,
};
use vstd::prelude::*;

verus! {

/// Whether the instruction header at the program counter of `s` is inside
/// memory and decodes to `(opcode, variant)`.
pub open spec fn at_instruction(s: MachineView, opcode: Opcode, variant: OpcodeVariant) -> bool {
    &&& s.memory.can_read(s.register.pc as int)
    &&& spec_extract(s.memory.cells[s.register.pc as int]) == Some((opcode, variant))
}

/// A run that halts within `steps` steps halts in the same state with any
/// larger number of steps.
pub proof fn lemma_run_halts_with_more_fuel(s: MachineView, steps: nat, more: nat)
    requires
        steps <= more,
        run(s, steps).status is Halted,
    ensures
        run(s, more) == run(s, steps),
    decreases steps,
{
    if steps > 0 {
        let o = step(s);
        if o.status is Running {
            lemma_run_halts_with_more_fuel(o.state, (steps - 1) as nat, (more - 1) as nat);
        }
    }
}

/// A program that reaches `Terminate` within the step limit makes
/// `execute` succeed: the run with `STEP_LIMIT` steps halts, in the state
/// in which the program terminated.
pub proof fn lemma_terminating_program_succeeds(s: MachineView, steps: nat)
    requires
        steps <= STEP_LIMIT,
        run(s, steps).status is Halted,
    ensures
        run(s, STEP_LIMIT as nat).status is Halted,
        run(s, STEP_LIMIT as nat).state == run(s, steps).state,
{
    lemma_run_halts_with_more_fuel(s, steps, STEP_LIMIT as nat);
}

/// `Terminate` halts the machine and changes nothing, whatever the call
/// stack holds.
pub proof fn lemma_terminate_halts(s: MachineView)
    requires
        s.wf(),
        at_instruction(s, Opcode::Terminate, OpcodeVariant::Default),
    ensures
        step(s).status is Halted,
        step(s).state == s,
        run(s, 1).status is Halted,
{
    assert(s.with_pc(s.register.pc) == s);
}

/// `Ret` on a call stack whose top is no sentinel takes one word off: the
/// call stack shrinks by one and execution goes on after the address that
/// was on top.
pub proof fn lemma_ret_plain(s: MachineView)
    requires
        s.wf(),
        at_instruction(s, Opcode::Ret, OpcodeVariant::Default),
        s.call_stack.len() > 0,
        s.call_stack.last() != SENTINEL,
    ensures
        step(s).status is Running,
        step(s).state.call_stack == s.call_stack.drop_last(),
        step(s).state.call_stack.len() == s.call_stack.len() - 1,
        step(s).state.register.pc == next_pc(s.call_stack.last()),
{
    assert(s.with_pc(s.register.pc) == s);
}

/// `Ret` on a call stack that ends in a whole safecall frame takes the
/// frame off: the call stack shrinks by fourteen words.
pub proof fn lemma_ret_safe(s: MachineView)
    requires
        s.wf(),
        at_instruction(s, Opcode::Ret, OpcodeVariant::Default),
        safe_frame_on_top(s.call_stack),
    ensures
        step(s).status is Running,
        step(s).state.call_stack == s.call_stack.take(s.call_stack.len() - SAFE_FRAME),
        step(s).state.call_stack.len() == s.call_stack.len() - 14,
        step(s).state.register.pc == next_pc(s.call_stack[s.call_stack.len() - SAFE_FRAME]),
{
    assert(s.with_pc(s.register.pc) == s);
}

/// A call puts one word on the call stack, a safecall fourteen.
pub proof fn lemma_call_grows_call_stack(s: MachineView, opcode: Opcode, variant: OpcodeVariant)
    requires
        s.wf(),
        opcode is Call || opcode is SafeCall,
        arity(opcode, variant) is Some,
        at_instruction(s, opcode, variant),
        step(s).status is Running,
    ensures
        opcode is Call ==> step(s).state.call_stack == s.call_stack.push(
            (s.register.pc + 1) as u32,
        ),
        opcode is SafeCall ==> step(s).state.call_stack == s.call_stack.push(
            (s.register.pc + 1) as u32,
        ) + s.snapshot() && step(s).state.call_stack.len() == s.call_stack.len() + 14
            && safe_frame_on_top(step(s).state.call_stack),
        step(s).state.register.r0 == s.register.r0,
        step(s).state.flag == s.flag,
{
}

/// Save and restore: when a safecall succeeded and the procedure comes to
/// a `Ret` with the call stack as the safecall left it, the `Ret` gives
/// the registers `r0` to `r7` and the four flags the values they had
/// before the safecall, whatever the procedure did to them, takes the
/// frame off the call stack and goes on after the safecall.
pub proof fn lemma_safecall_ret_restores(
    before: MachineView,
    variant: OpcodeVariant,
    inside: MachineView,
)
    requires
        before.wf(),
        arity(Opcode::SafeCall, variant) is Some,
        at_instruction(before, Opcode::SafeCall, variant),
        step(before).status is Running,
        inside.wf(),
        at_instruction(inside, Opcode::Ret, OpcodeVariant::Default),
        inside.call_stack == step(before).state.call_stack,
    ensures
        step(inside).status is Running,
        step(inside).state.register.r0 == before.register.r0,
        step(inside).state.register.r1 == before.register.r1,
        step(inside).state.register.r2 == before.register.r2,
        step(inside).state.register.r3 == before.register.r3,
        step(inside).state.register.r4 == before.register.r4,
        step(inside).state.register.r5 == before.register.r5,
        step(inside).state.register.r6 == before.register.r6,
        step(inside).state.register.r7 == before.register.r7,
        step(inside).state.flag == before.flag,
        step(inside).state.call_stack == before.call_stack,
        step(inside).state.register.pc == before.register.pc + 2,
        step(inside).state.memory == inside.memory,
        step(inside).state.output == inside.output,
{
    lemma_call_grows_call_stack(before, Opcode::SafeCall, variant);
    let stack = inside.call_stack;
    let frame = before.call_stack.push((before.register.pc + 1) as u32) + before.snapshot();
    assert(stack == frame);
    assert(inside.with_pc(inside.register.pc) == inside);
    assert(stack.take(stack.len() - SAFE_FRAME) =~= before.call_stack);
}

/// Whether `after` is a valid state whose memory has the size and the
/// stack region of the memory of `before`.
pub open spec fn keeps_shape(before: MachineView, after: MachineView) -> bool {
    &&& after.wf()
    &&& after.memory.cells.len() == before.memory.cells.len()
    &&& after.memory.ssize == before.memory.ssize
}

proof fn lemma_dup_repeat_keeps_shape(s: MachineView, count: nat)
    requires
        s.wf(),
    ensures
        keeps_shape(s, dup_repeat(s, count).state),
    decreases count,
{
    if count > 0 && dup_once(s).result is Ok {
        lemma_dup_repeat_keeps_shape(dup_once(s).state, (count - 1) as nat);
    }
}

proof fn lemma_print_counted_keeps_shape(s: MachineView, count: nat)
    requires
        s.wf(),
    ensures
        keeps_shape(s, print_counted_from(s, count).state),
    decreases count,
{
    if count > 0 && print_effect(s).result is Ok {
        lemma_print_counted_keeps_shape(print_effect(s).state, (count - 1) as nat);
    }
}

proof fn lemma_print_until_keeps_shape(s: MachineView, sentinel: u32)
    requires
        s.wf(),
    ensures
        keeps_shape(s, print_until_from(s, sentinel).state),
    decreases s.memory.sp,
{
    if s.memory.sp > 0 && s.memory.top() != sentinel {
        lemma_print_until_keeps_shape(
            s.popped().with_output(
                s.output.push(scalar_char(s.memory.top())),
            ),
            sentinel,
        );
    }
}

proof fn lemma_print_string_keeps_shape(s: MachineView, address: nat)
    requires
        s.wf(),
    ensures
        keeps_shape(s, print_string_from(s, address).state),
    decreases s.memory.cells.len() - address,
{
    if address < s.memory.cells.len() && s.memory.cells[address as int] != 0 {
        lemma_print_string_keeps_shape(
            s.with_output(
                s.output.push(scalar_char(s.memory.cells[address as int])),
            ),
            address + 1,
        );
    }
}

/// No interrupt service changes the size of the memory or of its stack
/// region, and each leaves the stack pointer inside the stack region.
pub proof fn lemma_interrupt_keeps_shape(s: MachineView, module: u32, function: u32)
    requires
        s.wf(),
    ensures
        keeps_shape(s, interrupt_effect(s, module, function).state),
{
    if s.memory.sp > 0 {
        lemma_print_counted_keeps_shape(s.popped(), s.memory.top() as nat);
        lemma_print_until_keeps_shape(s.popped(), s.memory.top());
        lemma_print_string_keeps_shape(s.popped(), s.memory.top() as nat);
    }
}

proof fn lemma_push_keeps_shape(variant: OpcodeVariant, s: MachineView, x0: u32, x1: u32)
    requires
        s.wf(),
    ensures
        keeps_shape(s, push_effect(variant, s, x0, x1).state),
{
}

proof fn lemma_pop_keeps_shape(variant: OpcodeVariant, s: MachineView, x0: u32)
    requires
        s.wf(),
    ensures
        keeps_shape(s, pop_effect(variant, s, x0).state),
{
}

proof fn lemma_binary_keeps_shape(opcode: Opcode, s: MachineView)
    requires
        s.wf(),
    ensures
        keeps_shape(s, binary_effect(opcode, s).state),
{
}

proof fn lemma_unary_keeps_shape(opcode: Opcode, s: MachineView, amount: u32)
    requires
        s.wf(),
    ensures
        keeps_shape(s, unary_effect(opcode, s, amount).state),
{
}

proof fn lemma_shift_keeps_shape(opcode: Opcode, variant: OpcodeVariant, s: MachineView, x0: u32)
    requires
        s.wf(),
    ensures
        keeps_shape(s, shift_effect(opcode, variant, s, x0).state),
{
}

proof fn lemma_move_keeps_shape(variant: OpcodeVariant, s: MachineView, x0: u32, x1: u32, x2: u32)
    requires
        s.wf(),
    ensures
        keeps_shape(s, move_effect(variant, s, x0, x1, x2).state),
{
}

proof fn lemma_store_keeps_shape(variant: OpcodeVariant, s: MachineView, x0: u32, x1: u32)
    requires
        s.wf(),
    ensures
        keeps_shape(s, store_effect(variant, s, x0, x1).state),
{
}

proof fn lemma_jump_keeps_shape(variant: OpcodeVariant, s: MachineView, x0: u32)
    requires
        s.wf(),
    ensures
        keeps_shape(s, jump_effect(variant, s, x0).state),
{
}

proof fn lemma_call_keeps_shape(variant: OpcodeVariant, s: MachineView, x0: u32)
    requires
        s.wf(),
    ensures
        keeps_shape(s, call_effect(variant, s, x0).state),
{
}

proof fn lemma_safecall_keeps_shape(variant: OpcodeVariant, s: MachineView, x0: u32)
    requires
        s.wf(),
    ensures
        keeps_shape(s, safecall_effect(variant, s, x0).state),
{
}

proof fn lemma_ret_keeps_shape(s: MachineView)
    requires
        s.wf(),
    ensures
        keeps_shape(s, ret_effect(s).state),
{
}

proof fn lemma_count_keeps_shape(opcode: Opcode, s: MachineView, x0: u32)
    requires
        s.wf(),
    ensures
        keeps_shape(s, count_effect(opcode, s, x0).state),
{
}

proof fn lemma_dup_keeps_shape(variant: OpcodeVariant, s: MachineView, x0: u32)
    requires
        s.wf(),
    ensures
        keeps_shape(s, dup_effect(variant, s, x0).state),
{
    lemma_dup_repeat_keeps_shape(s, x0 as nat);
    if Register::valid_id(x0) {
        lemma_dup_repeat_keeps_shape(s, s.register.value(x0) as nat);
    }
}

/// No instruction changes the size of the memory or of its stack region,
/// and each leaves the stack pointer inside the stack region, also when
/// it fails.
pub proof fn lemma_effect_keeps_shape(
    opcode: Opcode,
    variant: OpcodeVariant,
    s: MachineView,
    x0: u32,
    x1: u32,
    x2: u32,
)
    requires
        s.wf(),
    ensures
        keeps_shape(s, effect(opcode, variant, s, x0, x1, x2).state),
{
    if arity(opcode, variant) is Some {
        match opcode {
            Opcode::Push => lemma_push_keeps_shape(variant, s, x0, x1),
            Opcode::Pop | Opcode::Drop => lemma_pop_keeps_shape(variant, s, x0),
            Opcode::Add
            | Opcode::Sub
            | Opcode::Mul
            | Opcode::Div
            | Opcode::Swap
            | Opcode::And
            | Opcode::Or
            | Opcode::Xor => lemma_binary_keeps_shape(opcode, s),
            Opcode::Not => lemma_unary_keeps_shape(opcode, s, 0),
            Opcode::SHR | Opcode::SHL => lemma_shift_keeps_shape(opcode, variant, s, x0),
            Opcode::Move => lemma_move_keeps_shape(variant, s, x0, x1, x2),
            Opcode::Store => lemma_store_keeps_shape(variant, s, x0, x1),
            Opcode::Jump => lemma_jump_keeps_shape(variant, s, x0),
            Opcode::Call => lemma_call_keeps_shape(variant, s, x0),
            Opcode::SafeCall => lemma_safecall_keeps_shape(variant, s, x0),
            Opcode::Ret => lemma_ret_keeps_shape(s),
            Opcode::Dup => lemma_dup_keeps_shape(variant, s, x0),
            Opcode::Inc | Opcode::Dec => lemma_count_keeps_shape(opcode, s, x0),
            Opcode::Int => lemma_interrupt_keeps_shape(s, x0, x1),
            Opcode::Terminate => {},
        }
    }
}

/// The memory stays valid: a step from a valid state gives a valid state
/// with a memory of the same size and the same stack region.
pub proof fn lemma_step_keeps_shape(s: MachineView)
    requires
        s.wf(),
    ensures
        keeps_shape(s, step(s).state),
{
    let pc = s.register.pc;
    if s.memory.can_read(pc as int) {
        match spec_extract(s.memory.cells[pc as int]) {
            Some((opcode, variant)) => {
                match arity(opcode, variant) {
                    Some(count) => {
                        if pc + count < s.memory.cells.len() {
                            let at = s.with_pc((pc + count) as u32);
                            lemma_effect_keeps_shape(
                                opcode,
                                variant,
                                at,
                                operand(s, count, 1),
                                operand(s, count, 2),
                                operand(s, count, 3),
                            );
                        }
                    },
                    None => {},
                }
            },
            None => {},
        }
    }
}

/// The memory stays valid through a whole run.
pub proof fn lemma_run_keeps_shape(s: MachineView, fuel: nat)
    requires
        s.wf(),
    ensures
        keeps_shape(s, run(s, fuel).state),
    decreases fuel,
{
    if fuel > 0 {
        lemma_step_keeps_shape(s);
        if step(s).status is Running {
            lemma_run_keeps_shape(step(s).state, (fuel - 1) as nat);
        }
    }
}

} // verus!
