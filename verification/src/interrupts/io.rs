use crate::errors::{Fault, VMError};
use crate::machine::Machine;
use crate::semantics::{performs, Effect, MachineView};
use crate::text::is_scalar;
use vstd::prelude::*;

verus! {

/// The character printed in place of a word that is no Unicode scalar
/// value.
pub const REPLACEMENT: char = '\u{2610}';

/// The character a word is printed as.
pub open spec fn scalar_char(code: u32) -> char {
    if is_scalar(code) {
        code as char
    } else {
        REPLACEMENT
    }
}

/// The character of a decimal digit.
pub open spec fn digit_char(d: nat) -> char
    recommends
        d < 10,
{
    (48 + d) as char
}

/// The decimal form of a number, without leading zeros.
pub open spec fn decimal(n: nat) -> Seq<char>
    decreases n,
{
    if n < 10 {
        seq![digit_char(n)]
    } else {
        decimal(n / 10).push(digit_char(n % 10))
    }
}

/// Service 0: pops one word and prints it as a character.
pub open spec fn print_effect(s: MachineView) -> Effect {
    if s.memory.sp == 0 {
        s.fail(Fault::EmptyContainer)
    } else {
        s.popped().with_output(s.output.push(scalar_char(s.memory.top()))).advance()
    }
}

/// Pops and prints `count` words, stopping at the first pop that fails.
pub open spec fn print_counted_from(s: MachineView, count: nat) -> Effect
    decreases count,
{
    if count == 0 {
        s.advance()
    } else {
        let once = print_effect(s);
        if once.result is Ok {
            print_counted_from(once.state, (count - 1) as nat)
        } else {
            once
        }
    }
}

/// Service 1: pops a count, then pops and prints that many words.
pub open spec fn print_counted_effect(s: MachineView) -> Effect {
    if s.memory.sp == 0 {
        s.fail(Fault::EmptyContainer)
    } else {
        print_counted_from(s.popped(), s.memory.top() as nat)
    }
}

/// Pops and prints words up to and including the first that equals
/// `sentinel`.
pub open spec fn print_until_from(s: MachineView, sentinel: u32) -> Effect
    decreases s.memory.sp,
{
    if s.memory.sp == 0 {
        s.fail(Fault::EmptyContainer)
    } else {
        let code = s.memory.top();
        let printed = s.popped().with_output(s.output.push(scalar_char(code)));
        if code == sentinel {
            printed.advance()
        } else {
            print_until_from(printed, sentinel)
        }
    }
}

/// Service 2: pops a sentinel, then pops and prints words up to and
/// including the first that equals it.
pub open spec fn print_until_effect(s: MachineView) -> Effect {
    if s.memory.sp == 0 {
        s.fail(Fault::EmptyContainer)
    } else {
        print_until_from(s.popped(), s.memory.top())
    }
}

/// Prints the memory words from `address` upward, up to the first zero
/// word, which is not printed. Fails with `InvalidAddress` when the end of
/// memory comes first.
pub open spec fn print_string_from(s: MachineView, address: nat) -> Effect
    decreases s.memory.cells.len() - address,
{
    if address >= s.memory.cells.len() {
        s.fail(Fault::InvalidAddress)
    } else if s.memory.cells[address as int] == 0 {
        s.advance()
    } else {
        print_string_from(
            s.with_output(s.output.push(scalar_char(s.memory.cells[address as int]))),
            address + 1,
        )
    }
}

/// Service 3: pops an address and prints the zero-terminated string that
/// starts there.
pub open spec fn print_data_string_effect(s: MachineView) -> Effect {
    if s.memory.sp == 0 {
        s.fail(Fault::EmptyContainer)
    } else {
        print_string_from(s.popped(), s.memory.top() as nat)
    }
}

/// Service 4: pops one word and prints its decimal form.
pub open spec fn print_number_effect(s: MachineView) -> Effect {
    if s.memory.sp == 0 {
        s.fail(Fault::EmptyContainer)
    } else {
        s.popped().with_output(s.output + decimal(s.memory.top() as nat)).advance()
    }
}

/// Appends the character that `code` is printed as.
fn emit(machine: &mut Machine, code: u32)
    ensures
        final(machine)@ == old(machine)@.with_output(old(machine)@.output.push(scalar_char(code))),
{
    let c = match char::from_u32(code) {
        Some(c) => c,
        None => REPLACEMENT,
    };
    machine.output.push(c);
}

/// Pops one word and prints it as a character; a word that is no Unicode
/// scalar value is printed as the replacement character.
pub fn print_function(machine: &mut Machine) -> (r: Result<(), VMError>)
    ensures
        performs(final(machine)@, r, print_effect(old(machine)@)),
{
    let code = match machine.memory.pop() {
        Ok(code) => code,
        Err(e) => {
            return Err(e);
        },
    };
    emit(machine, code);
    Ok(())
}

/// Pops a count, then pops and prints that many words.
pub fn print_counted_function(machine: &mut Machine) -> (r: Result<(), VMError>)
    ensures
        performs(final(machine)@, r, print_counted_effect(old(machine)@)),
{
    let number = match machine.memory.pop() {
        Ok(number) => number,
        Err(e) => {
            return Err(e);
        },
    };
    let mut i: u32 = 0;
    while i < number
        invariant
            i <= number,
            print_counted_effect(old(machine)@) == print_counted_from(
                machine@,
                (number - i) as nat,
            ),
        decreases number - i,
    {
        match print_function(machine) {
            Ok(()) => {},
            Err(e) => {
                return Err(e);
            },
        }
        i += 1;
    }
    Ok(())
}

/// Pops a sentinel, then pops and prints words up to and including the
/// first that equals the sentinel.
pub fn print_until_function(machine: &mut Machine) -> (r: Result<(), VMError>)
    ensures
        performs(final(machine)@, r, print_until_effect(old(machine)@)),
{
    let chr = match machine.memory.pop() {
        Ok(chr) => chr,
        Err(e) => {
            return Err(e);
        },
    };
    loop
        invariant
            machine@.wf(),
            print_until_effect(old(machine)@) == print_until_from(machine@, chr),
        decreases machine@.memory.sp,
    {
        let code = match machine.memory.pop() {
            Ok(code) => code,
            Err(e) => {
                return Err(e);
            },
        };
        emit(machine, code);
        if code == chr {
            return Ok(());
        }
    }
}

/// Pops an address and prints the memory words from there upward, up to
/// the first zero word.
pub fn print_data_string_function(machine: &mut Machine) -> (r: Result<(), VMError>)
    ensures
        performs(final(machine)@, r, print_data_string_effect(old(machine)@)),
{
    let start = match machine.memory.pop() {
        Ok(start) => start,
        Err(e) => {
            return Err(e);
        },
    };
    let mut addr: u32 = start;
    loop
        invariant
            machine@.wf(),
            print_data_string_effect(old(machine)@) == print_string_from(machine@, addr as nat),
        decreases machine@.memory.cells.len() - addr,
    {
        let character = match machine.memory.read(addr) {
            Ok(character) => character,
            Err(e) => {
                return Err(e);
            },
        };
        if character == 0 {
            return Ok(());
        }
        emit(machine, character);
        addr += 1;
    }
}

/// Appends the decimal form of `n` to `out`.
fn push_decimal(out: &mut String, n: u32)
    ensures
        final(out)@ == old(out)@ + decimal(n as nat),
    decreases n,
{
    if n >= 10 {
        push_decimal(out, n / 10);
    }
    let d: u8 = (n % 10) as u8;
    out.push((48u8 + d) as char);
    assert(final(out)@ =~= old(out)@ + decimal(n as nat));
}

/// Pops one word and prints its decimal form.
pub fn print_number_function(machine: &mut Machine) -> (r: Result<(), VMError>)
    ensures
        performs(final(machine)@, r, print_number_effect(old(machine)@)),
{
    let value = match machine.memory.pop() {
        Ok(value) => value,
        Err(e) => {
            return Err(e);
        },
    };
    push_decimal(&mut machine.output, value);
    Ok(())
}

} // verus!
