use crate::errors::{Fault, VMError};
use crate::interrupts::io::{
    print_counted_effect, print_counted_function, print_data_string_effect,
    print_data_string_function, print_effect, print_function, print_number_effect,
    print_number_function, print_until_effect, print_until_function,
};
use crate::machine::Machine;
use crate::semantics::{performs, Effect, MachineView};
use vstd::prelude::*;

verus! {

/// The module of the text services.
pub const IOMODULE: u32 = 0x0000_0000;

pub const PRINT_FUNC: u32 = 0x0000_0000;

pub const PRINT_COUNTED_FUNC: u32 = 0x0000_0001;

pub const PRINT_UNTIL_FUNC: u32 = 0x0000_0002;

pub const PRINT_DATA_STRING_FUNC: u32 = 0x0000_0003;

pub const PRINT_NUMBER_FUNC: u32 = 0x0000_0004;

/// What the service `function` of the module `module` does. An unknown
/// module gives `InvalidModule`, an unknown function of a known module
/// `InvalidFunction`; neither touches the state.
pub open spec fn interrupt_effect(s: MachineView, module: u32, function: u32) -> Effect {
    if module != IOMODULE {
        s.fail(Fault::InvalidModule)
    } else if function == PRINT_FUNC {
        print_effect(s)
    } else if function == PRINT_COUNTED_FUNC {
        print_counted_effect(s)
    } else if function == PRINT_UNTIL_FUNC {
        print_until_effect(s)
    } else if function == PRINT_DATA_STRING_FUNC {
        print_data_string_effect(s)
    } else if function == PRINT_NUMBER_FUNC {
        print_number_effect(s)
    } else {
        s.fail(Fault::InvalidFunction)
    }
}

/// Routes an interrupt to the service it names.
pub fn interrupt_handler(machine: &mut Machine, module: u32, function: u32) -> (r: Result<
    (),
    VMError,
>)
    ensures
        performs(final(machine)@, r, interrupt_effect(old(machine)@, module, function)),
{
    match module {
        IOMODULE => {
            match function {
                PRINT_FUNC => print_function(machine),
                PRINT_COUNTED_FUNC => print_counted_function(machine),
                PRINT_UNTIL_FUNC => print_until_function(machine),
                PRINT_DATA_STRING_FUNC => print_data_string_function(machine),
                PRINT_NUMBER_FUNC => print_number_function(machine),
                _ => Err(VMError::InvalidFunction),
            }
        },
        _ => Err(VMError::InvalidModule),
    }
}

} // verus!
