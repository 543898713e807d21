//! What the command line asks for.
use crate::machine::MachineOptions;
use vstd::prelude::*;

verus! {

/// The number of memory cells of a machine when the command line names
/// none.
pub const DEFAULT_CELLS: u32 = 2048;

/// The number of stack cells of a machine when the command line names
/// none.
pub const DEFAULT_STACK: u32 = 256;

/// The command line.
#[derive(Debug)]
pub struct Args {
    pub command: Option<Commands>,
}

/// The two things the program can be asked to do.
#[derive(Debug)]
pub enum Commands {
    /// Assemble a source file into a binary file.
    Compile {
        /// The path of the source file.
        path: String,
        /// The path of the binary file to write.
        output: String,
    },
    /// Execute a binary file.
    Exec {
        /// The path of the binary file.
        path: String,
        /// The number of memory cells.
        cells: u32,
        /// The number of stack cells.
        stack: u32,
        /// Whether to show the memory after the program ended.
        dump: bool,
    },
}

impl Commands {
    /// The sizes of the machine that an `Exec` command asks for.
    pub fn machine_options(&self) -> (r: Option<MachineOptions>)
        ensures
            match self {
                Commands::Exec { cells, stack, .. } => r is Some && r->Some_0.memory_cells
                    == cells && r->Some_0.memory_stack_size == stack,
                Commands::Compile { .. } => r is None,
            },
    {
        match self {
            Commands::Exec { cells, stack, .. } => Some(
                MachineOptions { memory_cells: *cells, memory_stack_size: *stack },
            ),
            Commands::Compile { .. } => None,
        }
    }
}

} // verus!
