use vstd::prelude::*;
use vstd::string::StringExecFns;

verus! {

/// The kind of a machine error, without the message some errors carry.
#[derive(Debug, Clone, Copy, PartialEq, Eq, Structural)]
pub enum Fault {
    StackOverflow,
    InvalidSize,
    EmptyContainer,
    InvalidAddress,
    InvalidRegister,
    InvalidOpcode,
    InvalidReturn,
    InvalidModule,
    InvalidFunction,
    DivisionByZero,
    StepLimit,
}

/// Virtual machine errors.
#[derive(Debug)]
pub enum VMError {
    /// The stack region is full.
    StackOverflow,
    /// A memory cannot be built with the requested sizes.
    InvalidSize(String),
    /// A value was requested from an empty container.
    EmptyContainer(String),
    /// An address lies outside the region the operation may touch.
    InvalidAddress,
    /// A register id is neither 0..7 nor 100.
    InvalidRegister,
    /// An instruction header is unknown or its opcode and variant do not fit.
    InvalidOpcode,
    /// A return found no usable frame on the call stack.
    InvalidReturn,
    /// An interrupt named an unknown module.
    InvalidModule,
    /// An interrupt named an unknown function.
    InvalidFunction,
    /// A division had a zero divisor.
    DivisionByZero,
    /// The step budget of a run was used up before the program ended.
    StepLimit,
}

impl VMError {
    /// The kind of this error.
    pub open spec fn fault(&self) -> Fault {
        match self {
            VMError::StackOverflow => Fault::StackOverflow,
            VMError::InvalidSize(_) => Fault::InvalidSize,
            VMError::EmptyContainer(_) => Fault::EmptyContainer,
            VMError::InvalidAddress => Fault::InvalidAddress,
            VMError::InvalidRegister => Fault::InvalidRegister,
            VMError::InvalidOpcode => Fault::InvalidOpcode,
            VMError::InvalidReturn => Fault::InvalidReturn,
            VMError::InvalidModule => Fault::InvalidModule,
            VMError::InvalidFunction => Fault::InvalidFunction,
            VMError::DivisionByZero => Fault::DivisionByZero,
            VMError::StepLimit => Fault::StepLimit,
        }
    }

    /// The text shown to a user for this error.
    pub open spec fn spec_message(&self) -> Seq<char> {
        match self {
            VMError::StackOverflow => "Stackoverflow error"@,
            VMError::InvalidSize(m) => "Invalid size: "@ + m@,
            VMError::EmptyContainer(m) => "Empty container: "@ + m@,
            VMError::InvalidAddress => "Invalid address"@,
            VMError::InvalidRegister => "Invalid register"@,
            VMError::InvalidOpcode => "Invalid opcode"@,
            VMError::InvalidReturn => "Invalid return"@,
            VMError::InvalidModule => "Invalid interrupt module"@,
            VMError::InvalidFunction => "Invalid interrupt function"@,
            VMError::DivisionByZero => "Division by zero"@,
            VMError::StepLimit => "Step limit reached"@,
        }
    }

    /// The kind of this error, as a value that can be compared.
    pub fn kind(&self) -> (k: Fault)
        ensures
            k == self.fault(),
    {
        match self {
            VMError::StackOverflow => Fault::StackOverflow,
            VMError::InvalidSize(_) => Fault::InvalidSize,
            VMError::EmptyContainer(_) => Fault::EmptyContainer,
            VMError::InvalidAddress => Fault::InvalidAddress,
            VMError::InvalidRegister => Fault::InvalidRegister,
            VMError::InvalidOpcode => Fault::InvalidOpcode,
            VMError::InvalidReturn => Fault::InvalidReturn,
            VMError::InvalidModule => Fault::InvalidModule,
            VMError::InvalidFunction => Fault::InvalidFunction,
            VMError::DivisionByZero => Fault::DivisionByZero,
            VMError::StepLimit => Fault::StepLimit,
        }
    }

    /// Renders the error as text.
    pub fn message(&self) -> (text: String)
        ensures
            text@ == self.spec_message(),
    {
        match self {
            VMError::StackOverflow => String::from_str("Stackoverflow error"),
            VMError::InvalidSize(m) => String::from_str("Invalid size: ").concat(m.as_str()),
            VMError::EmptyContainer(m) => String::from_str("Empty container: ").concat(
                m.as_str(),
            ),
            VMError::InvalidAddress => String::from_str("Invalid address"),
            VMError::InvalidRegister => String::from_str("Invalid register"),
            VMError::InvalidOpcode => String::from_str("Invalid opcode"),
            VMError::InvalidReturn => String::from_str("Invalid return"),
            VMError::InvalidModule => String::from_str("Invalid interrupt module"),
            VMError::InvalidFunction => String::from_str("Invalid interrupt function"),
            VMError::DivisionByZero => String::from_str("Division by zero"),
            VMError::StepLimit => String::from_str("Step limit reached"),
        }
    }
}

/// Whether `r` is an error of kind `fault`.
pub open spec fn fault_is<T>(r: Result<T, VMError>, fault: Fault) -> bool {
    r is Err && r->Err_0.fault() == fault
}

} // verus!
