use crate::errors::{fault_is, Fault, VMError};
use vstd::prelude::*;

verus! {

/// The id that names the program counter.
pub const PC: u32 = 100;

/// The register file: eight general-purpose words and the program counter.
///
/// Ids 0 to 7 name `r0` to `r7`; id 100 names `pc`.
#[derive(Debug, Clone, Copy, PartialEq, Eq, Structural)]
pub struct Register {
    pub r0: u32,
    pub r1: u32,
    pub r2: u32,
    pub r3: u32,
    pub r4: u32,
    pub r5: u32,
    pub r6: u32,
    pub r7: u32,
    pub pc: u32,
}

impl Register {
    /// Whether `reg_num` names a register.
    pub open spec fn valid_id(reg_num: u32) -> bool {
        reg_num <= 7 || reg_num == 100
    }

    /// The word held by the register that `reg_num` names.
    pub open spec fn value(&self, reg_num: u32) -> u32
        recommends
            Self::valid_id(reg_num),
    {
        if reg_num == 0 {
            self.r0
        } else if reg_num == 1 {
            self.r1
        } else if reg_num == 2 {
            self.r2
        } else if reg_num == 3 {
            self.r3
        } else if reg_num == 4 {
            self.r4
        } else if reg_num == 5 {
            self.r5
        } else if reg_num == 6 {
            self.r6
        } else if reg_num == 7 {
            self.r7
        } else {
            self.pc
        }
    }

    /// The register file with the register that `reg_num` names replaced by `value`.
    pub open spec fn with(&self, reg_num: u32, value: u32) -> Register
        recommends
            Self::valid_id(reg_num),
    {
        if reg_num == 0 {
            Register { r0: value, ..*self }
        } else if reg_num == 1 {
            Register { r1: value, ..*self }
        } else if reg_num == 2 {
            Register { r2: value, ..*self }
        } else if reg_num == 3 {
            Register { r3: value, ..*self }
        } else if reg_num == 4 {
            Register { r4: value, ..*self }
        } else if reg_num == 5 {
            Register { r5: value, ..*self }
        } else if reg_num == 6 {
            Register { r6: value, ..*self }
        } else if reg_num == 7 {
            Register { r7: value, ..*self }
        } else {
            Register { pc: value, ..*self }
        }
    }

    /// The register file at reset.
    pub open spec fn zeroed() -> Register {
        Register { r0: 0, r1: 0, r2: 0, r3: 0, r4: 0, r5: 0, r6: 0, r7: 0, pc: 0 }
    }

    /// A register file with every register at zero.
    pub fn new() -> (r: Self)
        ensures
            r == Self::zeroed(),
    {
        Self { r0: 0, r1: 0, r2: 0, r3: 0, r4: 0, r5: 0, r6: 0, r7: 0, pc: 0 }
    }

    /// Stores `value` in the register that `reg_num` names.
    ///
    /// Fails with `InvalidRegister`, leaving the file as it was, when
    /// `reg_num` names no register.
    pub fn set(&mut self, reg_num: u32, value: u32) -> (r: Result<(), VMError>)
        ensures
            Self::valid_id(reg_num) ==> r is Ok && *final(self) == old(self).with(reg_num, value),
            !Self::valid_id(reg_num) ==> fault_is(r, Fault::InvalidRegister) && *final(self)
                == *old(self),
    {
        match reg_num {
            0 => self.r0 = value,
            1 => self.r1 = value,
            2 => self.r2 = value,
            3 => self.r3 = value,
            4 => self.r4 = value,
            5 => self.r5 = value,
            6 => self.r6 = value,
            7 => self.r7 = value,
            100 => self.pc = value,
            _ => {
                return Err(VMError::InvalidRegister);
            },
        }
        Ok(())
    }

    /// Reads the register that `reg_num` names.
    ///
    /// Fails with `InvalidRegister` when `reg_num` names no register.
    pub fn get(&self, reg_num: u32) -> (r: Result<u32, VMError>)
        ensures
            Self::valid_id(reg_num) ==> r == Ok::<u32, VMError>(self.value(reg_num)),
            !Self::valid_id(reg_num) ==> fault_is(r, Fault::InvalidRegister),
    {
        match reg_num {
            0 => Ok(self.r0),
            1 => Ok(self.r1),
            2 => Ok(self.r2),
            3 => Ok(self.r3),
            4 => Ok(self.r4),
            5 => Ok(self.r5),
            6 => Ok(self.r6),
            7 => Ok(self.r7),
            100 => Ok(self.pc),
            _ => Err(VMError::InvalidRegister),
        }
    }
}

} // verus!
