use stackvm::errors::{Fault, VMError};
use stackvm::hexdump::hexdump_to_string;
use stackvm::memory::Memory;
use stackvm::opcode::{Opcode, OpcodeVariant};

const OPCODES: [(Opcode, u32); 25] = [
    (Opcode::Push, 0xf001), (Opcode::Pop, 0xf002), (Opcode::Add, 0xf003), (Opcode::Sub, 0xf004),
    (Opcode::Swap, 0xf005), (Opcode::Move, 0xf006), (Opcode::Store, 0xf007),
    (Opcode::Jump, 0xf008), (Opcode::And, 0xf009), (Opcode::Or, 0xf00a), (Opcode::Xor, 0xf00b),
    (Opcode::Not, 0xf00c), (Opcode::SHR, 0xf00d), (Opcode::SHL, 0xf00e), (Opcode::Call, 0xf00f),
    (Opcode::Ret, 0xf010), (Opcode::Dup, 0xf011), (Opcode::Int, 0xf012), (Opcode::Drop, 0xf013),
    (Opcode::Mul, 0xf014), (Opcode::Div, 0xf015), (Opcode::Inc, 0xf016), (Opcode::Dec, 0xf017),
    (Opcode::SafeCall, 0xf018), (Opcode::Terminate, 0xffff),
];

const VARIANTS: [(OpcodeVariant, u32); 34] = [
    (OpcodeVariant::Default, 0x0000), (OpcodeVariant::PushConst, 0xa001),
    (OpcodeVariant::PushReg, 0xa002), (OpcodeVariant::PushAddr, 0xa003),
    (OpcodeVariant::PopReg, 0xa004), (OpcodeVariant::PopAddr, 0xa005),
    (OpcodeVariant::MoveConst, 0xa006), (OpcodeVariant::MoveReg, 0xa007),
    (OpcodeVariant::MoveAddr, 0xa008), (OpcodeVariant::StoreConst, 0xa009),
    (OpcodeVariant::StoreReg, 0xa00a), (OpcodeVariant::JumpNotZero, 0xa00b),
    (OpcodeVariant::JumpZero, 0xa00c), (OpcodeVariant::JumpGreater, 0xa00d),
    (OpcodeVariant::JumpGreaterEqual, 0xa00e), (OpcodeVariant::JumpLesser, 0xa00f),
    (OpcodeVariant::JumpLesserEqual, 0xa010), (OpcodeVariant::SHRConst, 0xa011),
    (OpcodeVariant::SHRReg, 0xa012), (OpcodeVariant::SHLConst, 0xa013),
    (OpcodeVariant::SHLReg, 0xa014), (OpcodeVariant::CallConst, 0xa015),
    (OpcodeVariant::CallReg, 0xa016), (OpcodeVariant::CallAddr, 0xa017),
    (OpcodeVariant::DupConst, 0xa018), (OpcodeVariant::DupReg, 0xa019),
    (OpcodeVariant::MoveAddrReg, 0xa01a), (OpcodeVariant::MoveAddrOffsetConst, 0xa01b),
    (OpcodeVariant::MoveAddrOffsetReg, 0xa01c), (OpcodeVariant::PushAddrOffsetConst, 0xa01d),
    (OpcodeVariant::PushAddrOffsetReg, 0xa01e), (OpcodeVariant::SafeCallConst, 0xa01f),
    (OpcodeVariant::SafeCallReg, 0xa020), (OpcodeVariant::SafeCallAddr, 0xa021),
];

#[test]
fn opcode_numbers() {
    for (opcode, code) in OPCODES {
        assert_eq!(opcode.code(), code);
        assert_eq!(Opcode::from_num(code).unwrap(), opcode);
    }
    for (variant, code) in VARIANTS {
        assert_eq!(variant.code(), code);
        assert_eq!(OpcodeVariant::from_num(code).unwrap(), variant);
    }
}

#[test]
fn numbers_outside_the_tables_are_refused() {
    for code in 0..0x1_0100u32 {
        let known = OPCODES.iter().any(|(_, c)| *c == code);
        match Opcode::from_num(code) {
            Ok(opcode) => assert!(known && opcode.code() == code),
            Err(e) => assert!(!known && e.kind() == Fault::InvalidOpcode),
        }
        let known = VARIANTS.iter().any(|(_, c)| *c == code);
        match OpcodeVariant::from_num(code) {
            Ok(variant) => assert!(known && variant.code() == code),
            Err(e) => assert!(!known && e.kind() == Fault::InvalidOpcode),
        }
    }
}

#[test]
fn extract_splits_a_header() {
    assert_eq!(
        Opcode::extract(0xf001_a001).unwrap(),
        (Opcode::Push, OpcodeVariant::PushConst)
    );
    assert_eq!(
        Opcode::extract(0xffff_0000).unwrap(),
        (Opcode::Terminate, OpcodeVariant::Default)
    );
    // no check that the two fit together
    assert_eq!(Opcode::extract(0xf003_a021).unwrap(), (Opcode::Add, OpcodeVariant::SafeCallAddr));
    assert_eq!(Opcode::extract(0xf000_0000).unwrap_err().kind(), Fault::InvalidOpcode);
    assert_eq!(Opcode::extract(0xf001_a022).unwrap_err().kind(), Fault::InvalidOpcode);
    assert_eq!(Opcode::extract(0).unwrap_err().kind(), Fault::InvalidOpcode);
    for (opcode, high) in OPCODES {
        for (variant, low) in VARIANTS {
            assert_eq!(Opcode::extract((high << 16) | low).unwrap(), (opcode, variant));
        }
    }
}

#[test]
fn error_messages() {
    assert_eq!(VMError::StackOverflow.message(), "Stackoverflow error");
    assert_eq!(VMError::InvalidSize("x".to_string()).message(), "Invalid size: x");
    assert_eq!(VMError::EmptyContainer("y".to_string()).message(), "Empty container: y");
    assert_eq!(VMError::InvalidAddress.message(), "Invalid address");
    assert_eq!(VMError::InvalidRegister.message(), "Invalid register");
    assert_eq!(VMError::InvalidOpcode.message(), "Invalid opcode");
    assert_eq!(VMError::InvalidReturn.message(), "Invalid return");
    assert_eq!(VMError::InvalidModule.message(), "Invalid interrupt module");
    assert_eq!(VMError::InvalidFunction.message(), "Invalid interrupt function");
    assert_eq!(VMError::DivisionByZero.message(), "Division by zero");
    assert_eq!(VMError::StepLimit.message(), "Step limit reached");
    assert_eq!(VMError::StepLimit.kind(), Fault::StepLimit);
}

#[test]
fn hexdump_lines() {
    assert_eq!(hexdump_to_string(&[]), "");
    assert_eq!(
        hexdump_to_string(&[0x4865_6c6c, 0x6f20_7e7f, 0, 0xffff_ffff]),
        "00000000: 48656C6C 6F207E7F 00000000 FFFFFFFF |Hello ~.........|\n"
    );
    assert_eq!(
        hexdump_to_string(&[1, 2, 3, 4, 0x4142_4344]),
        "00000000: 00000001 00000002 00000003 00000004 |................|\n\
         00000010: 41424344                            |ABCD|\n"
    );
    let data: Vec<u32> = (0..70).collect();
    let dump = hexdump_to_string(&data);
    assert_eq!(dump.lines().count(), 18);
    assert!(dump.lines().nth(16).unwrap().starts_with("00000100: 00000040 "));
    assert!(dump.lines().nth(17).unwrap().starts_with("00000110: 00000044 00000045          "));
}

#[test]
fn memory_dump_shows_every_cell() {
    let mut mem = Memory::new(6, 2).unwrap();
    mem.write(0, &[0x41, 0x4243]).unwrap();
    mem.push(0x30).unwrap();
    assert_eq!(
        mem.dump(),
        "00000000: 00000041 00004243 00000000 00000000 |...A..BC........|\n\
         00000010: 00000000 00000030                   |.......0|\n"
    );
}
