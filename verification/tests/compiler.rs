use stackvm::compiler::{
    check_section, compile, compile_tokens, pack_u16_to_u32, pack_u8_to_u32, AssemblerError,
};
use stackvm::machine::{Machine, MachineOptions};
use stackvm::opcode::combine_hl;
use stackvm::tokens::{Cmd, ConstValue, DataType, DataValue, MetaType, Token};

#[test]
fn compile_code() {
    let code = r#"
        @ORG 32
        
        CALL .print
        CALL .print
        CALL .print
        CALL .print
        CALL .print
        CALL .print
        PUSH 10
        PUSH 3
        MUL
        POP r0
        TERM

        ; Print function
        .print
            PUSH 10
            PUSH 13
            PUSH 69
            DUP
            PUSH 71
            PUSH 72
            PUSH 10

            INT 0 2
            RET
        "#;
    let res = compile(code.to_string()).unwrap();
    let mut machine =
        Machine::new(MachineOptions { memory_cells: 2048, memory_stack_size: 1024 }).unwrap();
    machine.load_data(res.origin, &res.binary).unwrap();
    machine.set_start(res.origin);
    machine.execute().unwrap();
    assert_eq!(machine.read_register(0).unwrap(), 30);
    assert_eq!(machine.output, "HGEE\r\n".repeat(6));
}

#[test]
fn jump_test() {
    let code = r#"
        @ORG 32
        PUSH 10
        PUSH 20
        SUB
        DROP
        JGE .true
        term

        .true
        move r0 1998
        term
        "#;
    let res = compile(code.to_string()).unwrap();
    let mut machine =
        Machine::new(MachineOptions { memory_cells: 2048, memory_stack_size: 1024 }).unwrap();
    machine.load_data(res.origin, &res.binary).unwrap();
    machine.set_start(res.origin);
    machine.execute().unwrap();
    assert_eq!(machine.read_register(0).unwrap(), 1998);
}

fn run(code: &str) -> Machine {
    let res = compile(code.to_string()).unwrap();
    let mut machine =
        Machine::new(MachineOptions { memory_cells: 2048, memory_stack_size: 256 }).unwrap();
    machine.load_data(res.origin, &res.binary).unwrap();
    machine.set_start(res.entry);
    machine.execute().unwrap();
    machine
}

#[test]
fn unsigned_divide_scenario() {
    let machine = run("PUSH 2\nPUSH 10\nDIV\nPOP r0\nMOVE r1 r3\nTERM\n");
    assert_eq!(machine.read_register(0).unwrap(), 5);
    assert_eq!(machine.read_register(1).unwrap(), 0);
    let machine = run("PUSH 3\nPUSH 10\nDIV\nPOP r0\nMOVE r1 r3\nTERM\n");
    assert_eq!(machine.read_register(0).unwrap(), 3);
    assert_eq!(machine.read_register(1).unwrap(), 1);
}

#[test]
fn accumulation_loop_scenario() {
    let code = r#"
        PUSH 5
        PUSH 2
        PUSH 3
        PUSH 4
        PUSH 5
        MOVE r0 0
        MOVE r2 0
        .loop
        POP r1
        PUSH r2
        PUSH r1
        ADD
        POP r2
        INC r0
        PUSH r0
        PUSH 5
        SUB
        DROP
        JNZ .loop
        TERM
    "#;
    let machine = run(code);
    assert_eq!(machine.read_register(2).unwrap(), 19);
    assert_eq!(machine.read_register(0).unwrap(), 5);
}

#[test]
fn procedure_call_scenario() {
    let code = r#"
        @org 16
        PUSH 5
        DUP 4
        MOVE r7 5
        CALL .sum
        MOVE r4 r2
        PUSH 3
        DUP 7
        MOVE r7 8
        CALL .sum
        TERM
        .sum
        MOVE r0 0
        MOVE r2 0
        .loop
        POP r1
        PUSH r2
        PUSH r1
        ADD
        POP r2
        INC r0
        PUSH r0
        PUSH r7
        SUB
        DROP
        JNZ .loop
        RET
    "#;
    let machine = run(code);
    assert_eq!(machine.read_register(4).unwrap(), 5 * 5);
    assert_eq!(machine.read_register(2).unwrap(), 3 * 8);
    assert_eq!(machine.call_depth(), 0);
}

#[test]
fn safecall_preservation_scenario() {
    let code = r#"
        MOVE r0 1
        MOVE r1 2
        MOVE r2 3
        MOVE r3 4
        MOVE r4 5
        MOVE r5 6
        MOVE r6 7
        MOVE r7 8
        PUSH 0
        PUSH 0x80000000
        PUSH 0x80000000
        ADD
        DROP
        DROP
        SAFECALL .f
        TERM
        .f
        MOVE r0 90
        MOVE r1 91
        MOVE r2 92
        MOVE r3 93
        MOVE r4 94
        MOVE r5 95
        MOVE r6 96
        MOVE r7 97
        PUSH 1
        PUSH 1
        ADD
        DROP
        RET
    "#;
    let res = compile(code.to_string()).unwrap();
    let mut machine =
        Machine::new(MachineOptions { memory_cells: 2048, memory_stack_size: 256 }).unwrap();
    machine.load_data(res.origin, &res.binary).unwrap();
    machine.set_start(res.entry);
    // Run up to the safecall and set every flag before it.
    while machine.register.pc != 33 {
        assert!(!machine.execute_next().unwrap());
    }
    machine.flag.zero = true;
    machine.flag.negative = true;
    machine.flag.overflow = true;
    machine.flag.carry = true;
    assert!(!machine.execute_next().unwrap());
    assert_eq!(machine.call_depth(), 14);
    machine.execute().unwrap();
    for id in 0..8 {
        assert_eq!(machine.read_register(id).unwrap(), id + 1);
    }
    assert!(machine.flag.zero && machine.flag.negative);
    assert!(machine.flag.overflow && machine.flag.carry);
    assert_eq!(machine.call_depth(), 0);
}

#[test]
fn label_words_are_origin_plus_position() {
    let tokens = vec![
        Token::Meta(MetaType::Org(100)),
        Token::Command(Cmd::Jmp("end")),
        Token::Command(Cmd::Add),
        Token::Label("end"),
        Token::Command(Cmd::PushConst(ConstValue::Label("end"))),
        Token::Command(Cmd::Term),
    ];
    let frame = compile_tokens(&tokens).unwrap();
    assert_eq!(frame.origin, 100);
    assert_eq!(frame.entry, 100);
    assert_eq!(
        frame.binary,
        vec![0xf008_0000, 103, 0xf003_0000, 0xf001_a001, 103, 0xffff_0000]
    );
}

#[test]
fn last_origin_and_last_label_definition_win() {
    let tokens = vec![
        Token::Meta(MetaType::Org(7)),
        Token::Label("a"),
        Token::Command(Cmd::Jz("a")),
        Token::Label("a"),
        Token::Meta(MetaType::Include("other")),
        Token::Meta(MetaType::Org(1000)),
    ];
    let frame = compile_tokens(&tokens).unwrap();
    assert_eq!(frame.origin, 1000);
    assert_eq!(frame.binary, vec![0xf008_a00c, 1002]);
}

#[test]
fn data_blobs_follow_the_text_and_references_are_patched() {
    let tokens = vec![
        Token::Meta(MetaType::Org(10)),
        Token::Section("data"),
        Token::DataDef("a", DataType::Byte, vec![DataValue::String("Hello"), DataValue::Number(0)]),
        Token::DataDef("b", DataType::DoubleWord, vec![DataValue::Number(7), DataValue::String("AB")]),
        Token::Section("TEXT"),
        Token::Command(Cmd::PushIdAddress("b")),
        Token::Command(Cmd::MoveIdValueConst(1, "a", 1)),
        Token::Command(Cmd::PushIdValueReg("b", 3)),
        Token::Command(Cmd::Term),
    ];
    let frame = compile_tokens(&tokens).unwrap();
    // text: 2 + 3 + 3 + 1 = 9 words; blob a at 10 + 9, blob b two words later
    assert_eq!(
        frame.binary,
        vec![
            0xf001_a001, 21, 0xf006_a008, 1, 20, 0xf001_a01e, 21, 3, 0xffff_0000,
            0x4865_6c6c, 0x6f00_0000, 7, 0x41, 0x42
        ]
    );
}

#[test]
fn every_command_is_encoded_with_its_header_and_operands() {
    let n = ConstValue::Number(9);
    let cases: Vec<(Cmd, Vec<u32>)> = vec![
        (Cmd::PushConst(n), vec![0xf001_a001, 9]),
        (Cmd::PushReg(1), vec![0xf001_a002, 1]),
        (Cmd::PushAddr(2), vec![0xf001_a003, 2]),
        (Cmd::PopReg(3), vec![0xf002_a004, 3]),
        (Cmd::PopAddr(4), vec![0xf002_a005, 4]),
        (Cmd::Add, vec![0xf003_0000]),
        (Cmd::Drop, vec![0xf013_0000]),
        (Cmd::Sub, vec![0xf004_0000]),
        (Cmd::Swap, vec![0xf005_0000]),
        (Cmd::MoveConst(1, n), vec![0xf006_a006, 1, 9]),
        (Cmd::MoveReg(1, 2), vec![0xf006_a007, 1, 2]),
        (Cmd::MoveAddr(1, 2), vec![0xf006_a008, 1, 2]),
        (Cmd::MoveAddrReg(1, 2), vec![0xf006_a01a, 1, 2]),
        (Cmd::StoreConst(5, n), vec![0xf007_a009, 5, 9]),
        (Cmd::StoreReg(5, 6), vec![0xf007_a00a, 5, 6]),
        (Cmd::And, vec![0xf009_0000]),
        (Cmd::Or, vec![0xf00a_0000]),
        (Cmd::Xor, vec![0xf00b_0000]),
        (Cmd::Not, vec![0xf00c_0000]),
        (Cmd::Mul, vec![0xf014_0000]),
        (Cmd::Div, vec![0xf015_0000]),
        (Cmd::Inc(7), vec![0xf016_0000, 7]),
        (Cmd::Dec(7), vec![0xf017_0000, 7]),
        (Cmd::ShrConst(3), vec![0xf00d_a011, 3]),
        (Cmd::ShrReg(3), vec![0xf00d_a012, 3]),
        (Cmd::ShlConst(3), vec![0xf00e_a013, 3]),
        (Cmd::ShlReg(3), vec![0xf00e_a014, 3]),
        (Cmd::CallConst(n), vec![0xf00f_a015, 9]),
        (Cmd::CallReg(2), vec![0xf00f_a016, 2]),
        (Cmd::CallAddr(2), vec![0xf00f_a017, 2]),
        (Cmd::SafeCallConst(n), vec![0xf018_a01f, 9]),
        (Cmd::SafeCallReg(2), vec![0xf018_a020, 2]),
        (Cmd::SafeCallAddr(2), vec![0xf018_a021, 2]),
        (Cmd::Ret, vec![0xf010_0000]),
        (Cmd::Dup, vec![0xf011_0000]),
        (Cmd::DupConst(4), vec![0xf011_a018, 4]),
        (Cmd::DupReg(4), vec![0xf011_a019, 4]),
        (Cmd::Int(0, 2), vec![0xf012_0000, 0, 2]),
        (Cmd::Term, vec![0xffff_0000]),
    ];
    for (cmd, words) in cases {
        let frame = compile_tokens(&vec![Token::Command(cmd)]).unwrap();
        assert_eq!(frame.binary, words);
    }
    let jumps: Vec<(Cmd, u32)> = vec![
        (Cmd::Jmp("l"), 0xf008_0000),
        (Cmd::Jnz("l"), 0xf008_a00b),
        (Cmd::Jz("l"), 0xf008_a00c),
        (Cmd::Jg("l"), 0xf008_a00d),
        (Cmd::Jge("l"), 0xf008_a00e),
        (Cmd::Jl("l"), 0xf008_a00f),
        (Cmd::Jle("l"), 0xf008_a010),
    ];
    for (cmd, word) in jumps {
        let tokens = vec![Token::Meta(MetaType::Org(5)), Token::Label("l"), Token::Command(cmd)];
        assert_eq!(compile_tokens(&tokens).unwrap().binary, vec![word, 5]);
    }
}

#[test]
fn assembler_errors() {
    let unknown = vec![Token::Section("bss")];
    assert_eq!(compile_tokens(&unknown).unwrap_err(), AssemblerError::UnknownSection);
    let command_in_data = vec![Token::Section("data"), Token::Command(Cmd::Add)];
    assert_eq!(
        compile_tokens(&command_in_data).unwrap_err(),
        AssemblerError::SectionMismatch
    );
    let label_in_data = vec![Token::Section("Data"), Token::Label("x")];
    assert_eq!(compile_tokens(&label_in_data).unwrap_err(), AssemblerError::SectionMismatch);
    let data_in_text = vec![
        Token::Section("text"),
        Token::DataDef("x", DataType::Byte, vec![DataValue::Number(1)]),
    ];
    assert_eq!(compile_tokens(&data_in_text).unwrap_err(), AssemblerError::SectionMismatch);
    let data_before_any_section =
        vec![Token::DataDef("x", DataType::Byte, vec![DataValue::Number(1)])];
    assert_eq!(
        compile_tokens(&data_before_any_section).unwrap_err(),
        AssemblerError::SectionMismatch
    );
    let undefined_label = vec![Token::Command(Cmd::Jmp("nowhere"))];
    assert_eq!(compile_tokens(&undefined_label).unwrap_err(), AssemblerError::UndefinedLabel);
    let undefined_data = vec![Token::Command(Cmd::PushIdAddress("nothing"))];
    assert_eq!(compile_tokens(&undefined_data).unwrap_err(), AssemblerError::UndefinedData);
    let both = vec![
        Token::Command(Cmd::PushIdAddress("nothing")),
        Token::Command(Cmd::Jmp("nowhere")),
    ];
    assert_eq!(compile_tokens(&both).unwrap_err(), AssemblerError::UndefinedLabel);
    let byte = vec![
        Token::Section("data"),
        Token::DataDef("x", DataType::Byte, vec![DataValue::Number(255), DataValue::Number(256)]),
    ];
    assert_eq!(compile_tokens(&byte).unwrap_err(), AssemblerError::DataValueOverflow);
    let word = vec![
        Token::Section("data"),
        Token::DataDef("x", DataType::Word, vec![DataValue::Number(65536)]),
    ];
    assert_eq!(compile_tokens(&word).unwrap_err(), AssemblerError::DataValueOverflow);
    let first_error_wins = vec![
        Token::Command(Cmd::Jmp("nowhere")),
        Token::Section("heap"),
        Token::Section("data"),
        Token::Command(Cmd::Add),
    ];
    assert_eq!(compile_tokens(&first_error_wins).unwrap_err(), AssemblerError::UnknownSection);
}

#[test]
fn data_packing() {
    assert_eq!(pack_u8_to_u32(vec![]), Vec::<u32>::new());
    assert_eq!(pack_u8_to_u32(vec![1]), vec![0x0100_0000]);
    assert_eq!(pack_u8_to_u32(vec![1, 2]), vec![0x0102_0000]);
    assert_eq!(pack_u8_to_u32(vec![1, 2, 3]), vec![0x0102_0300]);
    assert_eq!(pack_u8_to_u32(vec![1, 2, 3, 4]), vec![0x0102_0304]);
    assert_eq!(pack_u8_to_u32(vec![1, 2, 3, 4, 0xff]), vec![0x0102_0304, 0xff00_0000]);
    assert_eq!(pack_u16_to_u32(vec![]), Vec::<u32>::new());
    assert_eq!(pack_u16_to_u32(vec![0xabcd]), vec![0xabcd_0000]);
    assert_eq!(pack_u16_to_u32(vec![0xabcd, 0x1234]), vec![0xabcd_1234]);
    assert_eq!(pack_u16_to_u32(vec![1, 2, 3]), vec![0x0001_0002, 0x0003_0000]);
    let words = vec![
        Token::Section("data"),
        Token::DataDef("w", DataType::Word, vec![DataValue::Number(65535), DataValue::String("A")]),
    ];
    assert_eq!(compile_tokens(&words).unwrap().binary, vec![0xffff_0041]);
}

#[test]
fn section_check() {
    assert!(check_section("text", &Some("TEXT")).is_ok());
    assert!(check_section("data", &Some("Data")).is_ok());
    assert!(check_section("text", &None).is_ok());
    assert_eq!(check_section("data", &None), Err(AssemblerError::SectionMismatch));
    assert_eq!(check_section("text", &Some("data")), Err(AssemblerError::SectionMismatch));
}

#[test]
fn header_word_layout() {
    assert_eq!(combine_hl(0xf001, 0xa001), 0xf001_a001);
    assert_eq!(combine_hl(0x1234_f001, 0x5678_a001), 0xf001_a001);
    assert_eq!(combine_hl(0, 0), 0);
}

#[test]
fn compile_with_data_section_and_string_service() {
    let code = "@org 8\n[data]\n$msg dw \"Hi!\" 0\n[text]\nPUSH $msg\nINT 0 3\nPUSH [$msg + 1]\nPOP r0\nTERM\n";
    let machine = run(code);
    assert_eq!(machine.output, "Hi!");
    assert_eq!(machine.read_register(0).unwrap(), 'i' as u32);
}
