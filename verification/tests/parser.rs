use stackvm::parser::{
    parse_command, parse_comment, parse_const_value, parse_data_def, parse_line, parse_meta,
    parse_number, parse_program, parse_reg, parse_section, parse_str, tokenize,
};
use stackvm::tokens::{Cmd, ConstValue, DataType, DataValue, MetaType, Token};

#[test]
fn number_hex() {
    let data = "0xa";
    let res = parse_number(data).unwrap();
    assert_eq!(res.1, 10);
}

#[test]
fn number_bin() {
    let data = "0b1010";
    let res = parse_number(data).unwrap();
    assert_eq!(res.1, 10);
}

#[test]
fn number_dec() {
    let data = "10";
    let res = parse_number(data).unwrap();
    assert_eq!(res.1, 10);
}

#[test]
fn parse_string() {
    let data = r#""Hello World\n""#;
    let res = parse_str(data).unwrap();
    assert_eq!(res.1.to_string(), "Hello World\\n".to_string());
}

#[test]
fn parse_meta_object() {
    let data = "@org 0xa";
    let (_, org) = parse_meta(data).unwrap();
    match org {
        MetaType::Org(val) => assert_eq!(val, 10),
        _ => panic!(),
    }

    let data = r#"@include "Hello World""#;
    let (_, org) = parse_meta(data).unwrap();
    match org {
        MetaType::Include(val) => assert_eq!(val, "Hello World"),
        _ => panic!(),
    }
}

#[test]
fn parse_const_value_object() {
    let data = "123";
    let (_, res) = parse_const_value(data).unwrap();
    match res {
        ConstValue::Number(n) => assert_eq!(n, 123),
        _ => panic!(),
    }

    let data = ".label";
    let (_, res) = parse_const_value(data).unwrap();
    match res {
        ConstValue::Label(n) => assert_eq!(n, "label"),
        _ => panic!(),
    }
}

#[test]
fn parse_program_object() {
    let code = r#"
        @org    0x10 
        PUSH 10
        PUSH 32
        PUSH 0x23
        POP     r0
        ADD
        INT 32 0b10101
        TERM
        "#;
    let _res = parse_program(code).unwrap();
}

#[test]
fn program_tokens_in_order() {
    let code = "\n  @org 0x10 \nPUSH 10 ; ten\n; only a comment\n\nPOP r0\r\nINT 32 0b10101\nTERM";
    let tokens = tokenize(code);
    let shown: Vec<String> = tokens.iter().map(|t| format!("{:?}", t)).collect();
    assert_eq!(
        shown,
        vec![
            "Meta(Org(16))",
            "Command(PushConst(Number(10)))",
            "Command(PopReg(0))",
            "Command(Int(32, 21))",
            "Command(Term)",
        ]
    );
}

#[test]
fn reading_stops_at_text_that_is_no_line() {
    let (rest, tokens) = parse_program("ADD\nfoo bar\nSUB\n").unwrap();
    assert_eq!(tokens.len(), 1);
    assert_eq!(rest, "foo bar\nSUB\n");
}

#[test]
fn numbers_in_three_bases_and_their_limits() {
    assert_eq!(parse_number("4294967295 x").unwrap(), (" x", 0xffff_ffff));
    assert!(parse_number("4294967296").is_err());
    assert_eq!(parse_number("0XFFffFFff").unwrap(), ("", 0xffff_ffff));
    assert_eq!(parse_number("0b11111111111111111111111111111111").unwrap().1, 0xffff_ffff);
    assert_eq!(parse_number("000012").unwrap(), ("", 12));
    // a prefix without digits behind it, or with too many, leaves the zero
    assert_eq!(parse_number("0xg").unwrap(), ("xg", 0));
    assert_eq!(parse_number("0x100000000").unwrap(), ("x100000000", 0));
    assert!(parse_number("x12").is_err());
    assert!(parse_number("").is_err());
}

#[test]
fn registers_sections_comments() {
    for (name, id) in [("r0", 0u32), ("R1", 1), ("r2", 2), ("r3", 3), ("r4", 4), ("r5", 5), ("r6", 6), ("r7", 7), ("PC", 100)] {
        assert_eq!(parse_reg(name).unwrap(), ("", id));
    }
    assert!(parse_reg("r8").is_err());
    assert_eq!(parse_section("[data] x").unwrap(), (" x", "data"));
    assert!(parse_section("[da ta]").is_err());
    assert_eq!(parse_comment("; note\nADD").unwrap().0, "\nADD");
    assert!(parse_comment("ADD").is_err());
    assert_eq!(parse_str("\"\"rest").unwrap(), ("rest", ""));
    assert!(parse_str("\"open").is_err());
}

fn command(text: &str) -> String {
    let (rest, cmd) = parse_command(text).unwrap();
    assert_eq!(rest, "");
    format!("{:?}", cmd)
}

#[test]
fn commands_of_every_shape() {
    assert_eq!(command("push 10"), "PushConst(Number(10))");
    assert_eq!(command("PUSH .here"), "PushConst(Label(\"here\"))");
    assert_eq!(command("push r3"), "PushReg(3)");
    assert_eq!(command("push &0x20"), "PushAddr(32)");
    assert_eq!(command("push $msg"), "PushIdAddress(\"msg\")");
    assert_eq!(command("push [$msg]"), "PushIdValueConst(\"msg\", 0)");
    assert_eq!(command("push [$msg + 2]"), "PushIdValueConst(\"msg\", 2)");
    assert_eq!(command("push [$msg + r1]"), "PushIdValueReg(\"msg\", 1)");
    assert_eq!(command("pop r0"), "PopReg(0)");
    assert_eq!(command("pop &7"), "PopAddr(7)");
    assert_eq!(command("move r0 1998"), "MoveConst(0, Number(1998))");
    assert_eq!(command("move r0 .l"), "MoveConst(0, Label(\"l\"))");
    assert_eq!(command("move r1 r3"), "MoveReg(1, 3)");
    assert_eq!(command("move r0 &50"), "MoveAddr(0, 50)");
    assert_eq!(command("move r0 &r1"), "MoveAddrReg(0, 1)");
    assert_eq!(command("move r2 $d"), "MoveIdAddress(2, \"d\")");
    assert_eq!(command("move r2 [$d+1]"), "MoveIdValueConst(2, \"d\", 1)");
    assert_eq!(command("move r2 [$d + r4]"), "MoveIdValueReg(2, \"d\", 4)");
    assert_eq!(command("store 50 r7"), "StoreReg(50, 7)");
    assert_eq!(command("store 50 12"), "StoreConst(50, Number(12))");
    assert_eq!(command("dup"), "Dup");
    assert_eq!(command("dup 7"), "DupConst(7)");
    assert_eq!(command("dup r7"), "DupReg(7)");
    assert_eq!(command("shr 1"), "ShrConst(1)");
    assert_eq!(command("shr r1"), "ShrReg(1)");
    assert_eq!(command("shl 1"), "ShlConst(1)");
    assert_eq!(command("shl r1"), "ShlReg(1)");
    assert_eq!(command("call .f"), "CallConst(Label(\"f\"))");
    assert_eq!(command("call r1"), "CallReg(1)");
    assert_eq!(command("call &9"), "CallAddr(9)");
    assert_eq!(command("safecall .f"), "SafeCallConst(Label(\"f\"))");
    assert_eq!(command("safecall r1"), "SafeCallReg(1)");
    assert_eq!(command("safecall &9"), "SafeCallAddr(9)");
    assert_eq!(command("inc r0"), "Inc(0)");
    assert_eq!(command("dec pc"), "Dec(100)");
    assert_eq!(command("int 0 2"), "Int(0, 2)");
    for (text, shown) in [
        ("add", "Add"), ("sub", "Sub"), ("swap", "Swap"), ("and", "And"), ("or", "Or"),
        ("xor", "Xor"), ("not", "Not"), ("drop", "Drop"), ("ret", "Ret"), ("term", "Term"),
        ("mul", "Mul"), ("div", "Div"),
    ] {
        assert_eq!(command(text), shown);
    }
    for (text, shown) in [
        ("jmp .a", "Jmp(\"a\")"), ("jnz .a", "Jnz(\"a\")"), ("jz .a", "Jz(\"a\")"),
        ("jg .a", "Jg(\"a\")"), ("jge .a", "Jge(\"a\")"), ("jl .a", "Jl(\"a\")"),
        ("jle .a", "Jle(\"a\")"),
    ] {
        assert_eq!(command(text), shown);
    }
    assert!(parse_command("pop").is_err());
    assert!(parse_command("halt").is_err());
}

#[test]
fn data_definitions_and_lines() {
    let (rest, token) = parse_data_def("$msg b \"Hi\" 10 0x0 ; end").unwrap();
    assert_eq!(rest, " ; end");
    match token {
        Token::DataDef(id, typ, values) => {
            assert_eq!(id, "msg");
            assert_eq!(typ, DataType::Byte);
            assert_eq!(values.len(), 3);
            assert!(matches!(values[0], DataValue::String("Hi")));
            assert!(matches!(values[1], DataValue::Number(10)));
            assert!(matches!(values[2], DataValue::Number(0)));
        }
        _ => panic!(),
    }
    assert!(matches!(
        parse_data_def("$n dw 7").unwrap().1,
        Token::DataDef("n", DataType::DoubleWord, _)
    ));
    assert!(matches!(parse_data_def("$n w 7").unwrap().1, Token::DataDef("n", DataType::Word, _)));
    let (rest, token) = parse_line("   .start ; entry\nADD").unwrap();
    assert_eq!(rest, "\nADD");
    assert!(matches!(token, Some(Token::Label("start"))));
    let (rest, token) = parse_line("  ; nothing here\nADD").unwrap();
    assert_eq!(rest, "\nADD");
    assert!(token.is_none());
    let (_, token) = parse_line("[text]").unwrap();
    assert!(matches!(token, Some(Token::Section("text"))));
    let (_, token) = parse_line("term").unwrap();
    assert!(matches!(token, Some(Token::Command(Cmd::Term))));
}
