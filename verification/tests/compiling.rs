use r6502::compiler::{compile, get_opcode, canonical_op_len, Compiler, CompilerConfig};
use r6502::opcodes::{AdrMode, Instr};

#[test]
fn tests_simple_compilation() {
    let source = String::from(
        r##"
            ; should be ignored
            also_ignored:
            ignored = 1 + %101 * ($ff - 3)
            .byte "HELLO WORLD" ; also ignored
            .dword "LLHH", $00ff
            LDA #$a
        "##,
    );
    let mut compiler = Compiler::new(None);
    compiler.init_source(&source).unwrap();
    let hex_string = compiler.to_hex_string().unwrap();
    let bytes = compiler.to_byte_code().unwrap();
    assert_eq!(hex_string, "48 45 4c 4c 4f 20 57 4f 52 4c 44 4c 4c 48 48 ff 00 a9 0a");
    assert_eq!(
        bytes,
        vec![72, 69, 76, 76, 79, 32, 87, 79, 82, 76, 68, 76, 76, 72, 72, 255, 0, 169, 10]
    );
}

#[test]
fn compiler_simple_compilation() {
    let source = String::from(
        r##"
        ; should be ignored
        ignored = 1 + %101 * ($ff - 3)      ; also ignored
        .byte "HELLO WORLD"

        ; offset = -(8 + 2) = -10 = -$0a = $f5 + 1 since ~$0a = $f5
        also_ignored:
        .dword "LLHH", $00ff
        LDA ($ff), y                        ;  official
        NOP
        BNE also_ignored
    "##,
    );
    let mut compiler = Compiler::new(None);
    compiler.init_source(&source).unwrap();
    let hex_string = compiler.to_hex_string().unwrap();
    let bytes = compiler.to_byte_code().unwrap();
    assert_eq!(hex_string, "48 45 4c 4c 4f 20 57 4f 52 4c 44 4c 4c 48 48 ff 00 b1 ff ea d0 f5");

    assert_eq!(
        bytes,
        vec![
            72, 69, 76, 76, 79, 32, 87, 79, 82, 76, 68, 76, 76, 72, 72, 255, 0, 177, 255, 234,
            208, 245
        ]
    );
}

#[test]
fn compile_illegal() {
    let source = String::from(
        r##"
        x = %010
        LAX #$a                        ; non official
        LDA ($f0 + (x * 8 - $1)), y    ; official
        NOP                            ; official, but let's emit non-official opcode
    "##,
    );
    let mut compiler = Compiler::new(Some(CompilerConfig {
        allow_illegal: true,
        enable_nes: false,
        allow_list: vec![
            0xDA, // non official op
        ],
    }));
    compiler.init_source(&source).unwrap();
    let hex_string = compiler.to_hex_string().unwrap();
    let bytes = compiler.to_byte_code().unwrap();
    assert_eq!(hex_string, "ab 0a b1 ff da");
    assert_eq!(bytes, vec![171, 10, 177, 255, 218]);
}

#[test]
fn jump_ahead() {
    let source = String::from(
        r##"
        LDA #$00
        BNE my_label ; d0 08
        ADC #$02
        TAX
        CPX #100
        BNE $02
        my_label:
        NOP
    "##,
    );
    let mut compiler = Compiler::new(None);
    compiler.init_source(&source).unwrap();
    let hex_string = compiler.to_hex_string().unwrap();
    assert_eq!(hex_string, "a9 00 d0 08 69 02 aa e0 64 d0 02 ea");
}

#[test]
fn jump_behind() {
    let source = String::from(
        r##"
        LDA #$00
        my_label:
        ADC #$02
        TAX
        CPX #100
        BNE $02
        BNE my_label ; d0 -$08 == d0 $f7 (after cast to unsigned)
        NOP
    "##,
    );
    let mut compiler = Compiler::new(None);
    compiler.init_source(&source).unwrap();
    let hex_string = compiler.to_hex_string().unwrap();
    assert_eq!(hex_string, "a9 00 69 02 aa e0 64 d0 02 d0 f7 ea");
}

#[test]
fn mode_and_math_expansion() {
    let source = String::from(
        r##"
        ; zp => ASL $BB => 06 ae
        ASL $aa + 2 * %010

        ; impl => ASL => 0a
        ASL

        ; abs => ASL $LLHH => 0e aa bb
        ASL $bbaa + 2 * %010 - %100

        ; zpx => ASL $BB, x => 16 ae
        ASL $aa + 2 * %010, x

        ; absx => ASL $LLHH,X => 1e ae 00
        ASL $00aa + 2 * %010, x
    "##,
    );
    let mut compiler = Compiler::new(None);
    compiler.init_source(&source).unwrap();
    let hex_string = compiler.to_hex_string().unwrap();
    assert_eq!(hex_string, "06 ae 0a 0e aa bb 16 ae 1e ae 00");

    // it must stay possible to tell (math_expr) apart from ((math_expr))
    // when the context decides the addressing mode
    let source = String::from(
        r##"
        ; Note: although similar to the above example except the outer parenthesis,
        ; this will not work, it implies indirect y
        ; which is is not supported by ASL
        ASL ($aa + 2 * %010), y
    "##,
    );
    let mut compiler = Compiler::new(None);
    compiler.init_source(&source).unwrap();
    match compiler.to_hex_string() {
        Ok(_) => panic!("error was expected"),
        Err(s) => assert_eq!(s, "instruction (ASL, INDY) does not exist"),
    }
}

#[test]
fn compile_twice_is_byte_identical() {
    let source = String::from(
        r##"
        LDA #$00
        BNE my_label
        ADC #$02
        my_label:
        NOP
    "##,
    );
    let first = compile(&source, None).unwrap();
    let second = compile(&source, None).unwrap();
    assert_eq!(first, second);

    let mut compiler = Compiler::new(None);
    compiler.init_source(&source).unwrap();
    let once = compiler.to_byte_code().unwrap();
    let again = compiler.to_byte_code().unwrap();
    assert_eq!(once, again);
    assert_eq!(once, first);
}

#[test]
fn forward_branch_out_of_range_is_rejected() {
    let filler = "a".repeat(130);
    let source = format!("BNE far\n.byte \"{}\"\nfar:\nNOP", filler);
    let err = compile(&String::from(source), None).unwrap_err();
    assert_eq!(err, "relative offset too large 131(far) > 127");
}

#[test]
fn backward_branch_out_of_range_is_rejected() {
    let filler = "a".repeat(128);
    let source = format!("far:\n.byte \"{}\"\nBNE far\nNOP", filler);
    let err = compile(&String::from(source), None).unwrap_err();
    assert_eq!(err, "relative offset too large 129(far) < -128");
}

#[test]
fn backward_branch_reaches_the_boundary() {
    // magnitude 127 plus the one-byte adjustment encodes as -128 = 0x80
    let filler = "a".repeat(126);
    let source = format!("far:\n.byte \"{}\"\nBNE far", filler);
    let bytes = compile(&String::from(source), None).unwrap();
    assert_eq!(bytes.len(), 128);
    assert_eq!(bytes[127], 0x80);
}

#[test]
fn branching_to_an_undeclared_label_is_rejected() {
    let err = compile(&String::from("BNE nowhere\nNOP"), None).unwrap_err();
    assert_eq!(err, "unable to jump to invalid label \"nowhere\"");
}

#[test]
fn segment_ordering_is_enforced() {
    let nes = || {
        Some(CompilerConfig { allow_illegal: false, enable_nes: true, allow_list: vec![] })
    };
    // without the platform mode any segment directive is an error
    let err = compile(&String::from(".segment \"HEADER\""), None).unwrap_err();
    assert_eq!(err, "segment directive for nes assembly mode not enabled");
    // the header region must come first
    let err = compile(&String::from(".segment \"CODE\"\nNOP"), nes()).unwrap_err();
    assert_eq!(err, "segment HEADER not provided before segment CODE");
    // and must stand at offset zero
    let err = compile(&String::from(".byte 1\n.segment \"HEADER\""), nes()).unwrap_err();
    assert_eq!(err, "segment HEADER must be at the start of the program");
    // unknown segment names are rejected
    let err = compile(&String::from(".segment \"BANK\""), nes()).unwrap_err();
    assert_eq!(err, "segment \"BANK\" not supported");
    // a well-ordered program compiles
    let bytes = compile(
        &String::from(".segment \"HEADER\"\n.segment \"CODE\"\nNOP"),
        nes(),
    )
    .unwrap();
    assert_eq!(bytes, vec![0xea]);
}

#[test]
fn unimplemented_directives_fail_loudly() {
    let err = compile(&String::from(".res 16"), None).unwrap_err();
    assert_eq!(err, "reserve directive is not implemented");
    let err = compile(&String::from(".proc main\nNOP"), None).unwrap_err();
    assert_eq!(err, "proc directive is not implemented");
    let err = compile(&String::from(".endproc"), None).unwrap_err();
    assert_eq!(err, "endproc directive is not implemented");
}

#[test]
fn word_directive_mixes_widths_per_element() {
    // a pair of characters packs big-endian and is emitted little-endian;
    // an unpaired character or an 8-bit element stays one byte
    let bytes = compile(&String::from(".dw \"ABC\", $ffff, 'A', 5"), None).unwrap();
    assert_eq!(bytes, vec![0x42, 0x41, 0x43, 0xff, 0xff, 0x41, 0x05]);
}

#[test]
fn immediate_operands_must_fit_their_mode() {
    let err = compile(&String::from("LDA #$ff01"), None).unwrap_err();
    assert_eq!(err, "invalid operand size");
}

#[test]
fn opcode_selection_follows_the_policy() {
    // the documented encoding wins without a configuration
    assert_eq!(get_opcode(Instr::NOP, AdrMode::IMPL, None).unwrap().hex, 0xea);
    // an undocumented mnemonic needs a configuration
    assert!(get_opcode(Instr::LAX, AdrMode::IMM, None).is_err());
    let cfg = CompilerConfig { allow_illegal: true, enable_nes: false, allow_list: vec![0xda] };
    // the preferred undocumented byte wins when allowed
    assert_eq!(get_opcode(Instr::NOP, AdrMode::IMPL, Some(cfg.clone())).unwrap().hex, 0xda);
    // with no preference match the documented encoding returns
    assert_eq!(get_opcode(Instr::SBC, AdrMode::IMM, Some(cfg.clone())).unwrap().hex, 0xe9);
    // a pairing the 6502 never had is an error
    let err = get_opcode(Instr::ASL, AdrMode::INDY, Some(cfg)).unwrap_err();
    assert_eq!(err, "instruction (ASL, INDY) does not exist");
}

#[test]
fn canonical_lengths_match_the_modes() {
    assert_eq!(canonical_op_len(&AdrMode::IMPL), 0);
    assert_eq!(canonical_op_len(&AdrMode::IMM), 1);
    assert_eq!(canonical_op_len(&AdrMode::REL), 1);
    assert_eq!(canonical_op_len(&AdrMode::ZPY), 1);
    assert_eq!(canonical_op_len(&AdrMode::ABS), 2);
    assert_eq!(canonical_op_len(&AdrMode::IND), 2);
    assert_eq!(canonical_op_len(&AdrMode::UNKNOWN), -1);
    assert_eq!(r6502::opcodes::canonical_op_len(&AdrMode::ABSX), 2);
}

#[test]
fn hex_rendering_is_two_lowercase_digits_per_byte() {
    let mut compiler = Compiler::new(None);
    compiler.init_source(&String::from(".byte 1, 255, 16")).unwrap();
    assert_eq!(compiler.to_hex_string().unwrap(), "01 ff 10");
}

#[test]
fn parse_string_renders_one_statement_per_line() {
    let mut compiler = Compiler::new(None);
    compiler.init_source(&String::from("start:\nLDA #$01")).unwrap();
    assert_eq!(
        compiler.get_parse_string(),
        "LABEL(\"start\")\nINSTR(LDA, IMM, VALUE(NumericValue { value: 1, size: 8 }))"
    );
}

#[test]
fn use_nes_reflects_the_configuration() {
    let compiler = Compiler::new(None);
    assert!(!compiler.use_nes());
    let compiler = Compiler::new(Some(CompilerConfig {
        allow_illegal: false,
        enable_nes: true,
        allow_list: vec![],
    }));
    assert!(compiler.use_nes());
}

#[test]
fn absolute_jump_uses_little_endian_operands() {
    let bytes = compile(&String::from("JMP $4400"), None).unwrap();
    assert_eq!(bytes, vec![0x4c, 0x00, 0x44]);
    let bytes = compile(&String::from("JMP ($5597)"), None).unwrap();
    assert_eq!(bytes, vec![0x6c, 0x97, 0x55]);
}

#[test]
fn indexed_indirect_operands_compile() {
    let bytes = compile(&String::from("LDA ($FF, x)\nLDA ($44), y"), None).unwrap();
    assert_eq!(bytes, vec![0xa1, 0xff, 0xb1, 0x44]);
}
