use r6502::asm_lexer::{AsmLexer, Token};

#[test]
fn tests_simple_lexing() {
    let mut lexer = AsmLexer::new(&String::from(
        r"
            ; Example program
            start:
                INSTR_A (#$ABC), F
                INSTR_B
                INSTR_C %001
                INSTR_D 123456
                INSTR_E %0
        ",
    ));
    let res = lexer.tokenize();
    let tokens = vec![
        Token::COMMENT(" Example program".to_owned()),
        Token::NEWLINE,
        Token::LITERAL("start".to_owned()),
        Token::COLON,
        Token::NEWLINE,
        Token::LITERAL("INSTR_A".to_owned()),
        Token::PARENTOPEN,
        Token::HASH,
        Token::HEX("ABC".to_owned()),
        Token::PARENTCLOSE,
        Token::COMMA,
        Token::LITERAL("F".to_owned()),
        Token::NEWLINE,
        Token::LITERAL("INSTR_B".to_owned()),
        Token::NEWLINE,
        Token::LITERAL("INSTR_C".to_owned()),
        Token::BIN("001".to_owned()),
        Token::NEWLINE,
        Token::LITERAL("INSTR_D".to_owned()),
        Token::DEC("123456".to_owned()),
        Token::NEWLINE,
        Token::LITERAL("INSTR_E".to_owned()),
        Token::BIN("0".to_owned()),
        Token::EOF,
    ];
    assert_eq!(res.unwrap(), tokens);
}

#[test]
fn tests_basic_lexing() {
    let mut lexer = AsmLexer::new(&String::from(
        r##"
            .proc .procend   .main some._literal ; then comments
            $ff01 %00010 , "a \"string\"" 'a' .lit : 'b' '\''
        "##,
    ));
    let res = lexer.tokenize();

    let tokens = vec![
        Token::DIRECTIVE("proc".to_owned()),
        Token::DIRECTIVE("procend".to_owned()),
        Token::DIRECTIVE("main".to_owned()),
        Token::LITERAL("some._literal".to_owned()),
        Token::COMMENT(" then comments".to_owned()),
        Token::NEWLINE,
        Token::HEX("ff01".to_owned()),
        Token::BIN("00010".to_owned()),
        Token::COMMA,
        Token::STR("a \"string\"".to_owned()),
        Token::CHAR("a".to_owned()),
        Token::DIRECTIVE("lit".to_owned()),
        Token::COLON,
        Token::CHAR("b".to_owned()),
        Token::CHAR("\'".to_owned()),
        Token::EOF,
    ];

    assert_eq!(res.unwrap(), tokens);
}

#[test]
fn text_process_simple_lexing() {
    let mut lexer = AsmLexer::new(&String::from(
        r"
        ; Example program
        start:
            INSTR_A (#$ABC), F
            INSTR_B
            INSTR_C %001
            INSTR_D 123456
            INSTR_E %0
    ",
    ));
    let res = lexer.tokenize();
    let tokens = vec![
        Token::COMMENT(" Example program".to_string()),
        Token::NEWLINE,
        Token::LITERAL("start".to_string()),
        Token::COLON,
        Token::NEWLINE,
        Token::LITERAL("INSTR_A".to_string()),
        Token::PARENTOPEN,
        Token::HASH,
        Token::HEX("ABC".to_string()),
        Token::PARENTCLOSE,
        Token::COMMA,
        Token::LITERAL("F".to_string()),
        Token::NEWLINE,
        Token::LITERAL("INSTR_B".to_string()),
        Token::NEWLINE,
        Token::LITERAL("INSTR_C".to_string()),
        Token::BIN("001".to_string()),
        Token::NEWLINE,
        Token::LITERAL("INSTR_D".to_string()),
        Token::DEC("123456".to_string()),
        Token::NEWLINE,
        Token::LITERAL("INSTR_E".to_string()),
        Token::BIN("0".to_string()),
        Token::EOF,
    ];
    assert_eq!(res.unwrap(), tokens);
}

#[test]
fn text_process_basic_lexing() {
    let mut lexer = AsmLexer::new(&String::from(
        r##"
        .proc .procend   .main some._literal ; then comments
        $ff01 %00010 , "a \"string\"" 'a' .lit : 'b' '\''
    "##,
    ));
    let res = lexer.tokenize();

    let tokens = vec![
        Token::DIRECTIVE("proc".to_string()),
        Token::DIRECTIVE("procend".to_string()),
        Token::DIRECTIVE("main".to_string()),
        Token::LITERAL("some._literal".to_string()),
        Token::COMMENT(" then comments".to_string()),
        Token::NEWLINE,
        Token::HEX("ff01".to_string()),
        Token::BIN("00010".to_string()),
        Token::COMMA,
        Token::STR("a \"string\"".to_string()),
        Token::CHAR("a".to_string()),
        Token::DIRECTIVE("lit".to_string()),
        Token::COLON,
        Token::CHAR("b".to_string()),
        Token::CHAR("\'".to_string()),
        Token::EOF,
    ];

    assert_eq!(res.unwrap(), tokens);
}

#[test]
fn lexing_rejects_unsupported_character() {
    let mut lexer = AsmLexer::new(&String::from("LDA @"));
    let err = lexer.tokenize().unwrap_err();
    assert_eq!(err, "'@' is not a supported character");
}

#[test]
fn lexing_rejects_overlong_hex() {
    let mut lexer = AsmLexer::new(&String::from("LDA $12345"));
    let err = lexer.tokenize().unwrap_err();
    assert_eq!(err, "8 bits hex was expected, got '$12345'");
}

#[test]
fn lexing_rejects_empty_hex() {
    let mut lexer = AsmLexer::new(&String::from("LDA $ ,"));
    let err = lexer.tokenize().unwrap_err();
    assert_eq!(err, "8 bits hex was expected, got '$'");
}

#[test]
fn lexing_rejects_overlong_binary() {
    let mut lexer = AsmLexer::new(&String::from("LDA %101010101"));
    let err = lexer.tokenize().unwrap_err();
    assert_eq!(err, "8 bits binary was expected, got '%101010101'");
}

#[test]
fn lexing_rejects_unterminated_string() {
    let mut lexer = AsmLexer::new(&String::from(".byte \"abc"));
    let err = lexer.tokenize().unwrap_err();
    assert!(err.starts_with("'\"' was expected"));
}

#[test]
fn lexing_collapses_line_breaks() {
    let mut lexer = AsmLexer::new(&String::from("NOP\r\n\r\n\n\nTAX"));
    let tokens = lexer.tokenize().unwrap();
    assert_eq!(
        tokens,
        vec![
            Token::LITERAL("NOP".to_owned()),
            Token::NEWLINE,
            Token::LITERAL("TAX".to_owned()),
            Token::EOF,
        ]
    );
}

#[test]
fn lexing_rejects_bare_directive_marker() {
    let mut lexer = AsmLexer::new(&String::from(". foo"));
    let err = lexer.tokenize().unwrap_err();
    assert_eq!(err, "alphanum, _ or . was expected, got ' '");
}

#[test]
fn lexing_rejects_unterminated_character_literal() {
    let mut lexer = AsmLexer::new(&String::from("LDA 'ab'"));
    let err = lexer.tokenize().unwrap_err();
    assert_eq!(err, "''' was expected, got 'b'");
}
