use r6502::asm_lexer::{AsmLexer, Token};
use r6502::asm_parser::{AsmParser, Directive, Expr, MathExpr, NumericValue, Operand};
use r6502::opcodes::{AdrMode, Instr};

#[test]
fn tests_simple_parsing() {
    let mut lexer = AsmLexer::new(&String::from(
        r##"
            ; Example program
            .segment "SOME SEGMENT"
            x = 1 + 2 * 3
            .byte "ABC", 'C' + 1, %001 + 2*x
            .dw "CD"
            y = 2*(x-$a)+%1
            start:
            BNE start
        "##,
    ));
    let res = lexer.tokenize();
    let tokens = res.unwrap();
    let mut parser = AsmParser::new(&tokens);
    let prog = parser.parse();
    let lines = vec![
        Expr::DIRECTIVE(Directive::SEGMENT("SOME SEGMENT".to_owned())),
        Expr::ASSIGN(
            "x".to_owned(),
            MathExpr::BIN(
                Token::PLUS,
                Box::new(MathExpr::NUM(NumericValue { value: 1, size: 8 })),
                Box::new(MathExpr::BIN(
                    Token::MULT,
                    Box::new(MathExpr::NUM(NumericValue { value: 2, size: 8 })),
                    Box::new(MathExpr::NUM(NumericValue { value: 3, size: 8 })),
                )),
            ),
        ),
        Expr::DIRECTIVE(Directive::BYTE(vec![
            NumericValue { value: 65, size: 8 },
            NumericValue { value: 66, size: 8 },
            NumericValue { value: 67, size: 8 },
            NumericValue { value: 68, size: 8 },
            NumericValue { value: 15, size: 8 },
        ])),
        Expr::DIRECTIVE(Directive::DWORD(vec![NumericValue { value: 17220, size: 16 }])),
        Expr::ASSIGN(
            "y".to_owned(),
            MathExpr::BIN(
                Token::PLUS,
                Box::new(MathExpr::BIN(
                    Token::MULT,
                    Box::new(MathExpr::NUM(NumericValue { value: 2, size: 8 })),
                    Box::new(MathExpr::BIN(
                        Token::MINUS,
                        Box::new(MathExpr::PLACEHOLDER("x".to_owned())),
                        Box::new(MathExpr::NUM(NumericValue { value: 10, size: 8 })),
                    )),
                )),
                Box::new(MathExpr::NUM(NumericValue { value: 1, size: 8 })),
            ),
        ),
        Expr::LABEL("start".to_owned()),
        Expr::INSTR(Instr::BNE, AdrMode::REL, Operand::LABEL("start".to_owned())),
    ];
    assert_eq!(prog.unwrap(), lines);
}

#[test]
fn text_process_simple_parsing() {
    let mut lexer = AsmLexer::new(&String::from(
        r##"
        ; Example program
        .res 1234
        .segment "SOME SEGMENT"
        x = 1 + 2 * 3
        .byte "ABC", 'C' + 1, %001 + 2*x
        .dw "CD"
        y = 2*(x-$a)+%1
        start:
        BNE start
    "##,
    ));
    let res = lexer.tokenize();
    let tokens = res.unwrap();
    let mut parser = AsmParser::new(&tokens);
    let prog = parser.parse();
    let lines = vec![
        Expr::DIRECTIVE(Directive::RESERVE(1234)),
        Expr::DIRECTIVE(Directive::SEGMENT("SOME SEGMENT".to_string())),
        Expr::ASSIGN(
            "x".to_string(),
            MathExpr::BIN(
                Token::PLUS,
                Box::new(MathExpr::NUM(NumericValue { value: 1, size: 8 })),
                Box::new(MathExpr::BIN(
                    Token::MULT,
                    Box::new(MathExpr::NUM(NumericValue { value: 2, size: 8 })),
                    Box::new(MathExpr::NUM(NumericValue { value: 3, size: 8 })),
                )),
            ),
        ),
        Expr::DIRECTIVE(Directive::BYTE(vec![
            NumericValue { value: 65, size: 8 },
            NumericValue { value: 66, size: 8 },
            NumericValue { value: 67, size: 8 },
            NumericValue { value: 68, size: 8 },
            NumericValue { value: 15, size: 8 },
        ])),
        Expr::DIRECTIVE(Directive::DWORD(vec![NumericValue { value: 17220, size: 16 }])),
        Expr::ASSIGN(
            "y".to_string(),
            MathExpr::BIN(
                Token::PLUS,
                Box::new(MathExpr::BIN(
                    Token::MULT,
                    Box::new(MathExpr::NUM(NumericValue { value: 2, size: 8 })),
                    Box::new(MathExpr::BIN(
                        Token::MINUS,
                        Box::new(MathExpr::PLACEHOLDER("x".to_string())),
                        Box::new(MathExpr::NUM(NumericValue { value: 10, size: 8 })),
                    )),
                )),
                Box::new(MathExpr::NUM(NumericValue { value: 1, size: 8 })),
            ),
        ),
        Expr::LABEL("start".to_string()),
        Expr::INSTR(Instr::BNE, AdrMode::REL, Operand::LABEL("start".to_string())),
    ];
    assert_eq!(prog.unwrap(), lines);
}

#[test]
fn canonical_widths_follow_the_rules() {
    // hex: 16-bit past two digits
    assert_eq!(
        r6502::asm_parser::canonicalize_number(&Token::HEX("ff01".to_owned())).unwrap(),
        NumericValue { value: 0xff01, size: 16 }
    );
    assert_eq!(
        r6502::asm_parser::canonicalize_number(&Token::HEX("ff".to_owned())).unwrap(),
        NumericValue { value: 0xff, size: 8 }
    );
    // decimal: 16-bit over 255, or past three digits even when small
    assert_eq!(
        r6502::asm_parser::canonicalize_number(&Token::DEC("001".to_owned())).unwrap(),
        NumericValue { value: 1, size: 8 }
    );
    assert_eq!(
        r6502::asm_parser::canonicalize_number(&Token::DEC("0001".to_owned())).unwrap(),
        NumericValue { value: 1, size: 16 }
    );
    assert_eq!(
        r6502::asm_parser::canonicalize_number(&Token::DEC("256".to_owned())).unwrap(),
        NumericValue { value: 256, size: 16 }
    );
    // binary: 16-bit past eight digits
    assert_eq!(
        r6502::asm_parser::canonicalize_number(&Token::BIN("00010".to_owned())).unwrap(),
        NumericValue { value: 2, size: 8 }
    );
    // character literals are always 8-bit
    assert_eq!(
        r6502::asm_parser::canonicalize_number(&Token::CHAR("A".to_owned())).unwrap(),
        NumericValue { value: 65, size: 8 }
    );
}

#[test]
fn canonicalize_rejects_oversized_decimal() {
    let err = r6502::asm_parser::canonicalize_number(&Token::DEC("4294967296".to_owned()))
        .unwrap_err();
    assert_eq!(err, "number \"4294967296\" is too large");
}

#[test]
fn canonicalize_rejects_non_numbers() {
    let err = r6502::asm_parser::canonicalize_number(&Token::COMMA).unwrap_err();
    assert_eq!(err, "',' is not a number");
}

#[test]
fn eval_math_is_idempotent() {
    let tokens = vec![Token::EOF];
    let parser = AsmParser::new(&tokens);
    let expr = MathExpr::BIN(
        Token::PLUS,
        Box::new(MathExpr::NUM(NumericValue { value: 1, size: 8 })),
        Box::new(MathExpr::BIN(
            Token::MULT,
            Box::new(MathExpr::NUM(NumericValue { value: 2, size: 8 })),
            Box::new(MathExpr::NUM(NumericValue { value: 3, size: 16 })),
        )),
    );
    let first = parser.eval_math(&expr).unwrap();
    let second = parser.eval_math(&expr).unwrap();
    assert_eq!(first, second);
    assert_eq!(first, NumericValue { value: 7, size: 16 });
}

#[test]
fn validate_rejects_direct_recursion() {
    let mut lexer = AsmLexer::new(&String::from("x = x + 1"));
    let tokens = lexer.tokenize().unwrap();
    let mut parser = AsmParser::new(&tokens);
    let err = parser.parse().unwrap_err();
    assert_eq!(err, "variable \"x\" has recursive definition");
}

#[test]
fn validate_rejects_transitive_recursion() {
    let mut lexer = AsmLexer::new(&String::from("a = 1\nb = a\na = b"));
    let tokens = lexer.tokenize().unwrap();
    let mut parser = AsmParser::new(&tokens);
    let err = parser.parse().unwrap_err();
    assert_eq!(err, "variable \"a\" has recursive definition");
}

#[test]
fn validate_rejects_undefined_names() {
    let mut lexer = AsmLexer::new(&String::from("y = z"));
    let tokens = lexer.tokenize().unwrap();
    let mut parser = AsmParser::new(&tokens);
    let err = parser.parse().unwrap_err();
    assert_eq!(err, "variable \"z\" is undefined");
}

#[test]
fn constants_must_be_defined_before_use() {
    // forward references are allowed for labels, never for constants
    let mut lexer = AsmLexer::new(&String::from("y = z\nz = 1"));
    let tokens = lexer.tokenize().unwrap();
    let mut parser = AsmParser::new(&tokens);
    assert!(parser.parse().is_err());
}

#[test]
fn redefining_a_constant_uses_the_latest_value() {
    let mut lexer = AsmLexer::new(&String::from("x = 1\nx = 2\nLDA #x"));
    let tokens = lexer.tokenize().unwrap();
    let mut parser = AsmParser::new(&tokens);
    let prog = parser.parse().unwrap();
    assert_eq!(
        prog[2],
        Expr::INSTR(
            Instr::LDA,
            AdrMode::IMM,
            Operand::VALUE(NumericValue { value: 2, size: 8 })
        )
    );
}

#[test]
fn unknown_mnemonics_are_rejected() {
    let mut lexer = AsmLexer::new(&String::from("FOO #$01"));
    let tokens = lexer.tokenize().unwrap();
    let mut parser = AsmParser::new(&tokens);
    let err = parser.parse().unwrap_err();
    assert_eq!(err, "\"FOO\" is not a valid instruction");
}

#[test]
fn mnemonics_are_case_insensitive() {
    let mut lexer = AsmLexer::new(&String::from("bmi $BB"));
    let tokens = lexer.tokenize().unwrap();
    let mut parser = AsmParser::new(&tokens);
    let prog = parser.parse().unwrap();
    assert_eq!(
        prog[0],
        Expr::INSTR(
            Instr::BMI,
            AdrMode::REL,
            Operand::VALUE(NumericValue { value: 0xbb, size: 8 })
        )
    );
}

#[test]
fn byte_directive_rejects_wide_elements() {
    let mut lexer = AsmLexer::new(&String::from(".byte 1, $ffff"));
    let tokens = lexer.tokenize().unwrap();
    let mut parser = AsmParser::new(&tokens);
    let err = parser.parse().unwrap_err();
    assert_eq!(err, "2-nth value has 2 bytes, 1 was expected");
}

#[test]
fn eval_math_reports_overflow_and_division_by_zero() {
    let tokens = vec![Token::EOF];
    let parser = AsmParser::new(&tokens);
    let add = MathExpr::BIN(
        Token::PLUS,
        Box::new(MathExpr::NUM(NumericValue { value: 4294967295, size: 16 })),
        Box::new(MathExpr::NUM(NumericValue { value: 1, size: 8 })),
    );
    assert_eq!(
        parser.eval_math(&add).unwrap_err(),
        "add overflow: left 4294967295, right 1"
    );
    let sub = MathExpr::BIN(
        Token::MINUS,
        Box::new(MathExpr::NUM(NumericValue { value: 1, size: 8 })),
        Box::new(MathExpr::NUM(NumericValue { value: 2, size: 8 })),
    );
    assert_eq!(parser.eval_math(&sub).unwrap_err(), "subtraction overflow: left 1, right 2");
    let div = MathExpr::BIN(
        Token::DIV,
        Box::new(MathExpr::NUM(NumericValue { value: 1, size: 8 })),
        Box::new(MathExpr::NUM(NumericValue { value: 0, size: 8 })),
    );
    assert_eq!(parser.eval_math(&div).unwrap_err(), "cannot divide 1 by zero");
}

#[test]
fn assign_and_label_need_a_name_on_the_left() {
    let mut lexer = AsmLexer::new(&String::from("1 = 2"));
    let tokens = lexer.tokenize().unwrap();
    let mut parser = AsmParser::new(&tokens);
    assert_eq!(
        parser.parse().unwrap_err(),
        "assign expression expects a literal (lhs) / expression(rhs)"
    );

    let mut lexer = AsmLexer::new(&String::from("# : NOP"));
    let tokens = lexer.tokenize().unwrap();
    let mut parser = AsmParser::new(&tokens);
    assert_eq!(
        parser.parse().unwrap_err(),
        "label expression expects a literal (lhs) / expression(rhs)"
    );
}

#[test]
fn unknown_directives_are_rejected() {
    let mut lexer = AsmLexer::new(&String::from(".bank 3"));
    let tokens = lexer.tokenize().unwrap();
    let mut parser = AsmParser::new(&tokens);
    assert_eq!(parser.parse().unwrap_err(), "token directive \"bank\" unexpected");
}

#[test]
fn segment_directive_needs_a_string() {
    let mut lexer = AsmLexer::new(&String::from(".segment 5"));
    let tokens = lexer.tokenize().unwrap();
    let mut parser = AsmParser::new(&tokens);
    assert_eq!(
        parser.parse().unwrap_err(),
        "string was expected, got number \"5\" instead"
    );
}

#[test]
fn missing_parenthesis_is_reported() {
    let mut lexer = AsmLexer::new(&String::from("LDX #(1 + 2"));
    let tokens = lexer.tokenize().unwrap();
    let mut parser = AsmParser::new(&tokens);
    assert_eq!(parser.parse().unwrap_err(), "')' was expected, got end of input instead");
}
