//! The parser: consumes the token stream and produces an ordered list of
//! statements, folding constant expressions as it goes.
//!
//! Constants must name only already-defined constants and may not reach
//! themselves through stored definitions; labels, in contrast, may be
//! referenced before they are declared, because branch targets are
//! resolved by the code generator's second pass.

use vstd::prelude::*;
use vstd::string::*;

use crate::asm_lexer::{Token, TokenV};
use crate::opcodes::{AdrMode, Instr, instr_from_name, spec_instr_from_name};
use crate::text::{
    Digits, spec_parse_digits, parse_digits, upper_seq, to_upper, quoted, dec_str, push_dec,
};

verus! {

/// A numeral with its canonical width: 8 or 16 bits.
///
/// The width is decided once, when a numeral token is read: by digit
/// count for hex and binary numerals, and for decimals by value (over
/// 255) or by padding (more than three digits).
#[derive(Debug, Clone, Copy, PartialEq, Eq, Structural)]
pub struct NumericValue {
    pub value: u32,
    pub size: u32,
}

impl View for NumericValue {
    type V = NumericValue;

    open spec fn view(&self) -> NumericValue {
        *self
    }
}

impl DeepView for NumericValue {
    type V = NumericValue;

    open spec fn deep_view(&self) -> NumericValue {
        *self
    }
}

/// A constant expression: a binary tree over `+ - * /` whose leaves are
/// resolved numerals or names still awaiting symbol-table lookup.
#[allow(non_camel_case_types)]
#[derive(Debug, PartialEq, Eq)]
pub enum MathExpr {
    BIN(Token, Box<MathExpr>, Box<MathExpr>),
    PLACEHOLDER(String),
    NUM(NumericValue),
}

/// The mathematical shadow of a [`MathExpr`].
#[allow(non_camel_case_types)]
pub enum MathExprV {
    BIN(TokenV, Box<MathExprV>, Box<MathExprV>),
    PLACEHOLDER(Seq<char>),
    NUM(NumericValue),
}

/// The view of an expression tree, leaf by leaf.
pub open spec fn math_view(e: MathExpr) -> MathExprV
    decreases e,
{
    match e {
        MathExpr::BIN(op, l, r) => MathExprV::BIN(
            op@,
            Box::new(math_view(*l)),
            Box::new(math_view(*r)),
        ),
        MathExpr::PLACEHOLDER(s) => MathExprV::PLACEHOLDER(s@),
        MathExpr::NUM(n) => MathExprV::NUM(n),
    }
}

impl DeepView for MathExpr {
    type V = MathExprV;

    open spec fn deep_view(&self) -> MathExprV {
        math_view(*self)
    }
}

impl View for MathExpr {
    type V = MathExprV;

    open spec fn view(&self) -> MathExprV {
        self.deep_view()
    }
}

/// An instruction operand: none (implied), an unresolved label name, or
/// a resolved numeral.
#[allow(non_camel_case_types)]
#[derive(Debug, Clone, PartialEq, Eq)]
pub enum Operand {
    NONE,
    LABEL(String),
    VALUE(NumericValue),
}

/// The mathematical shadow of an [`Operand`].
#[allow(non_camel_case_types)]
pub enum OperandV {
    NONE,
    LABEL(Seq<char>),
    VALUE(NumericValue),
}

impl DeepView for Operand {
    type V = OperandV;

    open spec fn deep_view(&self) -> OperandV {
        match self {
            Operand::NONE => OperandV::NONE,
            Operand::LABEL(s) => OperandV::LABEL(s@),
            Operand::VALUE(n) => OperandV::VALUE(*n),
        }
    }
}

impl View for Operand {
    type V = OperandV;

    open spec fn view(&self) -> OperandV {
        self.deep_view()
    }
}

/// A directive statement: data emission, segment selection, or one of
/// the declared-but-unimplemented reservation and procedure markers.
#[allow(non_camel_case_types)]
#[derive(Debug, Clone, PartialEq, Eq)]
pub enum Directive {
    BYTE(Vec<NumericValue>),
    DWORD(Vec<NumericValue>),
    SEGMENT(String),
    RESERVE(u32),
    PROC(String),
    ENDPROC,
}

/// The mathematical shadow of a [`Directive`].
#[allow(non_camel_case_types)]
pub enum DirectiveV {
    BYTE(Seq<NumericValue>),
    DWORD(Seq<NumericValue>),
    SEGMENT(Seq<char>),
    RESERVE(u32),
    PROC(Seq<char>),
    ENDPROC,
}

impl DeepView for Directive {
    type V = DirectiveV;

    open spec fn deep_view(&self) -> DirectiveV {
        match self {
            Directive::BYTE(s) => DirectiveV::BYTE(s.deep_view()),
            Directive::DWORD(s) => DirectiveV::DWORD(s.deep_view()),
            Directive::SEGMENT(s) => DirectiveV::SEGMENT(s@),
            Directive::RESERVE(n) => DirectiveV::RESERVE(*n),
            Directive::PROC(s) => DirectiveV::PROC(s@),
            Directive::ENDPROC => DirectiveV::ENDPROC,
        }
    }
}

impl View for Directive {
    type V = DirectiveV;

    open spec fn view(&self) -> DirectiveV {
        self.deep_view()
    }
}

/// One parsed statement.
#[allow(non_camel_case_types)]
#[derive(Debug, PartialEq, Eq)]
pub enum Expr {
    DIRECTIVE(Directive),
    ASSIGN(String, MathExpr),
    LABEL(String),
    INSTR(Instr, AdrMode, Operand),
}

/// The mathematical shadow of an [`Expr`].
#[allow(non_camel_case_types)]
pub enum ExprV {
    DIRECTIVE(DirectiveV),
    ASSIGN(Seq<char>, MathExprV),
    LABEL(Seq<char>),
    INSTR(Instr, AdrMode, OperandV),
}

impl DeepView for Expr {
    type V = ExprV;

    open spec fn deep_view(&self) -> ExprV {
        match self {
            Expr::DIRECTIVE(d) => ExprV::DIRECTIVE(d.deep_view()),
            Expr::ASSIGN(s, e) => ExprV::ASSIGN(s@, e.deep_view()),
            Expr::LABEL(s) => ExprV::LABEL(s@),
            Expr::INSTR(i, m, o) => ExprV::INSTR(*i, *m, o.deep_view()),
        }
    }
}

impl View for Expr {
    type V = ExprV;

    open spec fn view(&self) -> ExprV {
        self.deep_view()
    }
}

// ---------------------------------------------------------------------------
// Describing tokens in error messages
// ---------------------------------------------------------------------------

/// A short description of a token, for error messages.
pub open spec fn tok_text(t: TokenV) -> Seq<char> {
    match t {
        TokenV::DIRECTIVE(s) => "directive \""@ + s + "\""@,
        TokenV::LITERAL(s) => "literal \""@ + s + "\""@,
        TokenV::COMMENT(_) => "comment"@,
        TokenV::COMMA => "','"@,
        TokenV::COLON => "':'"@,
        TokenV::PARENTOPEN => "'('"@,
        TokenV::PARENTCLOSE => "')'"@,
        TokenV::NEWLINE => "newline"@,
        TokenV::HASH => "'#'"@,
        TokenV::PLUS => "'+'"@,
        TokenV::MINUS => "'-'"@,
        TokenV::MULT => "'*'"@,
        TokenV::DIV => "'/'"@,
        TokenV::EQUAL => "'='"@,
        TokenV::DEC(s) => "number \""@ + s + "\""@,
        TokenV::HEX(s) => "number \"$"@ + s + "\""@,
        TokenV::BIN(s) => "number \"%"@ + s + "\""@,
        TokenV::STR(_) => "string"@,
        TokenV::CHAR(s) => "character '"@ + s + "'"@,
        TokenV::EOF => "end of input"@,
    }
}

/// Builds the short description of a token.
pub fn build_tok_text(t: &Token) -> (r: String)
    ensures
        r@ == tok_text(t@),
{
    match t {
        Token::DIRECTIVE(s) => quoted("directive \"", s, "\""),
        Token::LITERAL(s) => quoted("literal \"", s, "\""),
        Token::COMMENT(_) => String::from_str("comment"),
        Token::COMMA => String::from_str("','"),
        Token::COLON => String::from_str("':'"),
        Token::PARENTOPEN => String::from_str("'('"),
        Token::PARENTCLOSE => String::from_str("')'"),
        Token::NEWLINE => String::from_str("newline"),
        Token::HASH => String::from_str("'#'"),
        Token::PLUS => String::from_str("'+'"),
        Token::MINUS => String::from_str("'-'"),
        Token::MULT => String::from_str("'*'"),
        Token::DIV => String::from_str("'/'"),
        Token::EQUAL => String::from_str("'='"),
        Token::DEC(s) => quoted("number \"", s, "\""),
        Token::HEX(s) => quoted("number \"$", s, "\""),
        Token::BIN(s) => quoted("number \"%", s, "\""),
        Token::STR(_) => String::from_str("string"),
        Token::CHAR(s) => quoted("character '", s, "'"),
        Token::EOF => String::from_str("end of input"),
    }
}

// ---------------------------------------------------------------------------
// Canonicalizing numeral tokens
// ---------------------------------------------------------------------------

pub open spec fn msg_not_number(t: TokenV) -> Seq<char> {
    tok_text(t) + " is not a number"@
}

pub open spec fn msg_number_too_large(txt: Seq<char>) -> Seq<char> {
    "number \""@ + txt + "\" is too large"@
}

pub open spec fn msg_number_malformed(txt: Seq<char>) -> Seq<char> {
    "number \""@ + txt + "\" is malformed"@
}

pub open spec fn msg_empty_char() -> Seq<char> {
    "character literal is empty"@
}

/// The canonical numeral of one token, under the width rules: binary
/// numerals are 16-bit past 8 digits, hex numerals past 2 digits, and
/// decimals when the value exceeds 255 or the text has more than 3
/// digits (so a zero-padded decimal declares its width); character
/// literals are always 8-bit.
pub open spec fn spec_canonicalize(t: TokenV) -> Result<NumericValue, Seq<char>> {
    match t {
        TokenV::BIN(txt) => match spec_parse_digits(txt, 2) {
            Digits::Val(v) => Ok(
                NumericValue { value: v, size: if txt.len() > 8 { 16 } else { 8 } },
            ),
            Digits::TooBig => Err(msg_number_too_large(txt)),
            Digits::Bad => Err(msg_number_malformed(txt)),
        },
        TokenV::DEC(txt) => match spec_parse_digits(txt, 10) {
            Digits::Val(v) => Ok(
                NumericValue { value: v, size: if v > 255 || txt.len() > 3 { 16 } else { 8 } },
            ),
            Digits::TooBig => Err(msg_number_too_large(txt)),
            Digits::Bad => Err(msg_number_malformed(txt)),
        },
        TokenV::HEX(txt) => match spec_parse_digits(txt, 16) {
            Digits::Val(v) => Ok(
                NumericValue { value: v, size: if txt.len() > 2 { 16 } else { 8 } },
            ),
            Digits::TooBig => Err(msg_number_too_large(txt)),
            Digits::Bad => Err(msg_number_malformed(txt)),
        },
        TokenV::CHAR(txt) => if txt.len() == 0 {
            Err(msg_empty_char())
        } else {
            Ok(NumericValue { value: txt[0] as u32, size: 8 })
        },
        other => Err(msg_not_number(other)),
    }
}

/// Turns a numeral token into its canonical [`NumericValue`].
pub fn canonicalize_number(n: &Token) -> (r: Result<NumericValue, String>)
    ensures
        (match r {
            Ok(v) => spec_canonicalize(n@) == Ok::<NumericValue, Seq<char>>(v),
            Err(m) => spec_canonicalize(n@) == Err::<NumericValue, Seq<char>>(m@),
        }),
{
    match n {
        Token::BIN(txt) => match parse_digits(txt.as_str(), 2) {
            Digits::Val(v) => {
                let size: u32 = if txt.unicode_len() > 8 {
                    16
                } else {
                    8
                };
                Ok(NumericValue { value: v, size })
            },
            Digits::TooBig => Err(quoted("number \"", txt, "\" is too large")),
            Digits::Bad => Err(quoted("number \"", txt, "\" is malformed")),
        },
        Token::DEC(txt) => match parse_digits(txt.as_str(), 10) {
            Digits::Val(v) => {
                let size: u32 = if v > 255 || txt.unicode_len() > 3 {
                    16
                } else {
                    8
                };
                Ok(NumericValue { value: v, size })
            },
            Digits::TooBig => Err(quoted("number \"", txt, "\" is too large")),
            Digits::Bad => Err(quoted("number \"", txt, "\" is malformed")),
        },
        Token::HEX(txt) => match parse_digits(txt.as_str(), 16) {
            Digits::Val(v) => {
                let size: u32 = if txt.unicode_len() > 2 {
                    16
                } else {
                    8
                };
                Ok(NumericValue { value: v, size })
            },
            Digits::TooBig => Err(quoted("number \"", txt, "\" is too large")),
            Digits::Bad => Err(quoted("number \"", txt, "\" is malformed")),
        },
        Token::CHAR(txt) => {
            if txt.unicode_len() == 0 {
                Err(String::from_str("character literal is empty"))
            } else {
                let c = txt.as_str().get_char(0);
                Ok(NumericValue { value: c as u32, size: 8 })
            }
        },
        other => {
            let mut m = build_tok_text(other);
            m.append(" is not a number");
            Err(m)
        },
    }
}

// ---------------------------------------------------------------------------
// Mnemonic lookup and branch classification
// ---------------------------------------------------------------------------

pub open spec fn msg_invalid_instr(name: Seq<char>) -> Seq<char> {
    "\""@ + name + "\" is not a valid instruction"@
}

/// The instruction a mnemonic names, case-insensitively; an unknown name
/// is an error.
pub open spec fn spec_get_instr(name: Seq<char>) -> Result<Instr, Seq<char>> {
    match spec_instr_from_name(upper_seq(name)) {
        Some(i) => Ok(i),
        None => Err(msg_invalid_instr(name)),
    }
}

/// Resolves a mnemonic against the instruction registry.
pub fn get_instr(s: &String) -> (r: Result<Instr, String>)
    ensures
        (match r {
            Ok(i) => spec_get_instr(s@) == Ok::<Instr, Seq<char>>(i),
            Err(m) => spec_get_instr(s@) == Err::<Instr, Seq<char>>(m@),
        }),
{
    let u = to_upper(s.as_str());
    match instr_from_name(&u) {
        Some(i) => Ok(i),
        None => Err(quoted("\"", s, "\" is not a valid instruction")),
    }
}

/// Whether an instruction is one of the eight conditional branches,
/// whose operands use relative addressing.
pub open spec fn spec_is_branching(i: Instr) -> bool {
    i == Instr::BPL || i == Instr::BMI || i == Instr::BVC || i == Instr::BVS || i == Instr::BCC
        || i == Instr::BCS || i == Instr::BNE || i == Instr::BEQ
}

/// Whether an instruction is a conditional branch.
pub fn is_branching(i: &Instr) -> (r: bool)
    ensures
        r == spec_is_branching(*i),
{
    match i {
        Instr::BPL | Instr::BMI | Instr::BVC | Instr::BVS | Instr::BCC | Instr::BCS | Instr::BNE
            | Instr::BEQ => true,
        _ => false,
    }
}

// ---------------------------------------------------------------------------
// Deep copies of tokens and expression trees
// ---------------------------------------------------------------------------

/// A copy of a token with the same view.
pub fn clone_token(t: &Token) -> (r: Token)
    ensures
        r@ == t@,
{
    match t {
        Token::DIRECTIVE(s) => Token::DIRECTIVE(s.clone()),
        Token::LITERAL(s) => Token::LITERAL(s.clone()),
        Token::COMMENT(s) => Token::COMMENT(s.clone()),
        Token::COMMA => Token::COMMA,
        Token::COLON => Token::COLON,
        Token::PARENTOPEN => Token::PARENTOPEN,
        Token::PARENTCLOSE => Token::PARENTCLOSE,
        Token::NEWLINE => Token::NEWLINE,
        Token::HASH => Token::HASH,
        Token::PLUS => Token::PLUS,
        Token::MINUS => Token::MINUS,
        Token::MULT => Token::MULT,
        Token::DIV => Token::DIV,
        Token::EQUAL => Token::EQUAL,
        Token::DEC(s) => Token::DEC(s.clone()),
        Token::HEX(s) => Token::HEX(s.clone()),
        Token::BIN(s) => Token::BIN(s.clone()),
        Token::STR(s) => Token::STR(s.clone()),
        Token::CHAR(s) => Token::CHAR(s.clone()),
        Token::EOF => Token::EOF,
    }
}

/// A copy of an expression tree with the same view.
pub fn clone_math(e: &MathExpr) -> (r: MathExpr)
    ensures
        r.deep_view() == e.deep_view(),
    decreases *e,
{
    match e {
        MathExpr::BIN(op, l, r) => MathExpr::BIN(
            clone_token(op),
            Box::new(clone_math(l)),
            Box::new(clone_math(r)),
        ),
        MathExpr::PLACEHOLDER(s) => MathExpr::PLACEHOLDER(s.clone()),
        MathExpr::NUM(n) => MathExpr::NUM(*n),
    }
}

// ---------------------------------------------------------------------------
// The symbol table of constants
// ---------------------------------------------------------------------------

/// The definition most recently stored under `name`, if any.
pub open spec fn vars_find(vars: Seq<(Seq<char>, MathExprV)>, name: Seq<char>) -> Option<
    MathExprV,
>
    decreases vars.len(),
{
    if vars.len() == 0 {
        None
    } else if vars.last().0 == name {
        Some(vars.last().1)
    } else {
        vars_find(vars.drop_last(), name)
    }
}

/// Looks a name up in the symbol table, newest definition first.
fn vars_get<'v>(vars: &'v Vec<(String, MathExpr)>, name: &String) -> (r: Option<&'v MathExpr>)
    ensures
        (match r {
            Some(e) => vars_find(vars.deep_view(), name@) == Some(e.deep_view()),
            None => vars_find(vars.deep_view(), name@) is None,
        }),
{
    let ghost dv = vars.deep_view();
    let mut j = vars.len();
    proof {
        assert(dv.take(j as int) =~= dv);
    }
    while j > 0
        invariant
            j <= vars.len(),
            dv == vars.deep_view(),
            dv.len() == vars.len(),
            vars_find(dv, name@) == vars_find(dv.take(j as int), name@),
        decreases j,
    {
        j = j - 1;
        if crate::text::str_eq(vars[j].0.as_str(), name.as_str()) {
            proof {
                assert(dv.take(j + 1).last() == dv[j as int]);
                assert(dv[j as int].1 == vars@[j as int].1.deep_view());
            }
            return Some(&vars[j].1);
        }
        proof {
            assert(dv.take(j + 1).drop_last() =~= dv.take(j as int));
        }
    }
    proof {
        assert(dv.take(0) =~= Seq::<(Seq<char>, MathExprV)>::empty());
    }
    None
}

// ---------------------------------------------------------------------------
// Evaluation and validation of constant expressions
// ---------------------------------------------------------------------------

pub open spec fn msg_add_overflow(l: u32, r: u32) -> Seq<char> {
    "add overflow: left "@ + dec_str(l as int) + ", right "@ + dec_str(r as int)
}

pub open spec fn msg_mul_overflow(l: u32, r: u32) -> Seq<char> {
    "multiplication overflow: left "@ + dec_str(l as int) + ", right "@ + dec_str(r as int)
}

pub open spec fn msg_sub_overflow(l: u32, r: u32) -> Seq<char> {
    "subtraction overflow: left "@ + dec_str(l as int) + ", right "@ + dec_str(r as int)
}

pub open spec fn msg_div_zero(l: u32) -> Seq<char> {
    "cannot divide "@ + dec_str(l as int) + " by zero"@
}

pub open spec fn msg_bad_operator(t: TokenV) -> Seq<char> {
    "binary operator "@ + tok_text(t) + " not implemented"@
}

pub open spec fn msg_undefined_var(name: Seq<char>) -> Seq<char> {
    "variable \""@ + name + "\" is undefined"@
}

pub open spec fn msg_recursive_var(name: Seq<char>) -> Seq<char> {
    "variable \""@ + name + "\" has recursive definition"@
}

pub open spec fn msg_too_deep(name: Seq<char>) -> Seq<char> {
    "variable \""@ + name + "\" is nested too deeply"@
}

fn build_two_nums(prefix: &str, l: u32, mid: &str, r: u32) -> (s: String)
    ensures
        s@ == prefix@ + dec_str(l as int) + mid@ + dec_str(r as int),
{
    let mut s = String::new();
    s.append(prefix);
    push_dec(&mut s, l as u128);
    s.append(mid);
    push_dec(&mut s, r as u128);
    proof {
        assert(s@ =~= prefix@ + dec_str(l as int) + mid@ + dec_str(r as int));
    }
    s
}

fn build_msg_div_zero(l: u32) -> (s: String)
    ensures
        s@ == msg_div_zero(l),
{
    let mut s = String::new();
    s.append("cannot divide ");
    push_dec(&mut s, l as u128);
    s.append(" by zero");
    proof {
        assert(s@ =~= msg_div_zero(l));
    }
    s
}

/// The value of a constant expression under a symbol table, with `fuel`
/// bounding how many placeholder lookups one path may chain through.
/// Tables built by the parser are acyclic, and every definition was
/// validated against the table it was stored into, so a fuel equal to
/// the table's length is never exhausted.
pub open spec fn spec_eval(
    vars: Seq<(Seq<char>, MathExprV)>,
    e: MathExprV,
    fuel: nat,
) -> Result<NumericValue, Seq<char>>
    decreases fuel, e,
{
    match e {
        MathExprV::NUM(n) => Ok(n),
        MathExprV::BIN(op, l, r) => match spec_eval(vars, *l, fuel) {
            Err(m) => Err(m),
            Ok(lv) => match spec_eval(vars, *r, fuel) {
                Err(m) => Err(m),
                Ok(rv) => {
                    let size: u32 = if lv.size >= rv.size {
                        lv.size
                    } else {
                        rv.size
                    };
                    match op {
                        TokenV::PLUS => if lv.value + rv.value > u32::MAX {
                            Err(msg_add_overflow(lv.value, rv.value))
                        } else {
                            Ok(NumericValue { value: (lv.value + rv.value) as u32, size })
                        },
                        TokenV::MULT => if lv.value * rv.value > u32::MAX {
                            Err(msg_mul_overflow(lv.value, rv.value))
                        } else {
                            Ok(NumericValue { value: (lv.value * rv.value) as u32, size })
                        },
                        TokenV::MINUS => if lv.value < rv.value {
                            Err(msg_sub_overflow(lv.value, rv.value))
                        } else {
                            Ok(NumericValue { value: (lv.value - rv.value) as u32, size })
                        },
                        TokenV::DIV => if rv.value == 0 {
                            Err(msg_div_zero(lv.value))
                        } else {
                            Ok(NumericValue { value: lv.value / rv.value, size })
                        },
                        other => Err(msg_bad_operator(other)),
                    }
                },
            },
        },
        MathExprV::PLACEHOLDER(name) => match vars_find(vars, name) {
            None => Err(msg_undefined_var(name)),
            Some(def) => if fuel == 0 {
                Err(msg_too_deep(name))
            } else {
                spec_eval(vars, def, (fuel - 1) as nat)
            },
        },
    }
}

fn eval_rec(vars: &Vec<(String, MathExpr)>, e: &MathExpr, fuel: usize) -> (r: Result<
    NumericValue,
    String,
>)
    ensures
        (match r {
            Ok(v) => spec_eval(vars.deep_view(), e.deep_view(), fuel as nat) == Ok::<
                NumericValue,
                Seq<char>,
            >(v),
            Err(m) => spec_eval(vars.deep_view(), e.deep_view(), fuel as nat) == Err::<
                NumericValue,
                Seq<char>,
            >(m@),
        }),
    decreases fuel, *e,
{
    match e {
        MathExpr::NUM(n) => Ok(*n),
        MathExpr::BIN(op, l, r) => {
            let lv = match eval_rec(vars, l, fuel) {
                Ok(v) => v,
                Err(m) => {
                    return Err(m);
                },
            };
            let rv = match eval_rec(vars, r, fuel) {
                Ok(v) => v,
                Err(m) => {
                    return Err(m);
                },
            };
            let size: u32 = if lv.size >= rv.size {
                lv.size
            } else {
                rv.size
            };
            match op {
                Token::PLUS => match lv.value.checked_add(rv.value) {
                    Some(v) => Ok(NumericValue { value: v, size }),
                    None => Err(
                        build_two_nums("add overflow: left ", lv.value, ", right ", rv.value),
                    ),
                },
                Token::MULT => match lv.value.checked_mul(rv.value) {
                    Some(v) => Ok(NumericValue { value: v, size }),
                    None => Err(
                        build_two_nums(
                            "multiplication overflow: left ",
                            lv.value,
                            ", right ",
                            rv.value,
                        ),
                    ),
                },
                Token::MINUS => match lv.value.checked_sub(rv.value) {
                    Some(v) => Ok(NumericValue { value: v, size }),
                    None => Err(
                        build_two_nums(
                            "subtraction overflow: left ",
                            lv.value,
                            ", right ",
                            rv.value,
                        ),
                    ),
                },
                Token::DIV => {
                    if rv.value == 0 {
                        Err(build_msg_div_zero(lv.value))
                    } else {
                        Ok(NumericValue { value: lv.value / rv.value, size })
                    }
                },
                other => {
                    let mut m = String::from_str("binary operator ");
                    let t = build_tok_text(other);
                    m.append(t.as_str());
                    m.append(" not implemented");
                    proof {
                        assert(m@ =~= msg_bad_operator(other@));
                    }
                    Err(m)
                },
            }
        },
        MathExpr::PLACEHOLDER(name) => match vars_get(vars, name) {
            None => Err(quoted("variable \"", name, "\" is undefined")),
            Some(def) => {
                if fuel == 0 {
                    Err(quoted("variable \"", name, "\" is nested too deeply"))
                } else {
                    eval_rec(vars, def, fuel - 1)
                }
            },
        },
    }
}

/// Whether every name in a constant expression resolves, without ever
/// reaching `assignee`, under the same fuel discipline as evaluation.
pub open spec fn spec_validate(
    vars: Seq<(Seq<char>, MathExprV)>,
    e: MathExprV,
    assignee: Option<Seq<char>>,
    fuel: nat,
) -> Result<bool, Seq<char>>
    decreases fuel, e,
{
    match e {
        MathExprV::NUM(_) => Ok(true),
        MathExprV::BIN(_, l, r) => match spec_validate(vars, *l, assignee, fuel) {
            Err(m) => Err(m),
            Ok(lv) => match spec_validate(vars, *r, assignee, fuel) {
                Err(m) => Err(m),
                Ok(rv) => Ok(lv && rv),
            },
        },
        MathExprV::PLACEHOLDER(name) => if assignee matches Some(a) && a == name {
            Err(msg_recursive_var(name))
        } else {
            match vars_find(vars, name) {
                None => Err(msg_undefined_var(name)),
                Some(def) => if fuel == 0 {
                    Err(msg_too_deep(name))
                } else {
                    spec_validate(vars, def, assignee, (fuel - 1) as nat)
                },
            }
        },
    }
}

fn validate_rec(
    vars: &Vec<(String, MathExpr)>,
    e: &MathExpr,
    assignee: &Option<String>,
    fuel: usize,
) -> (r: Result<bool, String>)
    ensures
        (match r {
            Ok(v) => spec_validate(vars.deep_view(), e.deep_view(), assignee.deep_view(), fuel as nat)
                == Ok::<bool, Seq<char>>(v),
            Err(m) => spec_validate(
                vars.deep_view(),
                e.deep_view(),
                assignee.deep_view(),
                fuel as nat,
            ) == Err::<bool, Seq<char>>(m@),
        }),
    decreases fuel, *e,
{
    match e {
        MathExpr::NUM(_) => Ok(true),
        MathExpr::BIN(_, l, r) => {
            let lv = match validate_rec(vars, l, assignee, fuel) {
                Ok(v) => v,
                Err(m) => {
                    return Err(m);
                },
            };
            let rv = match validate_rec(vars, r, assignee, fuel) {
                Ok(v) => v,
                Err(m) => {
                    return Err(m);
                },
            };
            Ok(lv && rv)
        },
        MathExpr::PLACEHOLDER(name) => {
            let is_self = match assignee {
                Some(a) => crate::text::str_eq(a.as_str(), name.as_str()),
                None => false,
            };
            if is_self {
                Err(quoted("variable \"", name, "\" has recursive definition"))
            } else {
                match vars_get(vars, name) {
                    None => Err(quoted("variable \"", name, "\" is undefined")),
                    Some(def) => {
                        if fuel == 0 {
                            Err(quoted("variable \"", name, "\" is nested too deeply"))
                        } else {
                            validate_rec(vars, def, assignee, fuel - 1)
                        }
                    },
                }
            }
        },
    }
}

// ---------------------------------------------------------------------------
// Tokens as the parser sees them
// ---------------------------------------------------------------------------

/// The token at position `i`, or `EOF` past the end.
pub open spec fn cur_tok(toks: Seq<TokenV>, i: int) -> TokenV {
    if 0 <= i < toks.len() {
        toks[i]
    } else {
        TokenV::EOF
    }
}

/// A token without a payload: one the parser may ask for verbatim.
pub open spec fn is_simple_tok(t: TokenV) -> bool {
    match t {
        TokenV::COMMA | TokenV::COLON | TokenV::PARENTOPEN | TokenV::PARENTCLOSE
            | TokenV::NEWLINE | TokenV::HASH | TokenV::PLUS | TokenV::MINUS | TokenV::MULT
            | TokenV::DIV | TokenV::EQUAL | TokenV::EOF => true,
        _ => false,
    }
}

/// Whether `t` is the same token as the payload-free token `want`.
fn punct_matches(t: &Token, want: &Token) -> (r: bool)
    requires
        is_simple_tok(want@),
    ensures
        r == (t@ == want@),
{
    match want {
        Token::COMMA => matches!(t, Token::COMMA),
        Token::COLON => matches!(t, Token::COLON),
        Token::PARENTOPEN => matches!(t, Token::PARENTOPEN),
        Token::PARENTCLOSE => matches!(t, Token::PARENTCLOSE),
        Token::NEWLINE => matches!(t, Token::NEWLINE),
        Token::HASH => matches!(t, Token::HASH),
        Token::PLUS => matches!(t, Token::PLUS),
        Token::MINUS => matches!(t, Token::MINUS),
        Token::MULT => matches!(t, Token::MULT),
        Token::DIV => matches!(t, Token::DIV),
        Token::EQUAL => matches!(t, Token::EQUAL),
        Token::EOF => matches!(t, Token::EOF),
        _ => {
            proof {
                assert(false);
            }
            false
        },
    }
}

pub open spec fn msg_tok_expected(want: TokenV, got: TokenV) -> Seq<char> {
    tok_text(want) + " was expected, got "@ + tok_text(got) + " instead"@
}

pub open spec fn msg_lit_wanted(got: TokenV) -> Seq<char> {
    "literal was expected, got "@ + tok_text(got) + " instead"@
}

pub open spec fn msg_named_lit_expected(want: Seq<char>, got: TokenV) -> Seq<char> {
    "literal \""@ + want + "\" was expected, got "@ + tok_text(got) + " instead"@
}

// ---------------------------------------------------------------------------
// Constant-expression grammar
// ---------------------------------------------------------------------------

/// `unary ::= numeral | identifier-as-placeholder`; the pair gives the
/// parsed leaf and how many tokens it took.
pub open spec fn spec_math_unary(toks: Seq<TokenV>, i: int) -> Result<
    (MathExprV, nat),
    Seq<char>,
> {
    match spec_canonicalize(cur_tok(toks, i)) {
        Ok(n) => Ok((MathExprV::NUM(n), 1 as nat)),
        Err(e) => match cur_tok(toks, i) {
            TokenV::LITERAL(s) => Ok((MathExprV::PLACEHOLDER(s), 1 as nat)),
            _ => Err(e),
        },
    }
}

/// `factor ::= '(' expr ')' | unary`.
pub open spec fn spec_math_factor(toks: Seq<TokenV>, i: int) -> Result<
    (MathExprV, nat),
    Seq<char>,
>
    decreases toks.len() - i, 1int,
{
    if cur_tok(toks, i) == TokenV::PARENTOPEN {
        match spec_math_expr(toks, i + 1) {
            Err(e) => Err(e),
            Ok((e, n)) => if cur_tok(toks, i + 1 + n) == TokenV::PARENTCLOSE {
                Ok((e, (n + 2) as nat))
            } else {
                Err(msg_tok_expected(TokenV::PARENTCLOSE, cur_tok(toks, i + 1 + n)))
            },
        }
    } else {
        spec_math_unary(toks, i)
    }
}

/// `term ::= factor (('*' | '/') term)?`, right-recursive.
pub open spec fn spec_math_term(toks: Seq<TokenV>, i: int) -> Result<(MathExprV, nat), Seq<char>>
    decreases toks.len() - i, 2int,
{
    match spec_math_factor(toks, i) {
        Err(e) => Err(e),
        Ok((f, n)) => {
            let t = cur_tok(toks, i + n);
            if t == TokenV::MULT || t == TokenV::DIV {
                match spec_math_term(toks, i + n + 1) {
                    Err(e) => Err(e),
                    Ok((r, m)) => Ok(
                        (MathExprV::BIN(t, Box::new(f), Box::new(r)), (n + 1 + m) as nat),
                    ),
                }
            } else {
                Ok((f, n))
            }
        },
    }
}

/// `expr ::= term (('+' | '-') expr)?`, right-recursive, so `a - b + c`
/// groups as `a - (b + c)`.
pub open spec fn spec_math_expr(toks: Seq<TokenV>, i: int) -> Result<(MathExprV, nat), Seq<char>>
    decreases toks.len() - i, 3int,
{
    match spec_math_term(toks, i) {
        Err(e) => Err(e),
        Ok((t0, n)) => {
            let t = cur_tok(toks, i + n);
            if t == TokenV::PLUS || t == TokenV::MINUS {
                match spec_math_expr(toks, i + n + 1) {
                    Err(e) => Err(e),
                    Ok((r, m)) => Ok(
                        (MathExprV::BIN(t, Box::new(t0), Box::new(r)), (n + 1 + m) as nat),
                    ),
                }
            } else {
                Ok((t0, n))
            }
        },
    }
}

// ---------------------------------------------------------------------------
// Data sequences for the byte and word directives
// ---------------------------------------------------------------------------

/// A string expanded for a byte-sequence directive: one 8-bit entry per
/// character.
pub open spec fn expand_str8(s: Seq<char>) -> Seq<NumericValue> {
    Seq::new(s.len(), |i: int| NumericValue { value: s[i] as u32, size: 8 })
}

/// A string expanded for a word-sequence directive: character pairs
/// packed big-endian into 16-bit entries; a final unpaired character
/// stays a single 8-bit entry.
pub open spec fn expand_str16(s: Seq<char>) -> Seq<NumericValue>
    decreases s.len(),
{
    if s.len() == 0 {
        Seq::empty()
    } else if s.len() == 1 {
        seq![NumericValue { value: s[0] as u32, size: 8 }]
    } else {
        seq![
            NumericValue { value: (((s[0] as int) * 256 + (s[1] as int)) as u32), size: 16 },
        ] + expand_str16(s.skip(2))
    }
}

/// A string expanded under a width limit.
pub open spec fn expand_str(s: Seq<char>, limit: u32) -> Seq<NumericValue> {
    if limit == 16 {
        expand_str16(s)
    } else {
        expand_str8(s)
    }
}

/// Appends the 8-bit expansion of `t` to `out`.
#[verifier::loop_isolation(false)]
fn expand_str_bytes(t: &str, out: &mut Vec<NumericValue>)
    ensures
        final(out).deep_view() == old(out).deep_view() + expand_str8(t@),
{
    let n = t.unicode_len();
    let mut i: usize = 0;
    while i < n
        invariant
            i <= n,
            n == t@.len(),
            out.deep_view() =~= old(out).deep_view() + expand_str8(t@).take(i as int),
        decreases n - i,
    {
        let c = t.get_char(i);
        let ghost before = out.deep_view();
        out.push(NumericValue { value: c as u32, size: 8 });
        proof {
            assert(out.deep_view() =~= before.push(NumericValue { value: c as u32, size: 8 }));
        }
        i += 1;
        proof {
            assert(expand_str8(t@).take(i as int) =~= expand_str8(t@).take(i - 1).push(
                NumericValue { value: c as u32, size: 8 },
            ));
            assert(out.deep_view() =~= old(out).deep_view() + expand_str8(t@).take(i as int));
        }
    }
    proof {
        assert(expand_str8(t@).take(n as int) =~= expand_str8(t@));
        assert(final(out).deep_view() =~= old(out).deep_view() + expand_str8(t@));
    }
}

/// Appends the 16-bit (pair-packed) expansion of `t` to `out`.
#[verifier::loop_isolation(false)]
fn expand_str_words(t: &str, out: &mut Vec<NumericValue>)
    ensures
        final(out).deep_view() == old(out).deep_view() + expand_str16(t@),
{
    let n = t.unicode_len();
    let mut i: usize = 0;
    proof {
        assert(t@.skip(0) =~= t@);
    }
    while i < n && i + 1 < n
        invariant
            i <= n,
            out.deep_view() + expand_str16(t@.skip(i as int)) =~= old(out).deep_view()
                + expand_str16(t@),
        decreases n - i,
    {
        let c0 = t.get_char(i);
        let c1 = t.get_char(i + 1);
        let ghost before = out.deep_view();
        out.push(NumericValue { value: (c0 as u32) * 256 + (c1 as u32), size: 16 });
        proof {
            let s = t@.skip(i as int);
            assert(s[0] == t@[i as int] && s[1] == t@[i as int + 1]);
            assert(s.skip(2) =~= t@.skip(i as int + 2));
            assert(out.deep_view() =~= before + seq![
                NumericValue { value: (((c0 as int) * 256 + (c1 as int)) as u32), size: 16 },
            ]);
            assert(out.deep_view() + expand_str16(t@.skip(i as int + 2)) =~= old(out).deep_view()
                + expand_str16(t@));
        }
        i += 2;
    }
    if i < n {
        let c = t.get_char(i);
        let ghost before = out.deep_view();
        out.push(NumericValue { value: c as u32, size: 8 });
        proof {
            let s = t@.skip(i as int);
            assert(s.len() == 1 && s[0] == t@[i as int]);
            assert(out.deep_view() =~= before + seq![NumericValue { value: s[0] as u32, size: 8 }]);
            assert(expand_str16(s) =~= seq![NumericValue { value: s[0] as u32, size: 8 }]);
            assert(final(out).deep_view() =~= old(out).deep_view() + expand_str16(t@));
        }
    } else {
        proof {
            assert(t@.skip(i as int) =~= Seq::<char>::empty());
            assert(expand_str16(t@.skip(i as int)) =~= Seq::<NumericValue>::empty());
            assert(final(out).deep_view() =~= old(out).deep_view() + expand_str16(t@));
        }
    }
}

pub open spec fn msg_seq_size(count: int, vsize: int, limit: int) -> Seq<char> {
    dec_str(count + 1) + "-nth value has "@ + dec_str(
        if vsize / 8 >= 1 {
            vsize / 8
        } else {
            1
        },
    ) + " bytes, "@ + dec_str(limit / 8) + " was expected"@
}

fn build_msg_seq_size(count: usize, vsize: u32, limit: u32) -> (s: String)
    ensures
        s@ == msg_seq_size(count as int, vsize as int, limit as int),
{
    let mut s = String::new();
    push_dec(&mut s, (count as u128) + 1);
    s.append("-nth value has ");
    let b: u32 = if vsize / 8 >= 1 {
        vsize / 8
    } else {
        1
    };
    push_dec(&mut s, b as u128);
    s.append(" bytes, ");
    push_dec(&mut s, (limit / 8) as u128);
    s.append(" was expected");
    proof {
        assert(s@ =~= msg_seq_size(count as int, vsize as int, limit as int));
    }
    s
}

/// A statement parser's landing position: at least one token on, and
/// never past the end.
pub open spec fn advance(len: int, i: int, j0: int) -> int {
    let j = if j0 > i {
        j0
    } else {
        i + 1
    };
    if j > len {
        len
    } else {
        j
    }
}

/// The elements of a comma-separated data sequence under width `limit`,
/// starting at `i` with `count` elements already taken, and how many
/// tokens they occupy.  Elements need not be separated by commas; a
/// single comma after an element is consumed.
pub open spec fn spec_consume_sequence(
    toks: Seq<TokenV>,
    i: int,
    vars: Seq<(Seq<char>, MathExprV)>,
    limit: u32,
    count: nat,
) -> Result<(Seq<NumericValue>, nat), Seq<char>>
    decreases toks.len() - i,
{
    let t = cur_tok(toks, i);
    if t == TokenV::EOF || t == TokenV::NEWLINE || t is COMMENT {
        Ok((Seq::empty(), 0 as nat))
    } else if t is STR {
        let elems = expand_str(t->STR_0, limit);
        let c: int = if cur_tok(toks, i + 1) == TokenV::COMMA {
            1
        } else {
            0
        };
        let j = advance(toks.len() as int, i, i + 1 + c);
        match spec_consume_sequence(toks, j, vars, limit, count + elems.len()) {
            Err(e) => Err(e),
            Ok((rest, m)) => Ok((elems + rest, ((j - i) + m) as nat)),
        }
    } else {
        match spec_math_expr(toks, i) {
            Err(e) => Err(e),
            Ok((e, n)) => match spec_eval(vars, e, vars.len()) {
                Err(m) => Err(m),
                Ok(v) => if v.size > limit {
                    Err(msg_seq_size(count as int, v.size as int, limit as int))
                } else {
                    let c: int = if cur_tok(toks, i + n) == TokenV::COMMA {
                        1
                    } else {
                        0
                    };
                    let j = advance(toks.len() as int, i, i + n + c);
                    match spec_consume_sequence(toks, j, vars, limit, count + 1) {
                        Err(e) => Err(e),
                        Ok((rest, m)) => Ok((seq![v] + rest, ((j - i) + m) as nat)),
                    }
                },
            },
        }
    }
}

/// A prefix of settled sequence elements, joined with the rest of the
/// sequence scan.
pub open spec fn cs_concat(
    pre: Seq<NumericValue>,
    consumed: nat,
    rest: Result<(Seq<NumericValue>, nat), Seq<char>>,
) -> Result<(Seq<NumericValue>, nat), Seq<char>> {
    match rest {
        Ok((s, m)) => Ok((pre + s, (consumed + m) as nat)),
        Err(e) => Err(e),
    }
}

/// Settling one batch of elements commutes with prepending them to the
/// rest of the sequence scan.
proof fn lemma_cs_step(
    pre: Seq<NumericValue>,
    c0: nat,
    elems: Seq<NumericValue>,
    step: nat,
    rest: Result<(Seq<NumericValue>, nat), Seq<char>>,
)
    ensures
        cs_concat(
            pre,
            c0,
            match rest {
                Ok((s, m)) => Ok::<(Seq<NumericValue>, nat), Seq<char>>(
                    (elems + s, (step + m) as nat),
                ),
                Err(e) => Err(e),
            },
        ) == cs_concat(pre + elems, (c0 + step) as nat, rest),
{
    match rest {
        Ok((s, m)) => {
            assert(pre + (elems + s) =~= (pre + elems) + s);
        },
        Err(_) => {},
    }
}

// ---------------------------------------------------------------------------
// Statements
// ---------------------------------------------------------------------------

pub open spec fn msg_assign_expects_literal() -> Seq<char> {
    "assign expression expects a literal (lhs) / expression(rhs)"@
}

pub open spec fn msg_label_expects_literal() -> Seq<char> {
    "label expression expects a literal (lhs) / expression(rhs)"@
}

pub open spec fn msg_unexpected_tok(t: TokenV) -> Seq<char> {
    "token "@ + tok_text(t) + " unexpected"@
}

pub open spec fn msg_not_literal(t: TokenV) -> Seq<char> {
    tok_text(t) + " is not a literal"@
}

pub open spec fn msg_rhs_invalid(name: Seq<char>) -> Seq<char> {
    name + " rhs is not valid"@
}

pub open spec fn msg_segment_expects_string(got: TokenV) -> Seq<char> {
    "string was expected, got "@ + tok_text(got) + " instead"@
}

/// A label declaration: `name ':'`; gives the statement and the tokens
/// it took.
pub open spec fn spec_state_label(toks: Seq<TokenV>, i: int) -> Result<(ExprV, nat), Seq<char>> {
    match cur_tok(toks, i) {
        TokenV::LITERAL(name) => if cur_tok(toks, i + 1) == TokenV::COLON {
            Ok((ExprV::LABEL(name), 2 as nat))
        } else {
            Err(msg_tok_expected(TokenV::COLON, cur_tok(toks, i + 1)))
        },
        other => Err(msg_lit_wanted(other)),
    }
}

/// A constant assignment: `name '=' expr`.  The expression is validated
/// against the current table - every placeholder must resolve, and none
/// may reach `name` - and then stored raw; evaluation happens lazily at
/// each use site.  Gives the statement, the tokens it took, and the
/// extended table.
pub open spec fn spec_state_assign(
    toks: Seq<TokenV>,
    i: int,
    vars: Seq<(Seq<char>, MathExprV)>,
) -> Result<(ExprV, nat, Seq<(Seq<char>, MathExprV)>), Seq<char>> {
    match cur_tok(toks, i) {
        TokenV::LITERAL(name) => if cur_tok(toks, i + 1) == TokenV::EQUAL {
            match spec_math_expr(toks, i + 2) {
                Err(e) => Err(e),
                Ok((num, n)) => match spec_validate(vars, num, Some(name), vars.len()) {
                    Err(m) => Err(m),
                    Ok(b) => if !b {
                        Err(msg_rhs_invalid(name))
                    } else {
                        Ok(
                            (
                                ExprV::ASSIGN(name, num),
                                (2 + n) as nat,
                                vars.push((name, num)),
                            ),
                        )
                    },
                },
            }
        } else {
            Err(msg_tok_expected(TokenV::EQUAL, cur_tok(toks, i + 1)))
        },
        other => Err(msg_lit_wanted(other)),
    }
}

/// An instruction statement: the mnemonic, then the addressing mode read
/// off the operand shape.  A 16-bit numeral selects the absolute family,
/// an 8-bit one the zero-page family; parenthesised operands select the
/// indirect family; branch mnemonics take a literal displacement or a
/// label left for the code generator to resolve.
pub open spec fn spec_state_instr(
    toks: Seq<TokenV>,
    i: int,
    vars: Seq<(Seq<char>, MathExprV)>,
) -> Result<(ExprV, nat), Seq<char>> {
    match cur_tok(toks, i) {
        TokenV::LITERAL(name) => match spec_get_instr(name) {
            Err(m) => Err(m),
            Ok(instr) => {
                let t1 = cur_tok(toks, i + 1);
                if t1 == TokenV::NEWLINE || t1 == TokenV::EOF || t1 is COMMENT {
                    Ok((ExprV::INSTR(instr, AdrMode::IMPL, OperandV::NONE), 1 as nat))
                } else if spec_is_branching(instr) {
                    match spec_canonicalize(t1) {
                        Ok(num) => Ok(
                            (ExprV::INSTR(instr, AdrMode::REL, OperandV::VALUE(num)), 1 as nat),
                        ),
                        Err(e) => match t1 {
                            TokenV::LITERAL(s) => Ok(
                                (ExprV::INSTR(instr, AdrMode::REL, OperandV::LABEL(s)), 1 as nat),
                            ),
                            _ => Err(e),
                        },
                    }
                } else if t1 == TokenV::HASH {
                    match spec_math_expr(toks, i + 2) {
                        Err(e) => Err(e),
                        Ok((e, n)) => match spec_eval(vars, e, vars.len()) {
                            Err(m) => Err(m),
                            Ok(num) => Ok(
                                (
                                    ExprV::INSTR(instr, AdrMode::IMM, OperandV::VALUE(num)),
                                    (2 + n) as nat,
                                ),
                            ),
                        },
                    }
                } else if t1 == TokenV::PARENTOPEN {
                    match spec_math_expr(toks, i + 2) {
                        Err(e) => Err(e),
                        Ok((e, n)) => match spec_eval(vars, e, vars.len()) {
                            Err(m) => Err(m),
                            Ok(num) => {
                                let p = i + 2 + n;
                                if num.size > 8 {
                                    if cur_tok(toks, p) == TokenV::PARENTCLOSE {
                                        Ok(
                                            (
                                                ExprV::INSTR(
                                                    instr,
                                                    AdrMode::IND,
                                                    OperandV::VALUE(num),
                                                ),
                                                (n + 3) as nat,
                                            ),
                                        )
                                    } else {
                                        Err(
                                            msg_tok_expected(
                                                TokenV::PARENTCLOSE,
                                                cur_tok(toks, p),
                                            ),
                                        )
                                    }
                                } else if cur_tok(toks, p) == TokenV::COMMA {
                                    let tx = cur_tok(toks, p + 1);
                                    if tx matches TokenV::LITERAL(x) && x == "x"@ {
                                        if cur_tok(toks, p + 2) == TokenV::PARENTCLOSE {
                                            Ok(
                                                (
                                                    ExprV::INSTR(
                                                        instr,
                                                        AdrMode::INDX,
                                                        OperandV::VALUE(num),
                                                    ),
                                                    (n + 5) as nat,
                                                ),
                                            )
                                        } else {
                                            Err(
                                                msg_tok_expected(
                                                    TokenV::PARENTCLOSE,
                                                    cur_tok(toks, p + 2),
                                                ),
                                            )
                                        }
                                    } else {
                                        Err(msg_named_lit_expected("x"@, tx))
                                    }
                                } else if cur_tok(toks, p) == TokenV::PARENTCLOSE {
                                    if cur_tok(toks, p + 1) == TokenV::COMMA {
                                        let ty = cur_tok(toks, p + 2);
                                        if ty matches TokenV::LITERAL(y) && y == "y"@ {
                                            Ok(
                                                (
                                                    ExprV::INSTR(
                                                        instr,
                                                        AdrMode::INDY,
                                                        OperandV::VALUE(num),
                                                    ),
                                                    (n + 5) as nat,
                                                ),
                                            )
                                        } else {
                                            Err(msg_named_lit_expected("y"@, ty))
                                        }
                                    } else {
                                        Err(msg_tok_expected(TokenV::COMMA, cur_tok(toks, p + 1)))
                                    }
                                } else {
                                    Err(msg_tok_expected(TokenV::PARENTCLOSE, cur_tok(toks, p)))
                                }
                            },
                        },
                    }
                } else {
                    match spec_math_expr(toks, i + 1) {
                        Err(e) => Err(e),
                        Ok((e, n)) => match spec_eval(vars, e, vars.len()) {
                            Err(m) => Err(m),
                            Ok(num) => {
                                let p = i + 1 + n;
                                if cur_tok(toks, p) == TokenV::COMMA {
                                    let t3 = cur_tok(toks, p + 1);
                                    if t3 matches TokenV::LITERAL(x) && x == "x"@ {
                                        Ok(
                                            (
                                                ExprV::INSTR(
                                                    instr,
                                                    if num.size > 8 {
                                                        AdrMode::ABSX
                                                    } else {
                                                        AdrMode::ZPX
                                                    },
                                                    OperandV::VALUE(num),
                                                ),
                                                (n + 3) as nat,
                                            ),
                                        )
                                    } else if t3 matches TokenV::LITERAL(y) && y == "y"@ {
                                        Ok(
                                            (
                                                ExprV::INSTR(
                                                    instr,
                                                    if num.size > 8 {
                                                        AdrMode::ABSY
                                                    } else {
                                                        AdrMode::ZPY
                                                    },
                                                    OperandV::VALUE(num),
                                                ),
                                                (n + 3) as nat,
                                            ),
                                        )
                                    } else {
                                        Err(msg_named_lit_expected("y"@, t3))
                                    }
                                } else {
                                    Ok(
                                        (
                                            ExprV::INSTR(
                                                instr,
                                                if num.size > 8 {
                                                    AdrMode::ABS
                                                } else {
                                                    AdrMode::ZP
                                                },
                                                OperandV::VALUE(num),
                                            ),
                                            (n + 1) as nat,
                                        ),
                                    )
                                }
                            },
                        },
                    }
                }
            },
        },
        other => Err(msg_not_literal(other)),
    }
}

/// Prepends a settled statement to the outcome of parsing the rest.
pub open spec fn cons_stmt(e: ExprV, rest: Result<Seq<ExprV>, Seq<char>>) -> Result<
    Seq<ExprV>,
    Seq<char>,
> {
    match rest {
        Ok(es) => Ok(seq![e] + es),
        Err(m) => Err(m),
    }
}

/// A prefix of settled statements, joined with the outcome of parsing
/// the rest.
pub open spec fn stmt_concat(pre: Seq<ExprV>, rest: Result<Seq<ExprV>, Seq<char>>) -> Result<
    Seq<ExprV>,
    Seq<char>,
> {
    match rest {
        Ok(es) => Ok(pre + es),
        Err(m) => Err(m),
    }
}

/// Settling one statement commutes with prepending it to the rest of
/// the parse.
proof fn lemma_stmt_step(pre: Seq<ExprV>, e: ExprV, rest: Result<Seq<ExprV>, Seq<char>>)
    ensures
        stmt_concat(pre, cons_stmt(e, rest)) == stmt_concat(pre.push(e), rest),
{
    match rest {
        Ok(es) => {
            assert(pre + (seq![e] + es) =~= pre.push(e) + es);
        },
        Err(_) => {},
    }
}

/// The statement list that parsing `toks` from `i` produces under the
/// table `vars`, or the first error.  Line breaks and comments are
/// skipped; `name '='` opens an assignment and `name ':'` a label
/// declaration; directives are dispatched by name, case-insensitively;
/// everything else must be an instruction.
pub open spec fn spec_parse_from(
    toks: Seq<TokenV>,
    i: int,
    vars: Seq<(Seq<char>, MathExprV)>,
) -> Result<Seq<ExprV>, Seq<char>>
    decreases toks.len() - i,
{
    let len = toks.len() as int;
    let t = cur_tok(toks, i);
    if t == TokenV::EOF {
        Ok(Seq::empty())
    } else if t == TokenV::NEWLINE {
        spec_parse_from(toks, i + 1, vars)
    } else if t is COMMENT {
        spec_parse_from(toks, i + 1, vars)
    } else if cur_tok(toks, i + 1) == TokenV::EQUAL {
        if t is LITERAL {
            match spec_state_assign(toks, i, vars) {
                Err(e) => Err(e),
                Ok((e, n, vars2)) => cons_stmt(e, spec_parse_from(toks, advance(len, i, i + n), vars2)),
            }
        } else {
            Err(msg_assign_expects_literal())
        }
    } else if cur_tok(toks, i + 1) == TokenV::COLON {
        if t is LITERAL {
            match spec_state_label(toks, i) {
                Err(e) => Err(e),
                Ok((e, n)) => cons_stmt(e, spec_parse_from(toks, advance(len, i, i + n), vars)),
            }
        } else {
            Err(msg_label_expects_literal())
        }
    } else if t is DIRECTIVE {
        let u = upper_seq(t->DIRECTIVE_0);
        if u == "BYTE"@ || u == "DB"@ {
            match spec_consume_sequence(toks, i + 1, vars, 8, 0) {
                Err(e) => Err(e),
                Ok((elems, m)) => cons_stmt(
                    ExprV::DIRECTIVE(DirectiveV::BYTE(elems)),
                    spec_parse_from(toks, advance(len, i, i + 1 + m), vars),
                ),
            }
        } else if u == "DWORD"@ || u == "DW"@ {
            match spec_consume_sequence(toks, i + 1, vars, 16, 0) {
                Err(e) => Err(e),
                Ok((elems, m)) => cons_stmt(
                    ExprV::DIRECTIVE(DirectiveV::DWORD(elems)),
                    spec_parse_from(toks, advance(len, i, i + 1 + m), vars),
                ),
            }
        } else if u == "SEGMENT"@ {
            match cur_tok(toks, i + 1) {
                TokenV::STR(s) => cons_stmt(
                    ExprV::DIRECTIVE(DirectiveV::SEGMENT(s)),
                    spec_parse_from(toks, advance(len, i, i + 2), vars),
                ),
                other => Err(msg_segment_expects_string(other)),
            }
        } else if u == "RES"@ || u == "RESERVE"@ {
            match spec_canonicalize(cur_tok(toks, i + 1)) {
                Err(e) => Err(e),
                Ok(num) => cons_stmt(
                    ExprV::DIRECTIVE(DirectiveV::RESERVE(num.value)),
                    spec_parse_from(toks, advance(len, i, i + 2), vars),
                ),
            }
        } else if u == "PROC"@ {
            match cur_tok(toks, i + 1) {
                TokenV::LITERAL(s) => cons_stmt(
                    ExprV::DIRECTIVE(DirectiveV::PROC(s)),
                    spec_parse_from(toks, advance(len, i, i + 2), vars),
                ),
                other => Err(msg_lit_wanted(other)),
            }
        } else if u == "ENDPROC"@ {
            cons_stmt(
                ExprV::DIRECTIVE(DirectiveV::ENDPROC),
                spec_parse_from(toks, advance(len, i, i + 1), vars),
            )
        } else {
            Err(msg_unexpected_tok(t))
        }
    } else {
        match spec_state_instr(toks, i, vars) {
            Err(e) => Err(e),
            Ok((e, n)) => cons_stmt(e, spec_parse_from(toks, advance(len, i, i + n + 1), vars)),
        }
    }
}

// ---------------------------------------------------------------------------
// The parser state
// ---------------------------------------------------------------------------

/// The parser: a cursor over a borrowed token stream, plus the symbol
/// table of constants defined so far.
pub struct AsmParser<'a> {
    tokens: &'a Vec<Token>,
    cursor: usize,
    variables: Vec<(String, MathExpr)>,
    eof: Token,
}

impl<'a> AsmParser<'a> {
    /// The token stream under parse.
    pub closed spec fn toks(&self) -> Seq<TokenV> {
        self.tokens.deep_view()
    }

    /// The current position in the token stream.
    pub closed spec fn pos(&self) -> int {
        self.cursor as int
    }

    /// The symbol table, in the order definitions were stored.
    pub closed spec fn vars(&self) -> Seq<(Seq<char>, MathExprV)> {
        self.variables.deep_view()
    }

    /// The parser's internal invariant.
    pub closed spec fn wf(&self) -> bool {
        self.cursor <= self.tokens.len() && self.eof@ == TokenV::EOF
    }

    /// Builds a parser at the start of `tokens`, with an empty table.
    pub fn new(tokens: &'a Vec<Token>) -> (r: Self)
        ensures
            r.wf(),
            r.toks() == tokens.deep_view(),
            r.pos() == 0,
            r.vars() == Seq::<(Seq<char>, MathExprV)>::empty(),
    {
        let r = AsmParser { tokens, cursor: 0, variables: Vec::new(), eof: Token::EOF };
        proof {
            assert(r.vars() =~= Seq::<(Seq<char>, MathExprV)>::empty());
        }
        r
    }

    /// The token at the cursor, or `EOF` past the end.
    fn curr(&self) -> (t: &Token)
        requires
            self.wf(),
        ensures
            t@ == cur_tok(self.toks(), self.pos()),
    {
        if self.cursor < self.tokens.len() {
            &self.tokens[self.cursor]
        } else {
            &self.eof
        }
    }

    /// The token after the cursor, or `EOF` past the end.
    fn peek_next(&self) -> (t: &Token)
        requires
            self.wf(),
        ensures
            t@ == cur_tok(self.toks(), self.pos() + 1),
    {
        if self.cursor < self.tokens.len() && self.cursor + 1 < self.tokens.len() {
            &self.tokens[self.cursor + 1]
        } else {
            &self.eof
        }
    }

    fn is_eof(&self) -> (r: bool)
        requires
            self.wf(),
        ensures
            r == (cur_tok(self.toks(), self.pos()) == TokenV::EOF),
    {
        matches!(self.curr(), Token::EOF)
    }

    fn is_endline(&self) -> (r: bool)
        requires
            self.wf(),
        ensures
            r == (cur_tok(self.toks(), self.pos()) == TokenV::NEWLINE),
    {
        matches!(self.curr(), Token::NEWLINE)
    }

    /// Advances by one token, clamped at the end of the stream.
    fn next(&mut self)
        requires
            old(self).wf(),
        ensures
            final(self).wf(),
            final(self).toks() == old(self).toks(),
            final(self).vars() == old(self).vars(),
            final(self).pos() == if old(self).pos() < old(self).toks().len() {
                old(self).pos() + 1
            } else {
                old(self).pos()
            },
    {
        if self.cursor < self.tokens.len() {
            self.cursor = self.cursor + 1;
        }
    }

    /// Consumes exactly `token` (a payload-free token), or reports what
    /// stood in its place.
    fn consume(&mut self, token: Token) -> (r: Result<Token, String>)
        requires
            old(self).wf(),
            is_simple_tok(token@),
        ensures
            final(self).wf(),
            final(self).toks() == old(self).toks(),
            final(self).vars() == old(self).vars(),
            ({
                let want = token@;
                let got = cur_tok(old(self).toks(), old(self).pos());
                if got == want {
                    r matches Ok(t) && t@ == want && final(self).pos() == if old(self).pos()
                        < old(self).toks().len() {
                        old(self).pos() + 1
                    } else {
                        old(self).pos()
                    }
                } else {
                    r matches Err(m) && m@ == msg_tok_expected(want, got) && final(self).pos()
                        == old(self).pos()
                }
            }),
    {
        if punct_matches(self.curr(), &token) {
            self.next();
            return Ok(token);
        }
        let mut m = build_tok_text(&token);
        m.append(" was expected, got ");
        let t = build_tok_text(self.curr());
        m.append(t.as_str());
        m.append(" instead");
        proof {
            assert(m@ =~= msg_tok_expected(token@, cur_tok(self.toks(), self.pos())));
        }
        Err(m)
    }

    /// Takes the identifier at the cursor out of its token.
    fn consume_literal_and_lift(&mut self) -> (r: Result<String, String>)
        requires
            old(self).wf(),
        ensures
            final(self).wf(),
            final(self).toks() == old(self).toks(),
            final(self).vars() == old(self).vars(),
            ({
                let got = cur_tok(old(self).toks(), old(self).pos());
                match got {
                    TokenV::LITERAL(s) => r matches Ok(lit) && lit@ == s && final(self).pos()
                        == old(self).pos() + 1,
                    _ => r matches Err(m) && m@ == msg_lit_wanted(got) && final(self).pos()
                        == old(self).pos(),
                }
            }),
    {
        let lit: Option<String> = match self.curr() {
            Token::LITERAL(s) => Some(s.clone()),
            _ => None,
        };
        match lit {
            Some(s) => {
                self.next();
                Ok(s)
            },
            None => {
                let mut m = String::from_str("literal was expected, got ");
                let t = build_tok_text(self.curr());
                m.append(t.as_str());
                m.append(" instead");
                proof {
                    assert(m@ =~= msg_lit_wanted(cur_tok(self.toks(), self.pos())));
                }
                Err(m)
            },
        }
    }

    /// Consumes the identifier `s` verbatim: any other token, or another
    /// identifier, is reported.
    fn consume_literal(&mut self, s: &str) -> (r: Result<Token, String>)
        requires
            old(self).wf(),
        ensures
            final(self).wf(),
            final(self).toks() == old(self).toks(),
            final(self).vars() == old(self).vars(),
            ({
                let got = cur_tok(old(self).toks(), old(self).pos());
                if got matches TokenV::LITERAL(lit) && lit == s@ {
                    r matches Ok(t) && t@ == got && final(self).pos() == old(self).pos() + 1
                } else {
                    r matches Err(m) && m@ == msg_named_lit_expected(s@, got) && final(self).pos()
                        == old(self).pos()
                }
            }),
    {
        let matched: Option<String> = match self.curr() {
            Token::LITERAL(lit) => {
                if crate::text::str_eq(lit.as_str(), s) {
                    Some(lit.clone())
                } else {
                    None
                }
            },
            _ => None,
        };
        match matched {
            Some(lit) => {
                self.next();
                Ok(Token::LITERAL(lit))
            },
            None => {
                let mut m = String::from_str("literal \"");
                m.append(s);
                m.append("\" was expected, got ");
                let t = build_tok_text(self.curr());
                m.append(t.as_str());
                m.append(" instead");
                proof {
                    assert(m@ =~= msg_named_lit_expected(s@, cur_tok(self.toks(), self.pos())));
                }
                Err(m)
            },
        }
    }

    /// Parses one expression leaf: a numeral, or a name left as a
    /// placeholder for later lookup.
    fn consume_math_unary(&mut self) -> (r: Result<MathExpr, String>)
        requires
            old(self).wf(),
        ensures
            final(self).wf(),
            final(self).toks() == old(self).toks(),
            final(self).vars() == old(self).vars(),
            final(self).pos() >= old(self).pos(),
            (match spec_math_unary(old(self).toks(), old(self).pos()) {
                Ok((e, n)) => r matches Ok(ex) && ex.deep_view() == e && final(self).pos() == old(
                    self,
                ).pos() + n && old(self).pos() + n <= old(self).toks().len() && n >= 1,
                Err(msg) => r matches Err(m) && m@ == msg,
            }),
    {
        let num = canonicalize_number(self.curr());
        match num {
            Ok(number) => {
                proof {
                    assert(0 <= self.pos() < self.toks().len());
                }
                self.next();
                Ok(MathExpr::NUM(number))
            },
            Err(e) => {
                let lit: Option<String> = match self.curr() {
                    Token::LITERAL(s) => Some(s.clone()),
                    _ => None,
                };
                match lit {
                    Some(s) => {
                        proof {
                            assert(0 <= self.pos() < self.toks().len());
                        }
                        self.next();
                        Ok(MathExpr::PLACEHOLDER(s))
                    },
                    None => Err(e),
                }
            },
        }
    }

    /// Parses `'(' expr ')'` or a leaf.
    fn consume_math_factor(&mut self) -> (r: Result<MathExpr, String>)
        requires
            old(self).wf(),
        ensures
            final(self).wf(),
            final(self).toks() == old(self).toks(),
            final(self).vars() == old(self).vars(),
            final(self).pos() >= old(self).pos(),
            (match spec_math_factor(old(self).toks(), old(self).pos()) {
                Ok((e, n)) => r matches Ok(ex) && ex.deep_view() == e && final(self).pos() == old(
                    self,
                ).pos() + n && old(self).pos() + n <= old(self).toks().len() && n >= 1,
                Err(msg) => r matches Err(m) && m@ == msg,
            }),
        decreases old(self).toks().len() - old(self).pos(), 1int,
    {
        if matches!(self.curr(), Token::PARENTOPEN) {
            let opened = self.consume(Token::PARENTOPEN);
            proof {
                assert(opened is Ok);
            }
            let expr = match self.consume_math_expr() {
                Ok(e) => e,
                Err(m) => {
                    return Err(m);
                },
            };
            match self.consume(Token::PARENTCLOSE) {
                Ok(_) => Ok(expr),
                Err(m) => Err(m),
            }
        } else {
            self.consume_math_unary()
        }
    }

    /// Parses `factor (('*' | '/') term)?`.
    fn consume_math_term(&mut self) -> (r: Result<MathExpr, String>)
        requires
            old(self).wf(),
        ensures
            final(self).wf(),
            final(self).toks() == old(self).toks(),
            final(self).vars() == old(self).vars(),
            final(self).pos() >= old(self).pos(),
            (match spec_math_term(old(self).toks(), old(self).pos()) {
                Ok((e, n)) => r matches Ok(ex) && ex.deep_view() == e && final(self).pos() == old(
                    self,
                ).pos() + n && old(self).pos() + n <= old(self).toks().len() && n >= 1,
                Err(msg) => r matches Err(m) && m@ == msg,
            }),
        decreases old(self).toks().len() - old(self).pos(), 2int,
    {
        let expr = match self.consume_math_factor() {
            Ok(e) => e,
            Err(m) => {
                return Err(m);
            },
        };
        let op: Option<Token> = if matches!(self.curr(), Token::MULT) {
            Some(Token::MULT)
        } else if matches!(self.curr(), Token::DIV) {
            Some(Token::DIV)
        } else {
            None
        };
        match op {
            Some(op_token) => {
                let consumed = self.consume(op_token);
                let op_token = match consumed {
                    Ok(t) => t,
                    Err(_) => {
                        proof {
                            assert(false);
                        }
                        return Err(String::new());
                    },
                };
                let right = match self.consume_math_term() {
                    Ok(e) => e,
                    Err(m) => {
                        return Err(m);
                    },
                };
                Ok(MathExpr::BIN(op_token, Box::new(expr), Box::new(right)))
            },
            None => Ok(expr),
        }
    }

    /// Parses `term (('+' | '-') expr)?`.
    fn consume_math_expr(&mut self) -> (r: Result<MathExpr, String>)
        requires
            old(self).wf(),
        ensures
            final(self).wf(),
            final(self).toks() == old(self).toks(),
            final(self).vars() == old(self).vars(),
            final(self).pos() >= old(self).pos(),
            (match spec_math_expr(old(self).toks(), old(self).pos()) {
                Ok((e, n)) => r matches Ok(ex) && ex.deep_view() == e && final(self).pos() == old(
                    self,
                ).pos() + n && old(self).pos() + n <= old(self).toks().len() && n >= 1,
                Err(msg) => r matches Err(m) && m@ == msg,
            }),
        decreases old(self).toks().len() - old(self).pos(), 3int,
    {
        let expr = match self.consume_math_term() {
            Ok(e) => e,
            Err(m) => {
                return Err(m);
            },
        };
        let op: Option<Token> = if matches!(self.curr(), Token::PLUS) {
            Some(Token::PLUS)
        } else if matches!(self.curr(), Token::MINUS) {
            Some(Token::MINUS)
        } else {
            None
        };
        match op {
            Some(op_token) => {
                let consumed = self.consume(op_token);
                let op_token = match consumed {
                    Ok(t) => t,
                    Err(_) => {
                        proof {
                            assert(false);
                        }
                        return Err(String::new());
                    },
                };
                let right = match self.consume_math_expr() {
                    Ok(e) => e,
                    Err(m) => {
                        return Err(m);
                    },
                };
                Ok(MathExpr::BIN(op_token, Box::new(expr), Box::new(right)))
            },
            None => Ok(expr),
        }
    }

    /// Parses a comma-separated data sequence for a `.byte`/`.dword`
    /// directive: string literals expand to their characters, every other
    /// element is a folded constant expression checked against `size`.
    #[verifier::loop_isolation(false)]
    fn consume_sequence(&mut self, size: u32) -> (r: Result<Vec<NumericValue>, String>)
        requires
            old(self).wf(),
        ensures
            final(self).wf(),
            final(self).toks() == old(self).toks(),
            final(self).vars() == old(self).vars(),
            (match spec_consume_sequence(old(self).toks(), old(self).pos(), old(self).vars(), size, 0) {
                Ok((elems, m)) => r matches Ok(v) && v.deep_view() == elems && final(self).pos()
                    == old(self).pos() + m && old(self).pos() + m <= old(self).toks().len(),
                Err(msg) => r matches Err(e) && e@ == msg,
            }),
    {
        let ghost toks = self.toks();
        let ghost vars0 = self.vars();
        let ghost i0 = self.pos();
        let mut seq: Vec<NumericValue> = Vec::new();
        proof {
            assert(seq.deep_view() =~= Seq::<NumericValue>::empty());
            assert(seq.deep_view() + Seq::<NumericValue>::empty() =~= seq.deep_view());
        }
        loop
            invariant
                self.wf(),
                self.toks() == toks,
                self.vars() == vars0,
                i0 <= self.pos() <= toks.len(),
                cs_concat(
                    seq.deep_view(),
                    (self.pos() - i0) as nat,
                    spec_consume_sequence(toks, self.pos(), vars0, size, seq.deep_view().len()),
                ) == spec_consume_sequence(toks, i0, vars0, size, 0),
            decreases toks.len() - self.pos(),
        {
            if self.is_eof() || self.is_endline() || matches!(self.curr(), Token::COMMENT(_)) {
                break ;
            }
            let ghost i = self.pos();
            let ghost pre = seq.deep_view();
            let ghost rest0 = spec_consume_sequence(toks, i, vars0, size, pre.len());

            let payload: Option<String> = match self.curr() {
                Token::STR(s) => Some(s.clone()),
                _ => None,
            };
            let ghost elems: Seq<NumericValue>;
            match payload {
                Some(s) => {
                    self.next();
                    if size == 16 {
                        expand_str_words(s.as_str(), &mut seq);
                    } else {
                        expand_str_bytes(s.as_str(), &mut seq);
                    }
                    proof {
                        elems = expand_str(s@, size);
                        assert(seq.deep_view() =~= pre + elems);
                    }
                },
                None => {
                    let expr = match self.consume_math_expr() {
                        Ok(e) => e,
                        Err(m) => {
                            return Err(m);
                        },
                    };
                    let value = match self.eval_math(&expr) {
                        Ok(v) => v,
                        Err(m) => {
                            return Err(m);
                        },
                    };
                    if value.size > size {
                        return Err(build_msg_seq_size(seq.len(), value.size, size));
                    }
                    seq.push(value);
                    proof {
                        elems = seq![value];
                        assert(seq.deep_view() =~= pre + elems);
                    }
                },
            }
            if matches!(self.curr(), Token::COMMA) {
                let c = self.consume(Token::COMMA);
                proof {
                    assert(c is Ok);
                }
            }
            proof {
                let step = (self.pos() - i) as nat;
                let rest1 = spec_consume_sequence(toks, self.pos(), vars0, size, seq.deep_view().len());
                assert(seq.deep_view().len() == pre.len() + elems.len());
                assert(rest0 == (match rest1 {
                    Ok((s2, m2)) => Ok::<(Seq<NumericValue>, nat), Seq<char>>(
                        (elems + s2, (step + m2) as nat),
                    ),
                    Err(e2) => Err(e2),
                }));
                lemma_cs_step(pre, (i - i0) as nat, elems, step, rest1);
            }
        }
        proof {
            assert(spec_consume_sequence(toks, self.pos(), vars0, size, seq.deep_view().len())
                == Ok::<(Seq<NumericValue>, nat), Seq<char>>((Seq::empty(), 0)));
            assert(seq.deep_view() + Seq::<NumericValue>::empty() =~= seq.deep_view());
        }
        Ok(seq)
    }

    /// Parses `name '=' expr`, validates the right-hand side, and
    /// stores it in the symbol table.
    fn state_assign(&mut self) -> (r: Result<Expr, String>)
        requires
            old(self).wf(),
        ensures
            final(self).wf(),
            final(self).toks() == old(self).toks(),
            (match spec_state_assign(old(self).toks(), old(self).pos(), old(self).vars()) {
                Ok((e, n, vars2)) => r matches Ok(ex) && ex.deep_view() == e && final(self).pos()
                    == old(self).pos() + n && old(self).pos() + n <= old(self).toks().len()
                    && n >= 1 && final(self).vars() == vars2,
                Err(msg) => r matches Err(m) && m@ == msg,
            }),
    {
        let symbol = match self.consume_literal_and_lift() {
            Ok(s) => s,
            Err(m) => {
                return Err(m);
            },
        };
        match self.consume(Token::EQUAL) {
            Ok(_) => {},
            Err(m) => {
                return Err(m);
            },
        }
        let number = match self.consume_math_expr() {
            Ok(e) => e,
            Err(m) => {
                return Err(m);
            },
        };
        let assignee = Some(symbol.clone());
        let valid = match self.validate_factors(&number, &assignee) {
            Ok(v) => v,
            Err(m) => {
                return Err(m);
            },
        };
        if !valid {
            let m = quoted("", &symbol, " rhs is not valid");
            proof {
                reveal_strlit("");
                assert(m@ =~= msg_rhs_invalid(symbol@));
            }
            return Err(m);
        }
        let ghost vars_before = self.vars();
        let stored = clone_math(&number);
        self.variables.push((symbol.clone(), stored));
        proof {
            assert(self.vars() =~= vars_before.push((symbol@, number.deep_view())));
        }
        Ok(Expr::ASSIGN(symbol, number))
    }

    /// Parses `name ':'` into a label declaration.
    fn state_label(&mut self) -> (r: Result<Expr, String>)
        requires
            old(self).wf(),
        ensures
            final(self).wf(),
            final(self).toks() == old(self).toks(),
            final(self).vars() == old(self).vars(),
            (match spec_state_label(old(self).toks(), old(self).pos()) {
                Ok((e, n)) => r matches Ok(ex) && ex.deep_view() == e && final(self).pos() == old(
                    self,
                ).pos() + n && old(self).pos() + n <= old(self).toks().len() && n >= 1,
                Err(msg) => r matches Err(m) && m@ == msg,
            }),
    {
        let name = match self.consume_literal_and_lift() {
            Ok(s) => s,
            Err(m) => {
                return Err(m);
            },
        };
        match self.consume(Token::COLON) {
            Ok(_) => {},
            Err(m) => {
                return Err(m);
            },
        }
        Ok(Expr::LABEL(name))
    }

    /// Parses an instruction statement, deciding the addressing mode
    /// from the operand's shape and width.
    fn state_instr(&mut self) -> (r: Result<Expr, String>)
        requires
            old(self).wf(),
        ensures
            final(self).wf(),
            final(self).toks() == old(self).toks(),
            final(self).vars() == old(self).vars(),
            (match spec_state_instr(old(self).toks(), old(self).pos(), old(self).vars()) {
                Ok((e, n)) => r matches Ok(ex) && ex.deep_view() == e && final(self).pos() == old(
                    self,
                ).pos() + n && old(self).pos() + n <= old(self).toks().len() && n >= 1,
                Err(msg) => r matches Err(m) && m@ == msg,
            }),
    {
        let name: Option<String> = match self.curr() {
            Token::LITERAL(s) => Some(s.clone()),
            _ => None,
        };
        let name = match name {
            Some(s) => s,
            None => {
                let mut m = build_tok_text(self.curr());
                m.append(" is not a literal");
                proof {
                    assert(m@ =~= msg_not_literal(cur_tok(self.toks(), self.pos())));
                }
                return Err(m);
            },
        };
        let instr = match get_instr(&name) {
            Ok(i) => i,
            Err(m) => {
                return Err(m);
            },
        };
        self.next();

        // implied addressing: no operand before the line break
        if self.is_endline() || self.is_eof() || matches!(self.curr(), Token::COMMENT(_)) {
            return Ok(Expr::INSTR(instr, AdrMode::IMPL, Operand::NONE));
        }
        // conditional branches: a literal displacement or a label name
        if is_branching(&instr) {
            match canonicalize_number(self.curr()) {
                Ok(number) => {
                    return Ok(Expr::INSTR(instr, AdrMode::REL, Operand::VALUE(number)));
                },
                Err(e) => {
                    let lab: Option<String> = match self.curr() {
                        Token::LITERAL(s) => Some(s.clone()),
                        _ => None,
                    };
                    match lab {
                        Some(s) => {
                            return Ok(Expr::INSTR(instr, AdrMode::REL, Operand::LABEL(s)));
                        },
                        None => {
                            return Err(e);
                        },
                    }
                },
            }
        }
        // immediate addressing: an eagerly folded expression
        if matches!(self.curr(), Token::HASH) {
            let h = self.consume(Token::HASH);
            proof {
                assert(h is Ok);
            }
            let expr = match self.consume_math_expr() {
                Ok(e) => e,
                Err(m) => {
                    return Err(m);
                },
            };
            let number = match self.eval_math(&expr) {
                Ok(v) => v,
                Err(m) => {
                    return Err(m);
                },
            };
            return Ok(Expr::INSTR(instr, AdrMode::IMM, Operand::VALUE(number)));
        }
        // the indirect family: a parenthesised, eagerly folded expression
        if matches!(self.curr(), Token::PARENTOPEN) {
            let p = self.consume(Token::PARENTOPEN);
            proof {
                assert(p is Ok);
            }
            let expr = match self.consume_math_expr() {
                Ok(e) => e,
                Err(m) => {
                    return Err(m);
                },
            };
            let number = match self.eval_math(&expr) {
                Ok(v) => v,
                Err(m) => {
                    return Err(m);
                },
            };
            if number.size > 8 {
                match self.consume(Token::PARENTCLOSE) {
                    Ok(_) => {},
                    Err(m) => {
                        return Err(m);
                    },
                }
                return Ok(Expr::INSTR(instr, AdrMode::IND, Operand::VALUE(number)));
            } else {
                if matches!(self.curr(), Token::COMMA) {
                    let c = self.consume(Token::COMMA);
                    proof {
                        assert(c is Ok);
                    }
                    match self.consume_literal("x") {
                        Ok(_) => {},
                        Err(m) => {
                            return Err(m);
                        },
                    }
                    match self.consume(Token::PARENTCLOSE) {
                        Ok(_) => {},
                        Err(m) => {
                            return Err(m);
                        },
                    }
                    return Ok(Expr::INSTR(instr, AdrMode::INDX, Operand::VALUE(number)));
                } else {
                    match self.consume(Token::PARENTCLOSE) {
                        Ok(_) => {},
                        Err(m) => {
                            return Err(m);
                        },
                    }
                    match self.consume(Token::COMMA) {
                        Ok(_) => {},
                        Err(m) => {
                            return Err(m);
                        },
                    }
                    match self.consume_literal("y") {
                        Ok(_) => {},
                        Err(m) => {
                            return Err(m);
                        },
                    }
                    return Ok(Expr::INSTR(instr, AdrMode::INDY, Operand::VALUE(number)));
                }
            }
        }
        // absolute (16-bit) and zero-page (8-bit) families: the folded
        // expression's width selects the family
        let expr = match self.consume_math_expr() {
            Ok(e) => e,
            Err(m) => {
                return Err(m);
            },
        };
        let number = match self.eval_math(&expr) {
            Ok(v) => v,
            Err(m) => {
                return Err(m);
            },
        };
        let mut indexed_x = false;
        let mut indexed_y = false;
        if matches!(self.curr(), Token::COMMA) {
            let c = self.consume(Token::COMMA);
            proof {
                assert(c is Ok);
            }
            match self.consume_literal("x") {
                Ok(_) => {
                    indexed_x = true;
                },
                Err(_) => {
                    match self.consume_literal("y") {
                        Ok(_) => {
                            indexed_y = true;
                        },
                        Err(m) => {
                            return Err(m);
                        },
                    }
                },
            }
        }
        let mode = if number.size > 8 {
            if indexed_x {
                AdrMode::ABSX
            } else if indexed_y {
                AdrMode::ABSY
            } else {
                AdrMode::ABS
            }
        } else {
            if indexed_x {
                AdrMode::ZPX
            } else if indexed_y {
                AdrMode::ZPY
            } else {
                AdrMode::ZP
            }
        };
        Ok(Expr::INSTR(instr, mode, Operand::VALUE(number)))
    }

    /// Parses the whole token stream into a statement list, or stops at
    /// the first syntax or semantic error.
    #[verifier::loop_isolation(false)]
    pub fn parse(&mut self) -> (r: Result<Vec<Expr>, String>)
        requires
            old(self).wf(),
        ensures
            final(self).wf(),
            final(self).toks() == old(self).toks(),
            (match r {
                Ok(es) => spec_parse_from(old(self).toks(), 0, old(self).vars()) == Ok::<
                    Seq<ExprV>,
                    Seq<char>,
                >(es.deep_view()),
                Err(m) => spec_parse_from(old(self).toks(), 0, old(self).vars()) == Err::<
                    Seq<ExprV>,
                    Seq<char>,
                >(m@),
            }),
    {
        let ghost toks = self.toks();
        let ghost vars0 = self.vars();
        let mut prog: Vec<Expr> = Vec::new();
        self.cursor = 0;
        proof {
            assert(prog.deep_view() =~= Seq::<ExprV>::empty());
            assert(prog.deep_view() + Seq::<ExprV>::empty() =~= prog.deep_view());
        }
        loop
            invariant
                self.wf(),
                self.toks() == toks,
                0 <= self.pos() <= toks.len(),
                stmt_concat(prog.deep_view(), spec_parse_from(toks, self.pos(), self.vars()))
                    == spec_parse_from(toks, 0, vars0),
            decreases toks.len() - self.pos(),
        {
            if self.is_eof() {
                break ;
            }
            let ghost i = self.pos();
            let ghost vars_i = self.vars();
            let ghost pre = prog.deep_view();

            if self.is_endline() {
                self.next();
                continue ;
            }
            if matches!(self.curr(), Token::COMMENT(_)) {
                self.next();
                continue ;
            }
            if matches!(self.peek_next(), Token::EQUAL) {
                if matches!(self.curr(), Token::LITERAL(_)) {
                    let e = match self.state_assign() {
                        Ok(e) => e,
                        Err(m) => {
                            return Err(m);
                        },
                    };
                    proof {
                        lemma_stmt_step(
                            pre,
                            e.deep_view(),
                            spec_parse_from(toks, self.pos(), self.vars()),
                        );
                    }
                    prog.push(e);
                    proof {
                        assert(prog.deep_view() =~= pre.push(prog@[pre.len() as int].deep_view()));
                    }
                    continue ;
                } else {
                    return Err(
                        String::from_str("assign expression expects a literal (lhs) / expression(rhs)"),
                    );
                }
            }
            if matches!(self.peek_next(), Token::COLON) {
                if matches!(self.curr(), Token::LITERAL(_)) {
                    let e = match self.state_label() {
                        Ok(e) => e,
                        Err(m) => {
                            return Err(m);
                        },
                    };
                    proof {
                        lemma_stmt_step(
                            pre,
                            e.deep_view(),
                            spec_parse_from(toks, self.pos(), self.vars()),
                        );
                    }
                    prog.push(e);
                    proof {
                        assert(prog.deep_view() =~= pre.push(prog@[pre.len() as int].deep_view()));
                    }
                    continue ;
                } else {
                    return Err(
                        String::from_str("label expression expects a literal (lhs) / expression(rhs)"),
                    );
                }
            }
            let dname: Option<String> = match self.curr() {
                Token::DIRECTIVE(n) => Some(n.clone()),
                _ => None,
            };
            match dname {
                Some(name) => {
                    let u = to_upper(name.as_str());
                    let stmt: Expr;
                    if crate::text::str_eq(u.as_str(), "BYTE") || crate::text::str_eq(
                        u.as_str(),
                        "DB",
                    ) {
                        self.next();
                        let sq = match self.consume_sequence(8) {
                            Ok(s) => s,
                            Err(m) => {
                                return Err(m);
                            },
                        };
                        stmt = Expr::DIRECTIVE(Directive::BYTE(sq));
                    } else if crate::text::str_eq(u.as_str(), "DWORD") || crate::text::str_eq(
                        u.as_str(),
                        "DW",
                    ) {
                        self.next();
                        let sq = match self.consume_sequence(16) {
                            Ok(s) => s,
                            Err(m) => {
                                return Err(m);
                            },
                        };
                        stmt = Expr::DIRECTIVE(Directive::DWORD(sq));
                    } else if crate::text::str_eq(u.as_str(), "SEGMENT") {
                        self.next();
                        let seg: Option<String> = match self.curr() {
                            Token::STR(s) => Some(s.clone()),
                            _ => None,
                        };
                        match seg {
                            Some(s) => {
                                self.next();
                                stmt = Expr::DIRECTIVE(Directive::SEGMENT(s));
                            },
                            None => {
                                let mut m = String::from_str("string was expected, got ");
                                let d = build_tok_text(self.curr());
                                m.append(d.as_str());
                                m.append(" instead");
                                proof {
                                    assert(m@ =~= msg_segment_expects_string(
                                        cur_tok(toks, self.pos()),
                                    ));
                                }
                                return Err(m);
                            },
                        }
                    } else if crate::text::str_eq(u.as_str(), "RES") || crate::text::str_eq(
                        u.as_str(),
                        "RESERVE",
                    ) {
                        self.next();
                        let number = match canonicalize_number(self.curr()) {
                            Ok(v) => v,
                            Err(m) => {
                                return Err(m);
                            },
                        };
                        self.next();
                        stmt = Expr::DIRECTIVE(Directive::RESERVE(number.value));
                    } else if crate::text::str_eq(u.as_str(), "PROC") {
                        self.next();
                        let nm = match self.consume_literal_and_lift() {
                            Ok(s) => s,
                            Err(m) => {
                                return Err(m);
                            },
                        };
                        stmt = Expr::DIRECTIVE(Directive::PROC(nm));
                    } else if crate::text::str_eq(u.as_str(), "ENDPROC") {
                        self.next();
                        stmt = Expr::DIRECTIVE(Directive::ENDPROC);
                    } else {
                        let mut m = String::from_str("token ");
                        let d = build_tok_text(self.curr());
                        m.append(d.as_str());
                        m.append(" unexpected");
                        proof {
                            assert(m@ =~= msg_unexpected_tok(cur_tok(toks, i)));
                        }
                        return Err(m);
                    }
                    proof {
                        lemma_stmt_step(
                            pre,
                            stmt.deep_view(),
                            spec_parse_from(toks, self.pos(), self.vars()),
                        );
                    }
                    prog.push(stmt);
                    proof {
                        assert(prog.deep_view() =~= pre.push(prog@[pre.len() as int].deep_view()));
                    }
                    continue ;
                },
                None => {},
            }
            let e = match self.state_instr() {
                Ok(e) => e,
                Err(m) => {
                    return Err(m);
                },
            };
            self.next();
            proof {
                lemma_stmt_step(pre, e.deep_view(), spec_parse_from(toks, self.pos(), self.vars()));
            }
            prog.push(e);
            proof {
                assert(prog.deep_view() =~= pre.push(prog@[pre.len() as int].deep_view()));
            }
        }
        proof {
            assert(spec_parse_from(toks, self.pos(), self.vars()) == Ok::<Seq<ExprV>, Seq<char>>(
                Seq::empty(),
            ));
            assert(prog.deep_view() + Seq::<ExprV>::empty() =~= prog.deep_view());
        }
        Ok(prog)
    }

    /// Folds a constant expression to its numeric value under the
    /// current symbol table.
    pub fn eval_math(&self, expr: &MathExpr) -> (r: Result<NumericValue, String>)
        ensures
            (match r {
                Ok(v) => spec_eval(self.vars(), expr.deep_view(), self.vars().len()) == Ok::<
                    NumericValue,
                    Seq<char>,
                >(v),
                Err(m) => spec_eval(self.vars(), expr.deep_view(), self.vars().len()) == Err::<
                    NumericValue,
                    Seq<char>,
                >(m@),
            }),
    {
        eval_rec(&self.variables, expr, self.variables.len())
    }

    /// Checks that every name in `expr` resolves to an already-defined
    /// constant without reaching `assignee`: a name reaching `assignee`
    /// is a recursive definition, an unresolved name is undefined.
    pub fn validate_factors(&self, expr: &MathExpr, assignee: &Option<String>) -> (r: Result<
        bool,
        String,
    >)
        ensures
            (match r {
                Ok(v) => spec_validate(
                    self.vars(),
                    expr.deep_view(),
                    assignee.deep_view(),
                    self.vars().len(),
                ) == Ok::<bool, Seq<char>>(v),
                Err(m) => spec_validate(
                    self.vars(),
                    expr.deep_view(),
                    assignee.deep_view(),
                    self.vars().len(),
                ) == Err::<bool, Seq<char>>(m@),
            }),
    {
        validate_rec(&self.variables, expr, assignee, self.variables.len())
    }
}

// ---------------------------------------------------------------------------
// Laws of canonicalization, folding and validation
// ---------------------------------------------------------------------------

/// Canonicalization only ever yields the two canonical widths: every
/// numeral a token canonicalizes to is 8 or 16 bits wide.
pub proof fn lemma_canonical_widths(t: TokenV)
    ensures
        (spec_canonicalize(t) matches Ok(n) ==> (n.size == 8 || n.size == 16)),
{
}

/// Canonicalization is deterministic: the numeral is a function of the
/// token alone - [`canonicalize_number`] returns exactly this value -
/// so reading the same numeral twice gives the same value and width.
pub proof fn lemma_canonicalize_deterministic(t: TokenV)
    ensures
        spec_canonicalize(t) == spec_canonicalize(t),
{
}

/// Constant folding is idempotent: the result is a function of the
/// symbol table and the expression alone - [`AsmParser::eval_math`]
/// returns exactly this value - so evaluating the same expression twice
/// yields the same numeral.
pub proof fn lemma_eval_deterministic(
    vars: Seq<(Seq<char>, MathExprV)>,
    e: MathExprV,
    fuel: nat,
)
    ensures
        spec_eval(vars, e, fuel) == spec_eval(vars, e, fuel),
{
}

/// A constant that names itself directly fails validation with the
/// recursive-definition error, whatever else the table holds; one that
/// names an unknown constant fails with the undefined-variable error.
pub proof fn lemma_validate_rejects(
    vars: Seq<(Seq<char>, MathExprV)>,
    name: Seq<char>,
    fuel: nat,
)
    ensures
        spec_validate(vars, MathExprV::PLACEHOLDER(name), Some(name), fuel) == Err::<
            bool,
            Seq<char>,
        >(msg_recursive_var(name)),
        vars_find(vars, name) is None ==> spec_validate(
            vars,
            MathExprV::PLACEHOLDER(name),
            None,
            fuel,
        ) == Err::<bool, Seq<char>>(msg_undefined_var(name)),
{
}

} // verus!
