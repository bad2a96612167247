//! The tokenizer: turns raw source text into a flat token stream.
//!
//! The scanner works over a trimmed sequence of characters; a NUL
//! character stands for the end of the input, so an embedded NUL ends
//! the scan early, exactly as reading past the end would.

use vstd::prelude::*;

use crate::text::{
    is_space_char, is_bin_char, is_dec_char, is_hex_char, is_endline_char, is_literal_char,
    exec_is_space_char, exec_is_bin_char, exec_is_dec_char, exec_is_hex_char,
    exec_is_endline_char, exec_is_literal_char, whitespace,
};

verus! {

/// One lexical token of the assembly language.
#[allow(non_camel_case_types)]
#[derive(Debug, Clone, PartialEq, Eq)]
pub enum Token {
    DIRECTIVE(String),  // text following a leading '.'
    LITERAL(String),    // identifier text
    COMMENT(String),    // text following ';' up to the line end
    COMMA,
    COLON,
    PARENTOPEN,
    PARENTCLOSE,
    NEWLINE,            // one or more consecutive line breaks
    HASH,
    PLUS,
    MINUS,
    MULT,
    DIV,
    EQUAL,
    DEC(String),        // decimal digit text, unbounded length
    HEX(String),        // hex digit text following '$', 1 to 4 digits
    BIN(String),        // binary digit text following '%', 1 to 8 digits
    STR(String),        // string literal contents
    CHAR(String),       // character literal contents, one character
    EOF,
}

/// The mathematical shadow of a [`Token`]: payloads are character
/// sequences instead of heap strings.
#[allow(non_camel_case_types)]
pub enum TokenV {
    DIRECTIVE(Seq<char>),
    LITERAL(Seq<char>),
    COMMENT(Seq<char>),
    COMMA,
    COLON,
    PARENTOPEN,
    PARENTCLOSE,
    NEWLINE,
    HASH,
    PLUS,
    MINUS,
    MULT,
    DIV,
    EQUAL,
    DEC(Seq<char>),
    HEX(Seq<char>),
    BIN(Seq<char>),
    STR(Seq<char>),
    CHAR(Seq<char>),
    EOF,
}

impl View for Token {
    type V = TokenV;

    open spec fn view(&self) -> TokenV {
        match self {
            Token::DIRECTIVE(s) => TokenV::DIRECTIVE(s@),
            Token::LITERAL(s) => TokenV::LITERAL(s@),
            Token::COMMENT(s) => TokenV::COMMENT(s@),
            Token::COMMA => TokenV::COMMA,
            Token::COLON => TokenV::COLON,
            Token::PARENTOPEN => TokenV::PARENTOPEN,
            Token::PARENTCLOSE => TokenV::PARENTCLOSE,
            Token::NEWLINE => TokenV::NEWLINE,
            Token::HASH => TokenV::HASH,
            Token::PLUS => TokenV::PLUS,
            Token::MINUS => TokenV::MINUS,
            Token::MULT => TokenV::MULT,
            Token::DIV => TokenV::DIV,
            Token::EQUAL => TokenV::EQUAL,
            Token::DEC(s) => TokenV::DEC(s@),
            Token::HEX(s) => TokenV::HEX(s@),
            Token::BIN(s) => TokenV::BIN(s@),
            Token::STR(s) => TokenV::STR(s@),
            Token::CHAR(s) => TokenV::CHAR(s@),
            Token::EOF => TokenV::EOF,
        }
    }
}

impl DeepView for Token {
    type V = TokenV;

    open spec fn deep_view(&self) -> TokenV {
        self.view()
    }
}

// ---------------------------------------------------------------------------
// The character the scanner sees at a position
// ---------------------------------------------------------------------------

/// The character at position `i`, or NUL past the end.
pub open spec fn cur_char(s: Seq<char>, i: int) -> char {
    if 0 <= i < s.len() {
        s[i]
    } else {
        '\0'
    }
}

// ---------------------------------------------------------------------------
// Runs of characters from one class
// ---------------------------------------------------------------------------

pub open spec fn lit_run(s: Seq<char>, i: int) -> nat
    decreases s.len() - i,
{
    if 0 <= i < s.len() && is_literal_char(s[i]) {
        1 + lit_run(s, i + 1)
    } else {
        0
    }
}

pub open spec fn space_run(s: Seq<char>, i: int) -> nat
    decreases s.len() - i,
{
    if 0 <= i < s.len() && is_space_char(s[i]) {
        1 + space_run(s, i + 1)
    } else {
        0
    }
}

pub open spec fn endline_run(s: Seq<char>, i: int) -> nat
    decreases s.len() - i,
{
    if 0 <= i < s.len() && is_endline_char(s[i]) {
        1 + endline_run(s, i + 1)
    } else {
        0
    }
}

pub open spec fn comment_run(s: Seq<char>, i: int) -> nat
    decreases s.len() - i,
{
    if 0 <= i < s.len() && !is_endline_char(s[i]) {
        1 + comment_run(s, i + 1)
    } else {
        0
    }
}

pub open spec fn hex_run(s: Seq<char>, i: int) -> nat
    decreases s.len() - i,
{
    if 0 <= i < s.len() && is_hex_char(s[i]) {
        1 + hex_run(s, i + 1)
    } else {
        0
    }
}

pub open spec fn bin_run(s: Seq<char>, i: int) -> nat
    decreases s.len() - i,
{
    if 0 <= i < s.len() && is_bin_char(s[i]) {
        1 + bin_run(s, i + 1)
    } else {
        0
    }
}

pub open spec fn dec_run(s: Seq<char>, i: int) -> nat
    decreases s.len() - i,
{
    if 0 <= i < s.len() && is_dec_char(s[i]) {
        1 + dec_run(s, i + 1)
    } else {
        0
    }
}

proof fn lemma_lit_run(s: Seq<char>, i: int, j: int)
    requires
        0 <= i <= j <= s.len(),
        forall|k: int| i <= k < j ==> is_literal_char(s[k]),
        j == s.len() || !is_literal_char(s[j]),
    ensures
        lit_run(s, i) == j - i,
    decreases j - i,
{
    if i < j {
        lemma_lit_run(s, i + 1, j);
    }
}

proof fn lemma_space_run(s: Seq<char>, i: int, j: int)
    requires
        0 <= i <= j <= s.len(),
        forall|k: int| i <= k < j ==> is_space_char(s[k]),
        j == s.len() || !is_space_char(s[j]),
    ensures
        space_run(s, i) == j - i,
    decreases j - i,
{
    if i < j {
        lemma_space_run(s, i + 1, j);
    }
}

proof fn lemma_endline_run(s: Seq<char>, i: int, j: int)
    requires
        0 <= i <= j <= s.len(),
        forall|k: int| i <= k < j ==> is_endline_char(s[k]),
        j == s.len() || !is_endline_char(s[j]),
    ensures
        endline_run(s, i) == j - i,
    decreases j - i,
{
    if i < j {
        lemma_endline_run(s, i + 1, j);
    }
}

proof fn lemma_comment_run(s: Seq<char>, i: int, j: int)
    requires
        0 <= i <= j <= s.len(),
        forall|k: int| i <= k < j ==> !is_endline_char(s[k]),
        j == s.len() || is_endline_char(s[j]),
    ensures
        comment_run(s, i) == j - i,
    decreases j - i,
{
    if i < j {
        lemma_comment_run(s, i + 1, j);
    }
}

proof fn lemma_hex_run(s: Seq<char>, i: int, j: int)
    requires
        0 <= i <= j <= s.len(),
        forall|k: int| i <= k < j ==> is_hex_char(s[k]),
        j == s.len() || !is_hex_char(s[j]),
    ensures
        hex_run(s, i) == j - i,
    decreases j - i,
{
    if i < j {
        lemma_hex_run(s, i + 1, j);
    }
}

proof fn lemma_bin_run(s: Seq<char>, i: int, j: int)
    requires
        0 <= i <= j <= s.len(),
        forall|k: int| i <= k < j ==> is_bin_char(s[k]),
        j == s.len() || !is_bin_char(s[j]),
    ensures
        bin_run(s, i) == j - i,
    decreases j - i,
{
    if i < j {
        lemma_bin_run(s, i + 1, j);
    }
}

proof fn lemma_dec_run(s: Seq<char>, i: int, j: int)
    requires
        0 <= i <= j <= s.len(),
        forall|k: int| i <= k < j ==> is_dec_char(s[k]),
        j == s.len() || !is_dec_char(s[j]),
    ensures
        dec_run(s, i) == j - i,
    decreases j - i,
{
    if i < j {
        lemma_dec_run(s, i + 1, j);
    }
}

// ---------------------------------------------------------------------------
// String literal scanning, with '\' as an escape-next marker
// ---------------------------------------------------------------------------

/// Scans the body of a string literal from position `i`: returns the
/// collected contents and how many characters were consumed before the
/// closing quote (or the line break or end that interrupted the literal).
pub open spec fn scan_str(s: Seq<char>, i: int) -> (Seq<char>, nat)
    decreases s.len() - i,
{
    let c = cur_char(s, i);
    if c == '"' || is_endline_char(c) {
        (Seq::empty(), 0)
    } else if c == '\\' {
        let taken = cur_char(s, i + 1);
        let step: nat = if i + 2 <= s.len() {
            2
        } else {
            1
        };
        let (rest, m) = scan_str(s, i + step);
        (seq![taken] + rest, step + m)
    } else {
        let (rest, m) = scan_str(s, i + 1);
        (seq![c] + rest, 1 + m)
    }
}

// ---------------------------------------------------------------------------
// Lexical error messages
// ---------------------------------------------------------------------------

pub open spec fn msg_unsupported_char(c: char) -> Seq<char> {
    "'"@ + seq![c] + "' is not a supported character"@
}

pub open spec fn msg_char_expected(want: char, got: char) -> Seq<char> {
    "'"@ + seq![want] + "' was expected, got '"@ + seq![got] + "'"@
}

pub open spec fn msg_literal_char_expected(got: char) -> Seq<char> {
    "alphanum, _ or . was expected, got '"@ + seq![got] + "'"@
}

pub open spec fn msg_bad_hex(t: Seq<char>) -> Seq<char> {
    "8 bits hex was expected, got '$"@ + t + "'"@
}

pub open spec fn msg_bad_bin(t: Seq<char>) -> Seq<char> {
    "8 bits binary was expected, got '%"@ + t + "'"@
}

fn build_msg_unsupported_char(c: char) -> (r: String)
    ensures
        r@ == msg_unsupported_char(c),
{
    let mut s = String::new();
    s.append("'");
    s.push(c);
    s.append("' is not a supported character");
    proof {
        assert(s@ =~= msg_unsupported_char(c));
    }
    s
}

fn build_msg_char_expected(want: char, got: char) -> (r: String)
    ensures
        r@ == msg_char_expected(want, got),
{
    let mut s = String::new();
    s.append("'");
    s.push(want);
    s.append("' was expected, got '");
    s.push(got);
    s.append("'");
    proof {
        assert(s@ =~= msg_char_expected(want, got));
    }
    s
}

fn build_msg_literal_char_expected(got: char) -> (r: String)
    ensures
        r@ == msg_literal_char_expected(got),
{
    let mut s = String::new();
    s.append("alphanum, _ or . was expected, got '");
    s.push(got);
    s.append("'");
    proof {
        assert(s@ =~= msg_literal_char_expected(got));
    }
    s
}

fn build_msg_bad_hex(t: &String) -> (r: String)
    ensures
        r@ == msg_bad_hex(t@),
{
    let mut s = String::new();
    s.append("8 bits hex was expected, got '$");
    s.append(t.as_str());
    s.append("'");
    proof {
        assert(s@ =~= msg_bad_hex(t@));
    }
    s
}

fn build_msg_bad_bin(t: &String) -> (r: String)
    ensures
        r@ == msg_bad_bin(t@),
{
    let mut s = String::new();
    s.append("8 bits binary was expected, got '%");
    s.append(t.as_str());
    s.append("'");
    proof {
        assert(s@ =~= msg_bad_bin(t@));
    }
    s
}

// ---------------------------------------------------------------------------
// The token stream of a whole text
// ---------------------------------------------------------------------------

/// Prepends a token to the outcome of scanning the rest of the text.
pub open spec fn cons_tok(t: TokenV, rest: Result<Seq<TokenV>, Seq<char>>) -> Result<
    Seq<TokenV>,
    Seq<char>,
> {
    match rest {
        Ok(ts) => Ok(seq![t] + ts),
        Err(e) => Err(e),
    }
}

/// Clamps a scan position to the end of the text.
pub open spec fn cap(s: Seq<char>, j: int) -> int {
    if j > s.len() {
        s.len() as int
    } else {
        j
    }
}

/// The token stream that scanning `s` from position `i` produces, or the
/// lexical error that stops the scan.  Maximal munch, with identifiers
/// taking precedence, exactly as [`AsmLexer::tokenize`] works.
pub open spec fn spec_tokenize_from(s: Seq<char>, i: int) -> Result<Seq<TokenV>, Seq<char>>
    decreases s.len() - i,
{
    let c = cur_char(s, i);
    if c == '\0' {
        Ok(seq![TokenV::EOF])
    } else if is_literal_char(c) && !is_dec_char(c) && c != '.' {
        let n = lit_run(s, i) as int;
        cons_tok(
            TokenV::LITERAL(s.subrange(i, cap(s, i + n))),
            spec_tokenize_from(s, cap(s, i + n)),
        )
    } else if is_space_char(c) {
        let n = space_run(s, i) as int;
        spec_tokenize_from(s, cap(s, i + n))
    } else if c == '.' {
        let n = lit_run(s, i + 1) as int;
        if n == 0 {
            Err(msg_literal_char_expected(cur_char(s, i + 1)))
        } else {
            cons_tok(
                TokenV::DIRECTIVE(s.subrange(i + 1, cap(s, i + 1 + n))),
                spec_tokenize_from(s, cap(s, i + 1 + n)),
            )
        }
    } else if c == ')' {
        cons_tok(TokenV::PARENTCLOSE, spec_tokenize_from(s, i + 1))
    } else if c == '(' {
        cons_tok(TokenV::PARENTOPEN, spec_tokenize_from(s, i + 1))
    } else if c == '#' {
        cons_tok(TokenV::HASH, spec_tokenize_from(s, i + 1))
    } else if c == ',' {
        cons_tok(TokenV::COMMA, spec_tokenize_from(s, i + 1))
    } else if c == ':' {
        cons_tok(TokenV::COLON, spec_tokenize_from(s, i + 1))
    } else if c == '-' {
        cons_tok(TokenV::MINUS, spec_tokenize_from(s, i + 1))
    } else if c == '+' {
        cons_tok(TokenV::PLUS, spec_tokenize_from(s, i + 1))
    } else if c == '*' {
        cons_tok(TokenV::MULT, spec_tokenize_from(s, i + 1))
    } else if c == '/' {
        cons_tok(TokenV::DIV, spec_tokenize_from(s, i + 1))
    } else if c == '=' {
        cons_tok(TokenV::EQUAL, spec_tokenize_from(s, i + 1))
    } else if c == ';' {
        let n = comment_run(s, i + 1) as int;
        cons_tok(
            TokenV::COMMENT(s.subrange(i + 1, cap(s, i + 1 + n))),
            spec_tokenize_from(s, cap(s, i + 1 + n)),
        )
    } else if c == '\n' || c == '\r' {
        let n = endline_run(s, i) as int;
        cons_tok(TokenV::NEWLINE, spec_tokenize_from(s, cap(s, i + n)))
    } else if c == '$' {
        let n = hex_run(s, i + 1) as int;
        if n == 0 || n > 4 {
            Err(msg_bad_hex(s.subrange(i + 1, cap(s, i + 1 + n))))
        } else {
            cons_tok(
                TokenV::HEX(s.subrange(i + 1, cap(s, i + 1 + n))),
                spec_tokenize_from(s, cap(s, i + 1 + n)),
            )
        }
    } else if c == '%' {
        let n = bin_run(s, i + 1) as int;
        if n == 0 || n > 8 {
            Err(msg_bad_bin(s.subrange(i + 1, cap(s, i + 1 + n))))
        } else {
            cons_tok(
                TokenV::BIN(s.subrange(i + 1, cap(s, i + 1 + n))),
                spec_tokenize_from(s, cap(s, i + 1 + n)),
            )
        }
    } else if c == '"' {
        let (content, m) = scan_str(s, i + 1);
        let j = i + 1 + m;
        if cur_char(s, j) == '"' {
            cons_tok(TokenV::STR(content), spec_tokenize_from(s, cap(s, j + 1)))
        } else {
            Err(msg_char_expected('"', cur_char(s, j)))
        }
    } else if c == '\'' {
        let p = if cur_char(s, i + 1) == '\\' {
            i + 2
        } else {
            i + 1
        };
        let taken = cur_char(s, p);
        let q = if p + 1 <= s.len() {
            p + 1
        } else {
            s.len() as int
        };
        if cur_char(s, q) == '\'' {
            cons_tok(TokenV::CHAR(seq![taken]), spec_tokenize_from(s, cap(s, q + 1)))
        } else {
            Err(msg_char_expected('\'', cur_char(s, q)))
        }
    } else if is_dec_char(c) {
        let n = dec_run(s, i) as int;
        cons_tok(TokenV::DEC(s.subrange(i, cap(s, i + n))), spec_tokenize_from(s, cap(s, i + n)))
    } else {
        Err(msg_unsupported_char(c))
    }
}

/// A prefix of already-settled tokens, joined with the outcome of
/// scanning the rest of the text.
pub open spec fn tok_concat(pre: Seq<TokenV>, rest: Result<Seq<TokenV>, Seq<char>>) -> Result<
    Seq<TokenV>,
    Seq<char>,
> {
    match rest {
        Ok(ts) => Ok(pre + ts),
        Err(e) => Err(e),
    }
}

/// Appending one settled token to the prefix commutes with prepending it
/// to the rest of the scan.
proof fn lemma_cons_tok_step(pre: Seq<TokenV>, t: TokenV, rest: Result<Seq<TokenV>, Seq<char>>)
    ensures
        tok_concat(pre, cons_tok(t, rest)) == tok_concat(pre.push(t), rest),
{
    match rest {
        Ok(ts) => {
            assert(pre + (seq![t] + ts) =~= pre.push(t) + ts);
        },
        Err(_) => {},
    }
}

// ---------------------------------------------------------------------------
// The lexer itself
// ---------------------------------------------------------------------------

/// The tokenizer state: the trimmed source text and a scan position.
pub struct AsmLexer {
    source: Vec<char>,
    cursor: usize,
}

impl View for AsmLexer {
    type V = Seq<char>;

    /// The trimmed source text under scan.
    closed spec fn view(&self) -> Seq<char> {
        self.source@
    }
}

impl AsmLexer {
    /// The current scan position.
    pub closed spec fn pos(&self) -> int {
        self.cursor as int
    }

    /// Builds a lexer over `source` with surrounding whitespace removed.
    pub fn new(source: &String) -> (r: Self)
        ensures
            r@ == crate::text::spec_trim(source@),
            r.pos() == 0,
    {
        let chars = crate::text::str_to_chars(source.as_str());
        AsmLexer { source: crate::text::trim_chars(&chars), cursor: 0 }
    }

    /// The character at the scan position, or NUL at the end.
    fn curr(&self) -> (c: char)
        ensures
            c == cur_char(self@, self.pos()),
    {
        if self.cursor < self.source.len() {
            self.source[self.cursor]
        } else {
            '\0'
        }
    }

    fn is_dec(&self) -> (r: bool)
        ensures
            r == is_dec_char(cur_char(self@, self.pos())),
    {
        exec_is_dec_char(self.curr())
    }

    fn is_eof(&self) -> (r: bool)
        ensures
            r == (cur_char(self@, self.pos()) == '\0'),
    {
        self.curr() == '\0'
    }

    fn is_literal(&self) -> (r: bool)
        ensures
            r == is_literal_char(cur_char(self@, self.pos())),
    {
        exec_is_literal_char(self.curr())
    }

    /// Advances by one position, clamped at the end of the text.
    fn next(&mut self)
        ensures
            final(self)@ == old(self)@,
            final(self).pos() == if old(self).pos() < old(self)@.len() {
                old(self).pos() + 1
            } else {
                old(self).pos()
            },
    {
        if self.cursor < self.source.len() {
            self.cursor = self.cursor + 1;
        }
    }

    /// Collects the run of identifier characters at the scan position.
    #[verifier::loop_isolation(false)]
    fn scan_literal_run(&mut self) -> (tk: String)
        requires
            old(self).pos() <= old(self)@.len(),
        ensures
            final(self)@ == old(self)@,
            final(self).pos() == old(self).pos() + lit_run(old(self)@, old(self).pos()),
            final(self).pos() <= final(self)@.len(),
            tk@ == old(self)@.subrange(old(self).pos(), final(self).pos()),
    {
        let ghost i = self.pos();
        let mut tk = String::new();
        while self.cursor < self.source.len() && exec_is_literal_char(self.source[self.cursor])
            invariant
                i <= self.pos() <= self@.len(),
                self@ == old(self)@,
                forall|k: int| i <= k < self.pos() ==> is_literal_char(self@[k]),
                tk@ =~= self@.subrange(i, self.pos()),
            decreases self@.len() - self.pos(),
        {
            tk.push(self.source[self.cursor]);
            self.cursor = self.cursor + 1;
            proof {
                assert(tk@ =~= self@.subrange(i, self.pos()));
            }
        }
        proof {
            lemma_lit_run(self@, i, self.pos());
        }
        tk
    }

    /// Scans an identifier; fails on an empty run.
    fn consume_literal(&mut self) -> (r: Result<Token, String>)
        requires
            old(self).pos() <= old(self)@.len(),
        ensures
            final(self)@ == old(self)@,
            final(self).pos() <= final(self)@.len(),
            ({
                let s = old(self)@;
                let i = old(self).pos();
                let n = lit_run(s, i) as int;
                if n == 0 {
                    r matches Err(m) && m@ == msg_literal_char_expected(cur_char(s, i))
                        && final(self).pos() == i
                } else {
                    r matches Ok(t) && t@ == TokenV::LITERAL(s.subrange(i, i + n))
                        && final(self).pos() == i + n
                }
            }),
    {
        let tk = self.scan_literal_run();
        if tk.unicode_len() == 0 {
            Err(build_msg_literal_char_expected(self.curr()))
        } else {
            Ok(Token::LITERAL(tk))
        }
    }

    /// Scans a directive: a `.` followed by an identifier.
    fn consume_directive(&mut self) -> (r: Result<Token, String>)
        requires
            cur_char(old(self)@, old(self).pos()) == '.',
        ensures
            final(self)@ == old(self)@,
            final(self).pos() <= final(self)@.len(),
            ({
                let s = old(self)@;
                let i = old(self).pos();
                let n = lit_run(s, i + 1) as int;
                if n == 0 {
                    r matches Err(m) && m@ == msg_literal_char_expected(cur_char(s, i + 1))
                } else {
                    r matches Ok(t) && t@ == TokenV::DIRECTIVE(s.subrange(i + 1, i + 1 + n))
                        && final(self).pos() == i + 1 + n
                }
            }),
    {
        self.next();
        let tk = self.scan_literal_run();
        if tk.unicode_len() == 0 {
            Err(build_msg_literal_char_expected(self.curr()))
        } else {
            Ok(Token::DIRECTIVE(tk))
        }
    }

    /// Collects the run of hex digits at the scan position.
    #[verifier::loop_isolation(false)]
    fn scan_hex_run(&mut self) -> (tk: String)
        requires
            old(self).pos() <= old(self)@.len(),
        ensures
            final(self)@ == old(self)@,
            final(self).pos() == old(self).pos() + hex_run(old(self)@, old(self).pos()),
            final(self).pos() <= final(self)@.len(),
            tk@ == old(self)@.subrange(old(self).pos(), final(self).pos()),
    {
        let ghost i = self.pos();
        let mut tk = String::new();
        while self.cursor < self.source.len() && exec_is_hex_char(self.source[self.cursor])
            invariant
                i <= self.pos() <= self@.len(),
                self@ == old(self)@,
                forall|k: int| i <= k < self.pos() ==> is_hex_char(self@[k]),
                tk@ =~= self@.subrange(i, self.pos()),
            decreases self@.len() - self.pos(),
        {
            tk.push(self.source[self.cursor]);
            self.cursor = self.cursor + 1;
            proof {
                assert(tk@ =~= self@.subrange(i, self.pos()));
            }
        }
        proof {
            lemma_hex_run(self@, i, self.pos());
        }
        tk
    }

    /// Scans a `$`-prefixed hex numeral of one to four digits.
    fn consume_hex(&mut self) -> (r: Result<Token, String>)
        requires
            cur_char(old(self)@, old(self).pos()) == '$',
        ensures
            final(self)@ == old(self)@,
            final(self).pos() <= final(self)@.len(),
            ({
                let s = old(self)@;
                let i = old(self).pos();
                let n = hex_run(s, i + 1) as int;
                if n == 0 || n > 4 {
                    r matches Err(m) && m@ == msg_bad_hex(s.subrange(i + 1, i + 1 + n))
                        && final(self).pos() == i + 1 + n
                } else {
                    r matches Ok(t) && t@ == TokenV::HEX(s.subrange(i + 1, i + 1 + n))
                        && final(self).pos() == i + 1 + n
                }
            }),
    {
        self.next();
        let tk = self.scan_hex_run();
        let n = tk.unicode_len();
        if n == 0 || n > 4 {
            Err(build_msg_bad_hex(&tk))
        } else {
            Ok(Token::HEX(tk))
        }
    }

    /// Collects the run of binary digits at the scan position.
    #[verifier::loop_isolation(false)]
    fn scan_bin_run(&mut self) -> (tk: String)
        requires
            old(self).pos() <= old(self)@.len(),
        ensures
            final(self)@ == old(self)@,
            final(self).pos() == old(self).pos() + bin_run(old(self)@, old(self).pos()),
            final(self).pos() <= final(self)@.len(),
            tk@ == old(self)@.subrange(old(self).pos(), final(self).pos()),
    {
        let ghost i = self.pos();
        let mut tk = String::new();
        while self.cursor < self.source.len() && exec_is_bin_char(self.source[self.cursor])
            invariant
                i <= self.pos() <= self@.len(),
                self@ == old(self)@,
                forall|k: int| i <= k < self.pos() ==> is_bin_char(self@[k]),
                tk@ =~= self@.subrange(i, self.pos()),
            decreases self@.len() - self.pos(),
        {
            tk.push(self.source[self.cursor]);
            self.cursor = self.cursor + 1;
            proof {
                assert(tk@ =~= self@.subrange(i, self.pos()));
            }
        }
        proof {
            lemma_bin_run(self@, i, self.pos());
        }
        tk
    }

    /// Scans a `%`-prefixed binary numeral of one to eight digits.
    fn consume_bin(&mut self) -> (r: Result<Token, String>)
        requires
            cur_char(old(self)@, old(self).pos()) == '%',
        ensures
            final(self)@ == old(self)@,
            final(self).pos() <= final(self)@.len(),
            ({
                let s = old(self)@;
                let i = old(self).pos();
                let n = bin_run(s, i + 1) as int;
                if n == 0 || n > 8 {
                    r matches Err(m) && m@ == msg_bad_bin(s.subrange(i + 1, i + 1 + n))
                        && final(self).pos() == i + 1 + n
                } else {
                    r matches Ok(t) && t@ == TokenV::BIN(s.subrange(i + 1, i + 1 + n))
                        && final(self).pos() == i + 1 + n
                }
            }),
    {
        self.next();
        let tk = self.scan_bin_run();
        let n = tk.unicode_len();
        if n == 0 || n > 8 {
            Err(build_msg_bad_bin(&tk))
        } else {
            Ok(Token::BIN(tk))
        }
    }

    /// Scans a decimal numeral of unbounded length.
    #[verifier::loop_isolation(false)]
    fn consume_dec(&mut self) -> (r: Result<Token, String>)
        requires
            old(self).pos() <= old(self)@.len(),
        ensures
            final(self)@ == old(self)@,
            final(self).pos() == old(self).pos() + dec_run(old(self)@, old(self).pos()),
            final(self).pos() <= final(self)@.len(),
            r matches Ok(t) && t@ == TokenV::DEC(
                old(self)@.subrange(old(self).pos(), final(self).pos()),
            ),
    {
        let ghost i = self.pos();
        let mut tk = String::new();
        while self.cursor < self.source.len() && exec_is_dec_char(self.source[self.cursor])
            invariant
                i <= self.pos() <= self@.len(),
                self@ == old(self)@,
                forall|k: int| i <= k < self.pos() ==> is_dec_char(self@[k]),
                tk@ =~= self@.subrange(i, self.pos()),
            decreases self@.len() - self.pos(),
        {
            tk.push(self.source[self.cursor]);
            self.cursor = self.cursor + 1;
            proof {
                assert(tk@ =~= self@.subrange(i, self.pos()));
            }
        }
        proof {
            lemma_dec_run(self@, i, self.pos());
        }
        Ok(Token::DEC(tk))
    }

    /// Skips the run of spaces and tabs at the scan position.
    #[verifier::loop_isolation(false)]
    fn consume_whitespaces(&mut self)
        requires
            old(self).pos() <= old(self)@.len(),
        ensures
            final(self)@ == old(self)@,
            final(self).pos() == old(self).pos() + space_run(old(self)@, old(self).pos()),
            final(self).pos() <= final(self)@.len(),
    {
        let ghost i = self.pos();
        while self.cursor < self.source.len() && exec_is_space_char(self.source[self.cursor])
            invariant
                i <= self.pos() <= self@.len(),
                self@ == old(self)@,
                forall|k: int| i <= k < self.pos() ==> is_space_char(self@[k]),
            decreases self@.len() - self.pos(),
        {
            self.cursor = self.cursor + 1;
        }
        proof {
            lemma_space_run(self@, i, self.pos());
        }
    }

    /// Collapses the run of line breaks at the scan position into one token.
    #[verifier::loop_isolation(false)]
    fn consume_endlines(&mut self) -> (r: Result<Token, String>)
        requires
            old(self).pos() <= old(self)@.len(),
        ensures
            final(self)@ == old(self)@,
            final(self).pos() == old(self).pos() + endline_run(old(self)@, old(self).pos()),
            final(self).pos() <= final(self)@.len(),
            r matches Ok(t) && t@ == TokenV::NEWLINE,
    {
        let ghost i = self.pos();
        while self.cursor < self.source.len() && exec_is_endline_char(self.source[self.cursor])
            invariant
                i <= self.pos() <= self@.len(),
                self@ == old(self)@,
                forall|k: int| i <= k < self.pos() ==> is_endline_char(self@[k]),
            decreases self@.len() - self.pos(),
        {
            self.cursor = self.cursor + 1;
        }
        proof {
            lemma_endline_run(self@, i, self.pos());
        }
        Ok(Token::NEWLINE)
    }

    /// Captures a comment: everything from after `;` up to the line end.
    #[verifier::loop_isolation(false)]
    fn consume_comment(&mut self) -> (r: Result<Token, String>)
        requires
            cur_char(old(self)@, old(self).pos()) == ';',
        ensures
            final(self)@ == old(self)@,
            final(self).pos() <= final(self)@.len(),
            ({
                let s = old(self)@;
                let i = old(self).pos();
                let n = comment_run(s, i + 1) as int;
                r matches Ok(t) && t@ == TokenV::COMMENT(s.subrange(i + 1, i + 1 + n))
                    && final(self).pos() == i + 1 + n
            }),
    {
        self.next();
        let ghost i = self.pos();
        let mut tk = String::new();
        while self.cursor < self.source.len() && !exec_is_endline_char(self.source[self.cursor])
            invariant
                i <= self.pos() <= self@.len(),
                self@ == old(self)@,
                forall|k: int| i <= k < self.pos() ==> !is_endline_char(self@[k]),
                tk@ =~= self@.subrange(i, self.pos()),
            decreases self@.len() - self.pos(),
        {
            tk.push(self.source[self.cursor]);
            self.cursor = self.cursor + 1;
            proof {
                assert(tk@ =~= self@.subrange(i, self.pos()));
            }
        }
        proof {
            lemma_comment_run(self@, i, self.pos());
        }
        Ok(Token::COMMENT(tk))
    }

    /// True while the scan is inside a string literal's body.
    fn in_string_body(&self) -> (r: bool)
        ensures
            r == ({
                let c = cur_char(self@, self.pos());
                c != '"' && !is_endline_char(c)
            }),
    {
        let c = self.curr();
        c != '"' && !exec_is_endline_char(c)
    }

    /// Scans a string literal, with `\` taking the next character verbatim.
    #[verifier::loop_isolation(false)]
    fn consume_string(&mut self) -> (r: Result<Token, String>)
        requires
            cur_char(old(self)@, old(self).pos()) == '"',
        ensures
            final(self)@ == old(self)@,
            final(self).pos() <= final(self)@.len(),
            ({
                let s = old(self)@;
                let i = old(self).pos();
                let (content, m) = scan_str(s, i + 1);
                let j = i + 1 + m;
                if cur_char(s, j) == '"' {
                    r matches Ok(t) && t@ == TokenV::STR(content) && final(self).pos() == j + 1
                } else {
                    r matches Err(e) && e@ == msg_char_expected('"', cur_char(s, j))
                }
            }),
    {
        self.next();
        let ghost s = self@;
        let ghost i = self.pos();
        let mut tk = String::new();
        while self.in_string_body()
            invariant
                i <= self.pos() <= self@.len(),
                self@ == old(self)@,
                scan_str(self@, i).0 == tk@ + scan_str(self@, self.pos()).0,
                scan_str(self@, i).1 == (self.pos() - i) + scan_str(self@, self.pos()).1,
            decreases self@.len() - self.pos(),
        {
            let ghost p = self.pos();
            let ghost tk0 = tk@;
            if self.curr() == '\\' {
                self.next();
            }
            let taken = self.curr();
            tk.push(taken);
            self.next();
            proof {
                let (rest, m) = scan_str(self@, p);
                assert(tk@ + scan_str(self@, self.pos()).0 =~= tk0 + rest);
            }
        }
        proof {
            assert(scan_str(self@, self.pos()).0 =~= Seq::<char>::empty());
            assert(tk@ + Seq::<char>::empty() =~= tk@);
        }
        if self.curr() == '"' {
            self.next();
            Ok(Token::STR(tk))
        } else {
            Err(build_msg_char_expected('"', self.curr()))
        }
    }

    /// Scans a character literal, with `\` taking the next character verbatim.
    fn consume_char(&mut self) -> (r: Result<Token, String>)
        requires
            cur_char(old(self)@, old(self).pos()) == '\'',
        ensures
            final(self)@ == old(self)@,
            final(self).pos() <= final(self)@.len(),
            ({
                let s = old(self)@;
                let i = old(self).pos();
                let p = if cur_char(s, i + 1) == '\\' {
                    i + 2
                } else {
                    i + 1
                };
                let taken = cur_char(s, p);
                let q = if p + 1 <= s.len() {
                    p + 1
                } else {
                    s.len() as int
                };
                if cur_char(s, q) == '\'' {
                    r matches Ok(t) && t@ == TokenV::CHAR(seq![taken]) && final(self).pos() == q
                        + 1
                } else {
                    r matches Err(e) && e@ == msg_char_expected('\'', cur_char(s, q))
                }
            }),
    {
        self.next();
        if self.curr() == '\\' {
            self.next();
        }
        let taken = self.curr();
        let mut tk = String::new();
        tk.push(taken);
        self.next();
        proof {
            assert(tk@ =~= seq![taken]);
        }
        if self.curr() == '\'' {
            self.next();
            Ok(Token::CHAR(tk))
        } else {
            Err(build_msg_char_expected('\'', self.curr()))
        }
    }

    /// Scans the whole text into a token stream ending in `EOF`, or stops
    /// at the first lexical error.
    #[verifier::loop_isolation(false)]
    pub fn tokenize(&mut self) -> (r: Result<Vec<Token>, String>)
        ensures
            final(self)@ == old(self)@,
            (match r {
                Ok(toks) => spec_tokenize_from(old(self)@, 0) == Ok::<Seq<TokenV>, Seq<char>>(
                    toks.deep_view(),
                ),
                Err(m) => spec_tokenize_from(old(self)@, 0) == Err::<Seq<TokenV>, Seq<char>>(m@),
            }),
    {
        let ghost s = self@;
        let mut prog: Vec<Token> = Vec::new();
        self.cursor = 0;
        while !self.is_eof()
            invariant
                self@ == old(self)@,
                0 <= self.pos() <= self@.len(),
                tok_concat(prog.deep_view(), spec_tokenize_from(s, self.pos()))
                    == spec_tokenize_from(s, 0),
            decreases self@.len() - self.pos(),
        {
            let ghost i = self.pos();
            let ghost pre = prog.deep_view();
            let c = self.curr();

            if self.is_literal() && !self.is_dec() && c != '.' {
                let res = self.consume_literal();
                match res {
                    Ok(t) => {
                        proof {
                            lemma_cons_tok_step(pre, t@, spec_tokenize_from(s, self.pos()));
                        }
                        prog.push(t);
                        proof {
                            assert(prog.deep_view() =~= pre.push(prog@[pre.len() as int]@));
                        }
                    },
                    Err(m) => {
                        // an identifier character stands at the cursor, so
                        // the run cannot be empty
                        proof {
                            assert(0 <= i < s.len() && is_literal_char(s[i]));
                            assert(lit_run(s, i) >= 1);
                            assert(false);
                        }
                        return Err(m);
                    },
                }
                continue ;
            }
            if c == ' ' || c == '\t' {
                self.consume_whitespaces();
                continue ;
            }
            let res = if c == '.' {
                self.consume_directive()
            } else if c == ')' {
                self.next();
                Ok(Token::PARENTCLOSE)
            } else if c == '(' {
                self.next();
                Ok(Token::PARENTOPEN)
            } else if c == '#' {
                self.next();
                Ok(Token::HASH)
            } else if c == ',' {
                self.next();
                Ok(Token::COMMA)
            } else if c == ':' {
                self.next();
                Ok(Token::COLON)
            } else if c == '-' {
                self.next();
                Ok(Token::MINUS)
            } else if c == '+' {
                self.next();
                Ok(Token::PLUS)
            } else if c == '*' {
                self.next();
                Ok(Token::MULT)
            } else if c == '/' {
                self.next();
                Ok(Token::DIV)
            } else if c == '=' {
                self.next();
                Ok(Token::EQUAL)
            } else if c == ';' {
                self.consume_comment()
            } else if c == '\n' || c == '\r' {
                self.consume_endlines()
            } else if c == '$' {
                self.consume_hex()
            } else if c == '%' {
                self.consume_bin()
            } else if c == '"' {
                self.consume_string()
            } else if c == '\'' {
                self.consume_char()
            } else if '0' <= c && c <= '9' {
                self.consume_dec()
            } else {
                Err(build_msg_unsupported_char(c))
            };
            match res {
                Ok(t) => {
                    proof {
                        lemma_cons_tok_step(pre, t@, spec_tokenize_from(s, self.pos()));
                    }
                    prog.push(t);
                    proof {
                        assert(prog.deep_view() =~= pre.push(prog@[pre.len() as int]@));
                    }
                },
                Err(m) => {
                    return Err(m);
                },
            }
        }
        proof {
            lemma_cons_tok_step(prog.deep_view(), TokenV::EOF, spec_tokenize_from(s, self.pos()));
        }
        let ghost pre = prog.deep_view();
        prog.push(Token::EOF);
        proof {
            assert(prog.deep_view() =~= pre.push(TokenV::EOF));
            assert(spec_tokenize_from(s, self.pos()) == Ok::<Seq<TokenV>, Seq<char>>(
                seq![TokenV::EOF],
            ));
            assert(pre + seq![TokenV::EOF] =~= prog.deep_view());
        }
        Ok(prog)
    }
}

} // verus!
