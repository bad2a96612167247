//! The code generator: walks the parsed statements twice, once to emit
//! bytes and record label positions and pending branch sites, once to
//! patch the relative displacements, and renders the result.

use vstd::prelude::*;
use vstd::string::*;

use crate::asm_lexer::AsmLexer;
use crate::asm_parser::{
    AsmParser, Expr, ExprV, Directive, DirectiveV, Operand, OperandV, spec_parse_from,
};
use crate::asm_lexer::spec_tokenize_from;
use crate::opcodes::{
    AdrMode, Instr, Opcode, opcode_candidates, spec_opcode_candidates, spec_canonical_op_len,
    spec_instr_name, spec_mode_name, instr_name, mode_name,
};
use crate::text::{spec_trim, str_eq, quoted, dec_str, push_dec};

verus! {

/// How the code generator is configured: whether undocumented opcodes
/// may be chosen, whether the platform segment mode is enabled, and the
/// preferred undocumented bytes, in order.
#[derive(Debug, Clone)]
pub struct CompilerConfig {
    /// Allow undocumented opcodes.
    pub allow_illegal: bool,
    /// Enforce the platform's segment ordering rules.
    pub enable_nes: bool,
    /// Undocumented opcodes are picked with this list as a hint.
    pub allow_list: Vec<u8>,
}

/// The mathematical shadow of a [`CompilerConfig`].
pub struct ConfigV {
    pub allow_illegal: bool,
    pub enable_nes: bool,
    pub allow_list: Seq<u8>,
}

impl DeepView for CompilerConfig {
    type V = ConfigV;

    open spec fn deep_view(&self) -> ConfigV {
        ConfigV {
            allow_illegal: self.allow_illegal,
            enable_nes: self.enable_nes,
            allow_list: self.allow_list@,
        }
    }
}

impl View for CompilerConfig {
    type V = ConfigV;

    open spec fn view(&self) -> ConfigV {
        self.deep_view()
    }
}

/// Whether a configuration enables the platform segment mode.
pub open spec fn spec_use_nes(config: Option<ConfigV>) -> bool {
    match config {
        Some(c) => c.enable_nes,
        None => false,
    }
}

// ---------------------------------------------------------------------------
// Operand lengths
// ---------------------------------------------------------------------------

/// The number of operand bytes that `adr_mode` asks for: none for
/// implied addressing, one for the zero-page family, immediate and
/// relative operands, two for the absolute family and plain indirect.
pub fn canonical_op_len(adr_mode: &AdrMode) -> (r: i8)
    ensures
        r as int == spec_canonical_op_len(*adr_mode),
{
    crate::opcodes::canonical_op_len(adr_mode)
}

// ---------------------------------------------------------------------------
// Opcode selection
// ---------------------------------------------------------------------------

pub open spec fn msg_no_instr(i: Instr, m: AdrMode) -> Seq<char> {
    "instruction ("@ + spec_instr_name(i) + ", "@ + spec_mode_name(m) + ") does not exist"@
}

/// The first candidate whose byte stands in the preference list.
pub open spec fn spec_find_allowed(cands: Seq<Opcode>, list: Seq<u8>) -> Option<Opcode>
    decreases cands.len(),
{
    if cands.len() == 0 {
        None
    } else if list.contains(cands[0].hex) {
        Some(cands[0])
    } else {
        spec_find_allowed(cands.drop_first(), list)
    }
}

/// The first documented candidate.
pub open spec fn spec_first_official(cands: Seq<Opcode>) -> Option<Opcode>
    decreases cands.len(),
{
    if cands.len() == 0 {
        None
    } else if cands[0].official {
        Some(cands[0])
    } else {
        spec_first_official(cands.drop_first())
    }
}

/// Which encoding an instruction gets.  Without a configuration only a
/// documented encoding will do; with one, a preferred undocumented byte
/// wins when undocumented opcodes are allowed, then the documented
/// encoding, then the first candidate.  An empty candidate list means
/// the pairing does not exist.
pub open spec fn spec_get_opcode(
    instr: Instr,
    mode: AdrMode,
    config: Option<ConfigV>,
) -> Result<Opcode, Seq<char>> {
    let cands = spec_opcode_candidates(instr, mode);
    if cands.len() == 0 {
        Err(msg_no_instr(instr, mode))
    } else {
        match config {
            Some(c) => {
                let allowed = if c.allow_illegal {
                    spec_find_allowed(cands, c.allow_list)
                } else {
                    None
                };
                match allowed {
                    Some(op) => Ok(op),
                    None => match spec_first_official(cands) {
                        Some(op) => Ok(op),
                        None => Ok(cands[0]),
                    },
                }
            },
            None => match spec_first_official(cands) {
                Some(op) => Ok(op),
                None => Err(msg_no_instr(instr, mode)),
            },
        }
    }
}

fn build_msg_no_instr(instr: &Instr, mode: &AdrMode) -> (s: String)
    ensures
        s@ == msg_no_instr(*instr, *mode),
{
    let mut s = String::from_str("instruction (");
    s.append(instr_name(instr));
    s.append(", ");
    s.append(mode_name(mode));
    s.append(") does not exist");
    proof {
        assert(s@ =~= msg_no_instr(*instr, *mode));
    }
    s
}

/// Whether `list` holds `x`.
fn list_contains(list: &Vec<u8>, x: u8) -> (r: bool)
    ensures
        r == list@.contains(x),
{
    let mut j: usize = 0;
    while j < list.len()
        invariant
            j <= list@.len(),
            forall|k: int| 0 <= k < j ==> list@[k] != x,
        decreases list@.len() - j,
    {
        if list[j] == x {
            return true;
        }
        j += 1;
    }
    proof {
        assert(forall|k: int| 0 <= k < list@.len() ==> list@[k] != x);
    }
    false
}

/// Selects the encoding of `(instr, mode)` under `config`, exactly as
/// [`spec_get_opcode`] describes it.
#[verifier::loop_isolation(false)]
fn get_opcode_ref(instr: &Instr, mode: &AdrMode, config: &Option<CompilerConfig>) -> (r: Result<
    Opcode,
    String,
>)
    ensures
        (match r {
            Ok(op) => spec_get_opcode(*instr, *mode, config.deep_view()) == Ok::<
                Opcode,
                Seq<char>,
            >(op),
            Err(m) => spec_get_opcode(*instr, *mode, config.deep_view()) == Err::<
                Opcode,
                Seq<char>,
            >(m@),
        }),
{
    let cands = opcode_candidates(*instr, *mode);
    let ghost candsv = spec_opcode_candidates(*instr, *mode);
    if cands.len() == 0 {
        return Err(build_msg_no_instr(instr, mode));
    }
    match config {
        Some(c) => {
            if c.allow_illegal {
                let mut k: usize = 0;
                proof {
                    assert(candsv.skip(0) =~= candsv);
                }
                while k < cands.len()
                    invariant
                        k <= candsv.len(),
                        cands@ == candsv,
                        spec_find_allowed(candsv, c.allow_list@) == spec_find_allowed(
                            candsv.skip(k as int),
                            c.allow_list@,
                        ),
                    decreases candsv.len() - k,
                {
                    proof {
                        assert(candsv.skip(k as int)[0] == candsv[k as int]);
                    }
                    if list_contains(&c.allow_list, cands[k].hex) {
                        proof {
                            assert(spec_find_allowed(candsv.skip(k as int), c.allow_list@)
                                == Some(candsv[k as int]));
                        }
                        return Ok(cands[k]);
                    }
                    proof {
                        assert(candsv.skip(k as int).drop_first() =~= candsv.skip(k as int + 1));
                    }
                    k += 1;
                }
                proof {
                    assert(candsv.skip(candsv.len() as int) =~= Seq::<Opcode>::empty());
                }
            }
            let mut k: usize = 0;
            proof {
                assert(candsv.skip(0) =~= candsv);
            }
            while k < cands.len()
                invariant
                    k <= candsv.len(),
                    cands@ == candsv,
                    spec_first_official(candsv) == spec_first_official(candsv.skip(k as int)),
                decreases candsv.len() - k,
            {
                proof {
                    assert(candsv.skip(k as int)[0] == candsv[k as int]);
                }
                if cands[k].official {
                    proof {
                        assert(spec_first_official(candsv.skip(k as int)) == Some(
                            candsv[k as int],
                        ));
                    }
                    return Ok(cands[k]);
                }
                proof {
                    assert(candsv.skip(k as int).drop_first() =~= candsv.skip(k as int + 1));
                }
                k += 1;
            }
            proof {
                assert(candsv.skip(candsv.len() as int) =~= Seq::<Opcode>::empty());
            }
            Ok(cands[0])
        },
        None => {
            let mut k: usize = 0;
            proof {
                assert(candsv.skip(0) =~= candsv);
            }
            while k < cands.len()
                invariant
                    k <= candsv.len(),
                    cands@ == candsv,
                    spec_first_official(candsv) == spec_first_official(candsv.skip(k as int)),
                decreases candsv.len() - k,
            {
                proof {
                    assert(candsv.skip(k as int)[0] == candsv[k as int]);
                }
                if cands[k].official {
                    proof {
                        assert(spec_first_official(candsv.skip(k as int)) == Some(
                            candsv[k as int],
                        ));
                    }
                    return Ok(cands[k]);
                }
                proof {
                    assert(candsv.skip(k as int).drop_first() =~= candsv.skip(k as int + 1));
                }
                k += 1;
            }
            proof {
                assert(candsv.skip(candsv.len() as int) =~= Seq::<Opcode>::empty());
            }
            Err(build_msg_no_instr(instr, mode))
        },
    }
}

/// Selects the encoding of `(instr, mode)` under `config`.
pub fn get_opcode(instr: Instr, mode: AdrMode, config: Option<CompilerConfig>) -> (r: Result<
    Opcode,
    String,
>)
    ensures
        (match r {
            Ok(op) => spec_get_opcode(instr, mode, config.deep_view()) == Ok::<
                Opcode,
                Seq<char>,
            >(op),
            Err(m) => spec_get_opcode(instr, mode, config.deep_view()) == Err::<
                Opcode,
                Seq<char>,
            >(m@),
        }),
{
    get_opcode_ref(&instr, &mode, &config)
}

// ---------------------------------------------------------------------------
// Label and pending-branch tables
// ---------------------------------------------------------------------------

/// The view of a name-to-offset table.
pub open spec fn view_tbl(t: Seq<(String, usize)>) -> Seq<(Seq<char>, nat)> {
    Seq::new(t.len(), |i: int| (t[i].0@, t[i].1 as nat))
}

/// The index of the entry for `name`, or -1 when there is none.
pub open spec fn tbl_find_index(s: Seq<(Seq<char>, nat)>, name: Seq<char>) -> int
    decreases s.len(),
{
    if s.len() == 0 {
        -1
    } else if s[0].0 == name {
        0
    } else {
        let r = tbl_find_index(s.drop_first(), name);
        if r == -1 {
            -1
        } else {
            r + 1
        }
    }
}

/// The table with `name` bound to `v`: the existing entry is replaced,
/// or a new one is appended.
pub open spec fn tbl_upsert(s: Seq<(Seq<char>, nat)>, name: Seq<char>, v: nat) -> Seq<
    (Seq<char>, nat),
> {
    let i = tbl_find_index(s, name);
    if i == -1 {
        s.push((name, v))
    } else {
        s.update(i, (name, v))
    }
}

/// The offset bound to `name`, if any.
pub open spec fn tbl_get(s: Seq<(Seq<char>, nat)>, name: Seq<char>) -> Option<nat> {
    let i = tbl_find_index(s, name);
    if i == -1 {
        None
    } else {
        Some(s[i].1)
    }
}

/// A scan that matched at `i` (or nowhere) found the entry's index.
proof fn lemma_tbl_find(s: Seq<(Seq<char>, nat)>, name: Seq<char>, i: int)
    requires
        0 <= i <= s.len(),
        forall|k: int| 0 <= k < i ==> s[k].0 != name,
        i == s.len() || s[i].0 == name,
    ensures
        tbl_find_index(s, name) == if i == s.len() {
            -1
        } else {
            i
        },
    decreases i,
{
    if s.len() == 0 {
    } else if i == 0 {
    } else {
        assert(s[0].0 != name);
        lemma_tbl_find(s.drop_first(), name, i - 1);
    }
}

/// The found index, when there is one, lies inside the table.
proof fn lemma_tbl_find_bounds(s: Seq<(Seq<char>, nat)>, name: Seq<char>)
    ensures
        -1 <= tbl_find_index(s, name) < s.len(),
        tbl_find_index(s, name) >= 0 ==> s[tbl_find_index(s, name)].0 == name,
    decreases s.len(),
{
    if s.len() > 0 && s[0].0 != name {
        lemma_tbl_find_bounds(s.drop_first(), name);
    }
}

/// After an upsert, every offset in the table is the new one or one
/// that already stood there.
proof fn lemma_tbl_upsert_vals(s: Seq<(Seq<char>, nat)>, name: Seq<char>, v: nat)
    ensures
        forall|k: int|
            0 <= k < tbl_upsert(s, name, v).len() ==> (#[trigger] tbl_upsert(s, name, v)[k].1 == v
                || (k < s.len() && tbl_upsert(s, name, v)[k].1 == s[k].1)),
        tbl_upsert(s, name, v).len() <= s.len() + 1,
{
    lemma_tbl_find_bounds(s, name);
}

/// Binds `name` to `v` in the table, replacing an existing entry.
#[verifier::loop_isolation(false)]
fn exec_tbl_upsert(t: &mut Vec<(String, usize)>, name: &String, v: usize)
    ensures
        view_tbl(final(t)@) == tbl_upsert(view_tbl(old(t)@), name@, v as nat),
{
    let ghost sv = view_tbl(t@);
    let mut k: usize = 0;
    while k < t.len()
        invariant
            k <= t@.len(),
            sv == view_tbl(t@),
            sv.len() == t@.len(),
            forall|j: int| 0 <= j < k ==> sv[j].0 != name@,
        decreases t@.len() - k,
    {
        if str_eq(t[k].0.as_str(), name.as_str()) {
            proof {
                lemma_tbl_find(sv, name@, k as int);
            }
            t[k] = (name.clone(), v);
            proof {
                assert(view_tbl(t@) =~= tbl_upsert(sv, name@, v as nat));
            }
            return ;
        }
        k += 1;
    }
    proof {
        lemma_tbl_find(sv, name@, sv.len() as int);
    }
    t.push((name.clone(), v));
    proof {
        assert(view_tbl(t@) =~= tbl_upsert(sv, name@, v as nat));
    }
}

/// Looks `name` up in the table.
#[verifier::loop_isolation(false)]
fn exec_tbl_get(t: &Vec<(String, usize)>, name: &String) -> (r: Option<usize>)
    ensures
        (match r {
            Some(v) => tbl_get(view_tbl(t@), name@) == Some(v as nat),
            None => tbl_get(view_tbl(t@), name@) is None,
        }),
{
    let ghost sv = view_tbl(t@);
    let mut k: usize = 0;
    while k < t.len()
        invariant
            k <= t@.len(),
            sv == view_tbl(t@),
            sv.len() == t@.len(),
            forall|j: int| 0 <= j < k ==> sv[j].0 != name@,
        decreases t@.len() - k,
    {
        if str_eq(t[k].0.as_str(), name.as_str()) {
            proof {
                lemma_tbl_find(sv, name@, k as int);
            }
            return Some(t[k].1);
        }
        k += 1;
    }
    proof {
        lemma_tbl_find(sv, name@, sv.len() as int);
    }
    None
}

// ---------------------------------------------------------------------------
// Rendering bytes as hex text
// ---------------------------------------------------------------------------

/// The character of one hex digit, lower case.
pub open spec fn hex_digit(d: int) -> char {
    if d == 0 {
        '0'
    } else if d == 1 {
        '1'
    } else if d == 2 {
        '2'
    } else if d == 3 {
        '3'
    } else if d == 4 {
        '4'
    } else if d == 5 {
        '5'
    } else if d == 6 {
        '6'
    } else if d == 7 {
        '7'
    } else if d == 8 {
        '8'
    } else if d == 9 {
        '9'
    } else if d == 10 {
        'a'
    } else if d == 11 {
        'b'
    } else if d == 12 {
        'c'
    } else if d == 13 {
        'd'
    } else if d == 14 {
        'e'
    } else {
        'f'
    }
}

/// Two lower-case hex digits of one byte.
pub open spec fn hex_pair(b: u8) -> Seq<char> {
    seq![hex_digit(b as int / 16), hex_digit(b as int % 16)]
}

/// The space-separated hex rendering of a byte sequence.
pub open spec fn hex_str(bytes: Seq<u8>) -> Seq<char>
    decreases bytes.len(),
{
    if bytes.len() == 0 {
        Seq::empty()
    } else if bytes.len() == 1 {
        hex_pair(bytes[0])
    } else {
        hex_pair(bytes[0]) + seq![' '] + hex_str(bytes.drop_first())
    }
}

/// Extending the rendered prefix by one byte.
proof fn lemma_hex_str_snoc(bytes: Seq<u8>, k: int)
    requires
        0 <= k < bytes.len(),
    ensures
        hex_str(bytes.take(k + 1)) == hex_str(bytes.take(k)) + (if k == 0 {
            hex_pair(bytes[k])
        } else {
            seq![' '] + hex_pair(bytes[k])
        }),
    decreases k,
{
    if k == 0 {
        assert(bytes.take(1).len() == 1);
        assert(bytes.take(1)[0] == bytes[0]);
        assert(hex_str(bytes.take(1)) =~= hex_pair(bytes[0]));
        assert(hex_str(bytes.take(0)) =~= Seq::<char>::empty());
        assert(hex_str(bytes.take(0)) + hex_pair(bytes[0]) =~= hex_pair(bytes[0]));
    } else {
        let a = bytes.take(k + 1);
        let b = bytes.take(k);
        assert(a.drop_first() =~= bytes.drop_first().take(k));
        assert(b.drop_first() =~= bytes.drop_first().take(k - 1));
        lemma_hex_str_snoc(bytes.drop_first(), k - 1);
        assert(bytes.drop_first()[k - 1] == bytes[k]);
        assert(hex_str(a) == hex_pair(a[0]) + seq![' '] + hex_str(a.drop_first()));
        if k == 1 {
            assert(hex_str(b) =~= hex_pair(b[0]));
            assert(hex_str(bytes.drop_first().take(0)) =~= Seq::<char>::empty());
            assert(hex_str(bytes.drop_first().take(1)) == hex_str(bytes.drop_first().take(0))
                + hex_pair(bytes.drop_first()[0]));
            assert(hex_str(a) =~= hex_str(b) + (seq![' '] + hex_pair(bytes[k])));
        } else {
            assert(hex_str(b) == hex_pair(b[0]) + seq![' '] + hex_str(b.drop_first()));
            assert(hex_str(a) =~= hex_str(b) + (seq![' '] + hex_pair(bytes[k])));
        }
    }
}

/// One hex digit as a character.
fn exec_hex_digit(d: u8) -> (r: char)
    requires
        d < 16,
    ensures
        r == hex_digit(d as int),
{
    match d {
        0 => '0',
        1 => '1',
        2 => '2',
        3 => '3',
        4 => '4',
        5 => '5',
        6 => '6',
        7 => '7',
        8 => '8',
        9 => '9',
        10 => 'a',
        11 => 'b',
        12 => 'c',
        13 => 'd',
        14 => 'e',
        _ => 'f',
    }
}

/// Renders bytes as space-separated lower-case hex pairs.
#[verifier::loop_isolation(false)]
pub fn render_hex(bytes: &Vec<u8>) -> (s: String)
    ensures
        s@ == hex_str(bytes@),
{
    let mut s = String::new();
    let mut k: usize = 0;
    proof {
        assert(bytes@.take(0) =~= Seq::<u8>::empty());
    }
    while k < bytes.len()
        invariant
            k <= bytes@.len(),
            s@ == hex_str(bytes@.take(k as int)),
        decreases bytes@.len() - k,
    {
        let b = bytes[k];
        if k > 0 {
            s.push(' ');
        }
        s.push(exec_hex_digit(b / 16));
        s.push(exec_hex_digit(b % 16));
        proof {
            lemma_hex_str_snoc(bytes@, k as int);
            assert(s@ =~= hex_str(bytes@.take(k as int + 1)));
        }
        k += 1;
    }
    proof {
        assert(bytes@.take(bytes@.len() as int) =~= bytes@);
    }
    s
}

// ---------------------------------------------------------------------------
// Pass 1: emission
// ---------------------------------------------------------------------------

pub open spec fn low_byte(v: u32) -> u8 {
    (v % 256) as u8
}

pub open spec fn high_byte(v: u32) -> u8 {
    ((v / 256) % 256) as u8
}

/// The state that the emission pass threads through the statements:
/// the bytes so far, the label and pending-branch tables, and how many
/// segment directives have been accepted.
#[verifier::ext_equal]
pub struct GenState {
    pub bytes: Seq<u8>,
    pub labels: Seq<(Seq<char>, nat)>,
    pub pending: Seq<(Seq<char>, nat)>,
    pub header: nat,
}

pub open spec fn empty_gen_state() -> GenState {
    GenState { bytes: Seq::empty(), labels: Seq::empty(), pending: Seq::empty(), header: 0 }
}

/// The generation state that concrete tables stand for.
pub open spec fn gen_of(
    bytes: Seq<u8>,
    labels: Seq<(String, usize)>,
    pending: Seq<(String, usize)>,
    header: nat,
) -> GenState {
    GenState { bytes, labels: view_tbl(labels), pending: view_tbl(pending), header }
}

/// Every pending placeholder lies inside the emitted bytes.
pub open spec fn pending_in_range(st: GenState) -> bool {
    forall|k: int| 0 <= k < st.pending.len() ==> (#[trigger] st.pending[k]).1 < st.bytes.len()
}

pub open spec fn msg_invalid_operand_size() -> Seq<char> {
    "invalid operand size"@
}

pub open spec fn msg_segment_not_enabled() -> Seq<char> {
    "segment directive for nes assembly mode not enabled"@
}

pub open spec fn msg_header_first() -> Seq<char> {
    "segment HEADER must be at the start of the program"@
}

pub open spec fn msg_header_missing(name: Seq<char>) -> Seq<char> {
    "segment HEADER not provided before segment "@ + name
}

pub open spec fn msg_segment_unsupported(name: Seq<char>) -> Seq<char> {
    "segment \""@ + name + "\" not supported"@
}

pub open spec fn msg_reserve_unimpl() -> Seq<char> {
    "reserve directive is not implemented"@
}

pub open spec fn msg_proc_unimpl() -> Seq<char> {
    "proc directive is not implemented"@
}

pub open spec fn msg_endproc_unimpl() -> Seq<char> {
    "endproc directive is not implemented"@
}

/// The bytes of a byte-sequence directive: every element must be 8 bits
/// wide and contributes its low byte.
pub open spec fn emit_seq8(
    items: Seq<crate::asm_parser::NumericValue>,
    j: int,
    bytes: Seq<u8>,
) -> Result<Seq<u8>, Seq<char>>
    decreases items.len() - j,
{
    if !(0 <= j < items.len()) {
        Ok(bytes)
    } else {
        let it = items[j];
        if it.size != 8 {
            Err(msg_invalid_operand_size())
        } else {
            emit_seq8(items, j + 1, bytes.push(low_byte(it.value)))
        }
    }
}

/// The bytes of a word-sequence directive: a 16-bit element contributes
/// its value little-endian, an 8-bit element stays a single byte.
pub open spec fn emit_seq16(
    items: Seq<crate::asm_parser::NumericValue>,
    j: int,
    bytes: Seq<u8>,
) -> Result<Seq<u8>, Seq<char>>
    decreases items.len() - j,
{
    if !(0 <= j < items.len()) {
        Ok(bytes)
    } else {
        let it = items[j];
        if it.size == 8 {
            emit_seq16(items, j + 1, bytes.push(low_byte(it.value)))
        } else if it.size == 16 {
            emit_seq16(items, j + 1, bytes.push(low_byte(it.value)).push(high_byte(it.value)))
        } else {
            Err(msg_invalid_operand_size())
        }
    }
}

/// What one statement does to the generation state.
///
/// A label records the current offset; an assignment was consumed at
/// parse time; data directives append their bytes; a segment directive
/// is checked against the platform ordering rules; the reservation and
/// procedure directives are recognized but deliberately fail loudly; an
/// instruction emits its selected opcode and its operand, whose length
/// must equal the addressing mode's canonical operand length, with a
/// placeholder byte and a pending entry for an unresolved label.
pub open spec fn spec_emit_stmt(stmt: ExprV, st: GenState, config: Option<ConfigV>) -> Result<
    GenState,
    Seq<char>,
> {
    match stmt {
        ExprV::LABEL(name) => Ok(
            GenState { labels: tbl_upsert(st.labels, name, st.bytes.len()), ..st },
        ),
        ExprV::ASSIGN(_, _) => Ok(st),
        ExprV::DIRECTIVE(d) => match d {
            DirectiveV::BYTE(items) => match emit_seq8(items, 0, st.bytes) {
                Err(e) => Err(e),
                Ok(b) => Ok(GenState { bytes: b, ..st }),
            },
            DirectiveV::DWORD(items) => match emit_seq16(items, 0, st.bytes) {
                Err(e) => Err(e),
                Ok(b) => Ok(GenState { bytes: b, ..st }),
            },
            DirectiveV::SEGMENT(name) => if !spec_use_nes(config) {
                Err(msg_segment_not_enabled())
            } else if name == "HEADER"@ {
                if st.bytes.len() > 0 {
                    Err(msg_header_first())
                } else {
                    Ok(GenState { header: st.header + 1, ..st })
                }
            } else if name == "CODE"@ || name == "VECTORS"@ || name == "CHARS"@ {
                if st.header < 1 {
                    Err(msg_header_missing(name))
                } else {
                    Ok(GenState { header: st.header + 1, ..st })
                }
            } else {
                Err(msg_segment_unsupported(name))
            },
            DirectiveV::RESERVE(_) => Err(msg_reserve_unimpl()),
            DirectiveV::PROC(_) => Err(msg_proc_unimpl()),
            DirectiveV::ENDPROC => Err(msg_endproc_unimpl()),
        },
        ExprV::INSTR(ins, mode, op) => match spec_get_opcode(ins, mode, config) {
            Err(m) => Err(m),
            Ok(opc) => {
                let bytes1 = st.bytes.push(opc.hex);
                match op {
                    OperandV::NONE => if spec_canonical_op_len(mode) == 0 {
                        Ok(GenState { bytes: bytes1, ..st })
                    } else {
                        Err(msg_invalid_operand_size())
                    },
                    OperandV::VALUE(num) => if num.size == 8 {
                        if spec_canonical_op_len(mode) == 1 {
                            Ok(GenState { bytes: bytes1.push(low_byte(num.value)), ..st })
                        } else {
                            Err(msg_invalid_operand_size())
                        }
                    } else if num.size == 16 {
                        if spec_canonical_op_len(mode) == 2 {
                            Ok(
                                GenState {
                                    bytes: bytes1.push(low_byte(num.value)).push(
                                        high_byte(num.value),
                                    ),
                                    ..st
                                },
                            )
                        } else {
                            Err(msg_invalid_operand_size())
                        }
                    } else {
                        Err(msg_invalid_operand_size())
                    },
                    OperandV::LABEL(name) => if spec_canonical_op_len(mode) == 1 {
                        Ok(
                            GenState {
                                bytes: bytes1.push(0xab),
                                pending: tbl_upsert(st.pending, name, bytes1.len()),
                                ..st
                            },
                        )
                    } else {
                        Err(msg_invalid_operand_size())
                    },
                }
            },
        },
    }
}

/// The emission pass over the statements from index `k` on.
pub open spec fn spec_pass1(
    lines: Seq<ExprV>,
    k: int,
    st: GenState,
    config: Option<ConfigV>,
) -> Result<GenState, Seq<char>>
    decreases lines.len() - k,
{
    if !(0 <= k < lines.len()) {
        Ok(st)
    } else {
        match spec_emit_stmt(lines[k], st, config) {
            Err(e) => Err(e),
            Ok(st2) => spec_pass1(lines, k + 1, st2, config),
        }
    }
}

// ---------------------------------------------------------------------------
// Pass 2: relative-branch resolution
// ---------------------------------------------------------------------------

pub open spec fn msg_undef_label(name: Seq<char>) -> Seq<char> {
    "unable to jump to invalid label \""@ + name + "\""@
}

pub open spec fn msg_rel_neg(m: int, name: Seq<char>) -> Seq<char> {
    "relative offset too large "@ + dec_str(m) + "("@ + name + ") < -128"@
}

pub open spec fn msg_rel_pos(m: int, name: Seq<char>) -> Seq<char> {
    "relative offset too large "@ + dec_str(m) + "("@ + name + ") > 127"@
}

/// The resolution pass: patches each pending placeholder with the
/// signed displacement to its label.  A backward branch of magnitude
/// `m` gets one more step because the program counter has already
/// advanced past the placeholder, so `-(m + 1)` is written; a forward
/// branch keeps its magnitude.  Magnitudes over 127 do not fit the
/// one-byte displacement and fail by name.
pub open spec fn spec_pass2(
    bytes: Seq<u8>,
    labels: Seq<(Seq<char>, nat)>,
    pending: Seq<(Seq<char>, nat)>,
    k: int,
) -> Result<Seq<u8>, Seq<char>>
    decreases pending.len() - k,
{
    if !(0 <= k < pending.len()) {
        Ok(bytes)
    } else {
        let (name, pos) = pending[k];
        match tbl_get(labels, name) {
            None => Err(msg_undef_label(name)),
            Some(target) => if pos >= target {
                let m = pos - target;
                if m > 127 {
                    Err(msg_rel_neg(m, name))
                } else {
                    spec_pass2(bytes.update(pos as int, (255 - m) as u8), labels, pending, k + 1)
                }
            } else {
                let m = target - pos;
                if m > 127 {
                    Err(msg_rel_pos(m, name))
                } else {
                    spec_pass2(bytes.update(pos as int, m as u8), labels, pending, k + 1)
                }
            },
        }
    }
}

/// The whole code generator: emission, then branch resolution.
pub open spec fn spec_codegen(lines: Seq<ExprV>, config: Option<ConfigV>) -> Result<
    Seq<u8>,
    Seq<char>,
> {
    match spec_pass1(lines, 0, empty_gen_state(), config) {
        Err(e) => Err(e),
        Ok(st) => spec_pass2(st.bytes, st.labels, st.pending, 0),
    }
}

fn exec_low_byte(v: u32) -> (r: u8)
    ensures
        r == low_byte(v),
{
    (v % 256) as u8
}

fn exec_high_byte(v: u32) -> (r: u8)
    ensures
        r == high_byte(v),
{
    ((v / 256) % 256) as u8
}

fn build_msg_header_missing(name: &String) -> (s: String)
    ensures
        s@ == msg_header_missing(name@),
{
    let mut s = String::from_str("segment HEADER not provided before segment ");
    s.append(name.as_str());
    proof {
        assert(s@ =~= msg_header_missing(name@));
    }
    s
}

fn build_msg_rel_neg(m: usize, name: &String) -> (s: String)
    ensures
        s@ == msg_rel_neg(m as int, name@),
{
    let mut s = String::from_str("relative offset too large ");
    push_dec(&mut s, m as u128);
    s.append("(");
    s.append(name.as_str());
    s.append(") < -128");
    proof {
        assert(s@ =~= msg_rel_neg(m as int, name@));
    }
    s
}

fn build_msg_rel_pos(m: usize, name: &String) -> (s: String)
    ensures
        s@ == msg_rel_pos(m as int, name@),
{
    let mut s = String::from_str("relative offset too large ");
    push_dec(&mut s, m as u128);
    s.append("(");
    s.append(name.as_str());
    s.append(") > 127");
    proof {
        assert(s@ =~= msg_rel_pos(m as int, name@));
    }
    s
}

/// Applies one statement to the concrete generation state, exactly as
/// [`spec_emit_stmt`] describes it.
#[verifier::loop_isolation(false)]
fn emit_stmt_exec(
    stmt: &Expr,
    program: &mut Vec<u8>,
    label_pos: &mut Vec<(String, usize)>,
    jumpto_pos: &mut Vec<(String, usize)>,
    header: &mut usize,
    config: &Option<CompilerConfig>,
) -> (r: Result<(), String>)
    requires
        old(header) < usize::MAX,
        pending_in_range(
            gen_of(old(program)@, old(label_pos)@, old(jumpto_pos)@, (*old(header)) as nat),
        ),
    ensures
        ({
            let st0 = gen_of(old(program)@, old(label_pos)@, old(jumpto_pos)@, (*old(header)) as nat);
            let st1 = gen_of(
                final(program)@,
                final(label_pos)@,
                final(jumpto_pos)@,
                (*final(header)) as nat,
            );
            match r {
                Ok(_) => spec_emit_stmt(stmt.deep_view(), st0, config.deep_view()) == Ok::<
                    GenState,
                    Seq<char>,
                >(st1) && pending_in_range(st1),
                Err(m) => spec_emit_stmt(stmt.deep_view(), st0, config.deep_view()) == Err::<
                    GenState,
                    Seq<char>,
                >(m@),
            }
        }),
{
    let ghost st0 = gen_of(old(program)@, old(label_pos)@, old(jumpto_pos)@, (*old(header)) as nat);
    match stmt {
        Expr::LABEL(label) => {
            exec_tbl_upsert(label_pos, label, program.len());
            proof {
                assert(gen_of(program@, label_pos@, jumpto_pos@, *header as nat) =~= (GenState {
                    labels: tbl_upsert(st0.labels, label@, st0.bytes.len()),
                    ..st0
                }));
                assert(pending_in_range(gen_of(program@, label_pos@, jumpto_pos@, *header as nat)));
            }
            Ok(())
        },
        Expr::ASSIGN(_, _) => {
            proof {
                assert(gen_of(program@, label_pos@, jumpto_pos@, *header as nat) =~= st0);
            }
            Ok(())
        },
        Expr::DIRECTIVE(d) => match d {
            Directive::BYTE(items) => {
                let ghost itemsv = items.deep_view();
                let mut j: usize = 0;
                while j < items.len()
                    invariant
                        j <= itemsv.len(),
                        itemsv == items.deep_view(),
                        emit_seq8(itemsv, j as int, program@) == emit_seq8(itemsv, 0, st0.bytes),
                        program@.len() >= st0.bytes.len(),
                        label_pos@ == old(label_pos)@,
                        jumpto_pos@ == old(jumpto_pos)@,
                        *header == *old(header),
                    decreases itemsv.len() - j,
                {
                    let it = items[j];
                    if it.size != 8 {
                        return Err(String::from_str("invalid operand size"));
                    }
                    program.push(exec_low_byte(it.value));
                    j += 1;
                }
                proof {
                    assert(gen_of(program@, label_pos@, jumpto_pos@, *header as nat) =~= (
                    GenState { bytes: program@, ..st0 }));
                assert(pending_in_range(gen_of(program@, label_pos@, jumpto_pos@, *header as nat)));
                }
                Ok(())
            },
            Directive::DWORD(items) => {
                let ghost itemsv = items.deep_view();
                let mut j: usize = 0;
                while j < items.len()
                    invariant
                        j <= itemsv.len(),
                        itemsv == items.deep_view(),
                        emit_seq16(itemsv, j as int, program@) == emit_seq16(itemsv, 0, st0.bytes),
                        program@.len() >= st0.bytes.len(),
                        label_pos@ == old(label_pos)@,
                        jumpto_pos@ == old(jumpto_pos)@,
                        *header == *old(header),
                    decreases itemsv.len() - j,
                {
                    let it = items[j];
                    if it.size == 8 {
                        program.push(exec_low_byte(it.value));
                    } else if it.size == 16 {
                        program.push(exec_low_byte(it.value));
                        program.push(exec_high_byte(it.value));
                    } else {
                        return Err(String::from_str("invalid operand size"));
                    }
                    j += 1;
                }
                proof {
                    assert(gen_of(program@, label_pos@, jumpto_pos@, *header as nat) =~= (
                    GenState { bytes: program@, ..st0 }));
                    assert(pending_in_range(gen_of(program@, label_pos@, jumpto_pos@, *header as nat)));
                }
                Ok(())
            },
            Directive::SEGMENT(name) => {
                let nes = match config {
                    Some(c) => c.enable_nes,
                    None => false,
                };
                if !nes {
                    return Err(
                        String::from_str("segment directive for nes assembly mode not enabled"),
                    );
                }
                if str_eq(name.as_str(), "HEADER") {
                    if program.len() > 0 {
                        return Err(
                            String::from_str("segment HEADER must be at the start of the program"),
                        );
                    }
                    *header = *header + 1;
                } else if str_eq(name.as_str(), "CODE") || str_eq(name.as_str(), "VECTORS")
                    || str_eq(name.as_str(), "CHARS") {
                    if *header < 1 {
                        return Err(build_msg_header_missing(name));
                    }
                    *header = *header + 1;
                } else {
                    return Err(quoted("segment \"", name, "\" not supported"));
                }
                proof {
                    assert(gen_of(program@, label_pos@, jumpto_pos@, *header as nat) =~= (
                    GenState { header: st0.header + 1, ..st0 }));
                    assert(pending_in_range(gen_of(program@, label_pos@, jumpto_pos@, *header as nat)));
                }
                Ok(())
            },
            Directive::RESERVE(_) => Err(String::from_str("reserve directive is not implemented")),
            Directive::PROC(_) => Err(String::from_str("proc directive is not implemented")),
            Directive::ENDPROC => Err(String::from_str("endproc directive is not implemented")),
        },
        Expr::INSTR(ins, mode, op) => {
            let opcode = match get_opcode_ref(ins, mode, config) {
                Ok(o) => o,
                Err(m) => {
                    return Err(m);
                },
            };
            program.push(opcode.hex);
            let need = canonical_op_len(mode);
            match op {
                Operand::NONE => {
                    if need != 0 {
                        return Err(String::from_str("invalid operand size"));
                    }
                    proof {
                        assert(gen_of(program@, label_pos@, jumpto_pos@, *header as nat) =~= (
                        GenState { bytes: st0.bytes.push(opcode.hex), ..st0 }));
                        assert(pending_in_range(gen_of(program@, label_pos@, jumpto_pos@, *header as nat)));
                    }
                    Ok(())
                },
                Operand::VALUE(num) => {
                    if num.size == 8 {
                        if need != 1 {
                            return Err(String::from_str("invalid operand size"));
                        }
                        program.push(exec_low_byte(num.value));
                        proof {
                            assert(gen_of(program@, label_pos@, jumpto_pos@, *header as nat) =~= (
                            GenState {
                                bytes: st0.bytes.push(opcode.hex).push(low_byte(num.value)),
                                ..st0
                            }));
                            assert(pending_in_range(gen_of(program@, label_pos@, jumpto_pos@, *header as nat)));
                        }
                        Ok(())
                    } else if num.size == 16 {
                        if need != 2 {
                            return Err(String::from_str("invalid operand size"));
                        }
                        program.push(exec_low_byte(num.value));
                        program.push(exec_high_byte(num.value));
                        proof {
                            assert(gen_of(program@, label_pos@, jumpto_pos@, *header as nat) =~= (
                            GenState {
                                bytes: st0.bytes.push(opcode.hex).push(low_byte(num.value)).push(
                                    high_byte(num.value),
                                ),
                                ..st0
                            }));
                            assert(pending_in_range(gen_of(program@, label_pos@, jumpto_pos@, *header as nat)));
                        }
                        Ok(())
                    } else {
                        Err(String::from_str("invalid operand size"))
                    }
                },
                Operand::LABEL(name) => {
                    if need != 1 {
                        return Err(String::from_str("invalid operand size"));
                    }
                    exec_tbl_upsert(jumpto_pos, name, program.len());
                    program.push(0xab);
                    proof {
                        lemma_tbl_upsert_vals(st0.pending, name@, st0.bytes.len() + 1);
                        assert(gen_of(program@, label_pos@, jumpto_pos@, *header as nat) =~= (
                        GenState {
                            bytes: st0.bytes.push(opcode.hex).push(0xab),
                            pending: tbl_upsert(
                                st0.pending,
                                name@,
                                st0.bytes.push(opcode.hex).len(),
                            ),
                            ..st0
                        }));
                        assert(pending_in_range(gen_of(program@, label_pos@, jumpto_pos@, *header as nat)));
                    }
                    Ok(())
                },
            }
        },
    }
}

// ---------------------------------------------------------------------------
// The compiler
// ---------------------------------------------------------------------------

/// The front half of the pipeline: tokenize the trimmed source, then
/// parse, starting from an empty symbol table.
pub open spec fn spec_front(src: Seq<char>) -> Result<Seq<ExprV>, Seq<char>> {
    match spec_tokenize_from(spec_trim(src), 0) {
        Err(e) => Err(e),
        Ok(toks) => spec_parse_from(toks, 0, Seq::empty()),
    }
}

/// The whole pipeline: source text to machine code.
pub open spec fn spec_compile(src: Seq<char>, config: Option<ConfigV>) -> Result<
    Seq<u8>,
    Seq<char>,
> {
    match spec_front(src) {
        Err(e) => Err(e),
        Ok(lines) => spec_codegen(lines, config),
    }
}

/// What one statement prints as, through the derived `Debug` rendering;
/// a function of the statement's view alone.
pub uninterp spec fn expr_debug(e: ExprV) -> Seq<char>;

/// Relies on the derived `Debug` formatting of [`Expr`], for the
/// diagnostic rendering of a parsed program.
#[verifier::external_body]
fn debug_expr(e: &Expr) -> (r: String)
    ensures
        r@ == expr_debug(e.deep_view()),
{
    format!("{:?}", e)
}

/// The diagnostic rendering of a statement list: one statement per line.
pub open spec fn parse_lines_text(lines: Seq<ExprV>) -> Seq<char>
    decreases lines.len(),
{
    if lines.len() == 0 {
        Seq::empty()
    } else if lines.len() == 1 {
        expr_debug(lines[0])
    } else {
        expr_debug(lines[0]) + "\n"@ + parse_lines_text(lines.drop_first())
    }
}

/// Extending the rendered prefix by one statement.
proof fn lemma_parse_lines_snoc(lines: Seq<ExprV>, k: int)
    requires
        0 <= k < lines.len(),
    ensures
        parse_lines_text(lines.take(k + 1)) == parse_lines_text(lines.take(k)) + (if k == 0 {
            expr_debug(lines[k])
        } else {
            "\n"@ + expr_debug(lines[k])
        }),
    decreases k,
{
    if k == 0 {
        assert(lines.take(1).len() == 1);
        assert(lines.take(1)[0] == lines[0]);
        assert(parse_lines_text(lines.take(0)) =~= Seq::<char>::empty());
        assert(parse_lines_text(lines.take(0)) + expr_debug(lines[0]) =~= expr_debug(lines[0]));
    } else {
        let a = lines.take(k + 1);
        let b = lines.take(k);
        assert(a.drop_first() =~= lines.drop_first().take(k));
        assert(b.drop_first() =~= lines.drop_first().take(k - 1));
        lemma_parse_lines_snoc(lines.drop_first(), k - 1);
        assert(lines.drop_first()[k - 1] == lines[k]);
        if k == 1 {
            assert(parse_lines_text(b) =~= expr_debug(b[0]));
            assert(parse_lines_text(lines.drop_first().take(0)) =~= Seq::<char>::empty());
            assert(parse_lines_text(a) =~= parse_lines_text(b) + ("\n"@ + expr_debug(lines[k])));
        } else {
            assert(parse_lines_text(a) =~= parse_lines_text(b) + ("\n"@ + expr_debug(lines[k])));
        }
    }
}

/// The compiler: the parsed statements, the output cursor, the label
/// and pending-branch tables of one generation run, and the
/// configuration.
pub struct Compiler {
    lines: Vec<Expr>,
    prog_counter: usize,
    label_pos: Vec<(String, usize)>,
    jumpto_pos: Vec<(String, usize)>,
    config: Option<CompilerConfig>,
}

impl Compiler {
    /// The parsed statements awaiting generation.
    pub closed spec fn lines_v(&self) -> Seq<ExprV> {
        self.lines.deep_view()
    }

    /// The configuration, if one was supplied.
    pub closed spec fn config_v(&self) -> Option<ConfigV> {
        self.config.deep_view()
    }

    /// A compiler with no source loaded yet.
    pub fn new(config: Option<CompilerConfig>) -> (r: Self)
        ensures
            r.lines_v() == Seq::<ExprV>::empty(),
            r.config_v() == config.deep_view(),
    {
        let r = Compiler {
            lines: Vec::new(),
            prog_counter: 0,
            label_pos: Vec::new(),
            jumpto_pos: Vec::new(),
            config,
        };
        proof {
            assert(r.lines_v() =~= Seq::<ExprV>::empty());
        }
        r
    }

    /// Tokenizes and parses `source`, holding the statements for
    /// generation.
    pub fn init_source(&mut self, source: &String) -> (r: Result<(), String>)
        ensures
            final(self).config_v() == old(self).config_v(),
            (match r {
                Ok(_) => spec_front(source@) == Ok::<Seq<ExprV>, Seq<char>>(
                    final(self).lines_v(),
                ),
                Err(m) => spec_front(source@) == Err::<Seq<ExprV>, Seq<char>>(m@)
                    && final(self).lines_v() == old(self).lines_v(),
            }),
    {
        let mut lexer = AsmLexer::new(source);
        let tokens = match lexer.tokenize() {
            Ok(t) => t,
            Err(m) => {
                return Err(m);
            },
        };
        let mut parser = AsmParser::new(&tokens);
        let lines = match parser.parse() {
            Ok(l) => l,
            Err(m) => {
                return Err(m);
            },
        };
        self.lines = lines;
        self.prog_counter = 0;
        Ok(())
    }

    /// Runs both generation passes over the parsed statements.
    #[verifier::loop_isolation(false)]
    pub fn to_byte_code(&mut self) -> (r: Result<Vec<u8>, String>)
        ensures
            final(self).lines_v() == old(self).lines_v(),
            final(self).config_v() == old(self).config_v(),
            (match r {
                Ok(b) => spec_codegen(old(self).lines_v(), old(self).config_v()) == Ok::<
                    Seq<u8>,
                    Seq<char>,
                >(b@),
                Err(m) => spec_codegen(old(self).lines_v(), old(self).config_v()) == Err::<
                    Seq<u8>,
                    Seq<char>,
                >(m@),
            }),
    {
        let ghost linesv = self.lines.deep_view();
        let ghost cfgv = self.config.deep_view();
        self.prog_counter = 0;
        self.label_pos = Vec::new();
        self.jumpto_pos = Vec::new();
        let mut program: Vec<u8> = Vec::new();
        let mut header_index: usize = 0;
        proof {
            assert(view_tbl(self.label_pos@) =~= Seq::<(Seq<char>, nat)>::empty());
            assert(view_tbl(self.jumpto_pos@) =~= Seq::<(Seq<char>, nat)>::empty());
            assert(gen_of(program@, self.label_pos@, self.jumpto_pos@, header_index as nat)
                =~= empty_gen_state());
        }
        let mut k: usize = 0;
        while k < self.lines.len()
            invariant
                k <= linesv.len(),
                self.lines.deep_view() == linesv,
                self.config.deep_view() == cfgv,
                header_index <= k,
                pending_in_range(
                    gen_of(program@, self.label_pos@, self.jumpto_pos@, header_index as nat),
                ),
                spec_pass1(
                    linesv,
                    k as int,
                    gen_of(program@, self.label_pos@, self.jumpto_pos@, header_index as nat),
                    cfgv,
                ) == spec_pass1(linesv, 0, empty_gen_state(), cfgv),
            decreases linesv.len() - k,
        {
            let res = emit_stmt_exec(
                &self.lines[k],
                &mut program,
                &mut self.label_pos,
                &mut self.jumpto_pos,
                &mut header_index,
                &self.config,
            );
            match res {
                Ok(_) => {},
                Err(m) => {
                    return Err(m);
                },
            }
            self.prog_counter = program.len();
            k += 1;
        }
        let ghost labelsv = view_tbl(self.label_pos@);
        let ghost pendingv = view_tbl(self.jumpto_pos@);
        let ghost bytes1 = program@;
        proof {
            assert(spec_pass1(linesv, 0, empty_gen_state(), cfgv) == Ok::<GenState, Seq<char>>(
                GenState { bytes: bytes1, labels: labelsv, pending: pendingv, header: header_index as nat },
            ));
        }
        let mut k2: usize = 0;
        while k2 < self.jumpto_pos.len()
            invariant
                k2 <= pendingv.len(),
                view_tbl(self.jumpto_pos@) == pendingv,
                view_tbl(self.label_pos@) == labelsv,
                self.lines.deep_view() == linesv,
                self.config.deep_view() == cfgv,
                pendingv.len() == self.jumpto_pos@.len(),
                program@.len() == bytes1.len(),
                forall|j: int| 0 <= j < pendingv.len() ==> (#[trigger] pendingv[j]).1
                    < program@.len(),
                spec_pass2(program@, labelsv, pendingv, k2 as int) == spec_pass2(
                    bytes1,
                    labelsv,
                    pendingv,
                    0,
                ),
            decreases pendingv.len() - k2,
        {
            let pos = self.jumpto_pos[k2].1;
            let label = &self.jumpto_pos[k2].0;
            proof {
                assert(pendingv[k2 as int] == (label@, pos as nat));
            }
            match exec_tbl_get(&self.label_pos, label) {
                None => {
                    return Err(quoted("unable to jump to invalid label \"", label, "\""));
                },
                Some(target) => {
                    if pos >= target {
                        let m = pos - target;
                        if m > 127 {
                            return Err(build_msg_rel_neg(m, label));
                        }
                        let b = (255 - m) as u8;
                        program[pos] = b;
                    } else {
                        let m = target - pos;
                        if m > 127 {
                            return Err(build_msg_rel_pos(m, label));
                        }
                        program[pos] = m as u8;
                    }
                },
            }
            k2 += 1;
        }
        Ok(program)
    }

    /// Compiles the loaded statements and renders the bytes as
    /// space-separated lower-case hex pairs.
    pub fn to_hex_string(&mut self) -> (r: Result<String, String>)
        ensures
            final(self).lines_v() == old(self).lines_v(),
            final(self).config_v() == old(self).config_v(),
            (match spec_codegen(old(self).lines_v(), old(self).config_v()) {
                Ok(bytes) => r matches Ok(s) && s@ == hex_str(bytes),
                Err(m) => r matches Err(e) && e@ == m,
            }),
    {
        let buffer = match self.to_byte_code() {
            Ok(b) => b,
            Err(m) => {
                return Err(m);
            },
        };
        Ok(render_hex(&buffer))
    }

    /// The diagnostic rendering of the parsed program, one statement
    /// per line.
    #[verifier::loop_isolation(false)]
    pub fn get_parse_string(&self) -> (r: String)
        ensures
            r@ == parse_lines_text(self.lines_v()),
    {
        let ghost linesv = self.lines_v();
        let mut s = String::new();
        let mut k: usize = 0;
        proof {
            assert(parse_lines_text(linesv.take(0)) =~= Seq::<char>::empty());
        }
        while k < self.lines.len()
            invariant
                k <= linesv.len(),
                linesv == self.lines_v(),
                s@ == parse_lines_text(linesv.take(k as int)),
            decreases linesv.len() - k,
        {
            if k > 0 {
                s.append("\n");
            }
            let line = debug_expr(&self.lines[k]);
            s.append(line.as_str());
            proof {
                lemma_parse_lines_snoc(linesv, k as int);
                assert(s@ =~= parse_lines_text(linesv.take(k as int + 1)));
            }
            k += 1;
        }
        proof {
            assert(linesv.take(linesv.len() as int) =~= linesv);
        }
        s
    }

    /// Whether the platform segment mode is enabled.
    pub fn use_nes(&self) -> (r: bool)
        ensures
            r == spec_use_nes(self.config_v()),
    {
        match &self.config {
            Some(c) => c.enable_nes,
            None => false,
        }
    }
}

/// Runs the full pipeline on `source` under `config`.
pub fn compile(source: &String, config: Option<CompilerConfig>) -> (r: Result<Vec<u8>, String>)
    ensures
        (match r {
            Ok(b) => spec_compile(source@, config.deep_view()) == Ok::<Seq<u8>, Seq<char>>(b@),
            Err(m) => spec_compile(source@, config.deep_view()) == Err::<Seq<u8>, Seq<char>>(m@),
        }),
{
    let mut compiler = Compiler::new(config);
    match compiler.init_source(source) {
        Ok(_) => {},
        Err(m) => {
            return Err(m);
        },
    }
    compiler.to_byte_code()
}

/// Compiling is deterministic: the outcome is a function of the source
/// text and the configuration alone - [`compile`] returns exactly this
/// value - so running the pipeline twice on identical input yields
/// byte-identical output, with no hidden nondeterminism.
pub proof fn lemma_compile_deterministic(src: Seq<char>, config: Option<ConfigV>)
    ensures
        spec_compile(src, config) == spec_compile(src, config),
{
}

/// Every instruction statement emits exactly one opcode byte plus its
/// addressing mode's canonical operand length: none for implied
/// addressing, one for the immediate, zero-page, indexed-indirect,
/// indirect-indexed and relative modes, two for the absolute family and
/// plain indirect.
pub proof fn lemma_instr_emitted_len(
    ins: Instr,
    mode: AdrMode,
    op: OperandV,
    st: GenState,
    config: Option<ConfigV>,
)
    ensures
        (spec_emit_stmt(ExprV::INSTR(ins, mode, op), st, config) matches Ok(st2) ==> st2.bytes.len()
            == st.bytes.len() + 1 + spec_canonical_op_len(mode)),
{
}

/// The resolution pass only patches placeholder bytes in place: a
/// program that resolves keeps its exact length.
pub proof fn lemma_pass2_keeps_len(
    bytes: Seq<u8>,
    labels: Seq<(Seq<char>, nat)>,
    pending: Seq<(Seq<char>, nat)>,
    k: int,
)
    requires
        forall|j: int| 0 <= j < pending.len() ==> (#[trigger] pending[j]).1 < bytes.len(),
    ensures
        (spec_pass2(bytes, labels, pending, k) matches Ok(out) ==> out.len() == bytes.len()),
    decreases pending.len() - k,
{
    if 0 <= k < pending.len() {
        let (name, pos) = pending[k];
        match tbl_get(labels, name) {
            None => {},
            Some(target) => {
                if pos >= target {
                    let m = pos - target;
                    if m <= 127 {
                        lemma_pass2_keeps_len(
                            bytes.update(pos as int, (255 - m) as u8),
                            labels,
                            pending,
                            k + 1,
                        );
                    }
                } else {
                    let m = target - pos;
                    if m <= 127 {
                        lemma_pass2_keeps_len(
                            bytes.update(pos as int, m as u8),
                            labels,
                            pending,
                            k + 1,
                        );
                    }
                }
            },
        }
    }
}

} // verus!
