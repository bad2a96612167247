//! The 6502 instruction set: addressing modes, mnemonics, and the table
//! of candidate byte encodings, documented and undocumented alike.

use vstd::prelude::*;

use crate::text::str_eq;

verus! {

/// The operand shape of an instruction.
#[allow(non_camel_case_types)]
#[derive(Debug, Clone, Copy, PartialEq, Eq, Structural, Hash)]
pub enum AdrMode {
    IMPL, IMM, ABS,
    ABSX, ABSY,
    ZP, ZPX, ZPY,
    IND, INDX, INDY,
    REL,
    UNKNOWN
}

/// The mnemonics of the 6502, the documented ones first, then the
/// undocumented ones that still have working encodings.
#[allow(non_camel_case_types)]
#[derive(Debug, Clone, Copy, PartialEq, Eq, Structural, Hash)]
pub enum Instr {
    LDA, LDX, LDY,
    STA, STX, STY,
    TAX, TAY, TSX, TXA, TXS, TYA,
    PHA, PHP, PLA, PLP,
    DEC, DEX, DEY,
    INC, INX, INY,
    ADC, SBC,
    AND, EOR, ORA,
    ASL, LSR,
    ROL, ROR,
    CLC, CLD, CLI, CLV,
    SEC, SED, SEI,
    CMP, CPX, CPY,
    BCC, BCS, BEQ, BMI, BNE, BPL, BVC, BVS,
    JMP, JSR, RTS,
    BRK, RTI,
    BIT, NOP,

    STP, SLO, ANC, RLA, SRE, ALR, RRA, ARR, SAX,
    XAA, AHX, TAS, SHY, SHX, LAX, LAS, DCP, AXS,
    ISC
}

/// One candidate encoding: its byte, and whether it belongs to the
/// documented instruction set.
#[derive(Debug, Clone, Copy, PartialEq, Eq, Structural, Hash)]
pub struct Opcode {
    pub hex: u8,
    pub official: bool,
}

impl Opcode {
    pub fn new(hex: u8, official: bool) -> (r: Self)
        ensures
            r == (Opcode { hex, official }),
    {
        Self { hex, official }
    }
}

/// How many operand bytes an addressing mode contributes after the opcode
/// byte: 0, 1 or 2; -1 for the unresolved fallback mode.
pub open spec fn spec_canonical_op_len(adr_mode: AdrMode) -> int {
    match adr_mode {
        AdrMode::UNKNOWN => -1,
        AdrMode::IMPL => 0,
        AdrMode::IMM | AdrMode::ZP | AdrMode::ZPX | AdrMode::ZPY
        | AdrMode::INDX | AdrMode::INDY | AdrMode::REL => 1,
        AdrMode::ABS | AdrMode::ABSX | AdrMode::ABSY | AdrMode::IND => 2,
    }
}

/// The number of operand bytes that `adr_mode` asks for.
pub fn canonical_op_len(adr_mode: &AdrMode) -> (r: i8)
    ensures
        r as int == spec_canonical_op_len(*adr_mode),
{
    match adr_mode {
        AdrMode::UNKNOWN => -1,
        AdrMode::IMPL => 0,
        AdrMode::IMM | AdrMode::ZP | AdrMode::ZPX | AdrMode::ZPY
        | AdrMode::INDX | AdrMode::INDY | AdrMode::REL => 1,
        AdrMode::ABS | AdrMode::ABSX | AdrMode::ABSY | AdrMode::IND => 2,
    }
}

/// The name of an addressing mode, as diagnostics print it.
pub open spec fn spec_mode_name(m: AdrMode) -> Seq<char> {
    match m {
        AdrMode::IMPL => "IMPL"@,
        AdrMode::IMM => "IMM"@,
        AdrMode::ABS => "ABS"@,
        AdrMode::ABSX => "ABSX"@,
        AdrMode::ABSY => "ABSY"@,
        AdrMode::ZP => "ZP"@,
        AdrMode::ZPX => "ZPX"@,
        AdrMode::ZPY => "ZPY"@,
        AdrMode::IND => "IND"@,
        AdrMode::INDX => "INDX"@,
        AdrMode::INDY => "INDY"@,
        AdrMode::REL => "REL"@,
        AdrMode::UNKNOWN => "UNKNOWN"@,
    }
}

/// The name of an addressing mode, as diagnostics print it.
pub fn mode_name(m: &AdrMode) -> (r: &'static str)
    ensures
        r@ == spec_mode_name(*m),
{
    match m {
        AdrMode::IMPL => "IMPL",
        AdrMode::IMM => "IMM",
        AdrMode::ABS => "ABS",
        AdrMode::ABSX => "ABSX",
        AdrMode::ABSY => "ABSY",
        AdrMode::ZP => "ZP",
        AdrMode::ZPX => "ZPX",
        AdrMode::ZPY => "ZPY",
        AdrMode::IND => "IND",
        AdrMode::INDX => "INDX",
        AdrMode::INDY => "INDY",
        AdrMode::REL => "REL",
        AdrMode::UNKNOWN => "UNKNOWN",
    }
}

/// The instruction that an (already upper-cased) mnemonic names, if any.
pub open spec fn spec_instr_from_name(u: Seq<char>) -> Option<Instr> {
    if u == "LDA"@ { Some(Instr::LDA)
    } else if u == "LDX"@ { Some(Instr::LDX)
    } else if u == "LDY"@ { Some(Instr::LDY)
    } else if u == "STA"@ { Some(Instr::STA)
    } else if u == "STX"@ { Some(Instr::STX)
    } else if u == "STY"@ { Some(Instr::STY)
    } else if u == "TAX"@ { Some(Instr::TAX)
    } else if u == "TAY"@ { Some(Instr::TAY)
    } else if u == "TSX"@ { Some(Instr::TSX)
    } else if u == "TXA"@ { Some(Instr::TXA)
    } else if u == "TXS"@ { Some(Instr::TXS)
    } else if u == "TYA"@ { Some(Instr::TYA)
    } else if u == "PHA"@ { Some(Instr::PHA)
    } else if u == "PHP"@ { Some(Instr::PHP)
    } else if u == "PLA"@ { Some(Instr::PLA)
    } else if u == "PLP"@ { Some(Instr::PLP)
    } else if u == "DEC"@ { Some(Instr::DEC)
    } else if u == "DEX"@ { Some(Instr::DEX)
    } else if u == "DEY"@ { Some(Instr::DEY)
    } else if u == "INC"@ { Some(Instr::INC)
    } else if u == "INX"@ { Some(Instr::INX)
    } else if u == "INY"@ { Some(Instr::INY)
    } else if u == "ADC"@ { Some(Instr::ADC)
    } else if u == "SBC"@ { Some(Instr::SBC)
    } else if u == "AND"@ { Some(Instr::AND)
    } else if u == "EOR"@ { Some(Instr::EOR)
    } else if u == "ORA"@ { Some(Instr::ORA)
    } else if u == "ASL"@ { Some(Instr::ASL)
    } else if u == "LSR"@ { Some(Instr::LSR)
    } else if u == "ROL"@ { Some(Instr::ROL)
    } else if u == "ROR"@ { Some(Instr::ROR)
    } else if u == "CLC"@ { Some(Instr::CLC)
    } else if u == "CLD"@ { Some(Instr::CLD)
    } else if u == "CLI"@ { Some(Instr::CLI)
    } else if u == "CLV"@ { Some(Instr::CLV)
    } else if u == "SEC"@ { Some(Instr::SEC)
    } else if u == "SED"@ { Some(Instr::SED)
    } else if u == "SEI"@ { Some(Instr::SEI)
    } else if u == "CMP"@ { Some(Instr::CMP)
    } else if u == "CPX"@ { Some(Instr::CPX)
    } else if u == "CPY"@ { Some(Instr::CPY)
    } else if u == "BCC"@ { Some(Instr::BCC)
    } else if u == "BCS"@ { Some(Instr::BCS)
    } else if u == "BEQ"@ { Some(Instr::BEQ)
    } else if u == "BMI"@ { Some(Instr::BMI)
    } else if u == "BNE"@ { Some(Instr::BNE)
    } else if u == "BPL"@ { Some(Instr::BPL)
    } else if u == "BVC"@ { Some(Instr::BVC)
    } else if u == "BVS"@ { Some(Instr::BVS)
    } else if u == "JMP"@ { Some(Instr::JMP)
    } else if u == "JSR"@ { Some(Instr::JSR)
    } else if u == "RTS"@ { Some(Instr::RTS)
    } else if u == "BRK"@ { Some(Instr::BRK)
    } else if u == "RTI"@ { Some(Instr::RTI)
    } else if u == "BIT"@ { Some(Instr::BIT)
    } else if u == "NOP"@ { Some(Instr::NOP)
    } else if u == "STP"@ { Some(Instr::STP)
    } else if u == "SLO"@ { Some(Instr::SLO)
    } else if u == "ANC"@ { Some(Instr::ANC)
    } else if u == "RLA"@ { Some(Instr::RLA)
    } else if u == "SRE"@ { Some(Instr::SRE)
    } else if u == "ALR"@ { Some(Instr::ALR)
    } else if u == "RRA"@ { Some(Instr::RRA)
    } else if u == "ARR"@ { Some(Instr::ARR)
    } else if u == "SAX"@ { Some(Instr::SAX)
    } else if u == "XAA"@ { Some(Instr::XAA)
    } else if u == "AHX"@ { Some(Instr::AHX)
    } else if u == "TAS"@ { Some(Instr::TAS)
    } else if u == "SHY"@ { Some(Instr::SHY)
    } else if u == "SHX"@ { Some(Instr::SHX)
    } else if u == "LAX"@ { Some(Instr::LAX)
    } else if u == "LAS"@ { Some(Instr::LAS)
    } else if u == "DCP"@ { Some(Instr::DCP)
    } else if u == "AXS"@ { Some(Instr::AXS)
    } else if u == "ISC"@ { Some(Instr::ISC)
    } else { None }
}

/// Looks an upper-cased mnemonic up in the instruction registry.
pub fn instr_from_name(u: &String) -> (r: Option<Instr>)
    ensures
        r == spec_instr_from_name(u@),
{
    if str_eq(u.as_str(), "LDA") { Some(Instr::LDA)
    } else if str_eq(u.as_str(), "LDX") { Some(Instr::LDX)
    } else if str_eq(u.as_str(), "LDY") { Some(Instr::LDY)
    } else if str_eq(u.as_str(), "STA") { Some(Instr::STA)
    } else if str_eq(u.as_str(), "STX") { Some(Instr::STX)
    } else if str_eq(u.as_str(), "STY") { Some(Instr::STY)
    } else if str_eq(u.as_str(), "TAX") { Some(Instr::TAX)
    } else if str_eq(u.as_str(), "TAY") { Some(Instr::TAY)
    } else if str_eq(u.as_str(), "TSX") { Some(Instr::TSX)
    } else if str_eq(u.as_str(), "TXA") { Some(Instr::TXA)
    } else if str_eq(u.as_str(), "TXS") { Some(Instr::TXS)
    } else if str_eq(u.as_str(), "TYA") { Some(Instr::TYA)
    } else if str_eq(u.as_str(), "PHA") { Some(Instr::PHA)
    } else if str_eq(u.as_str(), "PHP") { Some(Instr::PHP)
    } else if str_eq(u.as_str(), "PLA") { Some(Instr::PLA)
    } else if str_eq(u.as_str(), "PLP") { Some(Instr::PLP)
    } else if str_eq(u.as_str(), "DEC") { Some(Instr::DEC)
    } else if str_eq(u.as_str(), "DEX") { Some(Instr::DEX)
    } else if str_eq(u.as_str(), "DEY") { Some(Instr::DEY)
    } else if str_eq(u.as_str(), "INC") { Some(Instr::INC)
    } else if str_eq(u.as_str(), "INX") { Some(Instr::INX)
    } else if str_eq(u.as_str(), "INY") { Some(Instr::INY)
    } else if str_eq(u.as_str(), "ADC") { Some(Instr::ADC)
    } else if str_eq(u.as_str(), "SBC") { Some(Instr::SBC)
    } else if str_eq(u.as_str(), "AND") { Some(Instr::AND)
    } else if str_eq(u.as_str(), "EOR") { Some(Instr::EOR)
    } else if str_eq(u.as_str(), "ORA") { Some(Instr::ORA)
    } else if str_eq(u.as_str(), "ASL") { Some(Instr::ASL)
    } else if str_eq(u.as_str(), "LSR") { Some(Instr::LSR)
    } else if str_eq(u.as_str(), "ROL") { Some(Instr::ROL)
    } else if str_eq(u.as_str(), "ROR") { Some(Instr::ROR)
    } else if str_eq(u.as_str(), "CLC") { Some(Instr::CLC)
    } else if str_eq(u.as_str(), "CLD") { Some(Instr::CLD)
    } else if str_eq(u.as_str(), "CLI") { Some(Instr::CLI)
    } else if str_eq(u.as_str(), "CLV") { Some(Instr::CLV)
    } else if str_eq(u.as_str(), "SEC") { Some(Instr::SEC)
    } else if str_eq(u.as_str(), "SED") { Some(Instr::SED)
    } else if str_eq(u.as_str(), "SEI") { Some(Instr::SEI)
    } else if str_eq(u.as_str(), "CMP") { Some(Instr::CMP)
    } else if str_eq(u.as_str(), "CPX") { Some(Instr::CPX)
    } else if str_eq(u.as_str(), "CPY") { Some(Instr::CPY)
    } else if str_eq(u.as_str(), "BCC") { Some(Instr::BCC)
    } else if str_eq(u.as_str(), "BCS") { Some(Instr::BCS)
    } else if str_eq(u.as_str(), "BEQ") { Some(Instr::BEQ)
    } else if str_eq(u.as_str(), "BMI") { Some(Instr::BMI)
    } else if str_eq(u.as_str(), "BNE") { Some(Instr::BNE)
    } else if str_eq(u.as_str(), "BPL") { Some(Instr::BPL)
    } else if str_eq(u.as_str(), "BVC") { Some(Instr::BVC)
    } else if str_eq(u.as_str(), "BVS") { Some(Instr::BVS)
    } else if str_eq(u.as_str(), "JMP") { Some(Instr::JMP)
    } else if str_eq(u.as_str(), "JSR") { Some(Instr::JSR)
    } else if str_eq(u.as_str(), "RTS") { Some(Instr::RTS)
    } else if str_eq(u.as_str(), "BRK") { Some(Instr::BRK)
    } else if str_eq(u.as_str(), "RTI") { Some(Instr::RTI)
    } else if str_eq(u.as_str(), "BIT") { Some(Instr::BIT)
    } else if str_eq(u.as_str(), "NOP") { Some(Instr::NOP)
    } else if str_eq(u.as_str(), "STP") { Some(Instr::STP)
    } else if str_eq(u.as_str(), "SLO") { Some(Instr::SLO)
    } else if str_eq(u.as_str(), "ANC") { Some(Instr::ANC)
    } else if str_eq(u.as_str(), "RLA") { Some(Instr::RLA)
    } else if str_eq(u.as_str(), "SRE") { Some(Instr::SRE)
    } else if str_eq(u.as_str(), "ALR") { Some(Instr::ALR)
    } else if str_eq(u.as_str(), "RRA") { Some(Instr::RRA)
    } else if str_eq(u.as_str(), "ARR") { Some(Instr::ARR)
    } else if str_eq(u.as_str(), "SAX") { Some(Instr::SAX)
    } else if str_eq(u.as_str(), "XAA") { Some(Instr::XAA)
    } else if str_eq(u.as_str(), "AHX") { Some(Instr::AHX)
    } else if str_eq(u.as_str(), "TAS") { Some(Instr::TAS)
    } else if str_eq(u.as_str(), "SHY") { Some(Instr::SHY)
    } else if str_eq(u.as_str(), "SHX") { Some(Instr::SHX)
    } else if str_eq(u.as_str(), "LAX") { Some(Instr::LAX)
    } else if str_eq(u.as_str(), "LAS") { Some(Instr::LAS)
    } else if str_eq(u.as_str(), "DCP") { Some(Instr::DCP)
    } else if str_eq(u.as_str(), "AXS") { Some(Instr::AXS)
    } else if str_eq(u.as_str(), "ISC") { Some(Instr::ISC)
    } else { None }
}

/// The canonical spelling of a mnemonic.
pub open spec fn spec_instr_name(i: Instr) -> Seq<char> {
    match i {
        Instr::LDA => "LDA"@,
        Instr::LDX => "LDX"@,
        Instr::LDY => "LDY"@,
        Instr::STA => "STA"@,
        Instr::STX => "STX"@,
        Instr::STY => "STY"@,
        Instr::TAX => "TAX"@,
        Instr::TAY => "TAY"@,
        Instr::TSX => "TSX"@,
        Instr::TXA => "TXA"@,
        Instr::TXS => "TXS"@,
        Instr::TYA => "TYA"@,
        Instr::PHA => "PHA"@,
        Instr::PHP => "PHP"@,
        Instr::PLA => "PLA"@,
        Instr::PLP => "PLP"@,
        Instr::DEC => "DEC"@,
        Instr::DEX => "DEX"@,
        Instr::DEY => "DEY"@,
        Instr::INC => "INC"@,
        Instr::INX => "INX"@,
        Instr::INY => "INY"@,
        Instr::ADC => "ADC"@,
        Instr::SBC => "SBC"@,
        Instr::AND => "AND"@,
        Instr::EOR => "EOR"@,
        Instr::ORA => "ORA"@,
        Instr::ASL => "ASL"@,
        Instr::LSR => "LSR"@,
        Instr::ROL => "ROL"@,
        Instr::ROR => "ROR"@,
        Instr::CLC => "CLC"@,
        Instr::CLD => "CLD"@,
        Instr::CLI => "CLI"@,
        Instr::CLV => "CLV"@,
        Instr::SEC => "SEC"@,
        Instr::SED => "SED"@,
        Instr::SEI => "SEI"@,
        Instr::CMP => "CMP"@,
        Instr::CPX => "CPX"@,
        Instr::CPY => "CPY"@,
        Instr::BCC => "BCC"@,
        Instr::BCS => "BCS"@,
        Instr::BEQ => "BEQ"@,
        Instr::BMI => "BMI"@,
        Instr::BNE => "BNE"@,
        Instr::BPL => "BPL"@,
        Instr::BVC => "BVC"@,
        Instr::BVS => "BVS"@,
        Instr::JMP => "JMP"@,
        Instr::JSR => "JSR"@,
        Instr::RTS => "RTS"@,
        Instr::BRK => "BRK"@,
        Instr::RTI => "RTI"@,
        Instr::BIT => "BIT"@,
        Instr::NOP => "NOP"@,
        Instr::STP => "STP"@,
        Instr::SLO => "SLO"@,
        Instr::ANC => "ANC"@,
        Instr::RLA => "RLA"@,
        Instr::SRE => "SRE"@,
        Instr::ALR => "ALR"@,
        Instr::RRA => "RRA"@,
        Instr::ARR => "ARR"@,
        Instr::SAX => "SAX"@,
        Instr::XAA => "XAA"@,
        Instr::AHX => "AHX"@,
        Instr::TAS => "TAS"@,
        Instr::SHY => "SHY"@,
        Instr::SHX => "SHX"@,
        Instr::LAX => "LAX"@,
        Instr::LAS => "LAS"@,
        Instr::DCP => "DCP"@,
        Instr::AXS => "AXS"@,
        Instr::ISC => "ISC"@,
    }
}

/// The canonical spelling of a mnemonic.
pub fn instr_name(i: &Instr) -> (r: &'static str)
    ensures
        r@ == spec_instr_name(*i),
{
    match i {
        Instr::LDA => "LDA",
        Instr::LDX => "LDX",
        Instr::LDY => "LDY",
        Instr::STA => "STA",
        Instr::STX => "STX",
        Instr::STY => "STY",
        Instr::TAX => "TAX",
        Instr::TAY => "TAY",
        Instr::TSX => "TSX",
        Instr::TXA => "TXA",
        Instr::TXS => "TXS",
        Instr::TYA => "TYA",
        Instr::PHA => "PHA",
        Instr::PHP => "PHP",
        Instr::PLA => "PLA",
        Instr::PLP => "PLP",
        Instr::DEC => "DEC",
        Instr::DEX => "DEX",
        Instr::DEY => "DEY",
        Instr::INC => "INC",
        Instr::INX => "INX",
        Instr::INY => "INY",
        Instr::ADC => "ADC",
        Instr::SBC => "SBC",
        Instr::AND => "AND",
        Instr::EOR => "EOR",
        Instr::ORA => "ORA",
        Instr::ASL => "ASL",
        Instr::LSR => "LSR",
        Instr::ROL => "ROL",
        Instr::ROR => "ROR",
        Instr::CLC => "CLC",
        Instr::CLD => "CLD",
        Instr::CLI => "CLI",
        Instr::CLV => "CLV",
        Instr::SEC => "SEC",
        Instr::SED => "SED",
        Instr::SEI => "SEI",
        Instr::CMP => "CMP",
        Instr::CPX => "CPX",
        Instr::CPY => "CPY",
        Instr::BCC => "BCC",
        Instr::BCS => "BCS",
        Instr::BEQ => "BEQ",
        Instr::BMI => "BMI",
        Instr::BNE => "BNE",
        Instr::BPL => "BPL",
        Instr::BVC => "BVC",
        Instr::BVS => "BVS",
        Instr::JMP => "JMP",
        Instr::JSR => "JSR",
        Instr::RTS => "RTS",
        Instr::BRK => "BRK",
        Instr::RTI => "RTI",
        Instr::BIT => "BIT",
        Instr::NOP => "NOP",
        Instr::STP => "STP",
        Instr::SLO => "SLO",
        Instr::ANC => "ANC",
        Instr::RLA => "RLA",
        Instr::SRE => "SRE",
        Instr::ALR => "ALR",
        Instr::RRA => "RRA",
        Instr::ARR => "ARR",
        Instr::SAX => "SAX",
        Instr::XAA => "XAA",
        Instr::AHX => "AHX",
        Instr::TAS => "TAS",
        Instr::SHY => "SHY",
        Instr::SHX => "SHX",
        Instr::LAX => "LAX",
        Instr::LAS => "LAS",
        Instr::DCP => "DCP",
        Instr::AXS => "AXS",
        Instr::ISC => "ISC",
    }
}
/// The candidate encodings for one pairing of mnemonic and addressing
/// mode, in their historical order: first the documented byte where one
/// exists, then the undocumented alternatives.
pub open spec fn spec_opcode_candidates(instr: Instr, mode: AdrMode) -> Seq<Opcode> {
    match (instr, mode) {
        (Instr::BRK, AdrMode::IMPL) => seq![Opcode { hex: 0x00, official: true }],
        (Instr::ORA, AdrMode::INDX) => seq![Opcode { hex: 0x01, official: true }],
        (Instr::ORA, AdrMode::ZP) => seq![Opcode { hex: 0x05, official: true }],
        (Instr::ORA, AdrMode::IMM) => seq![Opcode { hex: 0x09, official: true }],
        (Instr::ORA, AdrMode::ABS) => seq![Opcode { hex: 0x0d, official: true }],
        (Instr::ORA, AdrMode::INDY) => seq![Opcode { hex: 0x11, official: true }],
        (Instr::ORA, AdrMode::ZPX) => seq![Opcode { hex: 0x15, official: true }],
        (Instr::ORA, AdrMode::ABSY) => seq![Opcode { hex: 0x19, official: true }],
        (Instr::ORA, AdrMode::ABSX) => seq![Opcode { hex: 0x1d, official: true }],
        (Instr::STP, AdrMode::IMPL) => seq![Opcode { hex: 0x02, official: false }, Opcode { hex: 0x12, official: false }, Opcode { hex: 0x22, official: false }, Opcode { hex: 0x32, official: false }, Opcode { hex: 0x42, official: false }, Opcode { hex: 0x52, official: false }, Opcode { hex: 0x62, official: false }, Opcode { hex: 0x72, official: false }, Opcode { hex: 0x92, official: false }, Opcode { hex: 0xb2, official: false }, Opcode { hex: 0xd2, official: false }, Opcode { hex: 0xf2, official: false }],
        (Instr::SLO, AdrMode::INDX) => seq![Opcode { hex: 0x03, official: false }],
        (Instr::SLO, AdrMode::ZP) => seq![Opcode { hex: 0x07, official: false }],
        (Instr::SLO, AdrMode::ABS) => seq![Opcode { hex: 0x0f, official: false }],
        (Instr::SLO, AdrMode::INDY) => seq![Opcode { hex: 0x13, official: false }],
        (Instr::SLO, AdrMode::ZPX) => seq![Opcode { hex: 0x17, official: false }],
        (Instr::SLO, AdrMode::ABSY) => seq![Opcode { hex: 0x1b, official: false }],
        (Instr::SLO, AdrMode::ABSX) => seq![Opcode { hex: 0x1f, official: false }],
        (Instr::NOP, AdrMode::ZP) => seq![Opcode { hex: 0x04, official: false }, Opcode { hex: 0x44, official: false }, Opcode { hex: 0x64, official: false }],
        (Instr::NOP, AdrMode::ABS) => seq![Opcode { hex: 0x0c, official: false }],
        (Instr::NOP, AdrMode::ZPX) => seq![Opcode { hex: 0x14, official: false }, Opcode { hex: 0x34, official: false }, Opcode { hex: 0x54, official: false }, Opcode { hex: 0x74, official: false }, Opcode { hex: 0xd4, official: false }, Opcode { hex: 0xf4, official: false }],
        (Instr::NOP, AdrMode::IMPL) => seq![Opcode { hex: 0x1a, official: false }, Opcode { hex: 0x3a, official: false }, Opcode { hex: 0x5a, official: false }, Opcode { hex: 0x7a, official: false }, Opcode { hex: 0xda, official: false }, Opcode { hex: 0xea, official: true }, Opcode { hex: 0xfa, official: false }],
        (Instr::NOP, AdrMode::ABSX) => seq![Opcode { hex: 0x1c, official: false }, Opcode { hex: 0x3c, official: false }, Opcode { hex: 0x5c, official: false }, Opcode { hex: 0x7c, official: false }, Opcode { hex: 0xdc, official: false }, Opcode { hex: 0xfc, official: false }],
        (Instr::NOP, AdrMode::IMM) => seq![Opcode { hex: 0x80, official: false }, Opcode { hex: 0x82, official: false }, Opcode { hex: 0x89, official: false }, Opcode { hex: 0xc2, official: false }, Opcode { hex: 0xe2, official: false }],
        (Instr::ASL, AdrMode::ZP) => seq![Opcode { hex: 0x06, official: true }],
        (Instr::ASL, AdrMode::IMPL) => seq![Opcode { hex: 0x0a, official: true }],
        (Instr::ASL, AdrMode::ABS) => seq![Opcode { hex: 0x0e, official: true }],
        (Instr::ASL, AdrMode::ZPX) => seq![Opcode { hex: 0x16, official: true }],
        (Instr::ASL, AdrMode::ABSX) => seq![Opcode { hex: 0x1e, official: true }],
        (Instr::PHP, AdrMode::IMPL) => seq![Opcode { hex: 0x08, official: true }],
        (Instr::ANC, AdrMode::IMM) => seq![Opcode { hex: 0x0b, official: false }, Opcode { hex: 0x2b, official: false }],
        (Instr::BPL, AdrMode::REL) => seq![Opcode { hex: 0x10, official: true }],
        (Instr::CLC, AdrMode::IMPL) => seq![Opcode { hex: 0x18, official: true }],
        (Instr::JSR, AdrMode::ABS) => seq![Opcode { hex: 0x20, official: true }],
        (Instr::AND, AdrMode::INDX) => seq![Opcode { hex: 0x21, official: true }],
        (Instr::AND, AdrMode::ZP) => seq![Opcode { hex: 0x25, official: true }],
        (Instr::AND, AdrMode::IMM) => seq![Opcode { hex: 0x29, official: true }],
        (Instr::AND, AdrMode::ABS) => seq![Opcode { hex: 0x2d, official: true }],
        (Instr::AND, AdrMode::INDY) => seq![Opcode { hex: 0x31, official: true }],
        (Instr::AND, AdrMode::ZPX) => seq![Opcode { hex: 0x35, official: true }],
        (Instr::AND, AdrMode::ABSY) => seq![Opcode { hex: 0x39, official: true }],
        (Instr::AND, AdrMode::ABSX) => seq![Opcode { hex: 0x3d, official: true }],
        (Instr::RLA, AdrMode::INDX) => seq![Opcode { hex: 0x23, official: false }],
        (Instr::RLA, AdrMode::ZP) => seq![Opcode { hex: 0x27, official: false }],
        (Instr::RLA, AdrMode::ABS) => seq![Opcode { hex: 0x2f, official: false }],
        (Instr::RLA, AdrMode::INDY) => seq![Opcode { hex: 0x33, official: false }],
        (Instr::RLA, AdrMode::ZPX) => seq![Opcode { hex: 0x37, official: false }],
        (Instr::RLA, AdrMode::ABSY) => seq![Opcode { hex: 0x3b, official: false }],
        (Instr::RLA, AdrMode::ABSX) => seq![Opcode { hex: 0x3f, official: false }],
        (Instr::BIT, AdrMode::ZP) => seq![Opcode { hex: 0x24, official: true }],
        (Instr::BIT, AdrMode::ABS) => seq![Opcode { hex: 0x2c, official: true }],
        (Instr::ROL, AdrMode::ZP) => seq![Opcode { hex: 0x26, official: true }],
        (Instr::ROL, AdrMode::IMPL) => seq![Opcode { hex: 0x2a, official: true }],
        (Instr::ROL, AdrMode::ABS) => seq![Opcode { hex: 0x2e, official: true }],
        (Instr::ROL, AdrMode::ZPX) => seq![Opcode { hex: 0x36, official: true }],
        (Instr::ROL, AdrMode::ABSX) => seq![Opcode { hex: 0x3e, official: true }],
        (Instr::PLP, AdrMode::IMPL) => seq![Opcode { hex: 0x28, official: true }],
        (Instr::BMI, AdrMode::REL) => seq![Opcode { hex: 0x30, official: true }],
        (Instr::SEC, AdrMode::IMPL) => seq![Opcode { hex: 0x38, official: true }],
        (Instr::RTI, AdrMode::IMPL) => seq![Opcode { hex: 0x40, official: true }],
        (Instr::EOR, AdrMode::INDX) => seq![Opcode { hex: 0x41, official: true }],
        (Instr::EOR, AdrMode::ZP) => seq![Opcode { hex: 0x45, official: true }],
        (Instr::EOR, AdrMode::IMM) => seq![Opcode { hex: 0x49, official: true }],
        (Instr::EOR, AdrMode::ABS) => seq![Opcode { hex: 0x4d, official: true }],
        (Instr::EOR, AdrMode::INDY) => seq![Opcode { hex: 0x51, official: true }],
        (Instr::EOR, AdrMode::ZPX) => seq![Opcode { hex: 0x55, official: true }],
        (Instr::EOR, AdrMode::ABSY) => seq![Opcode { hex: 0x59, official: true }],
        (Instr::EOR, AdrMode::ABSX) => seq![Opcode { hex: 0x5d, official: true }],
        (Instr::SRE, AdrMode::INDX) => seq![Opcode { hex: 0x43, official: false }],
        (Instr::SRE, AdrMode::ZP) => seq![Opcode { hex: 0x47, official: false }],
        (Instr::SRE, AdrMode::ABS) => seq![Opcode { hex: 0x4f, official: false }],
        (Instr::SRE, AdrMode::INDY) => seq![Opcode { hex: 0x53, official: false }],
        (Instr::SRE, AdrMode::ZPX) => seq![Opcode { hex: 0x57, official: false }],
        (Instr::SRE, AdrMode::ABSY) => seq![Opcode { hex: 0x5b, official: false }],
        (Instr::SRE, AdrMode::ABSX) => seq![Opcode { hex: 0x5f, official: false }],
        (Instr::LSR, AdrMode::ZP) => seq![Opcode { hex: 0x46, official: true }],
        (Instr::LSR, AdrMode::IMPL) => seq![Opcode { hex: 0x4a, official: true }],
        (Instr::LSR, AdrMode::ABS) => seq![Opcode { hex: 0x4e, official: true }],
        (Instr::LSR, AdrMode::ZPX) => seq![Opcode { hex: 0x56, official: true }],
        (Instr::LSR, AdrMode::ABSX) => seq![Opcode { hex: 0x5e, official: true }],
        (Instr::PHA, AdrMode::IMPL) => seq![Opcode { hex: 0x48, official: true }],
        (Instr::ALR, AdrMode::IMM) => seq![Opcode { hex: 0x4b, official: false }],
        (Instr::JMP, AdrMode::ABS) => seq![Opcode { hex: 0x4c, official: true }],
        (Instr::JMP, AdrMode::IND) => seq![Opcode { hex: 0x6c, official: true }],
        (Instr::BVC, AdrMode::REL) => seq![Opcode { hex: 0x50, official: true }],
        (Instr::CLI, AdrMode::IMPL) => seq![Opcode { hex: 0x58, official: true }],
        (Instr::RTS, AdrMode::IMPL) => seq![Opcode { hex: 0x60, official: true }],
        (Instr::ADC, AdrMode::INDX) => seq![Opcode { hex: 0x61, official: true }],
        (Instr::ADC, AdrMode::ZP) => seq![Opcode { hex: 0x65, official: true }],
        (Instr::ADC, AdrMode::IMM) => seq![Opcode { hex: 0x69, official: true }],
        (Instr::ADC, AdrMode::ABS) => seq![Opcode { hex: 0x6d, official: true }],
        (Instr::ADC, AdrMode::INDY) => seq![Opcode { hex: 0x71, official: true }],
        (Instr::ADC, AdrMode::ZPX) => seq![Opcode { hex: 0x75, official: true }],
        (Instr::ADC, AdrMode::ABSY) => seq![Opcode { hex: 0x79, official: true }],
        (Instr::ADC, AdrMode::ABSX) => seq![Opcode { hex: 0x7d, official: true }],
        (Instr::RRA, AdrMode::INDX) => seq![Opcode { hex: 0x63, official: false }],
        (Instr::RRA, AdrMode::ZP) => seq![Opcode { hex: 0x67, official: false }],
        (Instr::RRA, AdrMode::ABS) => seq![Opcode { hex: 0x6f, official: false }],
        (Instr::RRA, AdrMode::INDY) => seq![Opcode { hex: 0x73, official: false }],
        (Instr::RRA, AdrMode::ZPX) => seq![Opcode { hex: 0x77, official: false }],
        (Instr::RRA, AdrMode::ABSY) => seq![Opcode { hex: 0x7b, official: false }],
        (Instr::RRA, AdrMode::ABSX) => seq![Opcode { hex: 0x7f, official: false }],
        (Instr::ROR, AdrMode::ZP) => seq![Opcode { hex: 0x66, official: true }],
        (Instr::ROR, AdrMode::IMPL) => seq![Opcode { hex: 0x6a, official: true }],
        (Instr::ROR, AdrMode::ABS) => seq![Opcode { hex: 0x6e, official: true }],
        (Instr::ROR, AdrMode::ZPX) => seq![Opcode { hex: 0x76, official: true }],
        (Instr::ROR, AdrMode::ABSX) => seq![Opcode { hex: 0x7e, official: true }],
        (Instr::PLA, AdrMode::IMPL) => seq![Opcode { hex: 0x68, official: true }],
        (Instr::ARR, AdrMode::IMM) => seq![Opcode { hex: 0x6b, official: false }],
        (Instr::BVS, AdrMode::REL) => seq![Opcode { hex: 0x70, official: true }],
        (Instr::SEI, AdrMode::IMPL) => seq![Opcode { hex: 0x78, official: true }],
        (Instr::STA, AdrMode::INDX) => seq![Opcode { hex: 0x81, official: true }],
        (Instr::STA, AdrMode::ZP) => seq![Opcode { hex: 0x85, official: true }],
        (Instr::STA, AdrMode::ABS) => seq![Opcode { hex: 0x8d, official: true }],
        (Instr::STA, AdrMode::INDY) => seq![Opcode { hex: 0x91, official: true }],
        (Instr::STA, AdrMode::ZPX) => seq![Opcode { hex: 0x95, official: true }],
        (Instr::STA, AdrMode::ABSY) => seq![Opcode { hex: 0x99, official: true }],
        (Instr::STA, AdrMode::ABSX) => seq![Opcode { hex: 0x9d, official: true }],
        (Instr::SAX, AdrMode::INDX) => seq![Opcode { hex: 0x83, official: false }],
        (Instr::SAX, AdrMode::ZP) => seq![Opcode { hex: 0x87, official: false }],
        (Instr::SAX, AdrMode::ABS) => seq![Opcode { hex: 0x8f, official: false }],
        (Instr::SAX, AdrMode::ZPY) => seq![Opcode { hex: 0x97, official: false }],
        (Instr::STY, AdrMode::ZP) => seq![Opcode { hex: 0x84, official: true }],
        (Instr::STY, AdrMode::ABS) => seq![Opcode { hex: 0x8c, official: true }],
        (Instr::STY, AdrMode::ZPX) => seq![Opcode { hex: 0x94, official: true }],
        (Instr::STX, AdrMode::ZP) => seq![Opcode { hex: 0x86, official: true }],
        (Instr::STX, AdrMode::ABS) => seq![Opcode { hex: 0x8e, official: true }],
        (Instr::STX, AdrMode::ZPY) => seq![Opcode { hex: 0x96, official: true }],
        (Instr::DEY, AdrMode::IMPL) => seq![Opcode { hex: 0x88, official: true }],
        (Instr::TXA, AdrMode::IMPL) => seq![Opcode { hex: 0x8a, official: true }],
        (Instr::XAA, AdrMode::IMM) => seq![Opcode { hex: 0x8b, official: false }],
        (Instr::BCC, AdrMode::REL) => seq![Opcode { hex: 0x90, official: true }],
        (Instr::AHX, AdrMode::INDY) => seq![Opcode { hex: 0x93, official: false }],
        (Instr::AHX, AdrMode::ABSY) => seq![Opcode { hex: 0x9f, official: false }],
        (Instr::TYA, AdrMode::IMPL) => seq![Opcode { hex: 0x98, official: true }],
        (Instr::TXS, AdrMode::IMPL) => seq![Opcode { hex: 0x9a, official: true }],
        (Instr::TAS, AdrMode::ABSY) => seq![Opcode { hex: 0x9b, official: false }],
        (Instr::SHY, AdrMode::ABSX) => seq![Opcode { hex: 0x9c, official: false }],
        (Instr::SHX, AdrMode::ABSY) => seq![Opcode { hex: 0x9e, official: false }],
        (Instr::LDY, AdrMode::IMM) => seq![Opcode { hex: 0xa0, official: true }],
        (Instr::LDY, AdrMode::ZP) => seq![Opcode { hex: 0xa4, official: true }],
        (Instr::LDY, AdrMode::ABS) => seq![Opcode { hex: 0xac, official: true }],
        (Instr::LDY, AdrMode::ZPX) => seq![Opcode { hex: 0xb4, official: true }],
        (Instr::LDY, AdrMode::ABSX) => seq![Opcode { hex: 0xbc, official: true }],
        (Instr::LDA, AdrMode::INDX) => seq![Opcode { hex: 0xa1, official: true }],
        (Instr::LDA, AdrMode::ZP) => seq![Opcode { hex: 0xa5, official: true }],
        (Instr::LDA, AdrMode::IMM) => seq![Opcode { hex: 0xa9, official: true }],
        (Instr::LDA, AdrMode::ABS) => seq![Opcode { hex: 0xad, official: true }],
        (Instr::LDA, AdrMode::INDY) => seq![Opcode { hex: 0xb1, official: true }],
        (Instr::LDA, AdrMode::ZPX) => seq![Opcode { hex: 0xb5, official: true }],
        (Instr::LDA, AdrMode::ABSY) => seq![Opcode { hex: 0xb9, official: true }],
        (Instr::LDA, AdrMode::ABSX) => seq![Opcode { hex: 0xbd, official: true }],
        (Instr::LDX, AdrMode::IMM) => seq![Opcode { hex: 0xa2, official: true }],
        (Instr::LDX, AdrMode::ZP) => seq![Opcode { hex: 0xa6, official: true }],
        (Instr::LDX, AdrMode::ABS) => seq![Opcode { hex: 0xae, official: true }],
        (Instr::LDX, AdrMode::ZPY) => seq![Opcode { hex: 0xb6, official: true }],
        (Instr::LDX, AdrMode::ABSY) => seq![Opcode { hex: 0xbe, official: true }],
        (Instr::LAX, AdrMode::INDX) => seq![Opcode { hex: 0xa3, official: false }],
        (Instr::LAX, AdrMode::ZP) => seq![Opcode { hex: 0xa7, official: false }],
        (Instr::LAX, AdrMode::IMM) => seq![Opcode { hex: 0xab, official: false }],
        (Instr::LAX, AdrMode::ABS) => seq![Opcode { hex: 0xaf, official: false }],
        (Instr::LAX, AdrMode::INDY) => seq![Opcode { hex: 0xb3, official: false }],
        (Instr::LAX, AdrMode::ZPY) => seq![Opcode { hex: 0xb7, official: false }],
        (Instr::LAX, AdrMode::ABSY) => seq![Opcode { hex: 0xbf, official: false }],
        (Instr::TAY, AdrMode::IMPL) => seq![Opcode { hex: 0xa8, official: true }],
        (Instr::TAX, AdrMode::IMPL) => seq![Opcode { hex: 0xaa, official: true }],
        (Instr::BCS, AdrMode::REL) => seq![Opcode { hex: 0xb0, official: true }],
        (Instr::CLV, AdrMode::IMPL) => seq![Opcode { hex: 0xb8, official: true }],
        (Instr::TSX, AdrMode::IMPL) => seq![Opcode { hex: 0xba, official: true }],
        (Instr::LAS, AdrMode::ABSY) => seq![Opcode { hex: 0xbb, official: false }],
        (Instr::CPY, AdrMode::IMM) => seq![Opcode { hex: 0xc0, official: true }],
        (Instr::CPY, AdrMode::ZP) => seq![Opcode { hex: 0xc4, official: true }],
        (Instr::CPY, AdrMode::ABS) => seq![Opcode { hex: 0xcc, official: true }],
        (Instr::CMP, AdrMode::INDX) => seq![Opcode { hex: 0xc1, official: true }],
        (Instr::CMP, AdrMode::ZP) => seq![Opcode { hex: 0xc5, official: true }],
        (Instr::CMP, AdrMode::IMM) => seq![Opcode { hex: 0xc9, official: true }],
        (Instr::CMP, AdrMode::ABS) => seq![Opcode { hex: 0xcd, official: true }],
        (Instr::CMP, AdrMode::INDY) => seq![Opcode { hex: 0xd1, official: true }],
        (Instr::CMP, AdrMode::ZPX) => seq![Opcode { hex: 0xd5, official: true }],
        (Instr::CMP, AdrMode::ABSY) => seq![Opcode { hex: 0xd9, official: true }],
        (Instr::CMP, AdrMode::ABSX) => seq![Opcode { hex: 0xdd, official: true }],
        (Instr::DCP, AdrMode::INDX) => seq![Opcode { hex: 0xc3, official: false }],
        (Instr::DCP, AdrMode::ZP) => seq![Opcode { hex: 0xc7, official: false }],
        (Instr::DCP, AdrMode::ABS) => seq![Opcode { hex: 0xcf, official: false }],
        (Instr::DCP, AdrMode::INDY) => seq![Opcode { hex: 0xd3, official: false }],
        (Instr::DCP, AdrMode::ZPX) => seq![Opcode { hex: 0xd7, official: false }],
        (Instr::DCP, AdrMode::ABSY) => seq![Opcode { hex: 0xdb, official: false }],
        (Instr::DCP, AdrMode::ABSX) => seq![Opcode { hex: 0xdf, official: false }],
        (Instr::DEC, AdrMode::ZP) => seq![Opcode { hex: 0xc6, official: true }],
        (Instr::DEC, AdrMode::ABS) => seq![Opcode { hex: 0xce, official: true }],
        (Instr::DEC, AdrMode::ZPX) => seq![Opcode { hex: 0xd6, official: true }],
        (Instr::DEC, AdrMode::ABSX) => seq![Opcode { hex: 0xde, official: true }],
        (Instr::INY, AdrMode::IMPL) => seq![Opcode { hex: 0xc8, official: true }],
        (Instr::DEX, AdrMode::IMPL) => seq![Opcode { hex: 0xca, official: true }],
        (Instr::AXS, AdrMode::IMM) => seq![Opcode { hex: 0xcb, official: false }],
        (Instr::BNE, AdrMode::REL) => seq![Opcode { hex: 0xd0, official: true }],
        (Instr::CLD, AdrMode::IMPL) => seq![Opcode { hex: 0xd8, official: true }],
        (Instr::CPX, AdrMode::IMM) => seq![Opcode { hex: 0xe0, official: true }],
        (Instr::CPX, AdrMode::ZP) => seq![Opcode { hex: 0xe4, official: true }],
        (Instr::CPX, AdrMode::ABS) => seq![Opcode { hex: 0xec, official: true }],
        (Instr::SBC, AdrMode::INDX) => seq![Opcode { hex: 0xe1, official: true }],
        (Instr::SBC, AdrMode::ZP) => seq![Opcode { hex: 0xe5, official: true }],
        (Instr::SBC, AdrMode::IMM) => seq![Opcode { hex: 0xe9, official: true }, Opcode { hex: 0xeb, official: false }],
        (Instr::SBC, AdrMode::ABS) => seq![Opcode { hex: 0xed, official: true }],
        (Instr::SBC, AdrMode::INDY) => seq![Opcode { hex: 0xf1, official: true }],
        (Instr::SBC, AdrMode::ZPX) => seq![Opcode { hex: 0xf5, official: true }],
        (Instr::SBC, AdrMode::ABSY) => seq![Opcode { hex: 0xf9, official: true }],
        (Instr::SBC, AdrMode::ABSX) => seq![Opcode { hex: 0xfd, official: true }],
        (Instr::ISC, AdrMode::INDX) => seq![Opcode { hex: 0xe3, official: false }],
        (Instr::ISC, AdrMode::ZP) => seq![Opcode { hex: 0xe7, official: false }],
        (Instr::ISC, AdrMode::ABS) => seq![Opcode { hex: 0xef, official: false }],
        (Instr::ISC, AdrMode::INDY) => seq![Opcode { hex: 0xf3, official: false }],
        (Instr::ISC, AdrMode::ZPX) => seq![Opcode { hex: 0xf7, official: false }],
        (Instr::ISC, AdrMode::ABSY) => seq![Opcode { hex: 0xfb, official: false }],
        (Instr::ISC, AdrMode::ABSX) => seq![Opcode { hex: 0xff, official: false }],
        (Instr::INC, AdrMode::ZP) => seq![Opcode { hex: 0xe6, official: true }],
        (Instr::INC, AdrMode::ABS) => seq![Opcode { hex: 0xee, official: true }],
        (Instr::INC, AdrMode::ZPX) => seq![Opcode { hex: 0xf6, official: true }],
        (Instr::INC, AdrMode::ABSX) => seq![Opcode { hex: 0xfe, official: true }],
        (Instr::INX, AdrMode::IMPL) => seq![Opcode { hex: 0xe8, official: true }],
        (Instr::BEQ, AdrMode::REL) => seq![Opcode { hex: 0xf0, official: true }],
        (Instr::SED, AdrMode::IMPL) => seq![Opcode { hex: 0xf8, official: true }],
        _ => Seq::empty(),
    }
}

fn v1(a0: Opcode) -> (r: Vec<Opcode>)
    ensures
        r@ == seq![a0],
{
    let mut v: Vec<Opcode> = Vec::new();
    v.push(a0);
    proof {
        assert(v@ =~= seq![a0]);
    }
    v
}

fn v2(a0: Opcode, a1: Opcode) -> (r: Vec<Opcode>)
    ensures
        r@ == seq![a0, a1],
{
    let mut v: Vec<Opcode> = Vec::new();
    v.push(a0);
    v.push(a1);
    proof {
        assert(v@ =~= seq![a0, a1]);
    }
    v
}

fn v3(a0: Opcode, a1: Opcode, a2: Opcode) -> (r: Vec<Opcode>)
    ensures
        r@ == seq![a0, a1, a2],
{
    let mut v: Vec<Opcode> = Vec::new();
    v.push(a0);
    v.push(a1);
    v.push(a2);
    proof {
        assert(v@ =~= seq![a0, a1, a2]);
    }
    v
}

fn v5(a0: Opcode, a1: Opcode, a2: Opcode, a3: Opcode, a4: Opcode) -> (r: Vec<Opcode>)
    ensures
        r@ == seq![a0, a1, a2, a3, a4],
{
    let mut v: Vec<Opcode> = Vec::new();
    v.push(a0);
    v.push(a1);
    v.push(a2);
    v.push(a3);
    v.push(a4);
    proof {
        assert(v@ =~= seq![a0, a1, a2, a3, a4]);
    }
    v
}

fn v6(a0: Opcode, a1: Opcode, a2: Opcode, a3: Opcode, a4: Opcode, a5: Opcode) -> (r: Vec<Opcode>)
    ensures
        r@ == seq![a0, a1, a2, a3, a4, a5],
{
    let mut v: Vec<Opcode> = Vec::new();
    v.push(a0);
    v.push(a1);
    v.push(a2);
    v.push(a3);
    v.push(a4);
    v.push(a5);
    proof {
        assert(v@ =~= seq![a0, a1, a2, a3, a4, a5]);
    }
    v
}

fn v7(a0: Opcode, a1: Opcode, a2: Opcode, a3: Opcode, a4: Opcode, a5: Opcode, a6: Opcode) -> (r: Vec<Opcode>)
    ensures
        r@ == seq![a0, a1, a2, a3, a4, a5, a6],
{
    let mut v: Vec<Opcode> = Vec::new();
    v.push(a0);
    v.push(a1);
    v.push(a2);
    v.push(a3);
    v.push(a4);
    v.push(a5);
    v.push(a6);
    proof {
        assert(v@ =~= seq![a0, a1, a2, a3, a4, a5, a6]);
    }
    v
}

fn v12(a0: Opcode, a1: Opcode, a2: Opcode, a3: Opcode, a4: Opcode, a5: Opcode, a6: Opcode, a7: Opcode, a8: Opcode, a9: Opcode, a10: Opcode, a11: Opcode) -> (r: Vec<Opcode>)
    ensures
        r@ == seq![a0, a1, a2, a3, a4, a5, a6, a7, a8, a9, a10, a11],
{
    let mut v: Vec<Opcode> = Vec::new();
    v.push(a0);
    v.push(a1);
    v.push(a2);
    v.push(a3);
    v.push(a4);
    v.push(a5);
    v.push(a6);
    v.push(a7);
    v.push(a8);
    v.push(a9);
    v.push(a10);
    v.push(a11);
    proof {
        assert(v@ =~= seq![a0, a1, a2, a3, a4, a5, a6, a7, a8, a9, a10, a11]);
    }
    v
}

/// The candidate encodings for `(instr, mode)`; empty when the pairing
/// does not exist on the 6502.
pub fn opcode_candidates(instr: Instr, mode: AdrMode) -> (r: Vec<Opcode>)
    ensures
        r@ == spec_opcode_candidates(instr, mode),
{
    match (instr, mode) {
        (Instr::BRK, AdrMode::IMPL) => v1(Opcode::new(0x00, true)),
        (Instr::ORA, AdrMode::INDX) => v1(Opcode::new(0x01, true)),
        (Instr::ORA, AdrMode::ZP) => v1(Opcode::new(0x05, true)),
        (Instr::ORA, AdrMode::IMM) => v1(Opcode::new(0x09, true)),
        (Instr::ORA, AdrMode::ABS) => v1(Opcode::new(0x0d, true)),
        (Instr::ORA, AdrMode::INDY) => v1(Opcode::new(0x11, true)),
        (Instr::ORA, AdrMode::ZPX) => v1(Opcode::new(0x15, true)),
        (Instr::ORA, AdrMode::ABSY) => v1(Opcode::new(0x19, true)),
        (Instr::ORA, AdrMode::ABSX) => v1(Opcode::new(0x1d, true)),
        (Instr::STP, AdrMode::IMPL) => v12(Opcode::new(0x02, false), Opcode::new(0x12, false), Opcode::new(0x22, false), Opcode::new(0x32, false), Opcode::new(0x42, false), Opcode::new(0x52, false), Opcode::new(0x62, false), Opcode::new(0x72, false), Opcode::new(0x92, false), Opcode::new(0xb2, false), Opcode::new(0xd2, false), Opcode::new(0xf2, false)),
        (Instr::SLO, AdrMode::INDX) => v1(Opcode::new(0x03, false)),
        (Instr::SLO, AdrMode::ZP) => v1(Opcode::new(0x07, false)),
        (Instr::SLO, AdrMode::ABS) => v1(Opcode::new(0x0f, false)),
        (Instr::SLO, AdrMode::INDY) => v1(Opcode::new(0x13, false)),
        (Instr::SLO, AdrMode::ZPX) => v1(Opcode::new(0x17, false)),
        (Instr::SLO, AdrMode::ABSY) => v1(Opcode::new(0x1b, false)),
        (Instr::SLO, AdrMode::ABSX) => v1(Opcode::new(0x1f, false)),
        (Instr::NOP, AdrMode::ZP) => v3(Opcode::new(0x04, false), Opcode::new(0x44, false), Opcode::new(0x64, false)),
        (Instr::NOP, AdrMode::ABS) => v1(Opcode::new(0x0c, false)),
        (Instr::NOP, AdrMode::ZPX) => v6(Opcode::new(0x14, false), Opcode::new(0x34, false), Opcode::new(0x54, false), Opcode::new(0x74, false), Opcode::new(0xd4, false), Opcode::new(0xf4, false)),
        (Instr::NOP, AdrMode::IMPL) => v7(Opcode::new(0x1a, false), Opcode::new(0x3a, false), Opcode::new(0x5a, false), Opcode::new(0x7a, false), Opcode::new(0xda, false), Opcode::new(0xea, true), Opcode::new(0xfa, false)),
        (Instr::NOP, AdrMode::ABSX) => v6(Opcode::new(0x1c, false), Opcode::new(0x3c, false), Opcode::new(0x5c, false), Opcode::new(0x7c, false), Opcode::new(0xdc, false), Opcode::new(0xfc, false)),
        (Instr::NOP, AdrMode::IMM) => v5(Opcode::new(0x80, false), Opcode::new(0x82, false), Opcode::new(0x89, false), Opcode::new(0xc2, false), Opcode::new(0xe2, false)),
        (Instr::ASL, AdrMode::ZP) => v1(Opcode::new(0x06, true)),
        (Instr::ASL, AdrMode::IMPL) => v1(Opcode::new(0x0a, true)),
        (Instr::ASL, AdrMode::ABS) => v1(Opcode::new(0x0e, true)),
        (Instr::ASL, AdrMode::ZPX) => v1(Opcode::new(0x16, true)),
        (Instr::ASL, AdrMode::ABSX) => v1(Opcode::new(0x1e, true)),
        (Instr::PHP, AdrMode::IMPL) => v1(Opcode::new(0x08, true)),
        (Instr::ANC, AdrMode::IMM) => v2(Opcode::new(0x0b, false), Opcode::new(0x2b, false)),
        (Instr::BPL, AdrMode::REL) => v1(Opcode::new(0x10, true)),
        (Instr::CLC, AdrMode::IMPL) => v1(Opcode::new(0x18, true)),
        (Instr::JSR, AdrMode::ABS) => v1(Opcode::new(0x20, true)),
        (Instr::AND, AdrMode::INDX) => v1(Opcode::new(0x21, true)),
        (Instr::AND, AdrMode::ZP) => v1(Opcode::new(0x25, true)),
        (Instr::AND, AdrMode::IMM) => v1(Opcode::new(0x29, true)),
        (Instr::AND, AdrMode::ABS) => v1(Opcode::new(0x2d, true)),
        (Instr::AND, AdrMode::INDY) => v1(Opcode::new(0x31, true)),
        (Instr::AND, AdrMode::ZPX) => v1(Opcode::new(0x35, true)),
        (Instr::AND, AdrMode::ABSY) => v1(Opcode::new(0x39, true)),
        (Instr::AND, AdrMode::ABSX) => v1(Opcode::new(0x3d, true)),
        (Instr::RLA, AdrMode::INDX) => v1(Opcode::new(0x23, false)),
        (Instr::RLA, AdrMode::ZP) => v1(Opcode::new(0x27, false)),
        (Instr::RLA, AdrMode::ABS) => v1(Opcode::new(0x2f, false)),
        (Instr::RLA, AdrMode::INDY) => v1(Opcode::new(0x33, false)),
        (Instr::RLA, AdrMode::ZPX) => v1(Opcode::new(0x37, false)),
        (Instr::RLA, AdrMode::ABSY) => v1(Opcode::new(0x3b, false)),
        (Instr::RLA, AdrMode::ABSX) => v1(Opcode::new(0x3f, false)),
        (Instr::BIT, AdrMode::ZP) => v1(Opcode::new(0x24, true)),
        (Instr::BIT, AdrMode::ABS) => v1(Opcode::new(0x2c, true)),
        (Instr::ROL, AdrMode::ZP) => v1(Opcode::new(0x26, true)),
        (Instr::ROL, AdrMode::IMPL) => v1(Opcode::new(0x2a, true)),
        (Instr::ROL, AdrMode::ABS) => v1(Opcode::new(0x2e, true)),
        (Instr::ROL, AdrMode::ZPX) => v1(Opcode::new(0x36, true)),
        (Instr::ROL, AdrMode::ABSX) => v1(Opcode::new(0x3e, true)),
        (Instr::PLP, AdrMode::IMPL) => v1(Opcode::new(0x28, true)),
        (Instr::BMI, AdrMode::REL) => v1(Opcode::new(0x30, true)),
        (Instr::SEC, AdrMode::IMPL) => v1(Opcode::new(0x38, true)),
        (Instr::RTI, AdrMode::IMPL) => v1(Opcode::new(0x40, true)),
        (Instr::EOR, AdrMode::INDX) => v1(Opcode::new(0x41, true)),
        (Instr::EOR, AdrMode::ZP) => v1(Opcode::new(0x45, true)),
        (Instr::EOR, AdrMode::IMM) => v1(Opcode::new(0x49, true)),
        (Instr::EOR, AdrMode::ABS) => v1(Opcode::new(0x4d, true)),
        (Instr::EOR, AdrMode::INDY) => v1(Opcode::new(0x51, true)),
        (Instr::EOR, AdrMode::ZPX) => v1(Opcode::new(0x55, true)),
        (Instr::EOR, AdrMode::ABSY) => v1(Opcode::new(0x59, true)),
        (Instr::EOR, AdrMode::ABSX) => v1(Opcode::new(0x5d, true)),
        (Instr::SRE, AdrMode::INDX) => v1(Opcode::new(0x43, false)),
        (Instr::SRE, AdrMode::ZP) => v1(Opcode::new(0x47, false)),
        (Instr::SRE, AdrMode::ABS) => v1(Opcode::new(0x4f, false)),
        (Instr::SRE, AdrMode::INDY) => v1(Opcode::new(0x53, false)),
        (Instr::SRE, AdrMode::ZPX) => v1(Opcode::new(0x57, false)),
        (Instr::SRE, AdrMode::ABSY) => v1(Opcode::new(0x5b, false)),
        (Instr::SRE, AdrMode::ABSX) => v1(Opcode::new(0x5f, false)),
        (Instr::LSR, AdrMode::ZP) => v1(Opcode::new(0x46, true)),
        (Instr::LSR, AdrMode::IMPL) => v1(Opcode::new(0x4a, true)),
        (Instr::LSR, AdrMode::ABS) => v1(Opcode::new(0x4e, true)),
        (Instr::LSR, AdrMode::ZPX) => v1(Opcode::new(0x56, true)),
        (Instr::LSR, AdrMode::ABSX) => v1(Opcode::new(0x5e, true)),
        (Instr::PHA, AdrMode::IMPL) => v1(Opcode::new(0x48, true)),
        (Instr::ALR, AdrMode::IMM) => v1(Opcode::new(0x4b, false)),
        (Instr::JMP, AdrMode::ABS) => v1(Opcode::new(0x4c, true)),
        (Instr::JMP, AdrMode::IND) => v1(Opcode::new(0x6c, true)),
        (Instr::BVC, AdrMode::REL) => v1(Opcode::new(0x50, true)),
        (Instr::CLI, AdrMode::IMPL) => v1(Opcode::new(0x58, true)),
        (Instr::RTS, AdrMode::IMPL) => v1(Opcode::new(0x60, true)),
        (Instr::ADC, AdrMode::INDX) => v1(Opcode::new(0x61, true)),
        (Instr::ADC, AdrMode::ZP) => v1(Opcode::new(0x65, true)),
        (Instr::ADC, AdrMode::IMM) => v1(Opcode::new(0x69, true)),
        (Instr::ADC, AdrMode::ABS) => v1(Opcode::new(0x6d, true)),
        (Instr::ADC, AdrMode::INDY) => v1(Opcode::new(0x71, true)),
        (Instr::ADC, AdrMode::ZPX) => v1(Opcode::new(0x75, true)),
        (Instr::ADC, AdrMode::ABSY) => v1(Opcode::new(0x79, true)),
        (Instr::ADC, AdrMode::ABSX) => v1(Opcode::new(0x7d, true)),
        (Instr::RRA, AdrMode::INDX) => v1(Opcode::new(0x63, false)),
        (Instr::RRA, AdrMode::ZP) => v1(Opcode::new(0x67, false)),
        (Instr::RRA, AdrMode::ABS) => v1(Opcode::new(0x6f, false)),
        (Instr::RRA, AdrMode::INDY) => v1(Opcode::new(0x73, false)),
        (Instr::RRA, AdrMode::ZPX) => v1(Opcode::new(0x77, false)),
        (Instr::RRA, AdrMode::ABSY) => v1(Opcode::new(0x7b, false)),
        (Instr::RRA, AdrMode::ABSX) => v1(Opcode::new(0x7f, false)),
        (Instr::ROR, AdrMode::ZP) => v1(Opcode::new(0x66, true)),
        (Instr::ROR, AdrMode::IMPL) => v1(Opcode::new(0x6a, true)),
        (Instr::ROR, AdrMode::ABS) => v1(Opcode::new(0x6e, true)),
        (Instr::ROR, AdrMode::ZPX) => v1(Opcode::new(0x76, true)),
        (Instr::ROR, AdrMode::ABSX) => v1(Opcode::new(0x7e, true)),
        (Instr::PLA, AdrMode::IMPL) => v1(Opcode::new(0x68, true)),
        (Instr::ARR, AdrMode::IMM) => v1(Opcode::new(0x6b, false)),
        (Instr::BVS, AdrMode::REL) => v1(Opcode::new(0x70, true)),
        (Instr::SEI, AdrMode::IMPL) => v1(Opcode::new(0x78, true)),
        (Instr::STA, AdrMode::INDX) => v1(Opcode::new(0x81, true)),
        (Instr::STA, AdrMode::ZP) => v1(Opcode::new(0x85, true)),
        (Instr::STA, AdrMode::ABS) => v1(Opcode::new(0x8d, true)),
        (Instr::STA, AdrMode::INDY) => v1(Opcode::new(0x91, true)),
        (Instr::STA, AdrMode::ZPX) => v1(Opcode::new(0x95, true)),
        (Instr::STA, AdrMode::ABSY) => v1(Opcode::new(0x99, true)),
        (Instr::STA, AdrMode::ABSX) => v1(Opcode::new(0x9d, true)),
        (Instr::SAX, AdrMode::INDX) => v1(Opcode::new(0x83, false)),
        (Instr::SAX, AdrMode::ZP) => v1(Opcode::new(0x87, false)),
        (Instr::SAX, AdrMode::ABS) => v1(Opcode::new(0x8f, false)),
        (Instr::SAX, AdrMode::ZPY) => v1(Opcode::new(0x97, false)),
        (Instr::STY, AdrMode::ZP) => v1(Opcode::new(0x84, true)),
        (Instr::STY, AdrMode::ABS) => v1(Opcode::new(0x8c, true)),
        (Instr::STY, AdrMode::ZPX) => v1(Opcode::new(0x94, true)),
        (Instr::STX, AdrMode::ZP) => v1(Opcode::new(0x86, true)),
        (Instr::STX, AdrMode::ABS) => v1(Opcode::new(0x8e, true)),
        (Instr::STX, AdrMode::ZPY) => v1(Opcode::new(0x96, true)),
        (Instr::DEY, AdrMode::IMPL) => v1(Opcode::new(0x88, true)),
        (Instr::TXA, AdrMode::IMPL) => v1(Opcode::new(0x8a, true)),
        (Instr::XAA, AdrMode::IMM) => v1(Opcode::new(0x8b, false)),
        (Instr::BCC, AdrMode::REL) => v1(Opcode::new(0x90, true)),
        (Instr::AHX, AdrMode::INDY) => v1(Opcode::new(0x93, false)),
        (Instr::AHX, AdrMode::ABSY) => v1(Opcode::new(0x9f, false)),
        (Instr::TYA, AdrMode::IMPL) => v1(Opcode::new(0x98, true)),
        (Instr::TXS, AdrMode::IMPL) => v1(Opcode::new(0x9a, true)),
        (Instr::TAS, AdrMode::ABSY) => v1(Opcode::new(0x9b, false)),
        (Instr::SHY, AdrMode::ABSX) => v1(Opcode::new(0x9c, false)),
        (Instr::SHX, AdrMode::ABSY) => v1(Opcode::new(0x9e, false)),
        (Instr::LDY, AdrMode::IMM) => v1(Opcode::new(0xa0, true)),
        (Instr::LDY, AdrMode::ZP) => v1(Opcode::new(0xa4, true)),
        (Instr::LDY, AdrMode::ABS) => v1(Opcode::new(0xac, true)),
        (Instr::LDY, AdrMode::ZPX) => v1(Opcode::new(0xb4, true)),
        (Instr::LDY, AdrMode::ABSX) => v1(Opcode::new(0xbc, true)),
        (Instr::LDA, AdrMode::INDX) => v1(Opcode::new(0xa1, true)),
        (Instr::LDA, AdrMode::ZP) => v1(Opcode::new(0xa5, true)),
        (Instr::LDA, AdrMode::IMM) => v1(Opcode::new(0xa9, true)),
        (Instr::LDA, AdrMode::ABS) => v1(Opcode::new(0xad, true)),
        (Instr::LDA, AdrMode::INDY) => v1(Opcode::new(0xb1, true)),
        (Instr::LDA, AdrMode::ZPX) => v1(Opcode::new(0xb5, true)),
        (Instr::LDA, AdrMode::ABSY) => v1(Opcode::new(0xb9, true)),
        (Instr::LDA, AdrMode::ABSX) => v1(Opcode::new(0xbd, true)),
        (Instr::LDX, AdrMode::IMM) => v1(Opcode::new(0xa2, true)),
        (Instr::LDX, AdrMode::ZP) => v1(Opcode::new(0xa6, true)),
        (Instr::LDX, AdrMode::ABS) => v1(Opcode::new(0xae, true)),
        (Instr::LDX, AdrMode::ZPY) => v1(Opcode::new(0xb6, true)),
        (Instr::LDX, AdrMode::ABSY) => v1(Opcode::new(0xbe, true)),
        (Instr::LAX, AdrMode::INDX) => v1(Opcode::new(0xa3, false)),
        (Instr::LAX, AdrMode::ZP) => v1(Opcode::new(0xa7, false)),
        (Instr::LAX, AdrMode::IMM) => v1(Opcode::new(0xab, false)),
        (Instr::LAX, AdrMode::ABS) => v1(Opcode::new(0xaf, false)),
        (Instr::LAX, AdrMode::INDY) => v1(Opcode::new(0xb3, false)),
        (Instr::LAX, AdrMode::ZPY) => v1(Opcode::new(0xb7, false)),
        (Instr::LAX, AdrMode::ABSY) => v1(Opcode::new(0xbf, false)),
        (Instr::TAY, AdrMode::IMPL) => v1(Opcode::new(0xa8, true)),
        (Instr::TAX, AdrMode::IMPL) => v1(Opcode::new(0xaa, true)),
        (Instr::BCS, AdrMode::REL) => v1(Opcode::new(0xb0, true)),
        (Instr::CLV, AdrMode::IMPL) => v1(Opcode::new(0xb8, true)),
        (Instr::TSX, AdrMode::IMPL) => v1(Opcode::new(0xba, true)),
        (Instr::LAS, AdrMode::ABSY) => v1(Opcode::new(0xbb, false)),
        (Instr::CPY, AdrMode::IMM) => v1(Opcode::new(0xc0, true)),
        (Instr::CPY, AdrMode::ZP) => v1(Opcode::new(0xc4, true)),
        (Instr::CPY, AdrMode::ABS) => v1(Opcode::new(0xcc, true)),
        (Instr::CMP, AdrMode::INDX) => v1(Opcode::new(0xc1, true)),
        (Instr::CMP, AdrMode::ZP) => v1(Opcode::new(0xc5, true)),
        (Instr::CMP, AdrMode::IMM) => v1(Opcode::new(0xc9, true)),
        (Instr::CMP, AdrMode::ABS) => v1(Opcode::new(0xcd, true)),
        (Instr::CMP, AdrMode::INDY) => v1(Opcode::new(0xd1, true)),
        (Instr::CMP, AdrMode::ZPX) => v1(Opcode::new(0xd5, true)),
        (Instr::CMP, AdrMode::ABSY) => v1(Opcode::new(0xd9, true)),
        (Instr::CMP, AdrMode::ABSX) => v1(Opcode::new(0xdd, true)),
        (Instr::DCP, AdrMode::INDX) => v1(Opcode::new(0xc3, false)),
        (Instr::DCP, AdrMode::ZP) => v1(Opcode::new(0xc7, false)),
        (Instr::DCP, AdrMode::ABS) => v1(Opcode::new(0xcf, false)),
        (Instr::DCP, AdrMode::INDY) => v1(Opcode::new(0xd3, false)),
        (Instr::DCP, AdrMode::ZPX) => v1(Opcode::new(0xd7, false)),
        (Instr::DCP, AdrMode::ABSY) => v1(Opcode::new(0xdb, false)),
        (Instr::DCP, AdrMode::ABSX) => v1(Opcode::new(0xdf, false)),
        (Instr::DEC, AdrMode::ZP) => v1(Opcode::new(0xc6, true)),
        (Instr::DEC, AdrMode::ABS) => v1(Opcode::new(0xce, true)),
        (Instr::DEC, AdrMode::ZPX) => v1(Opcode::new(0xd6, true)),
        (Instr::DEC, AdrMode::ABSX) => v1(Opcode::new(0xde, true)),
        (Instr::INY, AdrMode::IMPL) => v1(Opcode::new(0xc8, true)),
        (Instr::DEX, AdrMode::IMPL) => v1(Opcode::new(0xca, true)),
        (Instr::AXS, AdrMode::IMM) => v1(Opcode::new(0xcb, false)),
        (Instr::BNE, AdrMode::REL) => v1(Opcode::new(0xd0, true)),
        (Instr::CLD, AdrMode::IMPL) => v1(Opcode::new(0xd8, true)),
        (Instr::CPX, AdrMode::IMM) => v1(Opcode::new(0xe0, true)),
        (Instr::CPX, AdrMode::ZP) => v1(Opcode::new(0xe4, true)),
        (Instr::CPX, AdrMode::ABS) => v1(Opcode::new(0xec, true)),
        (Instr::SBC, AdrMode::INDX) => v1(Opcode::new(0xe1, true)),
        (Instr::SBC, AdrMode::ZP) => v1(Opcode::new(0xe5, true)),
        (Instr::SBC, AdrMode::IMM) => v2(Opcode::new(0xe9, true), Opcode::new(0xeb, false)),
        (Instr::SBC, AdrMode::ABS) => v1(Opcode::new(0xed, true)),
        (Instr::SBC, AdrMode::INDY) => v1(Opcode::new(0xf1, true)),
        (Instr::SBC, AdrMode::ZPX) => v1(Opcode::new(0xf5, true)),
        (Instr::SBC, AdrMode::ABSY) => v1(Opcode::new(0xf9, true)),
        (Instr::SBC, AdrMode::ABSX) => v1(Opcode::new(0xfd, true)),
        (Instr::ISC, AdrMode::INDX) => v1(Opcode::new(0xe3, false)),
        (Instr::ISC, AdrMode::ZP) => v1(Opcode::new(0xe7, false)),
        (Instr::ISC, AdrMode::ABS) => v1(Opcode::new(0xef, false)),
        (Instr::ISC, AdrMode::INDY) => v1(Opcode::new(0xf3, false)),
        (Instr::ISC, AdrMode::ZPX) => v1(Opcode::new(0xf7, false)),
        (Instr::ISC, AdrMode::ABSY) => v1(Opcode::new(0xfb, false)),
        (Instr::ISC, AdrMode::ABSX) => v1(Opcode::new(0xff, false)),
        (Instr::INC, AdrMode::ZP) => v1(Opcode::new(0xe6, true)),
        (Instr::INC, AdrMode::ABS) => v1(Opcode::new(0xee, true)),
        (Instr::INC, AdrMode::ZPX) => v1(Opcode::new(0xf6, true)),
        (Instr::INC, AdrMode::ABSX) => v1(Opcode::new(0xfe, true)),
        (Instr::INX, AdrMode::IMPL) => v1(Opcode::new(0xe8, true)),
        (Instr::BEQ, AdrMode::REL) => v1(Opcode::new(0xf0, true)),
        (Instr::SED, AdrMode::IMPL) => v1(Opcode::new(0xf8, true)),
        _ => Vec::new(),
    }
}

} // verus!
