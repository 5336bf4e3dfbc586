//! The mnemonic table: spelling, base opcode and operand form of every 8085 mnemonic.
use vstd::prelude::*;

verus! {

/// The 8085 mnemonics.
#[derive(Clone, Copy, PartialEq, Eq, Structural, Debug)]
pub enum Mnemonic {
    Add,
    Aci,
    Adc,
    Adi,
    Ana,
    Ani,
    Call,
    Cc,
    Cm,
    Cma,
    Cmc,
    Cmp,
    Cnc,
    Cnz,
    Cp,
    Cpe,
    Cpi,
    Cpo,
    Cz,
    Daa,
    Dad,
    Dcr,
    Dcx,
    Di,
    Ei,
    Hlt,
    In,
    Inr,
    Inx,
    Jc,
    Jnc,
    Jm,
    Jmp,
    Jnz,
    Jp,
    Jpe,
    Jpo,
    Jz,
    Lda,
    Ldax,
    Lhld,
    Lxi,
    Mov,
    Mvi,
    Nop,
    Ora,
    Ori,
    Out,
    Pchl,
    Pop,
    Push,
    Ral,
    Rar,
    Rc,
    Ret,
    Rim,
    Rlc,
    Rm,
    Rnc,
    Rnz,
    Rp,
    Rpe,
    Rpo,
    Rrc,
    Rst,
    Rz,
    Sbb,
    Sbi,
    Shld,
    Sim,
    Sphl,
    Sta,
    Stax,
    Stc,
    Sub,
    Sui,
    Xchg,
    Xra,
    Xri,
    Xthl,
}

/// How an instruction's operands are written and encoded.
#[derive(Clone, Copy, PartialEq, Eq, Structural, Debug)]
pub enum Form {
    /// No operand: the base opcode alone.
    Implicit,
    /// An 8-bit immediate after the opcode.
    Imm8,
    /// A register whose index is added to the opcode.
    RegLow,
    /// A register whose index times 8 is added to the opcode.
    RegHigh,
    /// A label, resolved to a 16-bit address.
    Address,
    /// A 16-bit address, low byte first.
    Absolute,
    /// A pair B, D, H or SP whose index times 16 is added to the opcode.
    Pair,
    /// A pair as for `Pair`, a comma and a 16-bit immediate.
    PairWord,
    /// Pair B or D.
    LoadStore,
    /// Pair B, D, H or PSW.
    Stack,
    /// A vector number 0 to 7.
    Restart,
    /// Destination register, comma, source register.
    Move,
    /// A register as for `RegHigh`, a comma and an 8-bit immediate.
    MoveImmediate,
}

/// The descriptor of a mnemonic: base opcode, instruction size in bytes and operand count.
#[derive(Clone, Copy, PartialEq, Eq, Structural, Debug)]
pub struct Instruction {
    pub opcode: u8,
    pub size: u8,
    pub args: u8,
}

impl Instruction {
    pub fn new(opcode: u8, size: u8, args: u8) -> (r: Instruction)
        ensures
            r == (Instruction { opcode, size, args }),
    {
        Instruction { opcode, size, args }
    }
}

/// Size in bytes of an instruction of the given form.
pub open spec fn form_size(f: Form) -> u8 {
    match f {
        Form::Imm8 | Form::MoveImmediate => 2,
        Form::Address | Form::Absolute | Form::PairWord => 3,
        _ => 1,
    }
}

/// Number of operands of the given form.
pub open spec fn form_args(f: Form) -> u8 {
    match f {
        Form::Implicit => 0,
        Form::Move | Form::MoveImmediate | Form::PairWord => 2,
        _ => 1,
    }
}

/// A mnemonic's spelling in upper case, padded with spaces to four characters.
pub open spec fn spelling(m: Mnemonic) -> (char, char, char, char) {
    match m {
        Mnemonic::Add => ('A', 'D', 'D', ' '),
        Mnemonic::Aci => ('A', 'C', 'I', ' '),
        Mnemonic::Adc => ('A', 'D', 'C', ' '),
        Mnemonic::Adi => ('A', 'D', 'I', ' '),
        Mnemonic::Ana => ('A', 'N', 'A', ' '),
        Mnemonic::Ani => ('A', 'N', 'I', ' '),
        Mnemonic::Call => ('C', 'A', 'L', 'L'),
        Mnemonic::Cc => ('C', 'C', ' ', ' '),
        Mnemonic::Cm => ('C', 'M', ' ', ' '),
        Mnemonic::Cma => ('C', 'M', 'A', ' '),
        Mnemonic::Cmc => ('C', 'M', 'C', ' '),
        Mnemonic::Cmp => ('C', 'M', 'P', ' '),
        Mnemonic::Cnc => ('C', 'N', 'C', ' '),
        Mnemonic::Cnz => ('C', 'N', 'Z', ' '),
        Mnemonic::Cp => ('C', 'P', ' ', ' '),
        Mnemonic::Cpe => ('C', 'P', 'E', ' '),
        Mnemonic::Cpi => ('C', 'P', 'I', ' '),
        Mnemonic::Cpo => ('C', 'P', 'O', ' '),
        Mnemonic::Cz => ('C', 'Z', ' ', ' '),
        Mnemonic::Daa => ('D', 'A', 'A', ' '),
        Mnemonic::Dad => ('D', 'A', 'D', ' '),
        Mnemonic::Dcr => ('D', 'C', 'R', ' '),
        Mnemonic::Dcx => ('D', 'C', 'X', ' '),
        Mnemonic::Di => ('D', 'I', ' ', ' '),
        Mnemonic::Ei => ('E', 'I', ' ', ' '),
        Mnemonic::Hlt => ('H', 'L', 'T', ' '),
        Mnemonic::In => ('I', 'N', ' ', ' '),
        Mnemonic::Inr => ('I', 'N', 'R', ' '),
        Mnemonic::Inx => ('I', 'N', 'X', ' '),
        Mnemonic::Jc => ('J', 'C', ' ', ' '),
        Mnemonic::Jnc => ('J', 'N', 'C', ' '),
        Mnemonic::Jm => ('J', 'M', ' ', ' '),
        Mnemonic::Jmp => ('J', 'M', 'P', ' '),
        Mnemonic::Jnz => ('J', 'N', 'Z', ' '),
        Mnemonic::Jp => ('J', 'P', ' ', ' '),
        Mnemonic::Jpe => ('J', 'P', 'E', ' '),
        Mnemonic::Jpo => ('J', 'P', 'O', ' '),
        Mnemonic::Jz => ('J', 'Z', ' ', ' '),
        Mnemonic::Lda => ('L', 'D', 'A', ' '),
        Mnemonic::Ldax => ('L', 'D', 'A', 'X'),
        Mnemonic::Lhld => ('L', 'H', 'L', 'D'),
        Mnemonic::Lxi => ('L', 'X', 'I', ' '),
        Mnemonic::Mov => ('M', 'O', 'V', ' '),
        Mnemonic::Mvi => ('M', 'V', 'I', ' '),
        Mnemonic::Nop => ('N', 'O', 'P', ' '),
        Mnemonic::Ora => ('O', 'R', 'A', ' '),
        Mnemonic::Ori => ('O', 'R', 'I', ' '),
        Mnemonic::Out => ('O', 'U', 'T', ' '),
        Mnemonic::Pchl => ('P', 'C', 'H', 'L'),
        Mnemonic::Pop => ('P', 'O', 'P', ' '),
        Mnemonic::Push => ('P', 'U', 'S', 'H'),
        Mnemonic::Ral => ('R', 'A', 'L', ' '),
        Mnemonic::Rar => ('R', 'A', 'R', ' '),
        Mnemonic::Rc => ('R', 'C', ' ', ' '),
        Mnemonic::Ret => ('R', 'E', 'T', ' '),
        Mnemonic::Rim => ('R', 'I', 'M', ' '),
        Mnemonic::Rlc => ('R', 'L', 'C', ' '),
        Mnemonic::Rm => ('R', 'M', ' ', ' '),
        Mnemonic::Rnc => ('R', 'N', 'C', ' '),
        Mnemonic::Rnz => ('R', 'N', 'Z', ' '),
        Mnemonic::Rp => ('R', 'P', ' ', ' '),
        Mnemonic::Rpe => ('R', 'P', 'E', ' '),
        Mnemonic::Rpo => ('R', 'P', 'O', ' '),
        Mnemonic::Rrc => ('R', 'R', 'C', ' '),
        Mnemonic::Rst => ('R', 'S', 'T', ' '),
        Mnemonic::Rz => ('R', 'Z', ' ', ' '),
        Mnemonic::Sbb => ('S', 'B', 'B', ' '),
        Mnemonic::Sbi => ('S', 'B', 'I', ' '),
        Mnemonic::Shld => ('S', 'H', 'L', 'D'),
        Mnemonic::Sim => ('S', 'I', 'M', ' '),
        Mnemonic::Sphl => ('S', 'P', 'H', 'L'),
        Mnemonic::Sta => ('S', 'T', 'A', ' '),
        Mnemonic::Stax => ('S', 'T', 'A', 'X'),
        Mnemonic::Stc => ('S', 'T', 'C', ' '),
        Mnemonic::Sub => ('S', 'U', 'B', ' '),
        Mnemonic::Sui => ('S', 'U', 'I', ' '),
        Mnemonic::Xchg => ('X', 'C', 'H', 'G'),
        Mnemonic::Xra => ('X', 'R', 'A', ' '),
        Mnemonic::Xri => ('X', 'R', 'I', ' '),
        Mnemonic::Xthl => ('X', 'T', 'H', 'L'),
    }
}

/// A mnemonic's base opcode and operand form.
pub open spec fn entry(m: Mnemonic) -> (u8, Form) {
    match m {
        Mnemonic::Add => (0x80, Form::RegLow),
        Mnemonic::Aci => (0xCE, Form::Imm8),
        Mnemonic::Adc => (0x88, Form::RegLow),
        Mnemonic::Adi => (0xC6, Form::Imm8),
        Mnemonic::Ana => (0xA0, Form::RegLow),
        Mnemonic::Ani => (0xE6, Form::Imm8),
        Mnemonic::Call => (0xCD, Form::Address),
        Mnemonic::Cc => (0xDC, Form::Address),
        Mnemonic::Cm => (0xFC, Form::Address),
        Mnemonic::Cma => (0x2F, Form::Implicit),
        Mnemonic::Cmc => (0x3F, Form::Implicit),
        Mnemonic::Cmp => (0xB8, Form::RegLow),
        Mnemonic::Cnc => (0xD4, Form::Address),
        Mnemonic::Cnz => (0xC4, Form::Address),
        Mnemonic::Cp => (0xF4, Form::Address),
        Mnemonic::Cpe => (0xEC, Form::Address),
        Mnemonic::Cpi => (0xFE, Form::Imm8),
        Mnemonic::Cpo => (0xE4, Form::Address),
        Mnemonic::Cz => (0xCC, Form::Address),
        Mnemonic::Daa => (0x27, Form::Implicit),
        Mnemonic::Dad => (0x09, Form::Pair),
        Mnemonic::Dcr => (0x05, Form::RegHigh),
        Mnemonic::Dcx => (0x0B, Form::Pair),
        Mnemonic::Di => (0xF3, Form::Implicit),
        Mnemonic::Ei => (0xFB, Form::Implicit),
        Mnemonic::Hlt => (0x76, Form::Implicit),
        Mnemonic::In => (0xDB, Form::Imm8),
        Mnemonic::Inr => (0x04, Form::RegHigh),
        Mnemonic::Inx => (0x03, Form::Pair),
        Mnemonic::Jc => (0xDA, Form::Address),
        Mnemonic::Jnc => (0xD2, Form::Address),
        Mnemonic::Jm => (0xFA, Form::Address),
        Mnemonic::Jmp => (0xC3, Form::Address),
        Mnemonic::Jnz => (0xC2, Form::Address),
        Mnemonic::Jp => (0xF2, Form::Address),
        Mnemonic::Jpe => (0xEA, Form::Address),
        Mnemonic::Jpo => (0xE2, Form::Address),
        Mnemonic::Jz => (0xCA, Form::Address),
        Mnemonic::Lda => (0x3A, Form::Absolute),
        Mnemonic::Ldax => (0x0A, Form::LoadStore),
        Mnemonic::Lhld => (0x2A, Form::Absolute),
        Mnemonic::Lxi => (0x01, Form::PairWord),
        Mnemonic::Mov => (0x40, Form::Move),
        Mnemonic::Mvi => (0x06, Form::MoveImmediate),
        Mnemonic::Nop => (0x00, Form::Implicit),
        Mnemonic::Ora => (0xB0, Form::RegLow),
        Mnemonic::Ori => (0xF6, Form::Imm8),
        Mnemonic::Out => (0xD3, Form::Imm8),
        Mnemonic::Pchl => (0xE9, Form::Implicit),
        Mnemonic::Pop => (0xC1, Form::Stack),
        Mnemonic::Push => (0xC5, Form::Stack),
        Mnemonic::Ral => (0x17, Form::Implicit),
        Mnemonic::Rar => (0x1F, Form::Implicit),
        Mnemonic::Rc => (0xD8, Form::Implicit),
        Mnemonic::Ret => (0xC9, Form::Implicit),
        Mnemonic::Rim => (0x20, Form::Implicit),
        Mnemonic::Rlc => (0x07, Form::Implicit),
        Mnemonic::Rm => (0xF8, Form::Implicit),
        Mnemonic::Rnc => (0xD0, Form::Implicit),
        Mnemonic::Rnz => (0xC0, Form::Implicit),
        Mnemonic::Rp => (0xF0, Form::Implicit),
        Mnemonic::Rpe => (0xE8, Form::Implicit),
        Mnemonic::Rpo => (0xE0, Form::Implicit),
        Mnemonic::Rrc => (0x0F, Form::Implicit),
        Mnemonic::Rst => (0xC7, Form::Restart),
        Mnemonic::Rz => (0xC8, Form::Implicit),
        Mnemonic::Sbb => (0x98, Form::RegLow),
        Mnemonic::Sbi => (0xDE, Form::Imm8),
        Mnemonic::Shld => (0x22, Form::Absolute),
        Mnemonic::Sim => (0x30, Form::Implicit),
        Mnemonic::Sphl => (0xF9, Form::Implicit),
        Mnemonic::Sta => (0x32, Form::Absolute),
        Mnemonic::Stax => (0x02, Form::LoadStore),
        Mnemonic::Stc => (0x37, Form::Implicit),
        Mnemonic::Sub => (0x90, Form::RegLow),
        Mnemonic::Sui => (0xD6, Form::Imm8),
        Mnemonic::Xchg => (0xEB, Form::Implicit),
        Mnemonic::Xra => (0xA8, Form::RegLow),
        Mnemonic::Xri => (0xEE, Form::Imm8),
        Mnemonic::Xthl => (0xE3, Form::Implicit),
    }
}

/// The descriptor of a mnemonic.
pub open spec fn opcode_table(m: Mnemonic) -> Instruction {
    Instruction {
        opcode: entry(m).0,
        size: form_size(entry(m).1),
        args: form_args(entry(m).1),
    }
}

/// A mnemonic's base opcode and operand form.
pub fn lookup_entry(m: Mnemonic) -> (r: (u8, Form))
    ensures
        r == entry(m),
{
    match m {
        Mnemonic::Add => (0x80, Form::RegLow),
        Mnemonic::Aci => (0xCE, Form::Imm8),
        Mnemonic::Adc => (0x88, Form::RegLow),
        Mnemonic::Adi => (0xC6, Form::Imm8),
        Mnemonic::Ana => (0xA0, Form::RegLow),
        Mnemonic::Ani => (0xE6, Form::Imm8),
        Mnemonic::Call => (0xCD, Form::Address),
        Mnemonic::Cc => (0xDC, Form::Address),
        Mnemonic::Cm => (0xFC, Form::Address),
        Mnemonic::Cma => (0x2F, Form::Implicit),
        Mnemonic::Cmc => (0x3F, Form::Implicit),
        Mnemonic::Cmp => (0xB8, Form::RegLow),
        Mnemonic::Cnc => (0xD4, Form::Address),
        Mnemonic::Cnz => (0xC4, Form::Address),
        Mnemonic::Cp => (0xF4, Form::Address),
        Mnemonic::Cpe => (0xEC, Form::Address),
        Mnemonic::Cpi => (0xFE, Form::Imm8),
        Mnemonic::Cpo => (0xE4, Form::Address),
        Mnemonic::Cz => (0xCC, Form::Address),
        Mnemonic::Daa => (0x27, Form::Implicit),
        Mnemonic::Dad => (0x09, Form::Pair),
        Mnemonic::Dcr => (0x05, Form::RegHigh),
        Mnemonic::Dcx => (0x0B, Form::Pair),
        Mnemonic::Di => (0xF3, Form::Implicit),
        Mnemonic::Ei => (0xFB, Form::Implicit),
        Mnemonic::Hlt => (0x76, Form::Implicit),
        Mnemonic::In => (0xDB, Form::Imm8),
        Mnemonic::Inr => (0x04, Form::RegHigh),
        Mnemonic::Inx => (0x03, Form::Pair),
        Mnemonic::Jc => (0xDA, Form::Address),
        Mnemonic::Jnc => (0xD2, Form::Address),
        Mnemonic::Jm => (0xFA, Form::Address),
        Mnemonic::Jmp => (0xC3, Form::Address),
        Mnemonic::Jnz => (0xC2, Form::Address),
        Mnemonic::Jp => (0xF2, Form::Address),
        Mnemonic::Jpe => (0xEA, Form::Address),
        Mnemonic::Jpo => (0xE2, Form::Address),
        Mnemonic::Jz => (0xCA, Form::Address),
        Mnemonic::Lda => (0x3A, Form::Absolute),
        Mnemonic::Ldax => (0x0A, Form::LoadStore),
        Mnemonic::Lhld => (0x2A, Form::Absolute),
        Mnemonic::Lxi => (0x01, Form::PairWord),
        Mnemonic::Mov => (0x40, Form::Move),
        Mnemonic::Mvi => (0x06, Form::MoveImmediate),
        Mnemonic::Nop => (0x00, Form::Implicit),
        Mnemonic::Ora => (0xB0, Form::RegLow),
        Mnemonic::Ori => (0xF6, Form::Imm8),
        Mnemonic::Out => (0xD3, Form::Imm8),
        Mnemonic::Pchl => (0xE9, Form::Implicit),
        Mnemonic::Pop => (0xC1, Form::Stack),
        Mnemonic::Push => (0xC5, Form::Stack),
        Mnemonic::Ral => (0x17, Form::Implicit),
        Mnemonic::Rar => (0x1F, Form::Implicit),
        Mnemonic::Rc => (0xD8, Form::Implicit),
        Mnemonic::Ret => (0xC9, Form::Implicit),
        Mnemonic::Rim => (0x20, Form::Implicit),
        Mnemonic::Rlc => (0x07, Form::Implicit),
        Mnemonic::Rm => (0xF8, Form::Implicit),
        Mnemonic::Rnc => (0xD0, Form::Implicit),
        Mnemonic::Rnz => (0xC0, Form::Implicit),
        Mnemonic::Rp => (0xF0, Form::Implicit),
        Mnemonic::Rpe => (0xE8, Form::Implicit),
        Mnemonic::Rpo => (0xE0, Form::Implicit),
        Mnemonic::Rrc => (0x0F, Form::Implicit),
        Mnemonic::Rst => (0xC7, Form::Restart),
        Mnemonic::Rz => (0xC8, Form::Implicit),
        Mnemonic::Sbb => (0x98, Form::RegLow),
        Mnemonic::Sbi => (0xDE, Form::Imm8),
        Mnemonic::Shld => (0x22, Form::Absolute),
        Mnemonic::Sim => (0x30, Form::Implicit),
        Mnemonic::Sphl => (0xF9, Form::Implicit),
        Mnemonic::Sta => (0x32, Form::Absolute),
        Mnemonic::Stax => (0x02, Form::LoadStore),
        Mnemonic::Stc => (0x37, Form::Implicit),
        Mnemonic::Sub => (0x90, Form::RegLow),
        Mnemonic::Sui => (0xD6, Form::Imm8),
        Mnemonic::Xchg => (0xEB, Form::Implicit),
        Mnemonic::Xra => (0xA8, Form::RegLow),
        Mnemonic::Xri => (0xEE, Form::Imm8),
        Mnemonic::Xthl => (0xE3, Form::Implicit),
    }
}

/// The descriptor of a mnemonic.
pub fn descriptor(m: Mnemonic) -> (r: Instruction)
    ensures
        r == opcode_table(m),
{
    let (opcode, form) = lookup_entry(m);
    let (size, args): (u8, u8) = match form {
        Form::Implicit => (1, 0),
        Form::Imm8 => (2, 1),
        Form::MoveImmediate => (2, 2),
        Form::Address | Form::Absolute => (3, 1),
        Form::PairWord => (3, 2),
        Form::Move => (1, 2),
        _ => (1, 1),
    };
    Instruction::new(opcode, size, args)
}

/// The mnemonic spelled by four upper-case characters (shorter spellings padded with spaces).
pub fn keyword(c: (char, char, char, char)) -> (r: Option<Mnemonic>)
    ensures
        r matches Some(m) ==> spelling(m) == c,
        r is None ==> forall|m: Mnemonic| spelling(m) != c,
{
    match c {
        ('A', 'D', 'D', ' ') => Some(Mnemonic::Add),
        ('A', 'C', 'I', ' ') => Some(Mnemonic::Aci),
        ('A', 'D', 'C', ' ') => Some(Mnemonic::Adc),
        ('A', 'D', 'I', ' ') => Some(Mnemonic::Adi),
        ('A', 'N', 'A', ' ') => Some(Mnemonic::Ana),
        ('A', 'N', 'I', ' ') => Some(Mnemonic::Ani),
        ('C', 'A', 'L', 'L') => Some(Mnemonic::Call),
        ('C', 'C', ' ', ' ') => Some(Mnemonic::Cc),
        ('C', 'M', ' ', ' ') => Some(Mnemonic::Cm),
        ('C', 'M', 'A', ' ') => Some(Mnemonic::Cma),
        ('C', 'M', 'C', ' ') => Some(Mnemonic::Cmc),
        ('C', 'M', 'P', ' ') => Some(Mnemonic::Cmp),
        ('C', 'N', 'C', ' ') => Some(Mnemonic::Cnc),
        ('C', 'N', 'Z', ' ') => Some(Mnemonic::Cnz),
        ('C', 'P', ' ', ' ') => Some(Mnemonic::Cp),
        ('C', 'P', 'E', ' ') => Some(Mnemonic::Cpe),
        ('C', 'P', 'I', ' ') => Some(Mnemonic::Cpi),
        ('C', 'P', 'O', ' ') => Some(Mnemonic::Cpo),
        ('C', 'Z', ' ', ' ') => Some(Mnemonic::Cz),
        ('D', 'A', 'A', ' ') => Some(Mnemonic::Daa),
        ('D', 'A', 'D', ' ') => Some(Mnemonic::Dad),
        ('D', 'C', 'R', ' ') => Some(Mnemonic::Dcr),
        ('D', 'C', 'X', ' ') => Some(Mnemonic::Dcx),
        ('D', 'I', ' ', ' ') => Some(Mnemonic::Di),
        ('E', 'I', ' ', ' ') => Some(Mnemonic::Ei),
        ('H', 'L', 'T', ' ') => Some(Mnemonic::Hlt),
        ('I', 'N', ' ', ' ') => Some(Mnemonic::In),
        ('I', 'N', 'R', ' ') => Some(Mnemonic::Inr),
        ('I', 'N', 'X', ' ') => Some(Mnemonic::Inx),
        ('J', 'C', ' ', ' ') => Some(Mnemonic::Jc),
        ('J', 'N', 'C', ' ') => Some(Mnemonic::Jnc),
        ('J', 'M', ' ', ' ') => Some(Mnemonic::Jm),
        ('J', 'M', 'P', ' ') => Some(Mnemonic::Jmp),
        ('J', 'N', 'Z', ' ') => Some(Mnemonic::Jnz),
        ('J', 'P', ' ', ' ') => Some(Mnemonic::Jp),
        ('J', 'P', 'E', ' ') => Some(Mnemonic::Jpe),
        ('J', 'P', 'O', ' ') => Some(Mnemonic::Jpo),
        ('J', 'Z', ' ', ' ') => Some(Mnemonic::Jz),
        ('L', 'D', 'A', ' ') => Some(Mnemonic::Lda),
        ('L', 'D', 'A', 'X') => Some(Mnemonic::Ldax),
        ('L', 'H', 'L', 'D') => Some(Mnemonic::Lhld),
        ('L', 'X', 'I', ' ') => Some(Mnemonic::Lxi),
        ('M', 'O', 'V', ' ') => Some(Mnemonic::Mov),
        ('M', 'V', 'I', ' ') => Some(Mnemonic::Mvi),
        ('N', 'O', 'P', ' ') => Some(Mnemonic::Nop),
        ('O', 'R', 'A', ' ') => Some(Mnemonic::Ora),
        ('O', 'R', 'I', ' ') => Some(Mnemonic::Ori),
        ('O', 'U', 'T', ' ') => Some(Mnemonic::Out),
        ('P', 'C', 'H', 'L') => Some(Mnemonic::Pchl),
        ('P', 'O', 'P', ' ') => Some(Mnemonic::Pop),
        ('P', 'U', 'S', 'H') => Some(Mnemonic::Push),
        ('R', 'A', 'L', ' ') => Some(Mnemonic::Ral),
        ('R', 'A', 'R', ' ') => Some(Mnemonic::Rar),
        ('R', 'C', ' ', ' ') => Some(Mnemonic::Rc),
        ('R', 'E', 'T', ' ') => Some(Mnemonic::Ret),
        ('R', 'I', 'M', ' ') => Some(Mnemonic::Rim),
        ('R', 'L', 'C', ' ') => Some(Mnemonic::Rlc),
        ('R', 'M', ' ', ' ') => Some(Mnemonic::Rm),
        ('R', 'N', 'C', ' ') => Some(Mnemonic::Rnc),
        ('R', 'N', 'Z', ' ') => Some(Mnemonic::Rnz),
        ('R', 'P', ' ', ' ') => Some(Mnemonic::Rp),
        ('R', 'P', 'E', ' ') => Some(Mnemonic::Rpe),
        ('R', 'P', 'O', ' ') => Some(Mnemonic::Rpo),
        ('R', 'R', 'C', ' ') => Some(Mnemonic::Rrc),
        ('R', 'S', 'T', ' ') => Some(Mnemonic::Rst),
        ('R', 'Z', ' ', ' ') => Some(Mnemonic::Rz),
        ('S', 'B', 'B', ' ') => Some(Mnemonic::Sbb),
        ('S', 'B', 'I', ' ') => Some(Mnemonic::Sbi),
        ('S', 'H', 'L', 'D') => Some(Mnemonic::Shld),
        ('S', 'I', 'M', ' ') => Some(Mnemonic::Sim),
        ('S', 'P', 'H', 'L') => Some(Mnemonic::Sphl),
        ('S', 'T', 'A', ' ') => Some(Mnemonic::Sta),
        ('S', 'T', 'A', 'X') => Some(Mnemonic::Stax),
        ('S', 'T', 'C', ' ') => Some(Mnemonic::Stc),
        ('S', 'U', 'B', ' ') => Some(Mnemonic::Sub),
        ('S', 'U', 'I', ' ') => Some(Mnemonic::Sui),
        ('X', 'C', 'H', 'G') => Some(Mnemonic::Xchg),
        ('X', 'R', 'A', ' ') => Some(Mnemonic::Xra),
        ('X', 'R', 'I', ' ') => Some(Mnemonic::Xri),
        ('X', 'T', 'H', 'L') => Some(Mnemonic::Xthl),
        _ => None,
    }
}

} // verus!
