use vstd::prelude::*;

verus! {

/// The closed set of NMOS 6502 addressing modes. The mode of an opcode fixes
/// its operand byte count and its effective-address arithmetic.
#[derive(Clone, Copy, PartialEq, Eq, Structural, Debug)]
pub enum AddressingMode {
    Implied,
    Accumulator,
    Immediate,
    ZeroPage,
    ZeroPageX,
    ZeroPageY,
    Absolute,
    AbsoluteX,
    AbsoluteY,
    Indirect,
    IndirectX,
    IndirectY,
    Relative,
}

/// The mnemonics of the official NMOS 6502 instruction set, plus `Ill`,
/// the placeholder carried by every unimplemented opcode.
#[derive(Clone, Copy, PartialEq, Eq, Structural, Debug)]
pub enum Mnemonic {
    Adc,
    And,
    Asl,
    Bcc,
    Bcs,
    Beq,
    Bit,
    Bmi,
    Bne,
    Bpl,
    Brk,
    Bvc,
    Bvs,
    Clc,
    Cld,
    Cli,
    Clv,
    Cmp,
    Cpx,
    Cpy,
    Dec,
    Dex,
    Dey,
    Eor,
    Inc,
    Inx,
    Iny,
    Jmp,
    Jsr,
    Lda,
    Ldx,
    Ldy,
    Lsr,
    Nop,
    Ora,
    Pha,
    Php,
    Pla,
    Plp,
    Rol,
    Ror,
    Rti,
    Rts,
    Sbc,
    Sec,
    Sed,
    Sei,
    Sta,
    Stx,
    Sty,
    Tax,
    Tay,
    Tsx,
    Txa,
    Txs,
    Tya,
    Ill,
}

/// One row of the dispatch table: everything the engine and the disassembler
/// need to know about an opcode short of executing it.
#[derive(Clone, Copy, PartialEq, Eq, Structural, Debug)]
pub struct OpcodeEntry {
    pub mnemonic: Mnemonic,
    pub mode: AddressingMode,
    /// Total instruction length in bytes, opcode included: 1 to 3.
    pub length: u8,
    /// Base cycle cost; page-boundary and branch-taken surcharges are added by
    /// the engine.
    pub cycles: u8,
    pub illegal: bool,
}

pub open spec fn s_ent(mnemonic: Mnemonic, mode: AddressingMode, length: u8, cycles: u8) -> OpcodeEntry {
    OpcodeEntry { mnemonic, mode, length, cycles, illegal: false }
}

pub open spec fn s_ill() -> OpcodeEntry {
    OpcodeEntry {
        mnemonic: Mnemonic::Ill,
        mode: AddressingMode::Implied,
        length: 1,
        cycles: 0,
        illegal: true,
    }
}

/// The dispatch table as a total function: the unique row for each of the 256
/// opcode values. Rows follow the published NMOS 6502 instruction reference;
/// every opcode outside the official set maps to the illegal placeholder row.
pub open spec fn s_entry(op: u8) -> OpcodeEntry {
    match op {
        0x00 => s_ent(Mnemonic::Brk, AddressingMode::Implied, 1, 7),
        0x01 => s_ent(Mnemonic::Ora, AddressingMode::IndirectX, 2, 6),
        0x05 => s_ent(Mnemonic::Ora, AddressingMode::ZeroPage, 2, 3),
        0x06 => s_ent(Mnemonic::Asl, AddressingMode::ZeroPage, 2, 5),
        0x08 => s_ent(Mnemonic::Php, AddressingMode::Implied, 1, 3),
        0x09 => s_ent(Mnemonic::Ora, AddressingMode::Immediate, 2, 2),
        0x0a => s_ent(Mnemonic::Asl, AddressingMode::Accumulator, 1, 2),
        0x0d => s_ent(Mnemonic::Ora, AddressingMode::Absolute, 3, 4),
        0x0e => s_ent(Mnemonic::Asl, AddressingMode::Absolute, 3, 6),
        0x10 => s_ent(Mnemonic::Bpl, AddressingMode::Relative, 2, 2),
        0x11 => s_ent(Mnemonic::Ora, AddressingMode::IndirectY, 2, 5),
        0x15 => s_ent(Mnemonic::Ora, AddressingMode::ZeroPageX, 2, 4),
        0x16 => s_ent(Mnemonic::Asl, AddressingMode::ZeroPageX, 2, 6),
        0x18 => s_ent(Mnemonic::Clc, AddressingMode::Implied, 1, 2),
        0x19 => s_ent(Mnemonic::Ora, AddressingMode::AbsoluteY, 3, 4),
        0x1d => s_ent(Mnemonic::Ora, AddressingMode::AbsoluteX, 3, 4),
        0x1e => s_ent(Mnemonic::Asl, AddressingMode::AbsoluteX, 3, 7),
        0x20 => s_ent(Mnemonic::Jsr, AddressingMode::Absolute, 3, 6),
        0x21 => s_ent(Mnemonic::And, AddressingMode::IndirectX, 2, 6),
        0x24 => s_ent(Mnemonic::Bit, AddressingMode::ZeroPage, 2, 3),
        0x25 => s_ent(Mnemonic::And, AddressingMode::ZeroPage, 2, 3),
        0x26 => s_ent(Mnemonic::Rol, AddressingMode::ZeroPage, 2, 5),
        0x28 => s_ent(Mnemonic::Plp, AddressingMode::Implied, 1, 4),
        0x29 => s_ent(Mnemonic::And, AddressingMode::Immediate, 2, 2),
        0x2a => s_ent(Mnemonic::Rol, AddressingMode::Accumulator, 1, 2),
        0x2c => s_ent(Mnemonic::Bit, AddressingMode::Absolute, 3, 4),
        0x2d => s_ent(Mnemonic::And, AddressingMode::Absolute, 3, 4),
        0x2e => s_ent(Mnemonic::Rol, AddressingMode::Absolute, 3, 6),
        0x30 => s_ent(Mnemonic::Bmi, AddressingMode::Relative, 2, 2),
        0x31 => s_ent(Mnemonic::And, AddressingMode::IndirectY, 2, 5),
        0x35 => s_ent(Mnemonic::And, AddressingMode::ZeroPageX, 2, 4),
        0x36 => s_ent(Mnemonic::Rol, AddressingMode::ZeroPageX, 2, 6),
        0x38 => s_ent(Mnemonic::Sec, AddressingMode::Implied, 1, 2),
        0x39 => s_ent(Mnemonic::And, AddressingMode::AbsoluteY, 3, 4),
        0x3d => s_ent(Mnemonic::And, AddressingMode::AbsoluteX, 3, 4),
        0x3e => s_ent(Mnemonic::Rol, AddressingMode::AbsoluteX, 3, 7),
        0x40 => s_ent(Mnemonic::Rti, AddressingMode::Implied, 1, 6),
        0x41 => s_ent(Mnemonic::Eor, AddressingMode::IndirectX, 2, 6),
        0x45 => s_ent(Mnemonic::Eor, AddressingMode::ZeroPage, 2, 3),
        0x46 => s_ent(Mnemonic::Lsr, AddressingMode::ZeroPage, 2, 5),
        0x48 => s_ent(Mnemonic::Pha, AddressingMode::Implied, 1, 3),
        0x49 => s_ent(Mnemonic::Eor, AddressingMode::Immediate, 2, 2),
        0x4a => s_ent(Mnemonic::Lsr, AddressingMode::Accumulator, 1, 2),
        0x4c => s_ent(Mnemonic::Jmp, AddressingMode::Absolute, 3, 3),
        0x4d => s_ent(Mnemonic::Eor, AddressingMode::Absolute, 3, 4),
        0x4e => s_ent(Mnemonic::Lsr, AddressingMode::Absolute, 3, 6),
        0x50 => s_ent(Mnemonic::Bvc, AddressingMode::Relative, 2, 2),
        0x51 => s_ent(Mnemonic::Eor, AddressingMode::IndirectY, 2, 5),
        0x55 => s_ent(Mnemonic::Eor, AddressingMode::ZeroPageX, 2, 4),
        0x56 => s_ent(Mnemonic::Lsr, AddressingMode::ZeroPageX, 2, 6),
        0x58 => s_ent(Mnemonic::Cli, AddressingMode::Implied, 1, 2),
        0x59 => s_ent(Mnemonic::Eor, AddressingMode::AbsoluteY, 3, 4),
        0x5d => s_ent(Mnemonic::Eor, AddressingMode::AbsoluteX, 3, 4),
        0x5e => s_ent(Mnemonic::Lsr, AddressingMode::AbsoluteX, 3, 7),
        0x60 => s_ent(Mnemonic::Rts, AddressingMode::Implied, 1, 6),
        0x61 => s_ent(Mnemonic::Adc, AddressingMode::IndirectX, 2, 6),
        0x65 => s_ent(Mnemonic::Adc, AddressingMode::ZeroPage, 2, 3),
        0x66 => s_ent(Mnemonic::Ror, AddressingMode::ZeroPage, 2, 5),
        0x68 => s_ent(Mnemonic::Pla, AddressingMode::Implied, 1, 4),
        0x69 => s_ent(Mnemonic::Adc, AddressingMode::Immediate, 2, 2),
        0x6a => s_ent(Mnemonic::Ror, AddressingMode::Accumulator, 1, 2),
        0x6c => s_ent(Mnemonic::Jmp, AddressingMode::Indirect, 3, 5),
        0x6d => s_ent(Mnemonic::Adc, AddressingMode::Absolute, 3, 4),
        0x6e => s_ent(Mnemonic::Ror, AddressingMode::Absolute, 3, 6),
        0x70 => s_ent(Mnemonic::Bvs, AddressingMode::Relative, 2, 2),
        0x71 => s_ent(Mnemonic::Adc, AddressingMode::IndirectY, 2, 5),
        0x75 => s_ent(Mnemonic::Adc, AddressingMode::ZeroPageX, 2, 4),
        0x76 => s_ent(Mnemonic::Ror, AddressingMode::ZeroPageX, 2, 6),
        0x78 => s_ent(Mnemonic::Sei, AddressingMode::Implied, 1, 2),
        0x79 => s_ent(Mnemonic::Adc, AddressingMode::AbsoluteY, 3, 4),
        0x7d => s_ent(Mnemonic::Adc, AddressingMode::AbsoluteX, 3, 4),
        0x7e => s_ent(Mnemonic::Ror, AddressingMode::AbsoluteX, 3, 7),
        0x81 => s_ent(Mnemonic::Sta, AddressingMode::IndirectX, 2, 6),
        0x84 => s_ent(Mnemonic::Sty, AddressingMode::ZeroPage, 2, 3),
        0x85 => s_ent(Mnemonic::Sta, AddressingMode::ZeroPage, 2, 3),
        0x86 => s_ent(Mnemonic::Stx, AddressingMode::ZeroPage, 2, 3),
        0x88 => s_ent(Mnemonic::Dey, AddressingMode::Implied, 1, 2),
        0x8a => s_ent(Mnemonic::Txa, AddressingMode::Implied, 1, 2),
        0x8c => s_ent(Mnemonic::Sty, AddressingMode::Absolute, 3, 4),
        0x8d => s_ent(Mnemonic::Sta, AddressingMode::Absolute, 3, 4),
        0x8e => s_ent(Mnemonic::Stx, AddressingMode::Absolute, 3, 4),
        0x90 => s_ent(Mnemonic::Bcc, AddressingMode::Relative, 2, 2),
        0x91 => s_ent(Mnemonic::Sta, AddressingMode::IndirectY, 2, 6),
        0x94 => s_ent(Mnemonic::Sty, AddressingMode::ZeroPageX, 2, 4),
        0x95 => s_ent(Mnemonic::Sta, AddressingMode::ZeroPageX, 2, 4),
        0x96 => s_ent(Mnemonic::Stx, AddressingMode::ZeroPageY, 2, 4),
        0x98 => s_ent(Mnemonic::Tya, AddressingMode::Implied, 1, 2),
        0x99 => s_ent(Mnemonic::Sta, AddressingMode::AbsoluteY, 3, 5),
        0x9a => s_ent(Mnemonic::Txs, AddressingMode::Implied, 1, 2),
        0x9d => s_ent(Mnemonic::Sta, AddressingMode::AbsoluteX, 3, 5),
        0xa0 => s_ent(Mnemonic::Ldy, AddressingMode::Immediate, 2, 2),
        0xa1 => s_ent(Mnemonic::Lda, AddressingMode::IndirectX, 2, 6),
        0xa2 => s_ent(Mnemonic::Ldx, AddressingMode::Immediate, 2, 2),
        0xa4 => s_ent(Mnemonic::Ldy, AddressingMode::ZeroPage, 2, 3),
        0xa5 => s_ent(Mnemonic::Lda, AddressingMode::ZeroPage, 2, 3),
        0xa6 => s_ent(Mnemonic::Ldx, AddressingMode::ZeroPage, 2, 3),
        0xa8 => s_ent(Mnemonic::Tay, AddressingMode::Implied, 1, 2),
        0xa9 => s_ent(Mnemonic::Lda, AddressingMode::Immediate, 2, 2),
        0xaa => s_ent(Mnemonic::Tax, AddressingMode::Implied, 1, 2),
        0xac => s_ent(Mnemonic::Ldy, AddressingMode::Absolute, 3, 4),
        0xad => s_ent(Mnemonic::Lda, AddressingMode::Absolute, 3, 4),
        0xae => s_ent(Mnemonic::Ldx, AddressingMode::Absolute, 3, 4),
        0xb0 => s_ent(Mnemonic::Bcs, AddressingMode::Relative, 2, 2),
        0xb1 => s_ent(Mnemonic::Lda, AddressingMode::IndirectY, 2, 5),
        0xb4 => s_ent(Mnemonic::Ldy, AddressingMode::ZeroPageX, 2, 4),
        0xb5 => s_ent(Mnemonic::Lda, AddressingMode::ZeroPageX, 2, 4),
        0xb6 => s_ent(Mnemonic::Ldx, AddressingMode::ZeroPageY, 2, 4),
        0xb8 => s_ent(Mnemonic::Clv, AddressingMode::Implied, 1, 2),
        0xb9 => s_ent(Mnemonic::Lda, AddressingMode::AbsoluteY, 3, 4),
        0xba => s_ent(Mnemonic::Tsx, AddressingMode::Implied, 1, 2),
        0xbc => s_ent(Mnemonic::Ldy, AddressingMode::AbsoluteX, 3, 4),
        0xbd => s_ent(Mnemonic::Lda, AddressingMode::AbsoluteX, 3, 4),
        0xbe => s_ent(Mnemonic::Ldx, AddressingMode::AbsoluteY, 3, 4),
        0xc0 => s_ent(Mnemonic::Cpy, AddressingMode::Immediate, 2, 2),
        0xc1 => s_ent(Mnemonic::Cmp, AddressingMode::IndirectX, 2, 6),
        0xc4 => s_ent(Mnemonic::Cpy, AddressingMode::ZeroPage, 2, 3),
        0xc5 => s_ent(Mnemonic::Cmp, AddressingMode::ZeroPage, 2, 3),
        0xc6 => s_ent(Mnemonic::Dec, AddressingMode::ZeroPage, 2, 5),
        0xc8 => s_ent(Mnemonic::Iny, AddressingMode::Implied, 1, 2),
        0xc9 => s_ent(Mnemonic::Cmp, AddressingMode::Immediate, 2, 2),
        0xca => s_ent(Mnemonic::Dex, AddressingMode::Implied, 1, 2),
        0xcc => s_ent(Mnemonic::Cpy, AddressingMode::Absolute, 3, 4),
        0xcd => s_ent(Mnemonic::Cmp, AddressingMode::Absolute, 3, 4),
        0xce => s_ent(Mnemonic::Dec, AddressingMode::Absolute, 3, 6),
        0xd0 => s_ent(Mnemonic::Bne, AddressingMode::Relative, 2, 2),
        0xd1 => s_ent(Mnemonic::Cmp, AddressingMode::IndirectY, 2, 5),
        0xd5 => s_ent(Mnemonic::Cmp, AddressingMode::ZeroPageX, 2, 4),
        0xd6 => s_ent(Mnemonic::Dec, AddressingMode::ZeroPageX, 2, 6),
        0xd8 => s_ent(Mnemonic::Cld, AddressingMode::Implied, 1, 2),
        0xd9 => s_ent(Mnemonic::Cmp, AddressingMode::AbsoluteY, 3, 4),
        0xdd => s_ent(Mnemonic::Cmp, AddressingMode::AbsoluteX, 3, 4),
        0xde => s_ent(Mnemonic::Dec, AddressingMode::AbsoluteX, 3, 7),
        0xe0 => s_ent(Mnemonic::Cpx, AddressingMode::Immediate, 2, 2),
        0xe1 => s_ent(Mnemonic::Sbc, AddressingMode::IndirectX, 2, 6),
        0xe4 => s_ent(Mnemonic::Cpx, AddressingMode::ZeroPage, 2, 3),
        0xe5 => s_ent(Mnemonic::Sbc, AddressingMode::ZeroPage, 2, 3),
        0xe6 => s_ent(Mnemonic::Inc, AddressingMode::ZeroPage, 2, 5),
        0xe8 => s_ent(Mnemonic::Inx, AddressingMode::Implied, 1, 2),
        0xe9 => s_ent(Mnemonic::Sbc, AddressingMode::Immediate, 2, 2),
        0xea => s_ent(Mnemonic::Nop, AddressingMode::Implied, 1, 2),
        0xec => s_ent(Mnemonic::Cpx, AddressingMode::Absolute, 3, 4),
        0xed => s_ent(Mnemonic::Sbc, AddressingMode::Absolute, 3, 4),
        0xee => s_ent(Mnemonic::Inc, AddressingMode::Absolute, 3, 6),
        0xf0 => s_ent(Mnemonic::Beq, AddressingMode::Relative, 2, 2),
        0xf1 => s_ent(Mnemonic::Sbc, AddressingMode::IndirectY, 2, 5),
        0xf5 => s_ent(Mnemonic::Sbc, AddressingMode::ZeroPageX, 2, 4),
        0xf6 => s_ent(Mnemonic::Inc, AddressingMode::ZeroPageX, 2, 6),
        0xf8 => s_ent(Mnemonic::Sed, AddressingMode::Implied, 1, 2),
        0xf9 => s_ent(Mnemonic::Sbc, AddressingMode::AbsoluteY, 3, 4),
        0xfd => s_ent(Mnemonic::Sbc, AddressingMode::AbsoluteX, 3, 4),
        0xfe => s_ent(Mnemonic::Inc, AddressingMode::AbsoluteX, 3, 7),
        _ => s_ill(),    }
}

fn ent(mnemonic: Mnemonic, mode: AddressingMode, length: u8, cycles: u8) -> (e: OpcodeEntry)
    ensures
        e == s_ent(mnemonic, mode, length, cycles),
{
    OpcodeEntry { mnemonic, mode, length, cycles, illegal: false }
}

fn ill() -> (e: OpcodeEntry)
    ensures
        e == s_ill(),
{
    OpcodeEntry {
        mnemonic: Mnemonic::Ill,
        mode: AddressingMode::Implied,
        length: 1,
        cycles: 0,
        illegal: true,
    }
}

/// Dispatch-table lookup: returns the unique row for `op`. Shared by the
/// execution engine, the disassembler passes and the tracer, so instruction
/// boundaries always agree between execution and static analysis.
pub fn opcode_entry(op: u8) -> (e: OpcodeEntry)
    ensures
        e == s_entry(op),
{
    match op {
        0x00 => ent(Mnemonic::Brk, AddressingMode::Implied, 1, 7),
        0x01 => ent(Mnemonic::Ora, AddressingMode::IndirectX, 2, 6),
        0x05 => ent(Mnemonic::Ora, AddressingMode::ZeroPage, 2, 3),
        0x06 => ent(Mnemonic::Asl, AddressingMode::ZeroPage, 2, 5),
        0x08 => ent(Mnemonic::Php, AddressingMode::Implied, 1, 3),
        0x09 => ent(Mnemonic::Ora, AddressingMode::Immediate, 2, 2),
        0x0a => ent(Mnemonic::Asl, AddressingMode::Accumulator, 1, 2),
        0x0d => ent(Mnemonic::Ora, AddressingMode::Absolute, 3, 4),
        0x0e => ent(Mnemonic::Asl, AddressingMode::Absolute, 3, 6),
        0x10 => ent(Mnemonic::Bpl, AddressingMode::Relative, 2, 2),
        0x11 => ent(Mnemonic::Ora, AddressingMode::IndirectY, 2, 5),
        0x15 => ent(Mnemonic::Ora, AddressingMode::ZeroPageX, 2, 4),
        0x16 => ent(Mnemonic::Asl, AddressingMode::ZeroPageX, 2, 6),
        0x18 => ent(Mnemonic::Clc, AddressingMode::Implied, 1, 2),
        0x19 => ent(Mnemonic::Ora, AddressingMode::AbsoluteY, 3, 4),
        0x1d => ent(Mnemonic::Ora, AddressingMode::AbsoluteX, 3, 4),
        0x1e => ent(Mnemonic::Asl, AddressingMode::AbsoluteX, 3, 7),
        0x20 => ent(Mnemonic::Jsr, AddressingMode::Absolute, 3, 6),
        0x21 => ent(Mnemonic::And, AddressingMode::IndirectX, 2, 6),
        0x24 => ent(Mnemonic::Bit, AddressingMode::ZeroPage, 2, 3),
        0x25 => ent(Mnemonic::And, AddressingMode::ZeroPage, 2, 3),
        0x26 => ent(Mnemonic::Rol, AddressingMode::ZeroPage, 2, 5),
        0x28 => ent(Mnemonic::Plp, AddressingMode::Implied, 1, 4),
        0x29 => ent(Mnemonic::And, AddressingMode::Immediate, 2, 2),
        0x2a => ent(Mnemonic::Rol, AddressingMode::Accumulator, 1, 2),
        0x2c => ent(Mnemonic::Bit, AddressingMode::Absolute, 3, 4),
        0x2d => ent(Mnemonic::And, AddressingMode::Absolute, 3, 4),
        0x2e => ent(Mnemonic::Rol, AddressingMode::Absolute, 3, 6),
        0x30 => ent(Mnemonic::Bmi, AddressingMode::Relative, 2, 2),
        0x31 => ent(Mnemonic::And, AddressingMode::IndirectY, 2, 5),
        0x35 => ent(Mnemonic::And, AddressingMode::ZeroPageX, 2, 4),
        0x36 => ent(Mnemonic::Rol, AddressingMode::ZeroPageX, 2, 6),
        0x38 => ent(Mnemonic::Sec, AddressingMode::Implied, 1, 2),
        0x39 => ent(Mnemonic::And, AddressingMode::AbsoluteY, 3, 4),
        0x3d => ent(Mnemonic::And, AddressingMode::AbsoluteX, 3, 4),
        0x3e => ent(Mnemonic::Rol, AddressingMode::AbsoluteX, 3, 7),
        0x40 => ent(Mnemonic::Rti, AddressingMode::Implied, 1, 6),
        0x41 => ent(Mnemonic::Eor, AddressingMode::IndirectX, 2, 6),
        0x45 => ent(Mnemonic::Eor, AddressingMode::ZeroPage, 2, 3),
        0x46 => ent(Mnemonic::Lsr, AddressingMode::ZeroPage, 2, 5),
        0x48 => ent(Mnemonic::Pha, AddressingMode::Implied, 1, 3),
        0x49 => ent(Mnemonic::Eor, AddressingMode::Immediate, 2, 2),
        0x4a => ent(Mnemonic::Lsr, AddressingMode::Accumulator, 1, 2),
        0x4c => ent(Mnemonic::Jmp, AddressingMode::Absolute, 3, 3),
        0x4d => ent(Mnemonic::Eor, AddressingMode::Absolute, 3, 4),
        0x4e => ent(Mnemonic::Lsr, AddressingMode::Absolute, 3, 6),
        0x50 => ent(Mnemonic::Bvc, AddressingMode::Relative, 2, 2),
        0x51 => ent(Mnemonic::Eor, AddressingMode::IndirectY, 2, 5),
        0x55 => ent(Mnemonic::Eor, AddressingMode::ZeroPageX, 2, 4),
        0x56 => ent(Mnemonic::Lsr, AddressingMode::ZeroPageX, 2, 6),
        0x58 => ent(Mnemonic::Cli, AddressingMode::Implied, 1, 2),
        0x59 => ent(Mnemonic::Eor, AddressingMode::AbsoluteY, 3, 4),
        0x5d => ent(Mnemonic::Eor, AddressingMode::AbsoluteX, 3, 4),
        0x5e => ent(Mnemonic::Lsr, AddressingMode::AbsoluteX, 3, 7),
        0x60 => ent(Mnemonic::Rts, AddressingMode::Implied, 1, 6),
        0x61 => ent(Mnemonic::Adc, AddressingMode::IndirectX, 2, 6),
        0x65 => ent(Mnemonic::Adc, AddressingMode::ZeroPage, 2, 3),
        0x66 => ent(Mnemonic::Ror, AddressingMode::ZeroPage, 2, 5),
        0x68 => ent(Mnemonic::Pla, AddressingMode::Implied, 1, 4),
        0x69 => ent(Mnemonic::Adc, AddressingMode::Immediate, 2, 2),
        0x6a => ent(Mnemonic::Ror, AddressingMode::Accumulator, 1, 2),
        0x6c => ent(Mnemonic::Jmp, AddressingMode::Indirect, 3, 5),
        0x6d => ent(Mnemonic::Adc, AddressingMode::Absolute, 3, 4),
        0x6e => ent(Mnemonic::Ror, AddressingMode::Absolute, 3, 6),
        0x70 => ent(Mnemonic::Bvs, AddressingMode::Relative, 2, 2),
        0x71 => ent(Mnemonic::Adc, AddressingMode::IndirectY, 2, 5),
        0x75 => ent(Mnemonic::Adc, AddressingMode::ZeroPageX, 2, 4),
        0x76 => ent(Mnemonic::Ror, AddressingMode::ZeroPageX, 2, 6),
        0x78 => ent(Mnemonic::Sei, AddressingMode::Implied, 1, 2),
        0x79 => ent(Mnemonic::Adc, AddressingMode::AbsoluteY, 3, 4),
        0x7d => ent(Mnemonic::Adc, AddressingMode::AbsoluteX, 3, 4),
        0x7e => ent(Mnemonic::Ror, AddressingMode::AbsoluteX, 3, 7),
        0x81 => ent(Mnemonic::Sta, AddressingMode::IndirectX, 2, 6),
        0x84 => ent(Mnemonic::Sty, AddressingMode::ZeroPage, 2, 3),
        0x85 => ent(Mnemonic::Sta, AddressingMode::ZeroPage, 2, 3),
        0x86 => ent(Mnemonic::Stx, AddressingMode::ZeroPage, 2, 3),
        0x88 => ent(Mnemonic::Dey, AddressingMode::Implied, 1, 2),
        0x8a => ent(Mnemonic::Txa, AddressingMode::Implied, 1, 2),
        0x8c => ent(Mnemonic::Sty, AddressingMode::Absolute, 3, 4),
        0x8d => ent(Mnemonic::Sta, AddressingMode::Absolute, 3, 4),
        0x8e => ent(Mnemonic::Stx, AddressingMode::Absolute, 3, 4),
        0x90 => ent(Mnemonic::Bcc, AddressingMode::Relative, 2, 2),
        0x91 => ent(Mnemonic::Sta, AddressingMode::IndirectY, 2, 6),
        0x94 => ent(Mnemonic::Sty, AddressingMode::ZeroPageX, 2, 4),
        0x95 => ent(Mnemonic::Sta, AddressingMode::ZeroPageX, 2, 4),
        0x96 => ent(Mnemonic::Stx, AddressingMode::ZeroPageY, 2, 4),
        0x98 => ent(Mnemonic::Tya, AddressingMode::Implied, 1, 2),
        0x99 => ent(Mnemonic::Sta, AddressingMode::AbsoluteY, 3, 5),
        0x9a => ent(Mnemonic::Txs, AddressingMode::Implied, 1, 2),
        0x9d => ent(Mnemonic::Sta, AddressingMode::AbsoluteX, 3, 5),
        0xa0 => ent(Mnemonic::Ldy, AddressingMode::Immediate, 2, 2),
        0xa1 => ent(Mnemonic::Lda, AddressingMode::IndirectX, 2, 6),
        0xa2 => ent(Mnemonic::Ldx, AddressingMode::Immediate, 2, 2),
        0xa4 => ent(Mnemonic::Ldy, AddressingMode::ZeroPage, 2, 3),
        0xa5 => ent(Mnemonic::Lda, AddressingMode::ZeroPage, 2, 3),
        0xa6 => ent(Mnemonic::Ldx, AddressingMode::ZeroPage, 2, 3),
        0xa8 => ent(Mnemonic::Tay, AddressingMode::Implied, 1, 2),
        0xa9 => ent(Mnemonic::Lda, AddressingMode::Immediate, 2, 2),
        0xaa => ent(Mnemonic::Tax, AddressingMode::Implied, 1, 2),
        0xac => ent(Mnemonic::Ldy, AddressingMode::Absolute, 3, 4),
        0xad => ent(Mnemonic::Lda, AddressingMode::Absolute, 3, 4),
        0xae => ent(Mnemonic::Ldx, AddressingMode::Absolute, 3, 4),
        0xb0 => ent(Mnemonic::Bcs, AddressingMode::Relative, 2, 2),
        0xb1 => ent(Mnemonic::Lda, AddressingMode::IndirectY, 2, 5),
        0xb4 => ent(Mnemonic::Ldy, AddressingMode::ZeroPageX, 2, 4),
        0xb5 => ent(Mnemonic::Lda, AddressingMode::ZeroPageX, 2, 4),
        0xb6 => ent(Mnemonic::Ldx, AddressingMode::ZeroPageY, 2, 4),
        0xb8 => ent(Mnemonic::Clv, AddressingMode::Implied, 1, 2),
        0xb9 => ent(Mnemonic::Lda, AddressingMode::AbsoluteY, 3, 4),
        0xba => ent(Mnemonic::Tsx, AddressingMode::Implied, 1, 2),
        0xbc => ent(Mnemonic::Ldy, AddressingMode::AbsoluteX, 3, 4),
        0xbd => ent(Mnemonic::Lda, AddressingMode::AbsoluteX, 3, 4),
        0xbe => ent(Mnemonic::Ldx, AddressingMode::AbsoluteY, 3, 4),
        0xc0 => ent(Mnemonic::Cpy, AddressingMode::Immediate, 2, 2),
        0xc1 => ent(Mnemonic::Cmp, AddressingMode::IndirectX, 2, 6),
        0xc4 => ent(Mnemonic::Cpy, AddressingMode::ZeroPage, 2, 3),
        0xc5 => ent(Mnemonic::Cmp, AddressingMode::ZeroPage, 2, 3),
        0xc6 => ent(Mnemonic::Dec, AddressingMode::ZeroPage, 2, 5),
        0xc8 => ent(Mnemonic::Iny, AddressingMode::Implied, 1, 2),
        0xc9 => ent(Mnemonic::Cmp, AddressingMode::Immediate, 2, 2),
        0xca => ent(Mnemonic::Dex, AddressingMode::Implied, 1, 2),
        0xcc => ent(Mnemonic::Cpy, AddressingMode::Absolute, 3, 4),
        0xcd => ent(Mnemonic::Cmp, AddressingMode::Absolute, 3, 4),
        0xce => ent(Mnemonic::Dec, AddressingMode::Absolute, 3, 6),
        0xd0 => ent(Mnemonic::Bne, AddressingMode::Relative, 2, 2),
        0xd1 => ent(Mnemonic::Cmp, AddressingMode::IndirectY, 2, 5),
        0xd5 => ent(Mnemonic::Cmp, AddressingMode::ZeroPageX, 2, 4),
        0xd6 => ent(Mnemonic::Dec, AddressingMode::ZeroPageX, 2, 6),
        0xd8 => ent(Mnemonic::Cld, AddressingMode::Implied, 1, 2),
        0xd9 => ent(Mnemonic::Cmp, AddressingMode::AbsoluteY, 3, 4),
        0xdd => ent(Mnemonic::Cmp, AddressingMode::AbsoluteX, 3, 4),
        0xde => ent(Mnemonic::Dec, AddressingMode::AbsoluteX, 3, 7),
        0xe0 => ent(Mnemonic::Cpx, AddressingMode::Immediate, 2, 2),
        0xe1 => ent(Mnemonic::Sbc, AddressingMode::IndirectX, 2, 6),
        0xe4 => ent(Mnemonic::Cpx, AddressingMode::ZeroPage, 2, 3),
        0xe5 => ent(Mnemonic::Sbc, AddressingMode::ZeroPage, 2, 3),
        0xe6 => ent(Mnemonic::Inc, AddressingMode::ZeroPage, 2, 5),
        0xe8 => ent(Mnemonic::Inx, AddressingMode::Implied, 1, 2),
        0xe9 => ent(Mnemonic::Sbc, AddressingMode::Immediate, 2, 2),
        0xea => ent(Mnemonic::Nop, AddressingMode::Implied, 1, 2),
        0xec => ent(Mnemonic::Cpx, AddressingMode::Absolute, 3, 4),
        0xed => ent(Mnemonic::Sbc, AddressingMode::Absolute, 3, 4),
        0xee => ent(Mnemonic::Inc, AddressingMode::Absolute, 3, 6),
        0xf0 => ent(Mnemonic::Beq, AddressingMode::Relative, 2, 2),
        0xf1 => ent(Mnemonic::Sbc, AddressingMode::IndirectY, 2, 5),
        0xf5 => ent(Mnemonic::Sbc, AddressingMode::ZeroPageX, 2, 4),
        0xf6 => ent(Mnemonic::Inc, AddressingMode::ZeroPageX, 2, 6),
        0xf8 => ent(Mnemonic::Sed, AddressingMode::Implied, 1, 2),
        0xf9 => ent(Mnemonic::Sbc, AddressingMode::AbsoluteY, 3, 4),
        0xfd => ent(Mnemonic::Sbc, AddressingMode::AbsoluteX, 3, 4),
        0xfe => ent(Mnemonic::Inc, AddressingMode::AbsoluteX, 3, 7),
        _ => ill(),    }
}

/// The operand byte count every mode implies; `length` of a legal row is
/// always this function of its mode.
pub open spec fn s_mode_length(mode: AddressingMode) -> u8 {
    match mode {
        AddressingMode::Implied => 1,
        AddressingMode::Accumulator => 1,
        AddressingMode::Immediate => 2,
        AddressingMode::ZeroPage => 2,
        AddressingMode::ZeroPageX => 2,
        AddressingMode::ZeroPageY => 2,
        AddressingMode::Absolute => 3,
        AddressingMode::AbsoluteX => 3,
        AddressingMode::AbsoluteY => 3,
        AddressingMode::Indirect => 3,
        AddressingMode::IndirectX => 2,
        AddressingMode::IndirectY => 2,
        AddressingMode::Relative => 2,
    }
}

/// Well-formedness of the whole dispatch table: there is exactly one row per
/// opcode value (s_entry is total), every row's length is between 1 and 3 and
/// equals what its addressing mode dictates, base cycle costs stay within the
/// hardware's 7-cycle maximum, and the illegal marker coincides with the
/// placeholder mnemonic.
#[verifier::rlimit(100)]
pub proof fn lemma_table_wf(op: u8)
    ensures
        1 <= s_entry(op).length <= 3,
        s_entry(op).length == s_mode_length(s_entry(op).mode),
        s_entry(op).cycles <= 7,
        s_entry(op).illegal <==> s_entry(op).mnemonic is Ill,
        s_entry(op).illegal ==> s_entry(op) == s_ill(),
{
}

/// Every dispatch row with relative addressing is one of the eight
/// conditional branches, and costs the hardware's two-cycle base.
#[verifier::rlimit(100)]
pub proof fn lemma_table_relative(op: u8)
    ensures
        s_entry(op).mode is Relative ==> {
            let m = s_entry(op).mnemonic;
            (m is Bpl || m is Bmi || m is Bvc || m is Bvs || m is Bcc || m is Bcs || m is Bne
                || m is Beq) && s_entry(op).cycles == 2
        },
{
}

} // verus!
