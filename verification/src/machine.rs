use vstd::prelude::*;
use crate::table::{AddressingMode, Mnemonic, OpcodeEntry, s_entry};

verus! {

/// The mathematical model of the whole machine: the 64KB memory bank as a
/// byte sequence together with the register set. Status flags are modelled
/// as individual booleans; the packed status byte is `s_status`.
#[verifier::ext_equal]
pub struct CpuV {
    pub mem: Seq<u8>,
    pub a: u8,
    pub x: u8,
    pub y: u8,
    pub sp: u8,
    pub pc: u16,
    pub f_n: bool,
    pub f_v: bool,
    pub f_d: bool,
    pub f_i: bool,
    pub f_z: bool,
    pub f_c: bool,
}

impl CpuV {
    /// The one structural invariant: memory spans the full 64KB address space.
    pub open spec fn wf(self) -> bool {
        self.mem.len() == 0x10000
    }
}

/// Reduce an integer into the 16-bit address space (address arithmetic on the
/// 6502 wraps silently at 64K).
pub open spec fn m16(x: int) -> u16 {
    (x % 0x10000) as u16
}

/// Reduce an integer into one byte (zero-page and stack arithmetic wrap at 256).
pub open spec fn m8(x: int) -> u8 {
    (x % 0x100) as u8
}

/// The byte the memory bank holds at `addr`.
pub open spec fn mrd(v: CpuV, addr: u16) -> u8 {
    v.mem[addr as int]
}

/// A 16-bit word from a low and a high byte (the 6502 is little-endian).
pub open spec fn w16(lo: u8, hi: u8) -> u16 {
    (hi as int * 0x100 + lo as int) as u16
}

/// A little-endian word read at `addr`, the second byte taken from the
/// following address with 64K wraparound.
pub open spec fn word_at(v: CpuV, addr: u16) -> u16 {
    w16(mrd(v, addr), mrd(v, m16(addr as int + 1)))
}

/// The 256-byte page an address falls in; crossing from one page into
/// another is what costs indexed and taken-branch instructions a cycle.
pub open spec fn page(a: u16) -> int {
    a as int / 0x100
}

/// The packed status byte as read back from the register set: bit 5 always
/// set, B clear (B exists only on pushed copies), N V D I Z C in their
/// hardware positions.
pub open spec fn s_status(v: CpuV) -> u8 {
    ((if v.f_n { 0x80int } else { 0 }) + (if v.f_v { 0x40int } else { 0 }) + 0x20
        + (if v.f_d { 0x08int } else { 0 }) + (if v.f_i { 0x04int } else { 0 })
        + (if v.f_z { 0x02int } else { 0 }) + (if v.f_c { 0x01int } else { 0 })) as u8
}

/// Register-set flags taken from a packed byte (PLP/RTI): B and the unused
/// bit are ignored, every real flag is adopted.
pub open spec fn s_unpack(v: CpuV, b: u8) -> CpuV {
    CpuV {
        f_n: b as int / 0x80 % 2 == 1,
        f_v: b as int / 0x40 % 2 == 1,
        f_d: b as int / 0x08 % 2 == 1,
        f_i: b as int / 0x04 % 2 == 1,
        f_z: b as int / 0x02 % 2 == 1,
        f_c: b as int % 2 == 1,
        ..v
    }
}

/// Z and N refreshed from a result byte, as every load, transfer, logical and
/// increment instruction does.
pub open spec fn s_zn(v: CpuV, val: u8) -> CpuV {
    CpuV { f_z: val == 0, f_n: val >= 0x80, ..v }
}

/// PC advanced by an instruction length, wrapping at 64K.
pub open spec fn s_adv(v: CpuV, len: u8) -> CpuV {
    CpuV { pc: m16(v.pc as int + len as int), ..v }
}

/// A push: the byte lands in page 1 at the current stack pointer, which then
/// decrements with silent wraparound.
pub open spec fn s_push(v: CpuV, val: u8) -> CpuV {
    CpuV {
        mem: v.mem.update(0x100 + v.sp as int, val),
        sp: m8(v.sp as int - 1),
        ..v
    }
}

/// A pull: the stack pointer increments with silent wraparound, then the byte
/// is read from page 1.
pub open spec fn s_pull(v: CpuV) -> (CpuV, u8) {
    let nsp = m8(v.sp as int + 1);
    (CpuV { sp: nsp, ..v }, mrd(v, (0x100 + nsp as int) as u16))
}

/// Effective-address computation for every operand-carrying mode, together
/// with whether the indexed computation crossed a page boundary. Exact NMOS
/// arithmetic: zero-page indexing wraps within page zero, indirect pointer
/// fetches wrap within page zero, and the indirect jump reproduces the
/// hardware bug where a pointer at a page end fetches its high byte from the
/// start of the same page.
pub open spec fn s_ea(v: CpuV, mode: AddressingMode) -> (u16, bool) {
    let pc1 = m16(v.pc as int + 1);
    match mode {
        AddressingMode::Immediate => (pc1, false),
        AddressingMode::ZeroPage => (mrd(v, pc1) as u16, false),
        AddressingMode::ZeroPageX => (m8(mrd(v, pc1) as int + v.x as int) as u16, false),
        AddressingMode::ZeroPageY => (m8(mrd(v, pc1) as int + v.y as int) as u16, false),
        AddressingMode::Absolute => (word_at(v, pc1), false),
        AddressingMode::AbsoluteX => {
            let base = word_at(v, pc1);
            let t = m16(base as int + v.x as int);
            (t, page(base) != page(t))
        },
        AddressingMode::AbsoluteY => {
            let base = word_at(v, pc1);
            let t = m16(base as int + v.y as int);
            (t, page(base) != page(t))
        },
        AddressingMode::Indirect => {
            let p = word_at(v, pc1);
            let lo = mrd(v, p);
            let hi = mrd(v, (page(p) * 0x100 + m8(p as int + 1) as int) as u16);
            (w16(lo, hi), false)
        },
        AddressingMode::IndirectX => {
            let z = m8(mrd(v, pc1) as int + v.x as int);
            let lo = mrd(v, z as u16);
            let hi = mrd(v, m8(z as int + 1) as u16);
            (w16(lo, hi), false)
        },
        AddressingMode::IndirectY => {
            let z = mrd(v, pc1);
            let lo = mrd(v, z as u16);
            let hi = mrd(v, m8(z as int + 1) as u16);
            let base = w16(lo, hi);
            let t = m16(base as int + v.y as int);
            (t, page(base) != page(t))
        },
        _ => (0u16, false),
    }
}

/// The mnemonics whose indexed reads cost one extra cycle on a page crossing
/// (loads, logical and arithmetic reads, compare against A). Stores and
/// read-modify-write instructions pay the crossing unconditionally in their
/// base cost instead.
pub open spec fn s_page_extra(m: Mnemonic) -> bool {
    m is Lda || m is Ldx || m is Ldy || m is Eor || m is And || m is Ora || m is Adc
        || m is Sbc || m is Cmp
}

/// Whether a conditional branch is taken under the current flags.
pub open spec fn s_branch_taken(v: CpuV, m: Mnemonic) -> bool {
    match m {
        Mnemonic::Bpl => !v.f_n,
        Mnemonic::Bmi => v.f_n,
        Mnemonic::Bvc => !v.f_v,
        Mnemonic::Bvs => v.f_v,
        Mnemonic::Bcc => !v.f_c,
        Mnemonic::Bcs => v.f_c,
        Mnemonic::Bne => !v.f_z,
        Mnemonic::Beq => v.f_z,
        _ => false,
    }
}

/// The target of a relative branch sitting at `pc`: the operand byte is a
/// two's-complement displacement from the address following the instruction.
pub open spec fn s_rel_target(v: CpuV, pc: u16) -> u16 {
    let next = m16(pc as int + 2);
    let off = mrd(v, m16(pc as int + 1));
    m16(next as int + off as int + (if off >= 0x80 { 0xFF00int } else { 0 }))
}

/// Add with carry. The binary sum always decides Z and the raw binary-mode
/// formula always decides V (a faithfully reproduced NMOS inaccuracy); with
/// the decimal flag set, A and C come from binary-coded-decimal adjustment.
pub open spec fn s_adc(v: CpuV, m: u8) -> CpuV {
    let c: int = if v.f_c { 1 } else { 0 };
    let bin = v.a as int + m as int + c;
    let bin8 = m8(bin);
    let vflag = ((v.a >= 0x80) == (m >= 0x80)) && ((bin8 >= 0x80) != (v.a >= 0x80));
    if !v.f_d {
        CpuV { a: bin8, f_c: bin > 0xFF, f_v: vflag, f_z: bin8 == 0, f_n: bin8 >= 0x80, ..v }
    } else {
        let lo0 = v.a as int % 16 + m as int % 16 + c;
        let lo = if lo0 > 9 { lo0 + 6 } else { lo0 };
        let hi0 = v.a as int / 16 + m as int / 16 + (if lo > 0xF { 1int } else { 0 });
        let hi = if hi0 > 9 { hi0 + 6 } else { hi0 };
        let res = m8(hi % 16 * 16 + lo % 16);
        CpuV { a: res, f_c: hi > 0xF, f_v: vflag, f_z: bin8 == 0, f_n: res >= 0x80, ..v }
    }
}

/// Subtract with carry (carry clear meaning borrow). On the NMOS part every
/// flag comes from the binary difference; only A receives the decimal
/// adjustment when the decimal flag is set.
pub open spec fn s_sbc(v: CpuV, m: u8) -> CpuV {
    let b: int = if v.f_c { 0 } else { 1 };
    let bin = v.a as int - m as int - b;
    let bin8 = m8(bin);
    let vflag = ((v.a >= 0x80) != (m >= 0x80)) && ((bin8 >= 0x80) != (v.a >= 0x80));
    let res: u8 = if !v.f_d {
        bin8
    } else {
        let lo0 = v.a as int % 16 - m as int % 16 - b;
        let lo = if lo0 < 0 { lo0 - 6 } else { lo0 };
        let hi0 = v.a as int / 16 - m as int / 16 - (if lo0 < 0 { 1int } else { 0 });
        let hi = if hi0 < 0 { hi0 - 6 } else { hi0 };
        m8(hi % 16 * 16 + lo % 16)
    };
    CpuV { a: res, f_c: bin >= 0, f_v: vflag, f_z: bin8 == 0, f_n: bin8 >= 0x80, ..v }
}

/// A compare: flags from the subtraction of the operand from a register,
/// without storing the difference.
pub open spec fn s_cmp(v: CpuV, reg: u8, m: u8) -> CpuV {
    CpuV { f_c: reg >= m, f_z: reg == m, f_n: m8(reg as int - m as int) >= 0x80, ..v }
}

/// Arithmetic shift left: C takes bit 7, the result doubles modulo 256.
pub open spec fn s_asl(val: u8) -> (u8, bool) {
    (m8(val as int * 2), val >= 0x80)
}

/// Logical shift right: C takes bit 0.
pub open spec fn s_lsr(val: u8) -> (u8, bool) {
    ((val / 2) as u8, val % 2 == 1)
}

/// Rotate left through carry.
pub open spec fn s_rol(val: u8, c: bool) -> (u8, bool) {
    (m8(val as int * 2 + (if c { 1int } else { 0 })), val >= 0x80)
}

/// Rotate right through carry.
pub open spec fn s_ror(val: u8, c: bool) -> (u8, bool) {
    ((val / 2 + (if c { 0x80int } else { 0 })) as u8, val % 2 == 1)
}


/// A conditional branch: two cycles when not taken, one more when taken, and
/// a second extra cycle when the taken branch crosses a page boundary
/// relative to the address following the instruction.
pub open spec fn s_branch(v: CpuV, e: OpcodeEntry) -> (CpuV, u32) {
    let taken = s_branch_taken(v, e.mnemonic);
    let next = m16(v.pc as int + 2);
    if !taken {
        (CpuV { pc: next, ..v }, e.cycles as u32)
    } else {
        let t = s_rel_target(v, v.pc);
        (
            CpuV { pc: t, ..v },
            (e.cycles as int + 1 + if page(next) != page(t) { 1int } else { 0 }) as u32,
        )
    }
}

/// One decoded instruction executed on the model machine: the next state and
/// the exact cycle count, page-crossing and branch surcharges included.
/// `e` is the dispatch row of the opcode at `v.pc`.
pub open spec fn s_exec(v: CpuV, e: OpcodeEntry) -> (CpuV, u32) {
    let ea_cr = s_ea(v, e.mode);
    let ea = ea_cr.0;
    let m = mrd(v, ea);
    let rd_cyc = (e.cycles as int
        + if ea_cr.1 && s_page_extra(e.mnemonic) { 1int } else { 0 }) as u32;
    let cyc = e.cycles as u32;
    match e.mnemonic {
        Mnemonic::Lda => (s_adv(s_zn(CpuV { a: m, ..v }, m), e.length), rd_cyc),
        Mnemonic::Ldx => (s_adv(s_zn(CpuV { x: m, ..v }, m), e.length), rd_cyc),
        Mnemonic::Ldy => (s_adv(s_zn(CpuV { y: m, ..v }, m), e.length), rd_cyc),
        Mnemonic::Sta => (s_adv(CpuV { mem: v.mem.update(ea as int, v.a), ..v }, e.length), cyc),
        Mnemonic::Stx => (s_adv(CpuV { mem: v.mem.update(ea as int, v.x), ..v }, e.length), cyc),
        Mnemonic::Sty => (s_adv(CpuV { mem: v.mem.update(ea as int, v.y), ..v }, e.length), cyc),
        Mnemonic::Tax => (s_adv(s_zn(CpuV { x: v.a, ..v }, v.a), e.length), cyc),
        Mnemonic::Tay => (s_adv(s_zn(CpuV { y: v.a, ..v }, v.a), e.length), cyc),
        Mnemonic::Txa => (s_adv(s_zn(CpuV { a: v.x, ..v }, v.x), e.length), cyc),
        Mnemonic::Tya => (s_adv(s_zn(CpuV { a: v.y, ..v }, v.y), e.length), cyc),
        Mnemonic::Tsx => (s_adv(s_zn(CpuV { x: v.sp, ..v }, v.sp), e.length), cyc),
        Mnemonic::Txs => (s_adv(CpuV { sp: v.x, ..v }, e.length), cyc),
        Mnemonic::Inx => {
            let r = m8(v.x as int + 1);
            (s_adv(s_zn(CpuV { x: r, ..v }, r), e.length), cyc)
        },
        Mnemonic::Iny => {
            let r = m8(v.y as int + 1);
            (s_adv(s_zn(CpuV { y: r, ..v }, r), e.length), cyc)
        },
        Mnemonic::Dex => {
            let r = m8(v.x as int - 1);
            (s_adv(s_zn(CpuV { x: r, ..v }, r), e.length), cyc)
        },
        Mnemonic::Dey => {
            let r = m8(v.y as int - 1);
            (s_adv(s_zn(CpuV { y: r, ..v }, r), e.length), cyc)
        },
        Mnemonic::Inc => {
            let r = m8(m as int + 1);
            (s_adv(s_zn(CpuV { mem: v.mem.update(ea as int, r), ..v }, r), e.length), cyc)
        },
        Mnemonic::Dec => {
            let r = m8(m as int - 1);
            (s_adv(s_zn(CpuV { mem: v.mem.update(ea as int, r), ..v }, r), e.length), cyc)
        },
        Mnemonic::Adc => (s_adv(s_adc(v, m), e.length), rd_cyc),
        Mnemonic::Sbc => (s_adv(s_sbc(v, m), e.length), rd_cyc),
        Mnemonic::And => {
            let r = v.a & m;
            (s_adv(s_zn(CpuV { a: r, ..v }, r), e.length), rd_cyc)
        },
        Mnemonic::Ora => {
            let r = v.a | m;
            (s_adv(s_zn(CpuV { a: r, ..v }, r), e.length), rd_cyc)
        },
        Mnemonic::Eor => {
            let r = v.a ^ m;
            (s_adv(s_zn(CpuV { a: r, ..v }, r), e.length), rd_cyc)
        },
        Mnemonic::Cmp => (s_adv(s_cmp(v, v.a, m), e.length), rd_cyc),
        Mnemonic::Cpx => (s_adv(s_cmp(v, v.x, m), e.length), cyc),
        Mnemonic::Cpy => (s_adv(s_cmp(v, v.y, m), e.length), cyc),
        Mnemonic::Bit => (
            s_adv(
                CpuV { f_z: v.a & m == 0, f_n: m >= 0x80, f_v: m & 0x40 != 0, ..v },
                e.length,
            ),
            cyc,
        ),
        Mnemonic::Asl => {
            if e.mode is Accumulator {
                let rc = s_asl(v.a);
                (s_adv(s_zn(CpuV { a: rc.0, f_c: rc.1, ..v }, rc.0), e.length), cyc)
            } else {
                let rc = s_asl(m);
                (s_adv(s_zn(CpuV { mem: v.mem.update(ea as int, rc.0), f_c: rc.1, ..v }, rc.0), e.length), cyc)
            }
        },
        Mnemonic::Lsr => {
            if e.mode is Accumulator {
                let rc = s_lsr(v.a);
                (s_adv(s_zn(CpuV { a: rc.0, f_c: rc.1, ..v }, rc.0), e.length), cyc)
            } else {
                let rc = s_lsr(m);
                (s_adv(s_zn(CpuV { mem: v.mem.update(ea as int, rc.0), f_c: rc.1, ..v }, rc.0), e.length), cyc)
            }
        },
        Mnemonic::Rol => {
            if e.mode is Accumulator {
                let rc = s_rol(v.a, v.f_c);
                (s_adv(s_zn(CpuV { a: rc.0, f_c: rc.1, ..v }, rc.0), e.length), cyc)
            } else {
                let rc = s_rol(m, v.f_c);
                (s_adv(s_zn(CpuV { mem: v.mem.update(ea as int, rc.0), f_c: rc.1, ..v }, rc.0), e.length), cyc)
            }
        },
        Mnemonic::Ror => {
            if e.mode is Accumulator {
                let rc = s_ror(v.a, v.f_c);
                (s_adv(s_zn(CpuV { a: rc.0, f_c: rc.1, ..v }, rc.0), e.length), cyc)
            } else {
                let rc = s_ror(m, v.f_c);
                (s_adv(s_zn(CpuV { mem: v.mem.update(ea as int, rc.0), f_c: rc.1, ..v }, rc.0), e.length), cyc)
            }
        },
        Mnemonic::Bpl => s_branch(v, e),
        Mnemonic::Bmi => s_branch(v, e),
        Mnemonic::Bvc => s_branch(v, e),
        Mnemonic::Bvs => s_branch(v, e),
        Mnemonic::Bcc => s_branch(v, e),
        Mnemonic::Bcs => s_branch(v, e),
        Mnemonic::Bne => s_branch(v, e),
        Mnemonic::Beq => s_branch(v, e),
        Mnemonic::Jmp => (CpuV { pc: ea, ..v }, cyc),
        Mnemonic::Jsr => {
            let ret = m16(v.pc as int + 2);
            let v1 = s_push(v, (ret as int / 0x100) as u8);
            let v2 = s_push(v1, m8(ret as int));
            (CpuV { pc: ea, ..v2 }, cyc)
        },
        Mnemonic::Rts => {
            let p1 = s_pull(v);
            let p2 = s_pull(p1.0);
            (CpuV { pc: m16(w16(p1.1, p2.1) as int + 1), ..p2.0 }, cyc)
        },
        Mnemonic::Rti => {
            let p1 = s_pull(v);
            let v1 = s_unpack(p1.0, p1.1);
            let p2 = s_pull(v1);
            let p3 = s_pull(p2.0);
            (CpuV { pc: w16(p2.1, p3.1), ..p3.0 }, cyc)
        },
        Mnemonic::Pha => (s_adv(s_push(v, v.a), e.length), cyc),
        Mnemonic::Php => (s_adv(s_push(v, (s_status(v) as int + 0x10) as u8), e.length), cyc),
        Mnemonic::Pla => {
            let p = s_pull(v);
            (s_adv(s_zn(CpuV { a: p.1, ..p.0 }, p.1), e.length), cyc)
        },
        Mnemonic::Plp => {
            let p = s_pull(v);
            (s_adv(s_unpack(p.0, p.1), e.length), cyc)
        },
        Mnemonic::Clc => (s_adv(CpuV { f_c: false, ..v }, e.length), cyc),
        Mnemonic::Sec => (s_adv(CpuV { f_c: true, ..v }, e.length), cyc),
        Mnemonic::Cli => (s_adv(CpuV { f_i: false, ..v }, e.length), cyc),
        Mnemonic::Sei => (s_adv(CpuV { f_i: true, ..v }, e.length), cyc),
        Mnemonic::Clv => (s_adv(CpuV { f_v: false, ..v }, e.length), cyc),
        Mnemonic::Cld => (s_adv(CpuV { f_d: false, ..v }, e.length), cyc),
        Mnemonic::Sed => (s_adv(CpuV { f_d: true, ..v }, e.length), cyc),
        Mnemonic::Brk => {
            let ret = m16(v.pc as int + 2);
            let v1 = s_push(v, (ret as int / 0x100) as u8);
            let v2 = s_push(v1, m8(ret as int));
            let v3 = s_push(v2, (s_status(v) as int + 0x10) as u8);
            (CpuV { f_i: true, pc: w16(mrd(v3, 0xFFFE), mrd(v3, 0xFFFF)), ..v3 }, cyc)
        },
        Mnemonic::Nop => (s_adv(v, e.length), cyc),
        Mnemonic::Ill => (v, 0),
    }
}

/// One fetch-decode-execute step of the model machine: `None` is the
/// Illegal-Opcode condition (the state does not change); otherwise the next
/// state and the cycles the instruction consumed.
pub open spec fn s_step(v: CpuV) -> Option<(CpuV, u32)> {
    let e = s_entry(mrd(v, v.pc));
    if e.illegal {
        None
    } else {
        Some(s_exec(v, e))
    }
}

/// Adding a multiple of 256 does not change a byte reduction.
pub proof fn lemma_m8_shift(x: int, k: int)
    requires
        k % 0x100 == 0,
    ensures
        m8(x + k) == m8(x),
{
    vstd::arithmetic::div_mod::lemma_fundamental_div_mod(k, 0x100);
    vstd::arithmetic::div_mod::lemma_mod_multiples_vanish(k / 0x100, x, 0x100);
}

/// Adding a multiple of 16 does not change a nibble reduction.
pub proof fn lemma_mod16_shift(x: int, k: int)
    requires
        k % 16 == 0,
    ensures
        (x + k) % 16 == x % 16,
{
    vstd::arithmetic::div_mod::lemma_fundamental_div_mod(k, 16);
    vstd::arithmetic::div_mod::lemma_mod_multiples_vanish(k / 16, x, 16);
}

} // verus!
