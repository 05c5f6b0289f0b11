use vstd::prelude::*;
use crate::table::{AddressingMode, Mnemonic, OpcodeEntry, opcode_entry};
use crate::machine::{
    CpuV, m16, m8, mrd, word_at, page, s_status, s_unpack, s_zn, s_adv, s_push, s_pull, s_ea,
    s_page_extra, s_branch_taken, s_adc, s_sbc, s_cmp, s_asl, s_lsr, s_rol, s_ror, s_branch,
    s_exec, s_step, lemma_m8_shift, lemma_mod16_shift,
};

verus! {

/// The Illegal-Opcode condition: an opcode with no implemented handler was
/// fetched. Fatal only to the run that hit it; the engine's state is intact.
#[derive(Clone, Copy, PartialEq, Eq, Structural, Debug)]
pub enum Fault {
    IllegalOpcode,
}

/// The execution engine: the 64KB memory bank and the register set, mutated
/// only by `load` and `step`. Its mathematical model is `CpuV` (see `view`).
pub struct Cpu {
    pub mem: Vec<u8>,
    pub a: u8,
    pub x: u8,
    pub y: u8,
    pub sp: u8,
    pub pc: u16,
    pub f_n: bool,
    pub f_v: bool,
    pub f_d: bool,
    pub f_i: bool,
    pub f_z: bool,
    pub f_c: bool,
}

impl View for Cpu {
    type V = CpuV;

    open spec fn view(&self) -> CpuV {
        CpuV {
            mem: self.mem@,
            a: self.a,
            x: self.x,
            y: self.y,
            sp: self.sp,
            pc: self.pc,
            f_n: self.f_n,
            f_v: self.f_v,
            f_d: self.f_d,
            f_i: self.f_i,
            f_z: self.f_z,
            f_c: self.f_c,
        }
    }
}

/// Wrapping 16-bit address addition.
pub(crate) fn pc_add(pc: u16, k: u16) -> (r: u16)
    ensures
        r == m16(pc as int + k as int),
{
    ((pc as u32 + k as u32) % 0x10000) as u16
}

/// Wrapping byte addition (zero-page and stack arithmetic).
fn byte_add(b: u8, k: u8) -> (r: u8)
    ensures
        r == m8(b as int + k as int),
{
    ((b as u16 + k as u16) % 0x100) as u8
}

/// Wrapping byte decrement.
fn byte_dec(b: u8) -> (r: u8)
    ensures
        r == m8(b as int - 1),
{
    if b == 0 {
        255
    } else {
        b - 1
    }
}

impl Cpu {
    pub open spec fn wf(&self) -> bool {
        self@.wf()
    }

    /// Reset convention: all registers zero except SP = 0xFD, interrupts
    /// disabled with the unused status bit set, memory zero-filled.
    pub fn new() -> (c: Cpu)
        ensures
            c.wf(),
            c@.mem == Seq::new(0x10000, |i: int| 0u8),
            c@.a == 0 && c@.x == 0 && c@.y == 0,
            c@.sp == 0xFD,
            c@.pc == 0,
            !c@.f_n && !c@.f_v && !c@.f_d && c@.f_i && !c@.f_z && !c@.f_c,
    {
        let mut mem: Vec<u8> = Vec::new();
        while mem.len() < 0x10000
            invariant
                mem@.len() <= 0x10000,
                forall|i: int| 0 <= i < mem@.len() ==> mem@[i] == 0u8,
            decreases 0x10000 - mem@.len(),
        {
            mem.push(0u8);
        }
        proof {
            assert(mem@ =~= Seq::new(0x10000, |i: int| 0u8));
        }
        Cpu {
            mem,
            a: 0,
            x: 0,
            y: 0,
            sp: 0xFD,
            pc: 0,
            f_n: false,
            f_v: false,
            f_d: false,
            f_i: true,
            f_z: false,
            f_c: false,
        }
    }

    /// The engine's read accessor: the byte the memory bank holds at `addr`.
    /// The disassembler and the tracer see memory only through this.
    pub fn read(&self, addr: u16) -> (r: u8)
        requires
            self.wf(),
        ensures
            r == mrd(self@, addr),
    {
        self.mem[addr as usize]
    }

    pub(crate) fn write(&mut self, addr: u16, val: u8)
        requires
            old(self).wf(),
        ensures
            final(self).wf(),
            final(self)@ == (CpuV { mem: old(self)@.mem.update(addr as int, val), ..old(self)@ }),
    {
        self.mem[addr as usize] = val;
    }

    /// A little-endian word read with 64K wraparound on the second byte.
    pub fn read_word(&self, addr: u16) -> (r: u16)
        requires
            self.wf(),
        ensures
            r == word_at(self@, addr),
    {
        let lo = self.read(addr);
        let hi = self.read(pc_add(addr, 1));
        hi as u16 * 0x100 + lo as u16
    }

    /// The packed status byte: NV1BDIZC with the unused bit set and B clear.
    pub fn status_byte(&self) -> (r: u8)
        ensures
            r == s_status(self@),
    {
        (if self.f_n { 0x80u8 } else { 0 }) + (if self.f_v { 0x40u8 } else { 0 }) + 0x20
            + (if self.f_d { 0x08u8 } else { 0 }) + (if self.f_i { 0x04u8 } else { 0 })
            + (if self.f_z { 0x02u8 } else { 0 }) + (if self.f_c { 0x01u8 } else { 0 })
    }

    fn set_status(&mut self, b: u8)
        ensures
            final(self)@ == s_unpack(old(self)@, b),
    {
        self.f_n = b / 0x80 % 2 == 1;
        self.f_v = b / 0x40 % 2 == 1;
        self.f_d = b / 0x08 % 2 == 1;
        self.f_i = b / 0x04 % 2 == 1;
        self.f_z = b / 0x02 % 2 == 1;
        self.f_c = b % 2 == 1;
    }

    fn set_zn(&mut self, val: u8)
        ensures
            final(self)@ == s_zn(old(self)@, val),
    {
        self.f_z = val == 0;
        self.f_n = val >= 0x80;
    }

    fn adv(&mut self, len: u8)
        ensures
            final(self)@ == s_adv(old(self)@, len),
    {
        self.pc = pc_add(self.pc, len as u16);
    }

    fn push(&mut self, val: u8)
        requires
            old(self).wf(),
        ensures
            final(self).wf(),
            final(self)@ == s_push(old(self)@, val),
    {
        let addr = 0x100u16 + self.sp as u16;
        self.write(addr, val);
        self.sp = byte_dec(self.sp);
    }

    fn pull(&mut self) -> (r: u8)
        requires
            old(self).wf(),
        ensures
            final(self).wf(),
            final(self)@ == s_pull(old(self)@).0,
            r == s_pull(old(self)@).1,
    {
        self.sp = byte_add(self.sp, 1);
        self.read(0x100u16 + self.sp as u16)
    }

    /// Effective-address computation, mirroring `s_ea` exactly: zero-page
    /// indexing and indirect pointer fetches wrap within page zero, and the
    /// indirect jump reproduces the page-wrap hardware bug. The boolean says
    /// whether an indexed computation crossed a page boundary.
    fn fetch_ea(&self, mode: AddressingMode) -> (r: (u16, bool))
        requires
            self.wf(),
        ensures
            r == s_ea(self@, mode),
    {
        let pc1 = pc_add(self.pc, 1);
        match mode {
            AddressingMode::Immediate => (pc1, false),
            AddressingMode::ZeroPage => (self.read(pc1) as u16, false),
            AddressingMode::ZeroPageX => (byte_add(self.read(pc1), self.x) as u16, false),
            AddressingMode::ZeroPageY => (byte_add(self.read(pc1), self.y) as u16, false),
            AddressingMode::Absolute => (self.read_word(pc1), false),
            AddressingMode::AbsoluteX => {
                let base = self.read_word(pc1);
                let t = pc_add(base, self.x as u16);
                (t, base / 0x100 != t / 0x100)
            },
            AddressingMode::AbsoluteY => {
                let base = self.read_word(pc1);
                let t = pc_add(base, self.y as u16);
                (t, base / 0x100 != t / 0x100)
            },
            AddressingMode::Indirect => {
                let p = self.read_word(pc1);
                let lo = self.read(p);
                let hi = self.read((p / 0x100) * 0x100 + byte_add((p % 0x100) as u8, 1) as u16);
                (hi as u16 * 0x100 + lo as u16, false)
            },
            AddressingMode::IndirectX => {
                let z = byte_add(self.read(pc1), self.x);
                let lo = self.read(z as u16);
                let hi = self.read(byte_add(z, 1) as u16);
                (hi as u16 * 0x100 + lo as u16, false)
            },
            AddressingMode::IndirectY => {
                let z = self.read(pc1);
                let lo = self.read(z as u16);
                let hi = self.read(byte_add(z, 1) as u16);
                let base = hi as u16 * 0x100 + lo as u16;
                let t = pc_add(base, self.y as u16);
                (t, base / 0x100 != t / 0x100)
            },
            _ => (0u16, false),
        }
    }
}


/// Arithmetic shift left of one byte: the result and the carry out.
fn asl_v(val: u8) -> (r: (u8, bool))
    ensures
        r == s_asl(val),
{
    (((val as u16 * 2) % 0x100) as u8, val >= 0x80)
}

/// Logical shift right of one byte: the result and the carry out.
fn lsr_v(val: u8) -> (r: (u8, bool))
    ensures
        r == s_lsr(val),
{
    (val / 2, val % 2 == 1)
}

/// Rotate left through carry.
fn rol_v(val: u8, c: bool) -> (r: (u8, bool))
    ensures
        r == s_rol(val, c),
{
    (((val as u16 * 2 + if c { 1u16 } else { 0 }) % 0x100) as u8, val >= 0x80)
}

/// Rotate right through carry.
fn ror_v(val: u8, c: bool) -> (r: (u8, bool))
    ensures
        r == s_ror(val, c),
{
    (val / 2 + if c { 0x80u8 } else { 0 }, val % 2 == 1)
}

impl Cpu {
    /// Add with carry, binary or decimal per the D flag; matches `s_adc`.
    #[verifier::rlimit(100)]
    fn adc_val(&mut self, m: u8)
        ensures
            final(self)@ == s_adc(old(self)@, m),
    {
        let c: u16 = if self.f_c { 1 } else { 0 };
        let bin: u16 = self.a as u16 + m as u16 + c;
        let bin8: u8 = (bin % 0x100) as u8;
        let vflag = ((self.a >= 0x80) == (m >= 0x80)) && ((bin8 >= 0x80) != (self.a >= 0x80));
        if !self.f_d {
            self.f_c = bin > 0xFF;
            self.f_v = vflag;
            self.f_z = bin8 == 0;
            self.f_n = bin8 >= 0x80;
            self.a = bin8;
        } else {
            let lo0: u16 = (self.a % 16) as u16 + (m % 16) as u16 + c;
            let lo: u16 = if lo0 > 9 { lo0 + 6 } else { lo0 };
            let hi0: u16 = (self.a / 16) as u16 + (m / 16) as u16 + if lo > 0xF { 1 } else { 0 };
            let hi: u16 = if hi0 > 9 { hi0 + 6 } else { hi0 };
            let res: u8 = ((hi % 16) * 16 + (lo % 16)) as u8;
            self.f_c = hi > 0xF;
            self.f_v = vflag;
            self.f_z = bin8 == 0;
            self.f_n = res >= 0x80;
            self.a = res;
        }
    }

    /// Subtract with carry, binary or decimal per the D flag; matches `s_sbc`.
    #[verifier::rlimit(100)]
    fn sbc_val(&mut self, m: u8)
        ensures
            final(self)@ == s_sbc(old(self)@, m),
    {
        let b: u16 = if self.f_c { 0 } else { 1 };
        let bin_off: u16 = 0x200 + self.a as u16 - m as u16 - b;
        let bin8: u8 = (bin_off % 0x100) as u8;
        proof {
            lemma_m8_shift(self.a as int - m as int - b as int, 0x200);
        }
        let vflag = ((self.a >= 0x80) != (m >= 0x80)) && ((bin8 >= 0x80) != (self.a >= 0x80));
        let res: u8 = if !self.f_d {
            bin8
        } else {
            let lo_off: u16 = 0x20 + (self.a % 16) as u16 - (m % 16) as u16 - b;
            let lo2: u16 = if lo_off < 0x20 { lo_off - 6 } else { lo_off };
            let hi_off: u16 = 0x20 + (self.a / 16) as u16 - (m / 16) as u16
                - if lo_off < 0x20 { 1 } else { 0 };
            let hi2: u16 = if hi_off < 0x20 { hi_off - 6 } else { hi_off };
            proof {
                lemma_mod16_shift(lo2 as int - 0x20, 0x20);
                lemma_mod16_shift(hi2 as int - 0x20, 0x20);
            }
            ((hi2 % 16) * 16 + (lo2 % 16)) as u8
        };
        self.f_c = bin_off >= 0x200;
        self.f_v = vflag;
        self.f_z = bin8 == 0;
        self.f_n = bin8 >= 0x80;
        self.a = res;
    }

    /// A compare against a register; matches `s_cmp`.
    fn cmp_val(&mut self, reg: u8, m: u8)
        ensures
            final(self)@ == s_cmp(old(self)@, reg, m),
    {
        let diff: u16 = 0x100 + reg as u16 - m as u16;
        self.f_c = reg >= m;
        self.f_z = reg == m;
        self.f_n = (diff % 0x100) as u8 >= 0x80;
    }

    /// A conditional branch: PC moves, and the cycle count carries the
    /// taken and page-crossing surcharges; matches `s_branch`.
    fn branch_do(&mut self, e: OpcodeEntry, taken: bool) -> (r: u32)
        requires
            old(self).wf(),
            taken == s_branch_taken(old(self)@, e.mnemonic),
        ensures
            final(self).wf(),
            final(self)@ == s_branch(old(self)@, e).0,
            r == s_branch(old(self)@, e).1,
    {
        let next = pc_add(self.pc, 2);
        if !taken {
            self.pc = next;
            e.cycles as u32
        } else {
            let off = self.read(pc_add(self.pc, 1));
            let t = ((next as u32 + off as u32 + if off >= 0x80 { 0xFF00u32 } else { 0 })
                % 0x10000) as u16;
            let extra: u32 = if next / 0x100 != t / 0x100 { 1 } else { 0 };
            self.pc = t;
            e.cycles as u32 + 1 + extra
        }
    }
}


/// The mnemonics whose indexed reads cost one extra cycle on a page crossing.
fn page_extra_x(m: Mnemonic) -> (r: bool)
    ensures
        r == s_page_extra(m),
{
    matches!(
        m,
        Mnemonic::Lda | Mnemonic::Ldx | Mnemonic::Ldy | Mnemonic::Eor | Mnemonic::And
            | Mnemonic::Ora | Mnemonic::Adc | Mnemonic::Sbc | Mnemonic::Cmp
    )
}

impl Cpu {
    /// Loads, stores and register transfers. `e` is the dispatch row of the opcode at PC and
    /// `(ea, crossed)` its effective-address computation.
    #[verifier::rlimit(100)]
    fn step_move(&mut self, e: OpcodeEntry, ea: u16, crossed: bool) -> (r: u32)
        requires
            old(self).wf(),
            (ea, crossed) == s_ea(old(self)@, e.mode),
            e.mnemonic is Lda || e.mnemonic is Ldx || e.mnemonic is Ldy || e.mnemonic is Sta || e.mnemonic is Stx || e.mnemonic is Sty || e.mnemonic is Tax || e.mnemonic is Tay || e.mnemonic is Txa || e.mnemonic is Tya || e.mnemonic is Tsx || e.mnemonic is Txs,
        ensures
            final(self).wf(),
            final(self)@ == s_exec(old(self)@, e).0,
            r == s_exec(old(self)@, e).1,
    {
        let base: u32 = e.cycles as u32;
        let rd_cyc: u32 = base + if crossed && page_extra_x(e.mnemonic) { 1 } else { 0 };
        match e.mnemonic {
            Mnemonic::Lda => {
                let mv = self.read(ea);
                self.a = mv;
                self.set_zn(mv);
                self.adv(e.length);
                rd_cyc
            },
            Mnemonic::Ldx => {
                let mv = self.read(ea);
                self.x = mv;
                self.set_zn(mv);
                self.adv(e.length);
                rd_cyc
            },
            Mnemonic::Ldy => {
                let mv = self.read(ea);
                self.y = mv;
                self.set_zn(mv);
                self.adv(e.length);
                rd_cyc
            },
            Mnemonic::Sta => {
                let t = self.a;
                self.write(ea, t);
                self.adv(e.length);
                base
            },
            Mnemonic::Stx => {
                let t = self.x;
                self.write(ea, t);
                self.adv(e.length);
                base
            },
            Mnemonic::Sty => {
                let t = self.y;
                self.write(ea, t);
                self.adv(e.length);
                base
            },
            Mnemonic::Tax => {
                let t = self.a;
                self.x = t;
                self.set_zn(t);
                self.adv(e.length);
                base
            },
            Mnemonic::Tay => {
                let t = self.a;
                self.y = t;
                self.set_zn(t);
                self.adv(e.length);
                base
            },
            Mnemonic::Txa => {
                let t = self.x;
                self.a = t;
                self.set_zn(t);
                self.adv(e.length);
                base
            },
            Mnemonic::Tya => {
                let t = self.y;
                self.a = t;
                self.set_zn(t);
                self.adv(e.length);
                base
            },
            Mnemonic::Tsx => {
                let t = self.sp;
                self.x = t;
                self.set_zn(t);
                self.adv(e.length);
                base
            },
            Mnemonic::Txs => {
                self.sp = self.x;
                self.adv(e.length);
                base
            },
            _ => vstd::pervasive::unreached(),
        }
    }

    /// Increments, decrements, logical operations, bit test, arithmetic and compares. `e` is the dispatch row of the opcode at PC and
    /// `(ea, crossed)` its effective-address computation.
    #[verifier::rlimit(100)]
    fn step_alu(&mut self, e: OpcodeEntry, ea: u16, crossed: bool) -> (r: u32)
        requires
            old(self).wf(),
            (ea, crossed) == s_ea(old(self)@, e.mode),
            e.mnemonic is Inx || e.mnemonic is Iny || e.mnemonic is Dex || e.mnemonic is Dey || e.mnemonic is Inc || e.mnemonic is Dec || e.mnemonic is And || e.mnemonic is Ora || e.mnemonic is Eor || e.mnemonic is Bit || e.mnemonic is Adc || e.mnemonic is Sbc || e.mnemonic is Cmp || e.mnemonic is Cpx || e.mnemonic is Cpy,
        ensures
            final(self).wf(),
            final(self)@ == s_exec(old(self)@, e).0,
            r == s_exec(old(self)@, e).1,
    {
        let base: u32 = e.cycles as u32;
        let rd_cyc: u32 = base + if crossed && page_extra_x(e.mnemonic) { 1 } else { 0 };
        match e.mnemonic {
            Mnemonic::Inx => {
                let t = byte_add(self.x, 1);
                self.x = t;
                self.set_zn(t);
                self.adv(e.length);
                base
            },
            Mnemonic::Iny => {
                let t = byte_add(self.y, 1);
                self.y = t;
                self.set_zn(t);
                self.adv(e.length);
                base
            },
            Mnemonic::Dex => {
                let t = byte_dec(self.x);
                self.x = t;
                self.set_zn(t);
                self.adv(e.length);
                base
            },
            Mnemonic::Dey => {
                let t = byte_dec(self.y);
                self.y = t;
                self.set_zn(t);
                self.adv(e.length);
                base
            },
            Mnemonic::Inc => {
                let mv = self.read(ea);
                let t = byte_add(mv, 1);
                self.write(ea, t);
                self.set_zn(t);
                self.adv(e.length);
                base
            },
            Mnemonic::Dec => {
                let mv = self.read(ea);
                let t = byte_dec(mv);
                self.write(ea, t);
                self.set_zn(t);
                self.adv(e.length);
                base
            },
            Mnemonic::And => {
                let mv = self.read(ea);
                let t = self.a & mv;
                self.a = t;
                self.set_zn(t);
                self.adv(e.length);
                rd_cyc
            },
            Mnemonic::Ora => {
                let mv = self.read(ea);
                let t = self.a | mv;
                self.a = t;
                self.set_zn(t);
                self.adv(e.length);
                rd_cyc
            },
            Mnemonic::Eor => {
                let mv = self.read(ea);
                let t = self.a ^ mv;
                self.a = t;
                self.set_zn(t);
                self.adv(e.length);
                rd_cyc
            },
            Mnemonic::Bit => {
                let mv = self.read(ea);
                self.f_z = (self.a & mv) == 0;
                self.f_n = mv >= 0x80;
                self.f_v = mv & 0x40 != 0;
                self.adv(e.length);
                base
            },
            Mnemonic::Adc => {
                let mv = self.read(ea);
                self.adc_val(mv);
                self.adv(e.length);
                rd_cyc
            },
            Mnemonic::Sbc => {
                let mv = self.read(ea);
                self.sbc_val(mv);
                self.adv(e.length);
                rd_cyc
            },
            Mnemonic::Cmp => {
                let mv = self.read(ea);
                let t = self.a;
                self.cmp_val(t, mv);
                self.adv(e.length);
                rd_cyc
            },
            Mnemonic::Cpx => {
                let mv = self.read(ea);
                let t = self.x;
                self.cmp_val(t, mv);
                self.adv(e.length);
                base
            },
            Mnemonic::Cpy => {
                let mv = self.read(ea);
                let t = self.y;
                self.cmp_val(t, mv);
                self.adv(e.length);
                base
            },
            _ => vstd::pervasive::unreached(),
        }
    }

    /// Shifts and rotates, on the accumulator or on memory. `e` is the dispatch row of the opcode at PC and
    /// `(ea, crossed)` its effective-address computation.
    #[verifier::rlimit(100)]
    fn step_shift(&mut self, e: OpcodeEntry, ea: u16, crossed: bool) -> (r: u32)
        requires
            old(self).wf(),
            (ea, crossed) == s_ea(old(self)@, e.mode),
            e.mnemonic is Asl || e.mnemonic is Lsr || e.mnemonic is Rol || e.mnemonic is Ror,
        ensures
            final(self).wf(),
            final(self)@ == s_exec(old(self)@, e).0,
            r == s_exec(old(self)@, e).1,
    {
        let base: u32 = e.cycles as u32;
        let rd_cyc: u32 = base + if crossed && page_extra_x(e.mnemonic) { 1 } else { 0 };
        match e.mnemonic {
            Mnemonic::Asl => {
                if matches!(e.mode, AddressingMode::Accumulator) {
                    let (t, c) = asl_v(self.a);
                    self.a = t;
                    self.f_c = c;
                    self.set_zn(t);
                } else {
                    let mv = self.read(ea);
                    let (t, c) = asl_v(mv);
                    self.write(ea, t);
                    self.f_c = c;
                    self.set_zn(t);
                }
                self.adv(e.length);
                base
            },
            Mnemonic::Lsr => {
                if matches!(e.mode, AddressingMode::Accumulator) {
                    let (t, c) = lsr_v(self.a);
                    self.a = t;
                    self.f_c = c;
                    self.set_zn(t);
                } else {
                    let mv = self.read(ea);
                    let (t, c) = lsr_v(mv);
                    self.write(ea, t);
                    self.f_c = c;
                    self.set_zn(t);
                }
                self.adv(e.length);
                base
            },
            Mnemonic::Rol => {
                if matches!(e.mode, AddressingMode::Accumulator) {
                    let (t, c) = rol_v(self.a, self.f_c);
                    self.a = t;
                    self.f_c = c;
                    self.set_zn(t);
                } else {
                    let mv = self.read(ea);
                    let (t, c) = rol_v(mv, self.f_c);
                    self.write(ea, t);
                    self.f_c = c;
                    self.set_zn(t);
                }
                self.adv(e.length);
                base
            },
            Mnemonic::Ror => {
                if matches!(e.mode, AddressingMode::Accumulator) {
                    let (t, c) = ror_v(self.a, self.f_c);
                    self.a = t;
                    self.f_c = c;
                    self.set_zn(t);
                } else {
                    let mv = self.read(ea);
                    let (t, c) = ror_v(mv, self.f_c);
                    self.write(ea, t);
                    self.f_c = c;
                    self.set_zn(t);
                }
                self.adv(e.length);
                base
            },
            _ => vstd::pervasive::unreached(),
        }
    }

    /// Control flow: conditional branches, jumps, subroutine linkage and the software interrupt. `e` is the dispatch row of the opcode at PC and
    /// `(ea, crossed)` its effective-address computation.
    #[verifier::rlimit(100)]
    fn step_flow(&mut self, e: OpcodeEntry, ea: u16, crossed: bool) -> (r: u32)
        requires
            old(self).wf(),
            (ea, crossed) == s_ea(old(self)@, e.mode),
            e.mnemonic is Bpl || e.mnemonic is Bmi || e.mnemonic is Bvc || e.mnemonic is Bvs || e.mnemonic is Bcc || e.mnemonic is Bcs || e.mnemonic is Bne || e.mnemonic is Beq || e.mnemonic is Jmp || e.mnemonic is Jsr || e.mnemonic is Rts || e.mnemonic is Rti || e.mnemonic is Brk,
        ensures
            final(self).wf(),
            final(self)@ == s_exec(old(self)@, e).0,
            r == s_exec(old(self)@, e).1,
    {
        let base: u32 = e.cycles as u32;
        let rd_cyc: u32 = base + if crossed && page_extra_x(e.mnemonic) { 1 } else { 0 };
        match e.mnemonic {
            Mnemonic::Bpl => {
                let taken = !self.f_n;
                self.branch_do(e, taken)
            },
            Mnemonic::Bmi => {
                let taken = self.f_n;
                self.branch_do(e, taken)
            },
            Mnemonic::Bvc => {
                let taken = !self.f_v;
                self.branch_do(e, taken)
            },
            Mnemonic::Bvs => {
                let taken = self.f_v;
                self.branch_do(e, taken)
            },
            Mnemonic::Bcc => {
                let taken = !self.f_c;
                self.branch_do(e, taken)
            },
            Mnemonic::Bcs => {
                let taken = self.f_c;
                self.branch_do(e, taken)
            },
            Mnemonic::Bne => {
                let taken = !self.f_z;
                self.branch_do(e, taken)
            },
            Mnemonic::Beq => {
                let taken = self.f_z;
                self.branch_do(e, taken)
            },
            Mnemonic::Jmp => {
                self.pc = ea;
                base
            },
            Mnemonic::Jsr => {
                let ret = pc_add(self.pc, 2);
                self.push((ret / 0x100) as u8);
                self.push((ret % 0x100) as u8);
                self.pc = ea;
                base
            },
            Mnemonic::Rts => {
                let lo = self.pull();
                let hi = self.pull();
                self.pc = pc_add(hi as u16 * 0x100 + lo as u16, 1);
                base
            },
            Mnemonic::Rti => {
                let st = self.pull();
                self.set_status(st);
                let lo = self.pull();
                let hi = self.pull();
                self.pc = hi as u16 * 0x100 + lo as u16;
                base
            },
            Mnemonic::Brk => {
                let ret = pc_add(self.pc, 2);
                let st = self.status_byte();
                self.push((ret / 0x100) as u8);
                self.push((ret % 0x100) as u8);
                self.push(st + 0x10);
                self.f_i = true;
                self.pc = self.read_word(0xFFFE);
                base
            },
            _ => vstd::pervasive::unreached(),
        }
    }

    /// Stack pushes and pulls, flag instructions and the no-operation. `e` is the dispatch row of the opcode at PC and
    /// `(ea, crossed)` its effective-address computation.
    #[verifier::rlimit(100)]
    fn step_stack(&mut self, e: OpcodeEntry, ea: u16, crossed: bool) -> (r: u32)
        requires
            old(self).wf(),
            (ea, crossed) == s_ea(old(self)@, e.mode),
            e.mnemonic is Pha || e.mnemonic is Php || e.mnemonic is Pla || e.mnemonic is Plp || e.mnemonic is Clc || e.mnemonic is Sec || e.mnemonic is Cli || e.mnemonic is Sei || e.mnemonic is Clv || e.mnemonic is Cld || e.mnemonic is Sed || e.mnemonic is Nop,
        ensures
            final(self).wf(),
            final(self)@ == s_exec(old(self)@, e).0,
            r == s_exec(old(self)@, e).1,
    {
        let base: u32 = e.cycles as u32;
        let rd_cyc: u32 = base + if crossed && page_extra_x(e.mnemonic) { 1 } else { 0 };
        match e.mnemonic {
            Mnemonic::Pha => {
                let t = self.a;
                self.push(t);
                self.adv(e.length);
                base
            },
            Mnemonic::Php => {
                let st = self.status_byte();
                self.push(st + 0x10);
                self.adv(e.length);
                base
            },
            Mnemonic::Pla => {
                let t = self.pull();
                self.a = t;
                self.set_zn(t);
                self.adv(e.length);
                base
            },
            Mnemonic::Plp => {
                let st = self.pull();
                self.set_status(st);
                self.adv(e.length);
                base
            },
            Mnemonic::Clc => {
                self.f_c = false;
                self.adv(e.length);
                base
            },
            Mnemonic::Sec => {
                self.f_c = true;
                self.adv(e.length);
                base
            },
            Mnemonic::Cli => {
                self.f_i = false;
                self.adv(e.length);
                base
            },
            Mnemonic::Sei => {
                self.f_i = true;
                self.adv(e.length);
                base
            },
            Mnemonic::Clv => {
                self.f_v = false;
                self.adv(e.length);
                base
            },
            Mnemonic::Cld => {
                self.f_d = false;
                self.adv(e.length);
                base
            },
            Mnemonic::Sed => {
                self.f_d = true;
                self.adv(e.length);
                base
            },
            Mnemonic::Nop => {
                self.adv(e.length);
                base
            },
            _ => vstd::pervasive::unreached(),
        }
    }

    /// One fetch-decode-execute step. Fetches the opcode at PC, looks up its
    /// dispatch row, and either signals the Illegal-Opcode condition (leaving
    /// the whole engine untouched) or executes the instruction exactly as the
    /// model machine `s_step` does, returning the cycles consumed including
    /// page-crossing and branch-taken surcharges.
    pub fn step(&mut self) -> (r: Result<u32, Fault>)
        requires
            old(self).wf(),
        ensures
            final(self).wf(),
            (match s_step(old(self)@) {
                Option::None => r == Err::<u32, Fault>(Fault::IllegalOpcode)
                    && final(self)@ == old(self)@,
                Option::Some(t) => r == Ok::<u32, Fault>(t.1) && final(self)@ == t.0,
            }),
    {
        let op = self.read(self.pc);
        let e = opcode_entry(op);
        if e.illegal {
            return Err(Fault::IllegalOpcode);
        }
        proof {
            crate::table::lemma_table_wf(op);
        }
        let (ea, crossed) = self.fetch_ea(e.mode);
        let c = match e.mnemonic {
            Mnemonic::Lda | Mnemonic::Ldx | Mnemonic::Ldy | Mnemonic::Sta | Mnemonic::Stx
                | Mnemonic::Sty | Mnemonic::Tax | Mnemonic::Tay | Mnemonic::Txa | Mnemonic::Tya
                | Mnemonic::Tsx | Mnemonic::Txs => self.step_move(e, ea, crossed),
            Mnemonic::Inx | Mnemonic::Iny | Mnemonic::Dex | Mnemonic::Dey | Mnemonic::Inc
                | Mnemonic::Dec | Mnemonic::And | Mnemonic::Ora | Mnemonic::Eor | Mnemonic::Bit
                | Mnemonic::Adc | Mnemonic::Sbc | Mnemonic::Cmp | Mnemonic::Cpx
                | Mnemonic::Cpy => self.step_alu(e, ea, crossed),
            Mnemonic::Asl | Mnemonic::Lsr | Mnemonic::Rol | Mnemonic::Ror => self.step_shift(
                e,
                ea,
                crossed,
            ),
            Mnemonic::Bpl | Mnemonic::Bmi | Mnemonic::Bvc | Mnemonic::Bvs | Mnemonic::Bcc
                | Mnemonic::Bcs | Mnemonic::Bne | Mnemonic::Beq | Mnemonic::Jmp | Mnemonic::Jsr
                | Mnemonic::Rts | Mnemonic::Rti | Mnemonic::Brk => self.step_flow(e, ea, crossed),
            Mnemonic::Pha | Mnemonic::Php | Mnemonic::Pla | Mnemonic::Plp | Mnemonic::Clc
                | Mnemonic::Sec | Mnemonic::Cli | Mnemonic::Sei | Mnemonic::Clv | Mnemonic::Cld
                | Mnemonic::Sed | Mnemonic::Nop => self.step_stack(e, ea, crossed),
            Mnemonic::Ill => vstd::pervasive::unreached(),
        };
        Ok(c)
    }
}

} // verus!
