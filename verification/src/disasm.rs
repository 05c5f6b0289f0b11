use vstd::prelude::*;
use crate::table::{AddressingMode, Mnemonic, OpcodeEntry, opcode_entry, s_entry, lemma_table_wf};
use crate::machine::{CpuV, mrd, m16, word_at, s_rel_target};
use crate::cpu::{Cpu, pc_add};

verus! {

/// The character a hexadecimal digit value renders as (uppercase).
pub open spec fn s_digit(n: int) -> char {
    if n == 0 {
        '0'
    } else if n == 1 {
        '1'
    } else if n == 2 {
        '2'
    } else if n == 3 {
        '3'
    } else if n == 4 {
        '4'
    } else if n == 5 {
        '5'
    } else if n == 6 {
        '6'
    } else if n == 7 {
        '7'
    } else if n == 8 {
        '8'
    } else if n == 9 {
        '9'
    } else if n == 10 {
        'A'
    } else if n == 11 {
        'B'
    } else if n == 12 {
        'C'
    } else if n == 13 {
        'D'
    } else if n == 14 {
        'E'
    } else {
        'F'
    }
}

/// Two uppercase hexadecimal digits for one byte.
pub open spec fn s_hex2(b: u8) -> Seq<char> {
    seq![s_digit(b as int / 16), s_digit(b as int % 16)]
}

/// Four uppercase hexadecimal digits for one 16-bit word.
pub open spec fn s_hex4(w: u16) -> Seq<char> {
    s_hex2((w as int / 0x100) as u8) + s_hex2((w as int % 0x100) as u8)
}

fn hex_digit(n: u8) -> (r: &'static str)
    requires
        n < 16,
    ensures
        r@ == seq![s_digit(n as int)],
{
    proof {
        reveal_strlit("0");
        reveal_strlit("1");
        reveal_strlit("2");
        reveal_strlit("3");
        reveal_strlit("4");
        reveal_strlit("5");
        reveal_strlit("6");
        reveal_strlit("7");
        reveal_strlit("8");
        reveal_strlit("9");
        reveal_strlit("A");
        reveal_strlit("B");
        reveal_strlit("C");
        reveal_strlit("D");
        reveal_strlit("E");
        reveal_strlit("F");
    }
    match n {
        0 => "0",
        1 => "1",
        2 => "2",
        3 => "3",
        4 => "4",
        5 => "5",
        6 => "6",
        7 => "7",
        8 => "8",
        9 => "9",
        10 => "A",
        11 => "B",
        12 => "C",
        13 => "D",
        14 => "E",
        _ => "F",
    }
}

/// One byte as two uppercase hexadecimal digits.
pub fn hex2(b: u8) -> (s: String)
    ensures
        s@ == s_hex2(b),
{
    let mut s = String::new();
    s.append(hex_digit(b / 16));
    s.append(hex_digit(b % 16));
    proof {
        assert(s@ =~= s_hex2(b));
    }
    s
}

/// One 16-bit word as four uppercase hexadecimal digits.
pub fn hex4(w: u16) -> (s: String)
    ensures
        s@ == s_hex4(w),
{
    let mut s = hex2((w / 0x100) as u8);
    let lo = hex2((w % 0x100) as u8);
    s.append(lo.as_str());
    s
}

/// The uppercase assembler text of a mnemonic; the placeholder row of every
/// unimplemented opcode renders as a recognizable marker instead of failing.
pub open spec fn s_mnemonic_text(m: Mnemonic) -> Seq<char> {
    match m {
        Mnemonic::Adc => "ADC"@,
        Mnemonic::And => "AND"@,
        Mnemonic::Asl => "ASL"@,
        Mnemonic::Bcc => "BCC"@,
        Mnemonic::Bcs => "BCS"@,
        Mnemonic::Beq => "BEQ"@,
        Mnemonic::Bit => "BIT"@,
        Mnemonic::Bmi => "BMI"@,
        Mnemonic::Bne => "BNE"@,
        Mnemonic::Bpl => "BPL"@,
        Mnemonic::Brk => "BRK"@,
        Mnemonic::Bvc => "BVC"@,
        Mnemonic::Bvs => "BVS"@,
        Mnemonic::Clc => "CLC"@,
        Mnemonic::Cld => "CLD"@,
        Mnemonic::Cli => "CLI"@,
        Mnemonic::Clv => "CLV"@,
        Mnemonic::Cmp => "CMP"@,
        Mnemonic::Cpx => "CPX"@,
        Mnemonic::Cpy => "CPY"@,
        Mnemonic::Dec => "DEC"@,
        Mnemonic::Dex => "DEX"@,
        Mnemonic::Dey => "DEY"@,
        Mnemonic::Eor => "EOR"@,
        Mnemonic::Inc => "INC"@,
        Mnemonic::Inx => "INX"@,
        Mnemonic::Iny => "INY"@,
        Mnemonic::Jmp => "JMP"@,
        Mnemonic::Jsr => "JSR"@,
        Mnemonic::Lda => "LDA"@,
        Mnemonic::Ldx => "LDX"@,
        Mnemonic::Ldy => "LDY"@,
        Mnemonic::Lsr => "LSR"@,
        Mnemonic::Nop => "NOP"@,
        Mnemonic::Ora => "ORA"@,
        Mnemonic::Pha => "PHA"@,
        Mnemonic::Php => "PHP"@,
        Mnemonic::Pla => "PLA"@,
        Mnemonic::Plp => "PLP"@,
        Mnemonic::Rol => "ROL"@,
        Mnemonic::Ror => "ROR"@,
        Mnemonic::Rti => "RTI"@,
        Mnemonic::Rts => "RTS"@,
        Mnemonic::Sbc => "SBC"@,
        Mnemonic::Sec => "SEC"@,
        Mnemonic::Sed => "SED"@,
        Mnemonic::Sei => "SEI"@,
        Mnemonic::Sta => "STA"@,
        Mnemonic::Stx => "STX"@,
        Mnemonic::Sty => "STY"@,
        Mnemonic::Tax => "TAX"@,
        Mnemonic::Tay => "TAY"@,
        Mnemonic::Tsx => "TSX"@,
        Mnemonic::Txa => "TXA"@,
        Mnemonic::Txs => "TXS"@,
        Mnemonic::Tya => "TYA"@,
        Mnemonic::Ill => "???"@,
    }
}

/// The uppercase assembler text of a mnemonic.
pub fn mnemonic_text(m: Mnemonic) -> (r: &'static str)
    ensures
        r@ == s_mnemonic_text(m),
{
    match m {
        Mnemonic::Adc => "ADC",
        Mnemonic::And => "AND",
        Mnemonic::Asl => "ASL",
        Mnemonic::Bcc => "BCC",
        Mnemonic::Bcs => "BCS",
        Mnemonic::Beq => "BEQ",
        Mnemonic::Bit => "BIT",
        Mnemonic::Bmi => "BMI",
        Mnemonic::Bne => "BNE",
        Mnemonic::Bpl => "BPL",
        Mnemonic::Brk => "BRK",
        Mnemonic::Bvc => "BVC",
        Mnemonic::Bvs => "BVS",
        Mnemonic::Clc => "CLC",
        Mnemonic::Cld => "CLD",
        Mnemonic::Cli => "CLI",
        Mnemonic::Clv => "CLV",
        Mnemonic::Cmp => "CMP",
        Mnemonic::Cpx => "CPX",
        Mnemonic::Cpy => "CPY",
        Mnemonic::Dec => "DEC",
        Mnemonic::Dex => "DEX",
        Mnemonic::Dey => "DEY",
        Mnemonic::Eor => "EOR",
        Mnemonic::Inc => "INC",
        Mnemonic::Inx => "INX",
        Mnemonic::Iny => "INY",
        Mnemonic::Jmp => "JMP",
        Mnemonic::Jsr => "JSR",
        Mnemonic::Lda => "LDA",
        Mnemonic::Ldx => "LDX",
        Mnemonic::Ldy => "LDY",
        Mnemonic::Lsr => "LSR",
        Mnemonic::Nop => "NOP",
        Mnemonic::Ora => "ORA",
        Mnemonic::Pha => "PHA",
        Mnemonic::Php => "PHP",
        Mnemonic::Pla => "PLA",
        Mnemonic::Plp => "PLP",
        Mnemonic::Rol => "ROL",
        Mnemonic::Ror => "ROR",
        Mnemonic::Rti => "RTI",
        Mnemonic::Rts => "RTS",
        Mnemonic::Sbc => "SBC",
        Mnemonic::Sec => "SEC",
        Mnemonic::Sed => "SED",
        Mnemonic::Sei => "SEI",
        Mnemonic::Sta => "STA",
        Mnemonic::Stx => "STX",
        Mnemonic::Sty => "STY",
        Mnemonic::Tax => "TAX",
        Mnemonic::Tay => "TAY",
        Mnemonic::Tsx => "TSX",
        Mnemonic::Txa => "TXA",
        Mnemonic::Txs => "TXS",
        Mnemonic::Tya => "TYA",
        Mnemonic::Ill => "???",
    }
}


/// The label map: one flag per address, set where a label belongs. The
/// synthesized name of a labelled address is `s_label_text`. Built fresh per
/// disassembly invocation, read-only during rendering; keys are unique by
/// construction and insertion order cannot matter.
pub struct LabelMap {
    pub marks: Vec<bool>,
}

impl View for LabelMap {
    type V = Seq<bool>;

    open spec fn view(&self) -> Seq<bool> {
        self.marks@
    }
}

impl LabelMap {
    pub open spec fn wf(&self) -> bool {
        self@.len() == 0x10000
    }

    /// An empty map: no address is labelled.
    pub fn new() -> (m: LabelMap)
        ensures
            m.wf(),
            m@ == Seq::new(0x10000, |i: int| false),
    {
        let mut marks: Vec<bool> = Vec::new();
        while marks.len() < 0x10000
            invariant
                marks@.len() <= 0x10000,
                forall|i: int| 0 <= i < marks@.len() ==> !marks@[i],
            decreases 0x10000 - marks@.len(),
        {
            marks.push(false);
        }
        proof {
            assert(marks@ =~= Seq::new(0x10000, |i: int| false));
        }
        LabelMap { marks }
    }

    /// Label `addr`.
    pub fn mark(&mut self, addr: u16)
        requires
            old(self).wf(),
        ensures
            final(self).wf(),
            final(self)@ == old(self)@.update(addr as int, true),
    {
        self.marks[addr as usize] = true;
    }

    /// Whether `addr` is labelled.
    pub fn contains(&self, addr: u16) -> (r: bool)
        requires
            self.wf(),
        ensures
            r == self@[addr as int],
    {
        self.marks[addr as usize]
    }
}

/// The statically-known control-flow target of the instruction at `addr`, if
/// any: absolute jumps and calls name their target outright, and relative
/// branches displace from the following address. Indirect jumps have no
/// static target.
pub open spec fn s_target(v: CpuV, addr: u16, e: OpcodeEntry) -> Option<u16> {
    if (e.mnemonic is Jmp || e.mnemonic is Jsr) && e.mode is Absolute {
        Some(word_at(v, m16(addr as int + 1)))
    } else if e.mode is Relative {
        Some(s_rel_target(v, addr))
    } else {
        None
    }
}

/// The number of addresses a walk from `addr` to `end` still has to visit.
pub open spec fn s_span(addr: int, end: int) -> int {
    if addr > end {
        0
    } else {
        end + 1 - addr
    }
}

/// First pass over a segment: walk instruction boundaries (by dispatch-table
/// lengths alone, never executing) from `addr` to `end` and label every
/// statically-known branch/jump/call target that falls inside the segment
/// `[start, end]`. All segment bytes are assumed to be code: embedded data is
/// walked as if it were instructions, an intentional, documented limitation.
pub open spec fn s_first_pass(v: CpuV, start: int, addr: int, end: int, marks: Seq<bool>) -> Seq<
    bool,
>
    decreases s_span(addr, end),
    when addr > end || (0 <= addr && end <= 0xFFFF)
    via s_first_pass_dec
{
    if addr > end {
        marks
    } else {
        let a16 = addr as u16;
        let e = s_entry(mrd(v, a16));
        let marks2 = match s_target(v, a16, e) {
            Some(t) => if start <= t as int && t as int <= end {
                marks.update(t as int, true)
            } else {
                marks
            },
            None => marks,
        };
        s_first_pass(v, start, addr + e.length as int, end, marks2)
    }
}

#[via_fn]
proof fn s_first_pass_dec(v: CpuV, start: int, addr: int, end: int, marks: Seq<bool>) {
    if addr <= end {
        lemma_table_wf(mrd(v, addr as u16));
    }
}

/// Relative-branch target of the instruction at `pc`.
fn rel_target(cpu: &Cpu, pc: u16) -> (r: u16)
    requires
        cpu.wf(),
    ensures
        r == s_rel_target(cpu@, pc),
{
    let next = pc_add(pc, 2);
    let off = cpu.read(pc_add(pc, 1));
    ((next as u32 + off as u32 + if off >= 0x80 { 0xFF00u32 } else { 0 }) % 0x10000) as u16
}

/// Disassembler first pass: discover labels over `[start, end]`, adding them
/// to `map`, exactly as `s_first_pass` says. Reads memory only through the
/// engine's read accessor; never mutates the engine.
pub fn first_pass(cpu: &Cpu, start: u16, end: u16, map: &mut LabelMap)
    requires
        cpu.wf(),
        old(map).wf(),
    ensures
        final(map).wf(),
        final(map)@ == s_first_pass(cpu@, start as int, start as int, end as int, old(map)@),
{
    let mut pos: u32 = start as u32;
    while pos <= end as u32
        invariant
            cpu.wf(),
            map.wf(),
            s_first_pass(cpu@, start as int, start as int, end as int, old(map)@)
                == s_first_pass(cpu@, start as int, pos as int, end as int, map@),
        decreases s_span(pos as int, end as int),
    {
        let a16 = pos as u16;
        let op = cpu.read(a16);
        let e = opcode_entry(op);
        proof {
            lemma_table_wf(op);
        }
        let target: Option<u16> = if matches!(e.mnemonic, Mnemonic::Jmp | Mnemonic::Jsr)
            && matches!(e.mode, AddressingMode::Absolute) {
            Some(cpu.read_word(pc_add(a16, 1)))
        } else if matches!(e.mode, AddressingMode::Relative) {
            Some(rel_target(cpu, a16))
        } else {
            None
        };
        match target {
            Some(t) => {
                if start <= t && t <= end {
                    map.mark(t);
                }
            },
            None => {},
        }
        pos = pos + e.length as u32;
    }
}


/// The operand text of the instruction at `addr`, in conventional
/// cross-assembler syntax for each addressing mode: immediate as `#$nn`,
/// zero-page indexed as `$nn,X`, absolute as `$nnnn`, indirect-indexed as
/// `($nn),Y`, and so on; a relative branch shows its resolved target address.
pub open spec fn s_operand_text(v: CpuV, addr: u16, e: OpcodeEntry) -> Seq<char> {
    let b = mrd(v, m16(addr as int + 1));
    let w = word_at(v, m16(addr as int + 1));
    match e.mode {
        AddressingMode::Implied => Seq::empty(),
        AddressingMode::Accumulator => " A"@,
        AddressingMode::Immediate => " #$"@ + s_hex2(b),
        AddressingMode::ZeroPage => " $"@ + s_hex2(b),
        AddressingMode::ZeroPageX => " $"@ + s_hex2(b) + ",X"@,
        AddressingMode::ZeroPageY => " $"@ + s_hex2(b) + ",Y"@,
        AddressingMode::Absolute => " $"@ + s_hex4(w),
        AddressingMode::AbsoluteX => " $"@ + s_hex4(w) + ",X"@,
        AddressingMode::AbsoluteY => " $"@ + s_hex4(w) + ",Y"@,
        AddressingMode::Indirect => " ($"@ + s_hex4(w) + ")"@,
        AddressingMode::IndirectX => " ($"@ + s_hex2(b) + ",X)"@,
        AddressingMode::IndirectY => " ($"@ + s_hex2(b) + "),Y"@,
        AddressingMode::Relative => " $"@ + s_hex4(s_rel_target(v, addr)),
    }
}

/// The synthesized label name of an address: `L` and four hex digits.
pub open spec fn s_label_text(addr: u16) -> Seq<char> {
    "L"@ + s_hex4(addr)
}

/// One rendered instruction line: indentation, the uppercase mnemonic, and
/// the operand text.
pub open spec fn s_instr_line(v: CpuV, addr: u16, e: OpcodeEntry) -> Seq<char> {
    "    "@ + s_mnemonic_text(e.mnemonic) + s_operand_text(v, addr, e)
}

/// Second pass over a segment, walking the same instruction boundaries as
/// the first pass: for each instruction address, a label line first if the
/// address is labelled, then the instruction line.
pub open spec fn s_render(v: CpuV, addr: int, end: int, marks: Seq<bool>) -> Seq<Seq<char>>
    decreases s_span(addr, end),
    when addr > end || (0 <= addr && end <= 0xFFFF)
    via s_render_dec
{
    if addr > end {
        Seq::empty()
    } else {
        let a16 = addr as u16;
        let e = s_entry(mrd(v, a16));
        let tail = s_render(v, addr + e.length as int, end, marks);
        let line = s_instr_line(v, a16, e);
        if marks[addr] {
            seq![s_label_text(a16), line] + tail
        } else {
            seq![line] + tail
        }
    }
}

#[via_fn]
proof fn s_render_dec(v: CpuV, addr: int, end: int, marks: Seq<bool>) {
    if addr <= end {
        lemma_table_wf(mrd(v, addr as u16));
    }
}

/// The synthesized label name of an address.
pub fn label_text(addr: u16) -> (s: String)
    ensures
        s@ == s_label_text(addr),
{
    let mut s = String::from_str("L");
    let h = hex4(addr);
    s.append(h.as_str());
    s
}

/// The rendered instruction line of the instruction at `addr`.
fn instr_line(cpu: &Cpu, addr: u16, e: OpcodeEntry) -> (s: String)
    requires
        cpu.wf(),
    ensures
        s@ == s_instr_line(cpu@, addr, e),
{
    let b = cpu.read(pc_add(addr, 1));
    let w = cpu.read_word(pc_add(addr, 1));
    let mut s = String::from_str("    ");
    s.append(mnemonic_text(e.mnemonic));
    match e.mode {
        AddressingMode::Implied => {},
        AddressingMode::Accumulator => {
            s.append(" A");
        },
        AddressingMode::Immediate => {
            s.append(" #$");
            let h = hex2(b);
            s.append(h.as_str());
        },
        AddressingMode::ZeroPage => {
            s.append(" $");
            let h = hex2(b);
            s.append(h.as_str());
        },
        AddressingMode::ZeroPageX => {
            s.append(" $");
            let h = hex2(b);
            s.append(h.as_str());
            s.append(",X");
        },
        AddressingMode::ZeroPageY => {
            s.append(" $");
            let h = hex2(b);
            s.append(h.as_str());
            s.append(",Y");
        },
        AddressingMode::Absolute => {
            s.append(" $");
            let h = hex4(w);
            s.append(h.as_str());
        },
        AddressingMode::AbsoluteX => {
            s.append(" $");
            let h = hex4(w);
            s.append(h.as_str());
            s.append(",X");
        },
        AddressingMode::AbsoluteY => {
            s.append(" $");
            let h = hex4(w);
            s.append(h.as_str());
            s.append(",Y");
        },
        AddressingMode::Indirect => {
            s.append(" ($");
            let h = hex4(w);
            s.append(h.as_str());
            s.append(")");
        },
        AddressingMode::IndirectX => {
            s.append(" ($");
            let h = hex2(b);
            s.append(h.as_str());
            s.append(",X)");
        },
        AddressingMode::IndirectY => {
            s.append(" ($");
            let h = hex2(b);
            s.append(h.as_str());
            s.append("),Y");
        },
        AddressingMode::Relative => {
            s.append(" $");
            let t = rel_target(cpu, addr);
            let h = hex4(t);
            s.append(h.as_str());
        },
    }
    proof {
        assert(s@ =~= s_instr_line(cpu@, addr, e));
    }
    s
}

/// The label marks a renderer run uses: the given map's, or none.
pub open spec fn s_marks_of(labels: Option<&LabelMap>) -> Seq<bool> {
    match labels {
        Some(m) => m@,
        None => Seq::new(0x10000, |i: int| false),
    }
}

/// Disassembler renderer: one formatted line per instruction over
/// `[start, end]`, a label line before each labelled address, exactly as
/// `s_render` says. A pure function of the engine's memory and the label
/// map, so re-running it on identical input reproduces identical text.
pub fn disasm(cpu: &Cpu, start: u16, end: u16, labels: Option<&LabelMap>) -> (r: Vec<String>)
    requires
        cpu.wf(),
        (match labels {
            Some(m) => m.wf(),
            None => true,
        }),
    ensures
        r@.map_values(|s: String| s@) == s_render(
            cpu@,
            start as int,
            end as int,
            s_marks_of(labels),
        ),
{
    let ghost marks = s_marks_of(labels);
    let mut lines: Vec<String> = Vec::new();
    let mut pos: u32 = start as u32;
    while pos <= end as u32
        invariant
            cpu.wf(),
            (match labels {
                Some(m) => m.wf() && marks == m@,
                None => marks == Seq::new(0x10000, |i: int| false),
            }),
            s_render(cpu@, start as int, end as int, marks) == lines@.map_values(|s: String| s@)
                + s_render(cpu@, pos as int, end as int, marks),
        decreases s_span(pos as int, end as int),
    {
        let ghost pre = lines@.map_values(|s: String| s@);
        let a16 = pos as u16;
        let op = cpu.read(a16);
        let e = opcode_entry(op);
        proof {
            lemma_table_wf(op);
        }
        let labelled = match labels {
            Some(m) => m.contains(a16),
            None => false,
        };
        if labelled {
            lines.push(label_text(a16));
        }
        lines.push(instr_line(cpu, a16, e));
        proof {
            let tail = s_render(cpu@, pos as int + e.length as int, end as int, marks);
            let line = s_instr_line(cpu@, a16, e);
            if marks[pos as int] {
                assert(lines@.map_values(|s: String| s@) =~= pre + seq![
                    s_label_text(a16),
                    line,
                ]);
                assert(pre + (seq![s_label_text(a16), line] + tail) =~= (pre + seq![
                    s_label_text(a16),
                    line,
                ]) + tail);
            } else {
                assert(lines@.map_values(|s: String| s@) =~= pre + seq![line]);
                assert(pre + (seq![line] + tail) =~= (pre + seq![line]) + tail);
            }
        }
        pos = pos + e.length as u32;
    }
    proof {
        assert(lines@.map_values(|s: String| s@) + Seq::<Seq<char>>::empty() =~= lines@.map_values(
            |s: String| s@,
        ));
    }
    lines
}

} // verus!
