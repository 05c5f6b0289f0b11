use fe02::cpu::{Cpu, Fault};
use fe02::loader::{LoadError, Segment};
use fe02::table::{opcode_entry, AddressingMode, Mnemonic};

fn fresh_with(program: &[u8], addr: u16) -> Cpu {
    let mut cpu = Cpu::new();
    let buf: Vec<u8> = program.to_vec();
    let segs = cpu.load(&buf, Some(addr)).expect("load");
    assert_eq!(segs.len(), 1);
    cpu.pc = addr;
    cpu
}

#[test]
fn table_matches_reference_rows() {
    let nop = opcode_entry(0xEA);
    assert_eq!(nop.mnemonic, Mnemonic::Nop);
    assert_eq!(nop.mode, AddressingMode::Implied);
    assert_eq!(nop.length, 1);
    assert_eq!(nop.cycles, 2);
    assert!(!nop.illegal);

    let lda = opcode_entry(0xA9);
    assert_eq!(lda.mnemonic, Mnemonic::Lda);
    assert_eq!(lda.mode, AddressingMode::Immediate);
    assert_eq!(lda.length, 2);
    assert_eq!(lda.cycles, 2);

    let jmp_ind = opcode_entry(0x6C);
    assert_eq!(jmp_ind.mnemonic, Mnemonic::Jmp);
    assert_eq!(jmp_ind.mode, AddressingMode::Indirect);
    assert_eq!(jmp_ind.length, 3);
    assert_eq!(jmp_ind.cycles, 5);

    let sta_izy = opcode_entry(0x91);
    assert_eq!(sta_izy.mnemonic, Mnemonic::Sta);
    assert_eq!(sta_izy.mode, AddressingMode::IndirectY);
    assert_eq!(sta_izy.cycles, 6);

    let asl_abx = opcode_entry(0x1E);
    assert_eq!(asl_abx.mnemonic, Mnemonic::Asl);
    assert_eq!(asl_abx.mode, AddressingMode::AbsoluteX);
    assert_eq!(asl_abx.cycles, 7);

    let bad = opcode_entry(0x02);
    assert!(bad.illegal);
    assert_eq!(bad.mnemonic, Mnemonic::Ill);
    assert_eq!(bad.length, 1);
}

#[test]
fn table_has_one_entry_per_opcode() {
    let mut legal = 0;
    for op in 0..=255u8 {
        let e = opcode_entry(op);
        assert!(e.length >= 1 && e.length <= 3, "opcode {op:#04x}");
        assert!(e.cycles <= 7);
        assert_eq!(e.illegal, e.mnemonic == Mnemonic::Ill);
        if !e.illegal {
            legal += 1;
        }
    }
    assert_eq!(legal, 151);
}

#[test]
fn load_raw_single_segment() {
    let mut cpu = Cpu::new();
    let buf = vec![0x01u8, 0x02, 0x03, 0xFF];
    let segs = cpu.load(&buf, Some(0x0200)).expect("load");
    assert_eq!(segs, vec![Segment { start: 0x0200, end: 0x0203 }]);
    for (i, b) in buf.iter().enumerate() {
        assert_eq!(cpu.read(0x0200 + i as u16), *b);
    }
    assert_eq!(cpu.read(0x01FF), 0);
    assert_eq!(cpu.read(0x0204), 0);
}

#[test]
fn load_raw_rejects_empty_and_overflow() {
    let mut cpu = Cpu::new();
    assert_eq!(cpu.load(&vec![], Some(0x0200)), Err(LoadError::Format));
    assert_eq!(
        cpu.load(&vec![1, 2, 3], Some(0xFFFE)),
        Err(LoadError::AddressOverflow)
    );
    for a in 0..=0xFFFFu16 {
        assert_eq!(cpu.read(a), 0);
    }
}

#[test]
fn load_self_describing_two_records() {
    let mut cpu = Cpu::new();
    let buf = vec![
        0x00, 0x02, 0x03, 0x00, 0xAA, 0xBB, 0xCC, // 3 bytes at $0200
        0x10, 0x03, 0x01, 0x00, 0xEE, // 1 byte at $0310
    ];
    let segs = cpu.load(&buf, None).expect("load");
    assert_eq!(
        segs,
        vec![
            Segment { start: 0x0200, end: 0x0202 },
            Segment { start: 0x0310, end: 0x0310 },
        ]
    );
    assert_eq!(cpu.read(0x0200), 0xAA);
    assert_eq!(cpu.read(0x0201), 0xBB);
    assert_eq!(cpu.read(0x0202), 0xCC);
    assert_eq!(cpu.read(0x0310), 0xEE);
}

#[test]
fn load_self_describing_truncated_leaves_memory_zero() {
    let mut cpu = Cpu::new();
    // header declares 5 payload bytes but only 2 remain
    let buf = vec![0x00, 0x02, 0x05, 0x00, 0xAA, 0xBB];
    assert_eq!(cpu.load(&buf, None), Err(LoadError::Format));
    for a in 0..=0xFFFFu16 {
        assert_eq!(cpu.read(a), 0);
    }
}

#[test]
fn load_self_describing_partial_header_and_overflow() {
    let mut cpu = Cpu::new();
    assert_eq!(cpu.load(&vec![0x00, 0x02, 0x01], None), Err(LoadError::Format));
    let buf = vec![0xF0, 0xFF, 0x20, 0x00,
        0, 0, 0, 0, 0, 0, 0, 0, 0, 0, 0, 0, 0, 0, 0, 0,
        0, 0, 0, 0, 0, 0, 0, 0, 0, 0, 0, 0, 0, 0, 0, 0];
    assert_eq!(cpu.load(&buf, None), Err(LoadError::AddressOverflow));
}

#[test]
fn step_nop_changes_only_pc() {
    let mut cpu = fresh_with(&[0xEA], 0x0200);
    let (a, x, y, sp, st) = (cpu.a, cpu.x, cpu.y, cpu.sp, cpu.status_byte());
    let cycles = cpu.step().expect("step");
    assert_eq!(cycles, 2);
    assert_eq!(cpu.pc, 0x0201);
    assert_eq!((cpu.a, cpu.x, cpu.y, cpu.sp, cpu.status_byte()), (a, x, y, sp, st));
}

#[test]
fn step_lda_immediate_flags() {
    let mut cpu = fresh_with(&[0xA9, 0x00, 0xA9, 0x80, 0xA9, 0x7F], 0x0200);
    let c = cpu.step().expect("step");
    assert_eq!(c, 2);
    assert!(cpu.f_z && !cpu.f_n);
    cpu.step().expect("step");
    assert!(cpu.f_n && !cpu.f_z);
    assert_eq!(cpu.a, 0x80);
    cpu.step().expect("step");
    assert!(!cpu.f_n && !cpu.f_z);
}

#[test]
fn branch_cycle_accounting() {
    // not taken: base cost
    let mut cpu = fresh_with(&[0xD0, 0x10], 0x0200); // BNE +16
    cpu.f_z = true;
    assert_eq!(cpu.step().expect("step"), 2);
    assert_eq!(cpu.pc, 0x0202);

    // taken, same page: one extra cycle
    let mut cpu = fresh_with(&[0xD0, 0x10], 0x0200);
    cpu.f_z = false;
    assert_eq!(cpu.step().expect("step"), 3);
    assert_eq!(cpu.pc, 0x0212);

    // taken, crossing into the next page: two extra cycles
    let mut cpu = fresh_with(&[0xD0, 0x10], 0x02FC);
    cpu.f_z = false;
    assert_eq!(cpu.step().expect("step"), 4);
    assert_eq!(cpu.pc, 0x030E);

    // taken backwards across the page boundary
    let mut cpu = fresh_with(&[0xD0, 0xFA], 0x0300); // BNE -6
    cpu.f_z = false;
    assert_eq!(cpu.step().expect("step"), 4);
    assert_eq!(cpu.pc, 0x02FC);
}

#[test]
fn indexed_page_cross_costs_extra_cycle() {
    // LDA $02FF,X with X=1 crosses into page 3
    let mut cpu = fresh_with(&[0xBD, 0xFF, 0x02], 0x0200);
    cpu.x = 1;
    assert_eq!(cpu.step().expect("step"), 5);
    // LDA $0280,X with X=1 stays in page 2
    let mut cpu = fresh_with(&[0xBD, 0x80, 0x02], 0x0200);
    cpu.x = 1;
    assert_eq!(cpu.step().expect("step"), 4);
    // STA $02FF,X pays the crossing in its base cost, never more
    let mut cpu = fresh_with(&[0x9D, 0xFF, 0x02], 0x0200);
    cpu.x = 1;
    assert_eq!(cpu.step().expect("step"), 5);
}

#[test]
fn zero_page_indexing_wraps() {
    let mut cpu = Cpu::new();
    cpu.load(&vec![0x42], Some(0x0003)).expect("load"); // value at $03
    cpu.load(&vec![0xB5, 0xFE], Some(0x0200)).expect("load"); // LDA $FE,X
    cpu.pc = 0x0200;
    cpu.x = 0x05; // $FE + $05 wraps to $03
    cpu.step().expect("step");
    assert_eq!(cpu.a, 0x42);
}

#[test]
fn jmp_indirect_page_wrap_bug() {
    let mut cpu = Cpu::new();
    cpu.load(&vec![0x6C, 0xFF, 0x02], Some(0x0200)).expect("load"); // JMP ($02FF)
    cpu.load(&vec![0x77], Some(0x02FF)).expect("load"); // pointer low byte
    cpu.load(&vec![0x11], Some(0x0300)).expect("load"); // used only without the bug
    cpu.pc = 0x0200;
    cpu.step().expect("step");
    // low byte from $02FF; high byte page-wraps to $0200 (holding $6C), not $0300
    assert_eq!(cpu.pc, 0x6C77);
}

#[test]
fn adc_decimal_mode() {
    let mut cpu = fresh_with(&[0x69, 0x27], 0x0200); // ADC #$27
    cpu.a = 0x15;
    cpu.f_d = true;
    cpu.f_c = false;
    cpu.step().expect("step");
    assert_eq!(cpu.a, 0x42);
    assert!(!cpu.f_c);

    let mut cpu = fresh_with(&[0x69, 0x01], 0x0200); // ADC #$01
    cpu.a = 0x99;
    cpu.f_d = true;
    cpu.f_c = false;
    cpu.step().expect("step");
    assert_eq!(cpu.a, 0x00);
    assert!(cpu.f_c);
}

#[test]
fn sbc_binary_and_decimal() {
    let mut cpu = fresh_with(&[0xE9, 0x15], 0x0200); // SBC #$15
    cpu.a = 0x42;
    cpu.f_c = true;
    cpu.step().expect("step");
    assert_eq!(cpu.a, 0x2D);
    assert!(cpu.f_c);

    let mut cpu = fresh_with(&[0xE9, 0x15], 0x0200);
    cpu.a = 0x42;
    cpu.f_d = true;
    cpu.f_c = true;
    cpu.step().expect("step");
    assert_eq!(cpu.a, 0x27);
    assert!(cpu.f_c);
}

#[test]
fn adc_overflow_flag_binary_formula() {
    let mut cpu = fresh_with(&[0x69, 0x50], 0x0200); // ADC #$50
    cpu.a = 0x50;
    cpu.f_c = false;
    cpu.step().expect("step");
    assert_eq!(cpu.a, 0xA0);
    assert!(cpu.f_v); // 0x50 + 0x50: two positives give a negative
    assert!(cpu.f_n);
}

#[test]
fn jsr_rts_round_trip() {
    let mut cpu = fresh_with(&[0x20, 0x10, 0x02], 0x0200); // JSR $0210
    cpu.load(&vec![0x60], Some(0x0210)).expect("load"); // RTS
    cpu.pc = 0x0200;
    let sp0 = cpu.sp;
    assert_eq!(cpu.step().expect("step"), 6);
    assert_eq!(cpu.pc, 0x0210);
    assert_eq!(cpu.sp, sp0.wrapping_sub(2));
    assert_eq!(cpu.step().expect("step"), 6);
    assert_eq!(cpu.pc, 0x0203);
    assert_eq!(cpu.sp, sp0);
}

#[test]
fn illegal_opcode_leaves_state_untouched() {
    let mut cpu = fresh_with(&[0x02], 0x0200);
    let before = (cpu.pc, cpu.a, cpu.x, cpu.y, cpu.sp, cpu.status_byte());
    assert_eq!(cpu.step(), Err(Fault::IllegalOpcode));
    assert_eq!(
        (cpu.pc, cpu.a, cpu.x, cpu.y, cpu.sp, cpu.status_byte()),
        before
    );
}

#[test]
fn reset_convention() {
    let cpu = Cpu::new();
    assert_eq!(cpu.sp, 0xFD);
    assert_eq!(cpu.status_byte(), 0x24);
    assert_eq!((cpu.a, cpu.x, cpu.y, cpu.pc), (0, 0, 0, 0));
}
