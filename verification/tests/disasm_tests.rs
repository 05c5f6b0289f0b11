use fe02::cpu::Cpu;
use fe02::disasm::{disasm, first_pass, hex2, hex4, label_text, LabelMap};
use fe02::trace::trace;

fn loaded(program: &[u8], addr: u16) -> Cpu {
    let mut cpu = Cpu::new();
    cpu.load(&program.to_vec(), Some(addr)).expect("load");
    cpu
}

#[test]
fn hex_formatting() {
    assert_eq!(hex2(0x00), "00");
    assert_eq!(hex2(0xA5), "A5");
    assert_eq!(hex4(0x0ABC), "0ABC");
    assert_eq!(hex4(0xFFFF), "FFFF");
    assert_eq!(label_text(0x1234), "L1234");
}

#[test]
fn disasm_renders_modes() {
    // LDA #$44; STA $0310; LDA $10,X; STA ($20),Y; ASL A; JMP ($0300)
    let prog = [
        0xA9, 0x44, 0x8D, 0x10, 0x03, 0xB5, 0x10, 0x91, 0x20, 0x0A, 0x6C, 0x00, 0x03,
    ];
    let cpu = loaded(&prog, 0x0200);
    let lines = disasm(&cpu, 0x0200, 0x0200 + prog.len() as u16 - 1, None);
    assert_eq!(
        lines,
        vec![
            "    LDA #$44",
            "    STA $0310",
            "    LDA $10,X",
            "    STA ($20),Y",
            "    ASL A",
            "    JMP ($0300)",
        ]
    );
}

#[test]
fn disasm_renders_placeholder_for_illegal() {
    let cpu = loaded(&[0x02, 0xEA], 0x0200);
    let lines = disasm(&cpu, 0x0200, 0x0201, None);
    assert_eq!(lines, vec!["    ???", "    NOP"]);
}

#[test]
fn first_pass_labels_branch_targets() {
    // 0200: BNE $0204 ; 0202: LDA #$01 ; 0204: NOP
    let prog = [0xD0, 0x02, 0xA9, 0x01, 0xEA];
    let cpu = loaded(&prog, 0x0200);
    let mut map = LabelMap::new();
    first_pass(&cpu, 0x0200, 0x0204, &mut map);
    assert!(map.contains(0x0204));
    assert!(!map.contains(0x0202));
    let lines = disasm(&cpu, 0x0200, 0x0204, Some(&map));
    assert_eq!(
        lines,
        vec!["    BNE $0204", "    LDA #$01", "L0204", "    NOP"]
    );
}

#[test]
fn first_pass_ignores_targets_outside_segment() {
    let prog = [0x4C, 0x00, 0x90]; // JMP $9000, far outside
    let cpu = loaded(&prog, 0x0200);
    let mut map = LabelMap::new();
    first_pass(&cpu, 0x0200, 0x0202, &mut map);
    assert!(!map.contains(0x9000));
}

#[test]
fn disasm_twice_is_identical() {
    let prog = [0xA9, 0x00, 0xD0, 0xFC, 0x20, 0x00, 0x02, 0xEA, 0x02, 0x4C, 0x00, 0x02];
    let cpu = loaded(&prog, 0x0200);
    let end = 0x0200 + prog.len() as u16 - 1;
    let mut map1 = LabelMap::new();
    first_pass(&cpu, 0x0200, end, &mut map1);
    let out1 = disasm(&cpu, 0x0200, end, Some(&map1));
    let mut map2 = LabelMap::new();
    first_pass(&cpu, 0x0200, end, &mut map2);
    let out2 = disasm(&cpu, 0x0200, end, Some(&map2));
    assert_eq!(out1, out2);
}

#[test]
fn trace_straight_line_five_records() {
    // LDA #$01; LDX #$02; NOP; INX; LDY #$03  (lengths 2,2,1,1,2)
    let prog = [0xA9, 0x01, 0xA2, 0x02, 0xEA, 0xE8, 0xA0, 0x03];
    let mut cpu = loaded(&prog, 0x0200);
    let recs = trace(&mut cpu, 0x0200, 5, None);
    assert_eq!(recs.len(), 5);
    let pcs: Vec<u16> = recs.iter().map(|r| r.pc).collect();
    assert_eq!(pcs, vec![0x0200, 0x0202, 0x0204, 0x0205, 0x0206]);
    assert!(recs.iter().all(|r| !r.illegal));
    assert_eq!(recs[0].opcode, 0xA9);
    assert_eq!(recs[0].operand, 0x01);
    assert_eq!(recs[0].cycles, 2);
    assert_eq!(recs[4].a, 0x01);
    assert_eq!(recs[4].x, 0x03);
    assert_eq!(recs[4].y, 0x03);
}

#[test]
fn trace_stops_at_illegal_opcode() {
    let prog = [0xEA, 0xEA, 0x02, 0xEA];
    let mut cpu = loaded(&prog, 0x0200);
    let recs = trace(&mut cpu, 0x0200, 5, None);
    assert_eq!(recs.len(), 3);
    assert!(!recs[0].illegal && !recs[1].illegal);
    assert!(recs[2].illegal);
    assert_eq!(recs[2].opcode, 0x02);
    assert_eq!(recs[2].cycles, 0);
    // the engine stays inspectable, parked at the faulting instruction
    assert_eq!(cpu.pc, 0x0202);
}

#[test]
fn trace_honors_stop_address() {
    let prog = [0xEA, 0xEA, 0xEA, 0xEA];
    let mut cpu = loaded(&prog, 0x0200);
    let recs = trace(&mut cpu, 0x0200, 10, Some(0x0202));
    assert_eq!(recs.len(), 2);
    assert_eq!(cpu.pc, 0x0202);
}

#[test]
fn trace_leaves_engine_state_for_inspection() {
    let prog = [0xA9, 0x2A, 0x85, 0x10]; // LDA #$2A; STA $10
    let mut cpu = loaded(&prog, 0x0200);
    let recs = trace(&mut cpu, 0x0200, 2, None);
    assert_eq!(recs.len(), 2);
    assert_eq!(cpu.a, 0x2A);
    assert_eq!(cpu.read(0x0010), 0x2A);
    assert_eq!(cpu.pc, 0x0204);
}
