use fe02::cpu::Cpu;

fn loaded(program: &[u8], addr: u16) -> Cpu {
    let mut cpu = Cpu::new();
    cpu.load(&program.to_vec(), Some(addr)).expect("load");
    cpu.pc = addr;
    cpu
}

#[test]
fn php_plp_round_trip() {
    let mut cpu = loaded(&[0x08, 0x28], 0x0200); // PHP; PLP
    cpu.f_n = true;
    cpu.f_c = true;
    cpu.f_z = false;
    let st = cpu.status_byte();
    cpu.step().expect("php");
    // pushed copy has B and the unused bit set
    assert_eq!(cpu.read(0x0100 + 0xFD), st | 0x10);
    cpu.f_n = false;
    cpu.f_c = false;
    cpu.step().expect("plp");
    assert!(cpu.f_n && cpu.f_c && !cpu.f_z);
    assert_eq!(cpu.status_byte(), st);
}

#[test]
fn pha_pla_refreshes_flags() {
    let mut cpu = loaded(&[0x48, 0xA9, 0x01, 0x68], 0x0200); // PHA; LDA #$01; PLA
    cpu.a = 0x80;
    cpu.step().expect("pha");
    cpu.step().expect("lda");
    assert_eq!(cpu.a, 0x01);
    cpu.step().expect("pla");
    assert_eq!(cpu.a, 0x80);
    assert!(cpu.f_n && !cpu.f_z);
}

#[test]
fn brk_pushes_and_vectors() {
    let mut cpu = loaded(&[0x00], 0x0200); // BRK
    cpu.load(&vec![0x34, 0x12], Some(0xFFFE)).expect("vector");
    let sp0 = cpu.sp;
    let st = cpu.status_byte();
    assert_eq!(cpu.step().expect("brk"), 7);
    assert_eq!(cpu.pc, 0x1234);
    assert!(cpu.f_i);
    assert_eq!(cpu.sp, sp0.wrapping_sub(3));
    // return address pc+2, then status with B set
    assert_eq!(cpu.read(0x0100 + sp0 as u16), 0x02);
    assert_eq!(cpu.read(0x0100 + sp0 as u16 - 1), 0x02);
    assert_eq!(cpu.read(0x0100 + sp0 as u16 - 2), st | 0x10);
}

#[test]
fn rti_restores_flags_and_pc() {
    let mut cpu = loaded(&[0x00], 0x0200); // BRK, then RTI from the handler
    cpu.load(&vec![0x00, 0x80], Some(0xFFFE)).expect("vector");
    cpu.load(&vec![0x40], Some(0x8000)).expect("handler"); // RTI
    cpu.f_c = true;
    cpu.step().expect("brk");
    cpu.f_c = false;
    cpu.step().expect("rti");
    assert_eq!(cpu.pc, 0x0202); // BRK leaves a two-byte return address
    assert!(cpu.f_c);
}

#[test]
fn shifts_and_rotates() {
    let mut cpu = loaded(&[0x0A], 0x0200); // ASL A
    cpu.a = 0x81;
    cpu.step().expect("asl");
    assert_eq!(cpu.a, 0x02);
    assert!(cpu.f_c && !cpu.f_n && !cpu.f_z);

    let mut cpu = loaded(&[0x6A], 0x0200); // ROR A
    cpu.a = 0x01;
    cpu.f_c = true;
    cpu.step().expect("ror");
    assert_eq!(cpu.a, 0x80);
    assert!(cpu.f_c && cpu.f_n);

    // read-modify-write on memory: ASL $10
    let mut cpu = loaded(&[0x06, 0x10], 0x0200);
    cpu.load(&vec![0x40], Some(0x0010)).expect("operand");
    cpu.pc = 0x0200;
    assert_eq!(cpu.step().expect("asl zp"), 5);
    assert_eq!(cpu.read(0x0010), 0x80);
    assert!(!cpu.f_c && cpu.f_n);
}

#[test]
fn compare_sets_carry_zero_negative() {
    let mut cpu = loaded(&[0xC9, 0x10, 0xC9, 0x20, 0xC9, 0x30], 0x0200);
    cpu.a = 0x20;
    cpu.step().expect("cmp greater");
    assert!(cpu.f_c && !cpu.f_z);
    cpu.step().expect("cmp equal");
    assert!(cpu.f_c && cpu.f_z);
    cpu.step().expect("cmp less");
    assert!(!cpu.f_c && !cpu.f_z && cpu.f_n);
}

#[test]
fn inc_dec_memory() {
    let mut cpu = loaded(&[0xE6, 0x10, 0xC6, 0x11], 0x0200); // INC $10; DEC $11
    cpu.load(&vec![0xFF, 0x01], Some(0x0010)).expect("operands");
    cpu.pc = 0x0200;
    cpu.step().expect("inc");
    assert_eq!(cpu.read(0x0010), 0x00);
    assert!(cpu.f_z);
    cpu.step().expect("dec");
    assert_eq!(cpu.read(0x0011), 0x00);
    assert!(cpu.f_z);
}

#[test]
fn bit_sets_nv_from_operand() {
    let mut cpu = loaded(&[0x24, 0x10], 0x0200); // BIT $10
    cpu.load(&vec![0xC0], Some(0x0010)).expect("operand");
    cpu.pc = 0x0200;
    cpu.a = 0x01;
    cpu.step().expect("bit");
    assert!(cpu.f_n && cpu.f_v && cpu.f_z);
}

#[test]
fn indirect_indexed_reads() {
    // LDA ($20),Y with pointer $0300 and Y=5 reads $0305
    let mut cpu = loaded(&[0xB1, 0x20], 0x0200);
    cpu.load(&vec![0x00, 0x03], Some(0x0020)).expect("pointer");
    cpu.load(&vec![0x99], Some(0x0305)).expect("value");
    cpu.pc = 0x0200;
    cpu.y = 5;
    assert_eq!(cpu.step().expect("lda izy"), 5);
    assert_eq!(cpu.a, 0x99);
}

#[test]
fn stack_pointer_wraps_silently() {
    let mut cpu = loaded(&[0x48, 0x48, 0x48], 0x0200); // three pushes
    cpu.sp = 0x01;
    cpu.step().expect("push");
    cpu.step().expect("push");
    assert_eq!(cpu.sp, 0xFF);
    cpu.step().expect("push");
    assert_eq!(cpu.sp, 0xFE);
}
