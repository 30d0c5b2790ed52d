use six502::cpu::{Fault, Six502};
use six502::opcodes::Op;
use six502::flags::{BREAK, CARRY, IRQ, NEGATIVE, OVERFLOW, UNUSED, ZERO};

fn cpu_with(prog: &[u8]) -> Six502 {
    let mut cpu = Six502::new();
    cpu.load(prog, 0x0200);
    cpu.pc = 0x0200;
    cpu
}

fn flag(cpu: &Six502, f: u8) -> bool {
    cpu.p & f != 0
}

#[test]
fn test_0xa9() {
    let mut cpu = Six502::new();
    cpu.interpret(vec![0xa9, 0x05, 0x00]).unwrap();
    assert_eq!(cpu.a, 0x05);
    assert_eq!(cpu.p & 0b0000_0010, 0);
    assert_eq!(cpu.p & 0b1000_0000, 0);

    let mut cpu = Six502::new();
    cpu.interpret(vec![0xa9, 0x00, 0x00]).unwrap();
    assert_eq!(cpu.p & 0b0000_0010, 0b0000_0010);
}

#[test]
fn test_0xaa() {
    let mut cpu = Six502::new();
    cpu.interpret(vec![0xaa, 0x00]).unwrap();
    assert_eq!(cpu.x, cpu.a);
}

#[test]
fn test_0xa9_0xaa() {
    let mut cpu = Six502::new();
    cpu.interpret(vec![0xa9, 0x05, 0xAA, 0x00]).unwrap();
    assert_eq!(cpu.x, 0x05);
}

#[test]
fn power_on_state() {
    let cpu = Six502::new();
    assert_eq!((cpu.a, cpu.x, cpu.y), (0, 0, 0));
    assert_eq!(cpu.s, 0xFD);
    assert_eq!(cpu.p, 0x24);
    assert_eq!(cpu.cycles(), 7);
}

#[test]
fn lda_immediate_positive() {
    let mut cpu = cpu_with(&[0xA9, 0x05, 0x00]);
    let before = cpu.cycles();
    assert_eq!(cpu.step(), 2);
    assert_eq!(cpu.a, 0x05);
    assert!(!flag(&cpu, ZERO));
    assert!(!flag(&cpu, NEGATIVE));
    assert_eq!(cpu.cycles(), before + 2);
    assert_eq!(cpu.pc, 0x0202);
}

#[test]
fn lda_immediate_zero() {
    let mut cpu = cpu_with(&[0xA9, 0x00, 0x00]);
    cpu.step();
    assert_eq!(cpu.a, 0x00);
    assert!(flag(&cpu, ZERO));
    assert!(!flag(&cpu, NEGATIVE));
}

#[test]
fn lda_immediate_negative() {
    let mut cpu = cpu_with(&[0xA9, 0x80, 0x00]);
    cpu.step();
    assert_eq!(cpu.a, 0x80);
    assert!(!flag(&cpu, ZERO));
    assert!(flag(&cpu, NEGATIVE));
}

#[test]
fn lda_then_tax() {
    let mut cpu = cpu_with(&[0xA9, 0x05, 0xAA, 0x00]);
    let before = cpu.cycles();
    let c1 = cpu.step();
    let c2 = cpu.step();
    assert_eq!(c1 + c2, 4);
    assert_eq!(cpu.x, 0x05);
    assert_eq!(cpu.a, 0x05);
    assert_eq!(cpu.cycles(), before + 4);
}

#[test]
fn test_ops() {
    let mut cpu = cpu_with(&[0xA9, 0xC0, 0xAA, 0xE8, 0x00]);
    for _ in 0..3 {
        cpu.step();
    }
    assert_eq!(cpu.x, 0xC1);
    assert!(flag(&cpu, NEGATIVE));
    assert!(!flag(&cpu, ZERO));
}

#[test]
fn adc_signed_overflow() {
    let mut cpu = cpu_with(&[0x18, 0xA9, 0x50, 0x69, 0x50]);
    for _ in 0..3 {
        cpu.step();
    }
    assert_eq!(cpu.a, 0xA0);
    assert!(!flag(&cpu, CARRY));
    assert!(flag(&cpu, OVERFLOW));
    assert!(flag(&cpu, NEGATIVE));
    assert!(!flag(&cpu, ZERO));
}

#[test]
fn adc_carry_out() {
    let mut cpu = cpu_with(&[0x18, 0xA9, 0xF0, 0x69, 0x20]);
    for _ in 0..3 {
        cpu.step();
    }
    assert_eq!(cpu.a, 0x10);
    assert!(flag(&cpu, CARRY));
    assert!(!flag(&cpu, OVERFLOW));
}

#[test]
fn sbc_with_borrow_clear() {
    // SEC; LDA #$05; SBC #$03
    let mut cpu = cpu_with(&[0x38, 0xA9, 0x05, 0xE9, 0x03]);
    for _ in 0..3 {
        cpu.step();
    }
    assert_eq!(cpu.a, 0x02);
    assert!(flag(&cpu, CARRY));
    assert!(!flag(&cpu, OVERFLOW));
}

#[test]
fn ldx_zero_page_then_inx() {
    let mut cpu = cpu_with(&[0xA6, 0x10, 0xE8]);
    cpu.store_u8(0x10, 0xFE);
    assert_eq!(cpu.step(), 3);
    assert_eq!(cpu.x, 0xFE);
    assert!(flag(&cpu, NEGATIVE));
    assert!(!flag(&cpu, ZERO));
    cpu.step();
    assert_eq!(cpu.x, 0xFF);
    assert!(flag(&cpu, NEGATIVE));
    cpu.store_u8(0x0205, 0xE8);
    cpu.pc = 0x0205;
    cpu.step();
    assert_eq!(cpu.x, 0x00);
    assert!(!flag(&cpu, NEGATIVE));
    assert!(flag(&cpu, ZERO));
}

#[test]
fn indirect_jmp_page_bug() {
    // $30FF and $3000 both fall in the PPU register mirrors; the page bug
    // itself is shown in cartridge space by the next test.
    let mut cpu = cpu_with(&[0x6C, 0xFF, 0x30]);
    cpu.store_u8(0x30FF, 0x30);
    cpu.store_u8(0x3000, 0x40);
    assert_eq!(cpu.step(), 5);
    assert_eq!(cpu.pc, 0x4030);
}

#[test]
fn indirect_jmp_page_bug_in_cartridge_space() {
    let mut cpu = cpu_with(&[0x6C, 0xFF, 0x80]);
    cpu.store_u8(0x80FF, 0x34);
    cpu.store_u8(0x8000, 0x12);
    cpu.store_u8(0x8100, 0x99);
    cpu.step();
    assert_eq!(cpu.pc, 0x1234);
}

#[test]
fn pha_pla_round_trip() {
    let mut cpu = cpu_with(&[0xA9, 0x80, 0x48, 0xA9, 0x00, 0x68]);
    cpu.step();
    let s = cpu.s;
    cpu.step();
    assert_eq!(cpu.s, s.wrapping_sub(1));
    cpu.step();
    assert!(flag(&cpu, ZERO));
    cpu.step();
    assert_eq!(cpu.a, 0x80);
    assert_eq!(cpu.s, s);
    assert!(flag(&cpu, NEGATIVE));
    assert!(!flag(&cpu, ZERO));
}

#[test]
fn php_plp_round_trip() {
    // SEC; SED; PHP; CLC; CLD; PLP
    let mut cpu = cpu_with(&[0x38, 0xF8, 0x08, 0x18, 0xD8, 0x28]);
    cpu.step();
    cpu.step();
    let p = cpu.p;
    let s = cpu.s;
    cpu.step();
    assert_eq!(cpu.bus.peek_u8(0x0100 + s as u16), p | BREAK | UNUSED);
    for _ in 0..3 {
        cpu.step();
    }
    assert_eq!(cpu.p, (p & !BREAK) | UNUSED);
    assert_eq!(cpu.s, s);
}

#[test]
fn jsr_rts_returns_after_call() {
    // $0200: JSR $0300; $0203: NOP ... $0300: RTS
    let mut cpu = cpu_with(&[0x20, 0x00, 0x03, 0xEA]);
    cpu.store_u8(0x0300, 0x60);
    let s = cpu.s;
    assert_eq!(cpu.step(), 6);
    assert_eq!(cpu.pc, 0x0300);
    assert_eq!(cpu.bus.peek_u8(0x0100 + s as u16), 0x02);
    assert_eq!(cpu.bus.peek_u8(0x0100 + s.wrapping_sub(1) as u16), 0x02);
    assert_eq!(cpu.step(), 6);
    assert_eq!(cpu.pc, 0x0203);
    assert_eq!(cpu.s, s);
}

#[test]
fn stack_pointer_wraps() {
    let mut cpu = cpu_with(&[0xA2, 0x00, 0x9A, 0x48, 0x68]);
    cpu.step();
    cpu.step();
    assert_eq!(cpu.s, 0x00);
    cpu.step();
    assert_eq!(cpu.s, 0xFF);
    cpu.step();
    assert_eq!(cpu.s, 0x00);
}

#[test]
fn txs_leaves_flags() {
    let mut cpu = cpu_with(&[0xA2, 0x00, 0xA9, 0x80, 0x9A]);
    cpu.step();
    cpu.step();
    let p = cpu.p;
    cpu.step();
    assert_eq!(cpu.p, p);
    assert_eq!(cpu.s, 0);
}

#[test]
fn brk_pushes_and_vectors() {
    let mut cpu = cpu_with(&[0x00]);
    cpu.store_u8(0xFFFE, 0x34);
    cpu.store_u8(0xFFFF, 0x12);
    let s = cpu.s;
    let p = cpu.p;
    assert_eq!(cpu.step(), 7);
    assert_eq!(cpu.pc, 0x1234);
    assert_eq!(cpu.bus.peek_u8(0x0100 + s as u16), 0x02);
    assert_eq!(cpu.bus.peek_u8(0x0100 + s.wrapping_sub(1) as u16), 0x02);
    assert_eq!(cpu.bus.peek_u8(0x0100 + s.wrapping_sub(2) as u16), p | 0x30);
    assert!(flag(&cpu, IRQ));
}

#[test]
fn brk_then_rti() {
    let mut cpu = cpu_with(&[0x00, 0xFF, 0xEA]);
    cpu.store_u8(0xFFFE, 0x00);
    cpu.store_u8(0xFFFF, 0x03);
    cpu.store_u8(0x0300, 0x40);
    let p = cpu.p;
    cpu.step();
    assert_eq!(cpu.step(), 6);
    assert_eq!(cpu.pc, 0x0202);
    assert_eq!(cpu.p, p);
}

#[test]
fn nmi_is_serviced_first() {
    let mut cpu = cpu_with(&[0xEA]);
    cpu.store_u8(0xFFFA, 0x00);
    cpu.store_u8(0xFFFB, 0x90);
    cpu.nmi();
    let s = cpu.s;
    let before = cpu.cycles();
    assert_eq!(cpu.step(), 7);
    assert_eq!(cpu.pc, 0x9000);
    assert_eq!(cpu.cycles(), before + 7);
    let pushed = cpu.bus.peek_u8(0x0100 + s.wrapping_sub(2) as u16);
    assert_eq!(pushed & BREAK, 0);
    assert_eq!(pushed & UNUSED, UNUSED);
    assert!(!cpu.interrupt.nmi);
}

#[test]
fn irq_is_masked_by_i() {
    let mut cpu = cpu_with(&[0xEA, 0x58, 0xEA]);
    cpu.store_u8(0xFFFE, 0x00);
    cpu.store_u8(0xFFFF, 0xA0);
    cpu.irq(true);
    assert_eq!(cpu.step(), 2);
    assert_eq!(cpu.pc, 0x0201);
    cpu.step();
    assert_eq!(cpu.step(), 7);
    assert_eq!(cpu.pc, 0xA000);
}

#[test]
fn reset_loads_vector() {
    let mut cpu = Six502::new();
    cpu.store_u8(0xFFFC, 0x00);
    cpu.store_u8(0xFFFD, 0x80);
    cpu.s = 0x10;
    cpu.p = 0xFF;
    cpu.reset();
    assert_eq!(cpu.pc, 0x8000);
    assert_eq!(cpu.s, 0xFD);
    assert_eq!(cpu.p, 0x24);
    assert_eq!(cpu.cycles(), 14);
}

#[test]
fn illegal_opcode_is_reported() {
    let mut cpu = cpu_with(&[0xEA, 0x02]);
    assert!(!Op::is_documented(0x02));
    assert_eq!(cpu.run(10), Err(Fault::IllegalOpcode { opcode: 0x02, pc: 0x0201 }));
    assert_eq!(cpu.pc, 0x0201);
    let mut cpu = Six502::new();
    assert_eq!(cpu.interpret(vec![0xA9, 0x01, 0xFF]), Err(Fault::IllegalOpcode { opcode: 0xFF, pc: 0x0202 }));
    assert_eq!(cpu.a, 0x01);
}

#[test]
fn absolute_x_page_cross_penalty() {
    // LDX #$01; LDA $02FF,X
    let mut cpu = cpu_with(&[0xA2, 0x01, 0xBD, 0xFF, 0x02]);
    cpu.store_u8(0x0300, 0x42);
    cpu.step();
    assert_eq!(cpu.step(), 5);
    assert_eq!(cpu.a, 0x42);
}

#[test]
fn store_absolute_x_has_no_penalty() {
    // LDX #$01; LDA #$07; STA $02FF,X
    let mut cpu = cpu_with(&[0xA2, 0x01, 0xA9, 0x07, 0x9D, 0xFF, 0x02]);
    cpu.step();
    cpu.step();
    assert_eq!(cpu.step(), 5);
    assert_eq!(cpu.bus.peek_u8(0x0300), 0x07);
}

#[test]
fn indirect_indexed_wraps_in_zero_page() {
    // LDY #$10; LDA ($FF),Y  with pointer bytes at $FF and $00
    let mut cpu = cpu_with(&[0xA0, 0x10, 0xB1, 0xFF]);
    cpu.store_u8(0x00FF, 0xF8);
    cpu.store_u8(0x0000, 0x04);
    cpu.store_u8(0x0100, 0x77);
    cpu.store_u8(0x0508, 0x99);
    cpu.step();
    assert_eq!(cpu.step(), 6);
    assert_eq!(cpu.a, 0x99);
}

#[test]
fn indexed_indirect_reads_pointer() {
    // LDX #$04; LDA ($20,X)
    let mut cpu = cpu_with(&[0xA2, 0x04, 0xA1, 0x20]);
    cpu.store_u8(0x24, 0x00);
    cpu.store_u8(0x25, 0x06);
    cpu.store_u8(0x0600, 0x5A);
    cpu.step();
    assert_eq!(cpu.step(), 6);
    assert_eq!(cpu.a, 0x5A);
}

#[test]
fn branch_cycles() {
    // BNE +2 (taken, same page), then at $0204: BEQ -128 (not taken)
    let mut cpu = cpu_with(&[0xA2, 0x01, 0xD0, 0x02, 0xEA, 0xEA, 0xF0, 0x80]);
    cpu.step();
    assert_eq!(cpu.step(), 3);
    assert_eq!(cpu.pc, 0x0206);
    assert_eq!(cpu.step(), 2);
    assert_eq!(cpu.pc, 0x0208);
}

#[test]
fn branch_across_page() {
    let mut cpu = cpu_with(&[]);
    cpu.pc = 0x02F0;
    cpu.store_u8(0x02F0, 0xD0);
    cpu.store_u8(0x02F1, 0x20);
    assert_eq!(cpu.step(), 4);
    assert_eq!(cpu.pc, 0x0312);
    cpu.store_u8(0x0312, 0xD0);
    cpu.store_u8(0x0313, 0xEB);
    assert_eq!(cpu.step(), 4);
    assert_eq!(cpu.pc, 0x02FF);
}

#[test]
fn compare_sets_carry_and_zero() {
    // LDA #$40; CMP #$40; CMP #$41
    let mut cpu = cpu_with(&[0xA9, 0x40, 0xC9, 0x40, 0xC9, 0x41]);
    cpu.step();
    cpu.step();
    assert!(flag(&cpu, CARRY));
    assert!(flag(&cpu, ZERO));
    cpu.step();
    assert!(!flag(&cpu, CARRY));
    assert!(!flag(&cpu, ZERO));
    assert!(flag(&cpu, NEGATIVE));
}

#[test]
fn bit_copies_bits_six_and_seven() {
    let mut cpu = cpu_with(&[0xA9, 0x01, 0x24, 0x10]);
    cpu.store_u8(0x10, 0xC0);
    cpu.step();
    cpu.step();
    assert!(flag(&cpu, ZERO));
    assert!(flag(&cpu, NEGATIVE));
    assert!(flag(&cpu, OVERFLOW));
    assert_eq!(cpu.a, 0x01);
}

#[test]
fn shifts_and_rotates() {
    // SEC; LDA #$81; ROL A -> $03 C=1; ROR A -> $81 C=1; ASL A -> $02 C=1; LSR A -> $01 C=0
    let mut cpu = cpu_with(&[0x38, 0xA9, 0x81, 0x2A, 0x6A, 0x0A, 0x4A]);
    cpu.step();
    cpu.step();
    cpu.step();
    assert_eq!(cpu.a, 0x03);
    assert!(flag(&cpu, CARRY));
    cpu.step();
    assert_eq!(cpu.a, 0x81);
    assert!(flag(&cpu, CARRY));
    cpu.step();
    assert_eq!(cpu.a, 0x02);
    assert!(flag(&cpu, CARRY));
    cpu.step();
    assert_eq!(cpu.a, 0x01);
    assert!(!flag(&cpu, CARRY));
}

#[test]
fn inc_memory_absolute_x() {
    // LDX #$02; INC $0300,X
    let mut cpu = cpu_with(&[0xA2, 0x02, 0xFE, 0x00, 0x03]);
    cpu.store_u8(0x0302, 0xFF);
    cpu.step();
    assert_eq!(cpu.step(), 7);
    assert_eq!(cpu.bus.peek_u8(0x0302), 0x00);
    assert!(flag(&cpu, ZERO));
}

#[test]
fn oam_dma_stalls() {
    // LDA #$03; STA $4014
    let mut cpu = cpu_with(&[0xA9, 0x03, 0x8D, 0x14, 0x40]);
    cpu.store_u8(0x0305, 0xAB);
    cpu.step();
    let before = cpu.cycles();
    let c = cpu.step();
    assert!(c == 4 + 513 || c == 4 + 514);
    assert_eq!(c, if before % 2 == 1 { 518 } else { 517 });
    assert_eq!(cpu.cycles(), before + c);
}
