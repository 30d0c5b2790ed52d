use six502::bus::DataBus;
use six502::ctrl::{Joypad, JoypadButton};
use six502::opcodes::{AddressingMode, Op, OpCode};

#[test]
fn ram_is_mirrored() {
    let mut bus = DataBus::new();
    bus.store_u8(0x1805, 0x3C);
    for base in [0x0000u16, 0x0800, 0x1000, 0x1800] {
        assert_eq!(bus.peek_u8(base + 5), 0x3C);
        assert_eq!(bus.load_u8(base + 5), 0x3C);
    }
}

#[test]
fn ppu_registers_are_mirrored() {
    let mut bus = DataBus::new();
    bus.store_u8(0x3457, 0x11);
    assert_eq!(bus.peek_u8(0x2007), 0x11);
    assert_eq!(bus.peek_u8(0x2017), 0x11);
    assert_eq!(bus.peek_u8(0x3FFF), 0x11);
}

#[test]
fn write_only_ppu_register_reads_latch() {
    let mut bus = DataBus::new();
    bus.store_u8(0x2000, 0x80);
    bus.store_u8(0x0000, 0x42);
    assert_eq!(bus.peek_u8(0x2000), 0x42);
    bus.set(0x17);
    assert_eq!(bus.peek_u8(0x2008), 0x17);
}

#[test]
fn decode_gap_reads_zero() {
    let mut bus = DataBus::new();
    bus.store_u8(0x4018, 0xFF);
    assert_eq!(bus.peek_u8(0x4018), 0);
    assert_eq!(bus.peek_u8(0x401F), 0);
    assert_eq!(bus.peek_u8(0x4000), 0);
}

#[test]
fn apu_status_reads_back() {
    let mut bus = DataBus::new();
    bus.store_u8(0x4015, 0x0F);
    assert_eq!(bus.peek_u8(0x4015), 0x0F);
}

#[test]
fn cartridge_space_is_read_write() {
    let mut bus = DataBus::new();
    bus.store_u8(0x4020, 1);
    bus.store_u8(0xFFFF, 2);
    assert_eq!(bus.peek_u8(0x4020), 1);
    assert_eq!(bus.peek_u8(0xFFFF), 2);
}

#[test]
fn oam_dma_copies_a_page() {
    let mut bus = DataBus::new();
    bus.store_u8(0x0200, 9);
    bus.store_u8(0x02FF, 7);
    bus.store_u8(0x4014, 0x02);
    assert!(bus.take_dma());
    assert!(!bus.take_dma());
}

#[test]
fn joypad_shifts_buttons() {
    let mut pad = Joypad::new();
    pad.set_button_pressed_status(JoypadButton::A, true);
    pad.set_button_pressed_status(JoypadButton::Start, true);
    pad.set_button_pressed_status(JoypadButton::Right, true);
    pad.store_u8(1);
    assert_eq!(pad.load_u8(), 1);
    assert_eq!(pad.load_u8(), 1);
    pad.store_u8(0);
    let bits: Vec<u8> = (0..8).map(|_| pad.load_u8()).collect();
    assert_eq!(bits, vec![1, 0, 0, 1, 0, 0, 0, 1]);
    assert_eq!(pad.load_u8(), 1);
    pad.set_button_pressed_status(JoypadButton::A, false);
    pad.store_u8(1);
    assert_eq!(pad.load_u8(), 0);
}

#[test]
fn joypad_through_the_bus() {
    let mut bus = DataBus::new();
    bus.store_u8(0x4016, 1);
    bus.store_u8(0x4016, 0);
    assert_eq!(bus.load_u8(0x4016), 0);
    for _ in 0..7 {
        bus.load_u8(0x4016);
    }
    assert_eq!(bus.load_u8(0x4016), 1);
    assert_eq!(bus.load_u8(0x4017), 0);
}

#[test]
fn decode_table() {
    assert_eq!(
        Op::decode_op(0xA9),
        Op { code: 0xA9, mnemonic: OpCode::LDA, mode: AddressingMode::Immediate, cycles: 2 }
    );
    assert_eq!(
        Op::decode_op(0x6C),
        Op { code: 0x6C, mnemonic: OpCode::JMP, mode: AddressingMode::Indirect, cycles: 5 }
    );
    let o = Op::decode_op(0x91);
    assert_eq!((o.mnemonic, o.mode, o.cycles), (OpCode::STA, AddressingMode::IndirectIndexed, 6));
    let o = Op::decode_op(0xB6);
    assert_eq!((o.mnemonic, o.mode), (OpCode::LDX, AddressingMode::ZeroPageY));
    let o = Op::decode_op(0x10);
    assert_eq!((o.mnemonic, o.mode), (OpCode::BPL, AddressingMode::Relative));
    assert!(!Op::is_documented(0xFF));
    let legal = (0..=255u8).filter(|c| Op::is_documented(*c)).count();
    assert_eq!(legal, 151);
    assert_eq!(Op::new().mnemonic, OpCode::NOP);
}

#[test]
fn ppu_status_ignores_writes() {
    let mut bus = DataBus::new();
    bus.store_u8(0x2002, 0x55);
    assert_eq!(bus.peek_u8(0x2002), 0);
    assert_eq!(bus.peek_u8(0x2001), 0x55);
}
