use nes_emulator::flags::{Flag, Flags};

const ALL: [Flag; 7] = [
    Flag::Carry,
    Flag::Zero,
    Flag::IrqDisable,
    Flag::DecimalMode,
    Flag::Break,
    Flag::Overflow,
    Flag::Signed,
];

#[test]
fn set_then_get_each_flag() {
    for flag in ALL {
        for value in [true, false] {
            let mut f = Flags::from_byte(0x5A);
            f.set(flag, value);
            assert_eq!(f.get(flag), value);
            assert!(f.to_byte() & 0x20 != 0);
        }
    }
}

#[test]
fn set_leaves_other_flags() {
    let mut f = Flags::new();
    f.set(Flag::Overflow, true);
    assert!(f.overflow());
    assert!(!f.carry() && !f.zero() && !f.irq_disable() && !f.decimal_mode());
    assert!(!f.break_flag() && !f.signed());
    assert_eq!(f.to_byte(), 0x60);
}

#[test]
fn fixed_bit_reads_one() {
    assert_eq!(Flags::new().to_byte(), 0x20);
    assert_eq!(Flags::default().to_byte(), 0x20);
    assert_eq!(Flags::from_byte(0x00).to_byte(), 0x20);
}

#[test]
fn status_byte_round_trip() {
    for byte in 0..=255u8 {
        assert_eq!(Flags::from_byte(byte).to_byte(), byte | 0x20);
        assert_eq!(u8::from(Flags::from(byte)), byte | 0x20);
    }
}

#[test]
fn byte_layout() {
    let f = Flags::from_byte(0b1100_0011);
    assert!(f.carry && f.zero && f.overflow && f.signed);
    assert!(!f.irq_disable && !f.decimal_mode && !f.break_flag);
    let mut g = Flags::new();
    g.set_break_flag(true);
    g.set_decimal_mode(true);
    assert_eq!(g.to_byte(), 0x38);
}
