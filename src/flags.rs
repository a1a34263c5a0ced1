//! The packed processor status register.
use vstd::prelude::*;

verus! {

/// One of the seven software-visible status flags.
///
/// Bit 5 of the status byte is fixed to 1 and is not part of this set.
#[derive(Clone, Copy, Debug, PartialEq, Eq, Structural)]
pub enum Flag {
    Carry,
    Zero,
    IrqDisable,
    DecimalMode,
    Break,
    Overflow,
    Signed,
}

/// The status register as seven independent booleans.
///
/// Bit layout of the byte form, low to high: carry, zero, IRQ-disable,
/// decimal, break, fixed 1, overflow, sign.
#[derive(Clone, Copy, Debug, PartialEq, Eq, Structural)]
pub struct Flags {
    pub carry: bool,
    pub zero: bool,
    pub irq_disable: bool,
    pub decimal_mode: bool,
    pub break_flag: bool,
    pub overflow: bool,
    pub signed: bool,
}

/// The bit selected by `mask` when `b` holds, else nothing.
pub open spec fn bit_if(b: bool, mask: u8) -> u8 {
    if b { mask } else { 0 }
}

/// Whether any bit of `mask` is set in `byte`.
pub open spec fn has_bit(byte: u8, mask: u8) -> bool {
    byte & mask != 0
}

/// Packs the seven flags, low bit first, with the fixed bit 5 set.
pub open spec fn pack(c: bool, z: bool, i: bool, d: bool, b: bool, v: bool, s: bool) -> u8 {
    bit_if(c, 0x01) | bit_if(z, 0x02) | bit_if(i, 0x04) | bit_if(d, 0x08) | bit_if(b, 0x10)
        | 0x20 | bit_if(v, 0x40) | bit_if(s, 0x80)
}

/// Each flag can be read back from its packed bit, and bit 5 is set.
pub proof fn lemma_pack_bits(c: bool, z: bool, i: bool, d: bool, b: bool, v: bool, s: bool)
    by (bit_vector)
    ensures
        has_bit(pack(c, z, i, d, b, v, s), 0x01) == c,
        has_bit(pack(c, z, i, d, b, v, s), 0x02) == z,
        has_bit(pack(c, z, i, d, b, v, s), 0x04) == i,
        has_bit(pack(c, z, i, d, b, v, s), 0x08) == d,
        has_bit(pack(c, z, i, d, b, v, s), 0x10) == b,
        has_bit(pack(c, z, i, d, b, v, s), 0x20),
        has_bit(pack(c, z, i, d, b, v, s), 0x40) == v,
        has_bit(pack(c, z, i, d, b, v, s), 0x80) == s,
{
}

/// Packing the bits read from a byte gives the byte with bit 5 set.
pub proof fn lemma_unpack_pack(byte: u8)
    by (bit_vector)
    ensures
        pack(
            has_bit(byte, 0x01),
            has_bit(byte, 0x02),
            has_bit(byte, 0x04),
            has_bit(byte, 0x08),
            has_bit(byte, 0x10),
            has_bit(byte, 0x40),
            has_bit(byte, 0x80),
        ) == byte | 0x20,
{
}

impl Flags {
    /// The byte form of the register; bit 5 is always set.
    pub open spec fn bits(self) -> u8 {
        pack(
            self.carry,
            self.zero,
            self.irq_disable,
            self.decimal_mode,
            self.break_flag,
            self.overflow,
            self.signed,
        )
    }

    /// The register that a status byte encodes (bit 5 is ignored).
    pub open spec fn from_bits(byte: u8) -> Flags {
        Flags {
            carry: has_bit(byte, 0x01),
            zero: has_bit(byte, 0x02),
            irq_disable: has_bit(byte, 0x04),
            decimal_mode: has_bit(byte, 0x08),
            break_flag: has_bit(byte, 0x10),
            overflow: has_bit(byte, 0x40),
            signed: has_bit(byte, 0x80),
        }
    }

    /// The value of one flag.
    pub open spec fn flag(self, flag: Flag) -> bool {
        match flag {
            Flag::Carry => self.carry,
            Flag::Zero => self.zero,
            Flag::IrqDisable => self.irq_disable,
            Flag::DecimalMode => self.decimal_mode,
            Flag::Break => self.break_flag,
            Flag::Overflow => self.overflow,
            Flag::Signed => self.signed,
        }
    }

    /// The register with one flag replaced.
    pub open spec fn with_flag(self, flag: Flag, value: bool) -> Flags {
        match flag {
            Flag::Carry => Flags { carry: value, ..self },
            Flag::Zero => Flags { zero: value, ..self },
            Flag::IrqDisable => Flags { irq_disable: value, ..self },
            Flag::DecimalMode => Flags { decimal_mode: value, ..self },
            Flag::Break => Flags { break_flag: value, ..self },
            Flag::Overflow => Flags { overflow: value, ..self },
            Flag::Signed => Flags { signed: value, ..self },
        }
    }

    /// The power-on register: every flag clear (bit 5 still reads 1).
    pub fn new() -> (r: Flags)
        ensures
            r == Flags::from_bits(0x20),
            r.bits() == 0x20,
    {
        proof {
            lemma_unpack_pack(0x20);
            assert(0x20u8 | 0x20 == 0x20) by (bit_vector);
            assert(!has_bit(0x20, 0x01) && !has_bit(0x20, 0x02) && !has_bit(0x20, 0x04)
                && !has_bit(0x20, 0x08) && !has_bit(0x20, 0x10) && !has_bit(0x20, 0x40)
                && !has_bit(0x20, 0x80)) by (bit_vector);
        }
        Flags {
            carry: false,
            zero: false,
            irq_disable: false,
            decimal_mode: false,
            break_flag: false,
            overflow: false,
            signed: false,
        }
    }

    /// Decodes a status byte; bit 5 of `byte` carries no information.
    pub fn from_byte(byte: u8) -> (r: Flags)
        ensures
            r == Flags::from_bits(byte),
    {
        Flags {
            carry: byte & 0x01 != 0,
            zero: byte & 0x02 != 0,
            irq_disable: byte & 0x04 != 0,
            decimal_mode: byte & 0x08 != 0,
            break_flag: byte & 0x10 != 0,
            overflow: byte & 0x40 != 0,
            signed: byte & 0x80 != 0,
        }
    }

    /// Encodes the register as a status byte, with bit 5 set.
    pub fn to_byte(&self) -> (r: u8)
        ensures
            r == self.bits(),
            has_bit(r, 0x20),
    {
        proof {
            lemma_pack_bits(
                self.carry,
                self.zero,
                self.irq_disable,
                self.decimal_mode,
                self.break_flag,
                self.overflow,
                self.signed,
            );
        }
        (if self.carry { 0x01u8 } else { 0 }) | (if self.zero { 0x02u8 } else { 0 }) | (
        if self.irq_disable { 0x04u8 } else { 0 }) | (if self.decimal_mode { 0x08u8 } else { 0 })
            | (if self.break_flag { 0x10u8 } else { 0 }) | 0x20 | (if self.overflow { 0x40u8 } else { 0 })
            | (if self.signed { 0x80u8 } else { 0 })
    }

    /// The Carry flag.
    pub fn carry(&self) -> (r: bool)
        ensures
            r == self.carry,
    {
        self.carry
    }

    /// Sets the Carry flag.
    pub fn set_carry(&mut self, value: bool)
        ensures
            *final(self) == (Flags { carry: value, ..*old(self) }),
    {
        self.carry = value;
    }

    /// The Zero flag.
    pub fn zero(&self) -> (r: bool)
        ensures
            r == self.zero,
    {
        self.zero
    }

    /// Sets the Zero flag.
    pub fn set_zero(&mut self, value: bool)
        ensures
            *final(self) == (Flags { zero: value, ..*old(self) }),
    {
        self.zero = value;
    }

    /// The IRQ-disable flag.
    pub fn irq_disable(&self) -> (r: bool)
        ensures
            r == self.irq_disable,
    {
        self.irq_disable
    }

    /// Sets the IRQ-disable flag.
    pub fn set_irq_disable(&mut self, value: bool)
        ensures
            *final(self) == (Flags { irq_disable: value, ..*old(self) }),
    {
        self.irq_disable = value;
    }

    /// The decimal-mode flag.
    pub fn decimal_mode(&self) -> (r: bool)
        ensures
            r == self.decimal_mode,
    {
        self.decimal_mode
    }

    /// Sets the decimal-mode flag.
    pub fn set_decimal_mode(&mut self, value: bool)
        ensures
            *final(self) == (Flags { decimal_mode: value, ..*old(self) }),
    {
        self.decimal_mode = value;
    }

    /// The break flag.
    pub fn break_flag(&self) -> (r: bool)
        ensures
            r == self.break_flag,
    {
        self.break_flag
    }

    /// Sets the break flag.
    pub fn set_break_flag(&mut self, value: bool)
        ensures
            *final(self) == (Flags { break_flag: value, ..*old(self) }),
    {
        self.break_flag = value;
    }

    /// The overflow flag.
    pub fn overflow(&self) -> (r: bool)
        ensures
            r == self.overflow,
    {
        self.overflow
    }

    /// Sets the overflow flag.
    pub fn set_overflow(&mut self, value: bool)
        ensures
            *final(self) == (Flags { overflow: value, ..*old(self) }),
    {
        self.overflow = value;
    }

    /// The sign flag.
    pub fn signed(&self) -> (r: bool)
        ensures
            r == self.signed,
    {
        self.signed
    }

    /// Sets the sign flag.
    pub fn set_signed(&mut self, value: bool)
        ensures
            *final(self) == (Flags { signed: value, ..*old(self) }),
    {
        self.signed = value;
    }

    /// Reads one flag.
    pub fn get(&self, flag: Flag) -> (r: bool)
        ensures
            r == self.flag(flag),
    {
        match flag {
            Flag::Carry => self.carry,
            Flag::Zero => self.zero,
            Flag::IrqDisable => self.irq_disable,
            Flag::DecimalMode => self.decimal_mode,
            Flag::Break => self.break_flag,
            Flag::Overflow => self.overflow,
            Flag::Signed => self.signed,
        }
    }

    /// Writes one flag and leaves the others as they were.
    pub fn set(&mut self, flag: Flag, value: bool)
        ensures
            *final(self) == old(self).with_flag(flag, value),
    {
        match flag {
            Flag::Carry => self.carry = value,
            Flag::Zero => self.zero = value,
            Flag::IrqDisable => self.irq_disable = value,
            Flag::DecimalMode => self.decimal_mode = value,
            Flag::Break => self.break_flag = value,
            Flag::Overflow => self.overflow = value,
            Flag::Signed => self.signed = value,
        }
    }
}

/// Setting a flag and reading it back gives the value set; the other
/// flags keep their values, and bit 5 of the status byte still reads 1.
pub proof fn lemma_set_then_get(f: Flags, flag: Flag, value: bool)
    ensures
        f.with_flag(flag, value).flag(flag) == value,
        forall|other: Flag| other != flag ==> #[trigger] f.with_flag(flag, value).flag(other) == f.flag(other),
        has_bit(f.with_flag(flag, value).bits(), 0x20),
{
    lemma_fixed_bit(f.with_flag(flag, value));
}

/// Bit 5 of the status byte reads 1 whatever the flags hold.
pub proof fn lemma_fixed_bit(f: Flags)
    ensures
        has_bit(f.bits(), 0x20),
{
    lemma_pack_bits(f.carry, f.zero, f.irq_disable, f.decimal_mode, f.break_flag, f.overflow, f.signed);
}

/// Decoding a status byte and encoding it again gives the byte back, with
/// bit 5 forced to 1.
pub proof fn lemma_status_byte_round_trip(byte: u8)
    ensures
        Flags::from_bits(byte).bits() == byte | 0x20,
{
    lemma_unpack_pack(byte);
}

/// Encoding the flags and decoding the byte loses nothing.
pub proof fn lemma_flags_round_trip(f: Flags)
    ensures
        Flags::from_bits(f.bits()) == f,
{
    lemma_pack_bits(f.carry, f.zero, f.irq_disable, f.decimal_mode, f.break_flag, f.overflow, f.signed);
}

impl Default for Flags {
    /// Every flag clear.
    fn default() -> (r: Flags)
        ensures
            r == Flags::from_bits(0x20),
    {
        Flags::new()
    }
}

impl From<u8> for Flags {
    fn from(byte: u8) -> (r: Flags)
        ensures
            r == Flags::from_bits(byte),
    {
        Flags::from_byte(byte)
    }
}

impl vstd::std_specs::convert::FromSpecImpl<u8> for Flags {
    open spec fn obeys_from_spec() -> bool {
        true
    }

    open spec fn from_spec(byte: u8) -> Flags {
        Flags::from_bits(byte)
    }
}

impl From<Flags> for u8 {
    fn from(flags: Flags) -> (r: u8)
        ensures
            r == flags.bits(),
    {
        flags.to_byte()
    }
}

impl vstd::std_specs::convert::FromSpecImpl<Flags> for u8 {
    open spec fn obeys_from_spec() -> bool {
        true
    }

    open spec fn from_spec(flags: Flags) -> u8 {
        flags.bits()
    }
}

} // verus!
