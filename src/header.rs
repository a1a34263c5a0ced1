//! The 16-byte header in front of a cartridge image.
use crate::flags::has_bit;
use vstd::prelude::*;

verus! {

/// Nametable arrangement of the cartridge.
#[derive(Clone, Copy, Debug, PartialEq, Eq, Structural)]
pub enum Mirroring {
    Horizontal,
    Vertical,
}

/// What the header says about the cartridge.
#[derive(Clone, Copy, Debug, PartialEq, Eq, Structural)]
pub struct Header {
    /// Bytes of program data (16 KB units).
    pub program_size: u32,
    /// Bytes of character data (8 KB units).
    pub character_size: u32,
    /// The mapper chip, from the high nibbles of flags 6 and 7.
    pub mapper_number: u8,
    pub mirroring: Mirroring,
    /// Battery-backed memory is present.
    pub persistent_memory: bool,
    /// A 512-byte trainer precedes the program data.
    pub trainer: bool,
    /// Four-screen VRAM instead of mirroring.
    pub ignore_mirroring: bool,
    pub vs_unisystem: bool,
    /// Hint-screen data follows the character data.
    pub playchoice: bool,
    pub program_ram_size: u8,
}

/// Why a cartridge cannot be run.
#[derive(Clone, Copy, Debug, PartialEq, Eq, Structural)]
pub enum HeaderError {
    /// Only the identity mapper (number 0) is supported.
    UnsupportedMapper(u8),
    /// PlayChoice cartridges are not supported.
    Playchoice,
}

/// The header that the first nine bytes of an image describe.
pub open spec fn header_spec(b: Seq<u8>) -> Header {
    Header {
        program_size: (b[4] * 0x4000) as u32,
        character_size: (b[5] * 0x2000) as u32,
        mapper_number: ((b[7] / 16) * 16 + b[6] / 16) as u8,
        mirroring: if has_bit(b[6], 0x01) {
            Mirroring::Vertical
        } else {
            Mirroring::Horizontal
        },
        persistent_memory: has_bit(b[6], 0x02),
        trainer: has_bit(b[6], 0x04),
        ignore_mirroring: has_bit(b[6], 0x08),
        vs_unisystem: has_bit(b[7], 0x01),
        playchoice: has_bit(b[7], 0x02),
        program_ram_size: b[8],
    }
}

/// Reads the header at the start of a cartridge image.
pub fn parse_header(bytes: &[u8]) -> (r: Header)
    requires
        bytes@.len() >= 9,
    ensures
        r == header_spec(bytes@),
{
    let flags6 = bytes[6];
    let flags7 = bytes[7];
    Header {
        program_size: bytes[4] as u32 * 0x4000,
        character_size: bytes[5] as u32 * 0x2000,
        mapper_number: (flags7 / 16) * 16 + flags6 / 16,
        mirroring: if flags6 & 0x01 != 0 {
            Mirroring::Vertical
        } else {
            Mirroring::Horizontal
        },
        persistent_memory: flags6 & 0x02 != 0,
        trainer: flags6 & 0x04 != 0,
        ignore_mirroring: flags6 & 0x08 != 0,
        vs_unisystem: flags7 & 0x01 != 0,
        playchoice: flags7 & 0x02 != 0,
        program_ram_size: bytes[8],
    }
}

impl Header {
    /// Accepts only what this emulator can run: the identity mapper and
    /// no PlayChoice data. A bad mapper is reported first.
    pub fn validate(&self) -> (r: Result<(), HeaderError>)
        ensures
            r == if self.mapper_number != 0 {
                Err(HeaderError::UnsupportedMapper(self.mapper_number))
            } else if self.playchoice {
                Err(HeaderError::Playchoice)
            } else {
                Ok(())
            },
    {
        if self.mapper_number != 0 {
            Err(HeaderError::UnsupportedMapper(self.mapper_number))
        } else if self.playchoice {
            Err(HeaderError::Playchoice)
        } else {
            Ok(())
        }
    }
}

} // verus!
