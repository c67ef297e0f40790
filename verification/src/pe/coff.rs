//! The COFF file header: machine type, section count, symbol table, characteristics.

use crate::pe::cursor::Cursor;
use crate::pe::PeError;
use crate::util::{le_u16, le_u32};
use vstd::prelude::*;
use vstd::std_specs::convert::TryFromSpecImpl;

verus! {

/// The number of bytes of a COFF file header.
pub const COFF_HEADER_SIZE: usize = 20;

/// The COFF file header of an image.
#[derive(Debug, Clone, Copy, PartialEq, Eq, Structural)]
pub struct CoffHeader {
    pub machine: Machine,
    pub number_of_sections: u16,
    pub time_date_stamp: u32,
    pub pointer_to_symbol_table: u32,
    pub number_of_symbols: u32,
    pub size_of_optional_header: u16,
    pub characteristics: Characteristic,
}

/// The architecture that an image was built for.
#[allow(non_camel_case_types)]
#[derive(Debug, Clone, Copy, PartialEq, Eq, Structural, Hash)]
pub enum Machine {
    IMAGE_FILE_MACHINE_UNKNOWN,
    IMAGE_FILE_MACHINE_ALPHA,
    IMAGE_FILE_MACHINE_ALPHA64,
    IMAGE_FILE_MACHINE_AM33,
    IMAGE_FILE_MACHINE_AMD64,
    IMAGE_FILE_MACHINE_ARM,
    IMAGE_FILE_MACHINE_ARM64,
    IMAGE_FILE_MACHINE_ARMNT,
    IMAGE_FILE_MACHINE_EBC,
    IMAGE_FILE_MACHINE_I386,
    IMAGE_FILE_MACHINE_IA64,
    IMAGE_FILE_MACHINE_LOONGARCH32,
    IMAGE_FILE_MACHINE_LOONGARCH64,
    IMAGE_FILE_MACHINE_M32R,
    IMAGE_FILE_MACHINE_MIPS16,
    IMAGE_FILE_MACHINE_MIPSFPU,
    IMAGE_FILE_MACHINE_MIPSFPU16,
    IMAGE_FILE_MACHINE_POWERPC,
    IMAGE_FILE_MACHINE_POWERPCFP,
    IMAGE_FILE_MACHINE_R4000,
    IMAGE_FILE_MACHINE_RISCV32,
    IMAGE_FILE_MACHINE_RISCV64,
    IMAGE_FILE_MACHINE_RISCV128,
    IMAGE_FILE_MACHINE_SH3,
    IMAGE_FILE_MACHINE_SH3DSP,
    IMAGE_FILE_MACHINE_SH4,
    IMAGE_FILE_MACHINE_SH5,
    IMAGE_FILE_MACHINE_THUMB,
    IMAGE_FILE_MACHINE_WCEMIPSV2,
}

impl Machine {
    /// The machine type that a code stands for, if it stands for one.
    pub open spec fn from_code(code: u16) -> Option<Machine> {
        match code {
            0x0 => Some(Machine::IMAGE_FILE_MACHINE_UNKNOWN),
            0x184 => Some(Machine::IMAGE_FILE_MACHINE_ALPHA),
            0x284 => Some(Machine::IMAGE_FILE_MACHINE_ALPHA64),
            0x1d3 => Some(Machine::IMAGE_FILE_MACHINE_AM33),
            0x8664 => Some(Machine::IMAGE_FILE_MACHINE_AMD64),
            0x1c0 => Some(Machine::IMAGE_FILE_MACHINE_ARM),
            0xaa64 => Some(Machine::IMAGE_FILE_MACHINE_ARM64),
            0x1c4 => Some(Machine::IMAGE_FILE_MACHINE_ARMNT),
            0xebc => Some(Machine::IMAGE_FILE_MACHINE_EBC),
            0x14c => Some(Machine::IMAGE_FILE_MACHINE_I386),
            0x200 => Some(Machine::IMAGE_FILE_MACHINE_IA64),
            0x6232 => Some(Machine::IMAGE_FILE_MACHINE_LOONGARCH32),
            0x6264 => Some(Machine::IMAGE_FILE_MACHINE_LOONGARCH64),
            0x9041 => Some(Machine::IMAGE_FILE_MACHINE_M32R),
            0x266 => Some(Machine::IMAGE_FILE_MACHINE_MIPS16),
            0x366 => Some(Machine::IMAGE_FILE_MACHINE_MIPSFPU),
            0x466 => Some(Machine::IMAGE_FILE_MACHINE_MIPSFPU16),
            0x1f0 => Some(Machine::IMAGE_FILE_MACHINE_POWERPC),
            0x1f1 => Some(Machine::IMAGE_FILE_MACHINE_POWERPCFP),
            0x166 => Some(Machine::IMAGE_FILE_MACHINE_R4000),
            0x5032 => Some(Machine::IMAGE_FILE_MACHINE_RISCV32),
            0x5064 => Some(Machine::IMAGE_FILE_MACHINE_RISCV64),
            0x5128 => Some(Machine::IMAGE_FILE_MACHINE_RISCV128),
            0x1a2 => Some(Machine::IMAGE_FILE_MACHINE_SH3),
            0x1a3 => Some(Machine::IMAGE_FILE_MACHINE_SH3DSP),
            0x1a6 => Some(Machine::IMAGE_FILE_MACHINE_SH4),
            0x1a8 => Some(Machine::IMAGE_FILE_MACHINE_SH5),
            0x1c2 => Some(Machine::IMAGE_FILE_MACHINE_THUMB),
            0x169 => Some(Machine::IMAGE_FILE_MACHINE_WCEMIPSV2),
            _ => None,
        }
    }
}

impl TryFromSpecImpl<u16> for Machine {
    open spec fn obeys_try_from_spec() -> bool {
        true
    }

    open spec fn try_from_spec(val: u16) -> Result<Self, PeError> {
        match Machine::from_code(val) {
            Some(machine) => Ok(machine),
            None => Err(PeError::InvalidEnumValue(val)),
        }
    }
}

impl TryFrom<u16> for Machine {
    type Error = PeError;

    fn try_from(val: u16) -> (r: Result<Self, PeError>) {
        match val {
            0x0 => Ok(Self::IMAGE_FILE_MACHINE_UNKNOWN),
            0x184 => Ok(Self::IMAGE_FILE_MACHINE_ALPHA),
            0x284 => Ok(Self::IMAGE_FILE_MACHINE_ALPHA64),
            0x1d3 => Ok(Self::IMAGE_FILE_MACHINE_AM33),
            0x8664 => Ok(Self::IMAGE_FILE_MACHINE_AMD64),
            0x1c0 => Ok(Self::IMAGE_FILE_MACHINE_ARM),
            0xaa64 => Ok(Self::IMAGE_FILE_MACHINE_ARM64),
            0x1c4 => Ok(Self::IMAGE_FILE_MACHINE_ARMNT),
            0xebc => Ok(Self::IMAGE_FILE_MACHINE_EBC),
            0x14c => Ok(Self::IMAGE_FILE_MACHINE_I386),
            0x200 => Ok(Self::IMAGE_FILE_MACHINE_IA64),
            0x6232 => Ok(Self::IMAGE_FILE_MACHINE_LOONGARCH32),
            0x6264 => Ok(Self::IMAGE_FILE_MACHINE_LOONGARCH64),
            0x9041 => Ok(Self::IMAGE_FILE_MACHINE_M32R),
            0x266 => Ok(Self::IMAGE_FILE_MACHINE_MIPS16),
            0x366 => Ok(Self::IMAGE_FILE_MACHINE_MIPSFPU),
            0x466 => Ok(Self::IMAGE_FILE_MACHINE_MIPSFPU16),
            0x1f0 => Ok(Self::IMAGE_FILE_MACHINE_POWERPC),
            0x1f1 => Ok(Self::IMAGE_FILE_MACHINE_POWERPCFP),
            0x166 => Ok(Self::IMAGE_FILE_MACHINE_R4000),
            0x5032 => Ok(Self::IMAGE_FILE_MACHINE_RISCV32),
            0x5064 => Ok(Self::IMAGE_FILE_MACHINE_RISCV64),
            0x5128 => Ok(Self::IMAGE_FILE_MACHINE_RISCV128),
            0x1a2 => Ok(Self::IMAGE_FILE_MACHINE_SH3),
            0x1a3 => Ok(Self::IMAGE_FILE_MACHINE_SH3DSP),
            0x1a6 => Ok(Self::IMAGE_FILE_MACHINE_SH4),
            0x1a8 => Ok(Self::IMAGE_FILE_MACHINE_SH5),
            0x1c2 => Ok(Self::IMAGE_FILE_MACHINE_THUMB),
            0x169 => Ok(Self::IMAGE_FILE_MACHINE_WCEMIPSV2),
            _ => Err(PeError::InvalidEnumValue(val)),
        }
    }
}

impl Default for Machine {
    fn default() -> (r: Self)
        ensures
            r == Machine::IMAGE_FILE_MACHINE_UNKNOWN,
    {
        Self::IMAGE_FILE_MACHINE_UNKNOWN
    }
}

/// The characteristics word of a file header, as a set of flag bits.
#[derive(Debug, Clone, Copy, PartialEq, Eq, Structural, Hash)]
pub struct Characteristic {
    pub bits: u16,
}

impl Characteristic {
    pub const IMAGE_FILE_RELOCS_STRIPPED: u16 = 0x0001;

    pub const IMAGE_FILE_EXECUTABLE_IMAGE: u16 = 0x0002;

    pub const IMAGE_FILE_LINE_NUMS_STRIPPED: u16 = 0x0004;

    pub const IMAGE_FILE_LOCAL_SYMS_STRIPPED: u16 = 0x0008;

    pub const IMAGE_FILE_AGGRESSIVE_WS_TRIM: u16 = 0x0010;

    pub const IMAGE_FILE_LARGE_ADDRESS_AWARE: u16 = 0x0020;

    pub const IMAGE_FILE_BYTES_REVERSED_LO: u16 = 0x0080;

    pub const IMAGE_FILE_32BIT_MACHINE: u16 = 0x0100;

    pub const IMAGE_FILE_DEBUG_STRIPPED: u16 = 0x0200;

    pub const IMAGE_FILE_REMOVABLE_RUN_FROM_SWAP: u16 = 0x0400;

    pub const IMAGE_FILE_NET_RUN_FROM_SWAP: u16 = 0x0800;

    pub const IMAGE_FILE_SYSTEM: u16 = 0x1000;

    pub const IMAGE_FILE_DLL: u16 = 0x2000;

    pub const IMAGE_FILE_UP_SYSTEM_ONLY: u16 = 0x4000;

    pub const IMAGE_FILE_BYTES_REVERSED_HI: u16 = 0x8000;

    /// The set whose bits are exactly those of `bits`, known or not.
    pub fn from_bits_retain(bits: u16) -> (r: Self)
        ensures
            r.bits == bits,
    {
        Self { bits }
    }

    /// The flag bits as a word.
    pub fn bits(&self) -> (b: u16)
        ensures
            b == self.bits,
    {
        self.bits
    }

    /// Whether every bit of `flags` is set.
    pub fn contains(&self, flags: u16) -> (b: bool)
        ensures
            b == (self.bits & flags == flags),
    {
        self.bits & flags == flags
    }
}

impl Default for Characteristic {
    fn default() -> (r: Self)
        ensures
            r.bits == Characteristic::IMAGE_FILE_EXECUTABLE_IMAGE,
    {
        Self { bits: Self::IMAGE_FILE_EXECUTABLE_IMAGE }
    }
}

/// The COFF file header that the bytes of `b` at `at` hold.
///
/// The machine code is read and checked first; the other fields follow it.
pub open spec fn coff_header_at(b: Seq<u8>, at: int) -> Result<CoffHeader, PeError> {
    if at + 2 > b.len() {
        Err(PeError::BoundsError)
    } else {
        match Machine::from_code(le_u16(b, at)) {
            None => Err(PeError::InvalidEnumValue(le_u16(b, at))),
            Some(machine) => if at + COFF_HEADER_SIZE > b.len() {
                Err(PeError::BoundsError)
            } else {
                Ok(
                    CoffHeader {
                        machine,
                        number_of_sections: le_u16(b, at + 2),
                        time_date_stamp: le_u32(b, at + 4),
                        pointer_to_symbol_table: le_u32(b, at + 8),
                        number_of_symbols: le_u32(b, at + 12),
                        size_of_optional_header: le_u16(b, at + 16),
                        characteristics: Characteristic { bits: le_u16(b, at + 18) },
                    },
                )
            },
        }
    }
}

/// Reads the COFF file header at the cursor.
///
/// On success the cursor stands behind the header; on failure it has not moved.
pub fn parse_coff(cursor: &mut Cursor) -> (r: Result<CoffHeader, PeError>)
    ensures
        r == coff_header_at(old(cursor).bytes@, old(cursor).position as int),
        r is Ok ==> final(cursor).follows(*old(cursor), COFF_HEADER_SIZE as int),
        r is Err ==> *final(cursor) == *old(cursor),
{
    let start = cursor.position;
    let code = cursor.read_u16()?;
    let machine = match Machine::try_from(code) {
        Ok(machine) => machine,
        Err(e) => {
            cursor.position = start;
            return Err(e);
        },
    };
    if !cursor.has(COFF_HEADER_SIZE - 2) {
        cursor.position = start;
        return Err(PeError::BoundsError);
    }
    let number_of_sections = cursor.read_u16()?;
    let time_date_stamp = cursor.read_u32()?;
    let pointer_to_symbol_table = cursor.read_u32()?;
    let number_of_symbols = cursor.read_u32()?;
    let size_of_optional_header = cursor.read_u16()?;
    let characteristics = Characteristic::from_bits_retain(cursor.read_u16()?);
    Ok(
        CoffHeader {
            machine,
            number_of_sections,
            time_date_stamp,
            pointer_to_symbol_table,
            number_of_symbols,
            size_of_optional_header,
            characteristics,
        },
    )
}

} // verus!
