//! Tables that object files keep beside their sections: COFF relocations,
//! line numbers and symbol records.

use crate::pe::section_table::{prepend, SectionHeader, SectionHeaderView};
use crate::pe::PeError;
use crate::util::{as_signed_16, i16_from_bytes, le_u16, le_u32, u16_at, u32_at};
use vstd::prelude::*;
use vstd::slice::slice_subrange;
use vstd::std_specs::convert::TryFromSpecImpl;

verus! {

/// The number of bytes of a COFF relocation.
pub const COFF_RELOCATION_SIZE: usize = 10;

/// The number of bytes of a line-number record.
pub const LINE_NUMBER_SIZE: usize = 6;

/// The number of bytes of a symbol record.
pub const SYMBOL_RECORD_SIZE: usize = 18;

/// How a relocation of an x64 object file is to be applied.
#[allow(non_camel_case_types)]
#[derive(Debug, Clone, Copy, PartialEq, Eq, Structural)]
pub enum TypeIndicatorX64 {
    IMAGE_REL_AMD64_ABSOLUTE,
    IMAGE_REL_AMD64_ADDR64,
    IMAGE_REL_AMD64_ADDR32,
    IMAGE_REL_AMD64_ADDR32NB,
    IMAGE_REL_AMD64_REL32,
    IMAGE_REL_AMD64_REL32_1,
    IMAGE_REL_AMD64_REL32_2,
    IMAGE_REL_AMD64_REL32_3,
    IMAGE_REL_AMD64_REL32_4,
    IMAGE_REL_AMD64_REL32_5,
    IMAGE_REL_AMD64_SECTION,
    IMAGE_REL_AMD64_SECREL,
    IMAGE_REL_AMD64_SECREL7,
    IMAGE_REL_AMD64_TOKEN,
    IMAGE_REL_AMD64_SREL32,
    IMAGE_REL_AMD64_PAIR,
    IMAGE_REL_AMD64_SSPAN32,
}

impl TypeIndicatorX64 {
    /// The type indicator that a code stands for, if it stands for one.
    pub open spec fn from_code(code: u16) -> Option<TypeIndicatorX64> {
        match code {
            0x0000 => Some(TypeIndicatorX64::IMAGE_REL_AMD64_ABSOLUTE),
            0x0001 => Some(TypeIndicatorX64::IMAGE_REL_AMD64_ADDR64),
            0x0002 => Some(TypeIndicatorX64::IMAGE_REL_AMD64_ADDR32),
            0x0003 => Some(TypeIndicatorX64::IMAGE_REL_AMD64_ADDR32NB),
            0x0004 => Some(TypeIndicatorX64::IMAGE_REL_AMD64_REL32),
            0x0005 => Some(TypeIndicatorX64::IMAGE_REL_AMD64_REL32_1),
            0x0006 => Some(TypeIndicatorX64::IMAGE_REL_AMD64_REL32_2),
            0x0007 => Some(TypeIndicatorX64::IMAGE_REL_AMD64_REL32_3),
            0x0008 => Some(TypeIndicatorX64::IMAGE_REL_AMD64_REL32_4),
            0x0009 => Some(TypeIndicatorX64::IMAGE_REL_AMD64_REL32_5),
            0x000A => Some(TypeIndicatorX64::IMAGE_REL_AMD64_SECTION),
            0x000B => Some(TypeIndicatorX64::IMAGE_REL_AMD64_SECREL),
            0x000C => Some(TypeIndicatorX64::IMAGE_REL_AMD64_SECREL7),
            0x000D => Some(TypeIndicatorX64::IMAGE_REL_AMD64_TOKEN),
            0x000E => Some(TypeIndicatorX64::IMAGE_REL_AMD64_SREL32),
            0x000F => Some(TypeIndicatorX64::IMAGE_REL_AMD64_PAIR),
            0x0010 => Some(TypeIndicatorX64::IMAGE_REL_AMD64_SSPAN32),
            _ => None,
        }
    }
}

impl TryFromSpecImpl<u16> for TypeIndicatorX64 {
    open spec fn obeys_try_from_spec() -> bool {
        true
    }

    open spec fn try_from_spec(value: u16) -> Result<Self, PeError> {
        match TypeIndicatorX64::from_code(value) {
            Some(indicator) => Ok(indicator),
            None => Err(PeError::InvalidEnumValue(value)),
        }
    }
}

impl TryFrom<u16> for TypeIndicatorX64 {
    type Error = PeError;

    fn try_from(value: u16) -> (r: Result<Self, PeError>) {
        match value {
            0x0000 => Ok(TypeIndicatorX64::IMAGE_REL_AMD64_ABSOLUTE),
            0x0001 => Ok(TypeIndicatorX64::IMAGE_REL_AMD64_ADDR64),
            0x0002 => Ok(TypeIndicatorX64::IMAGE_REL_AMD64_ADDR32),
            0x0003 => Ok(TypeIndicatorX64::IMAGE_REL_AMD64_ADDR32NB),
            0x0004 => Ok(TypeIndicatorX64::IMAGE_REL_AMD64_REL32),
            0x0005 => Ok(TypeIndicatorX64::IMAGE_REL_AMD64_REL32_1),
            0x0006 => Ok(TypeIndicatorX64::IMAGE_REL_AMD64_REL32_2),
            0x0007 => Ok(TypeIndicatorX64::IMAGE_REL_AMD64_REL32_3),
            0x0008 => Ok(TypeIndicatorX64::IMAGE_REL_AMD64_REL32_4),
            0x0009 => Ok(TypeIndicatorX64::IMAGE_REL_AMD64_REL32_5),
            0x000A => Ok(TypeIndicatorX64::IMAGE_REL_AMD64_SECTION),
            0x000B => Ok(TypeIndicatorX64::IMAGE_REL_AMD64_SECREL),
            0x000C => Ok(TypeIndicatorX64::IMAGE_REL_AMD64_SECREL7),
            0x000D => Ok(TypeIndicatorX64::IMAGE_REL_AMD64_TOKEN),
            0x000E => Ok(TypeIndicatorX64::IMAGE_REL_AMD64_SREL32),
            0x000F => Ok(TypeIndicatorX64::IMAGE_REL_AMD64_PAIR),
            0x0010 => Ok(TypeIndicatorX64::IMAGE_REL_AMD64_SSPAN32),
            _ => Err(PeError::InvalidEnumValue(value)),
        }
    }
}

/// One COFF relocation of a section.
#[derive(Debug, Clone, Copy, PartialEq, Eq, Structural)]
pub struct CoffRelocation {
    pub virtual_address: u32,
    pub symbol_table_index: u32,
    pub type_indicator: TypeIndicatorX64,
}

/// One line-number record of a section.
#[derive(Debug, Clone, Copy, PartialEq, Eq, Structural)]
pub struct LineNumber {
    /// A symbol table index where `linenumber` is zero, else a virtual address.
    pub type_value: u32,
    pub linenumber: u16,
}

/// The section that a symbol belongs to, where it is one of the three special ones.
#[allow(non_camel_case_types)]
#[derive(Debug, Clone, Copy, PartialEq, Eq, Structural)]
pub enum SectionNumber {
    IMAGE_SYM_UNDEFINED,
    IMAGE_SYM_ABSOLUTE,
    IMAGE_SYM_DEBUG,
}

/// The 16-bit word that holds `value` in two's complement.
pub open spec fn as_unsigned_16(value: i16) -> u16 {
    if value < 0 {
        (value + 0x1_0000) as u16
    } else {
        value as u16
    }
}

impl SectionNumber {
    /// The section number that a value stands for, if it stands for one.
    pub open spec fn from_code(value: i16) -> Option<SectionNumber> {
        if value == 0 {
            Some(SectionNumber::IMAGE_SYM_UNDEFINED)
        } else if value == -1 {
            Some(SectionNumber::IMAGE_SYM_ABSOLUTE)
        } else if value == -2 {
            Some(SectionNumber::IMAGE_SYM_DEBUG)
        } else {
            None
        }
    }
}

impl TryFromSpecImpl<i16> for SectionNumber {
    open spec fn obeys_try_from_spec() -> bool {
        true
    }

    open spec fn try_from_spec(value: i16) -> Result<Self, PeError> {
        match SectionNumber::from_code(value) {
            Some(number) => Ok(number),
            None => Err(PeError::InvalidEnumValue(as_unsigned_16(value))),
        }
    }
}

impl TryFrom<i16> for SectionNumber {
    type Error = PeError;

    fn try_from(value: i16) -> (r: Result<Self, PeError>) {
        match value {
            0 => Ok(SectionNumber::IMAGE_SYM_UNDEFINED),
            -1 => Ok(SectionNumber::IMAGE_SYM_ABSOLUTE),
            -2 => Ok(SectionNumber::IMAGE_SYM_DEBUG),
            _ => {
                let word: u16 = if value < 0 {
                    (value as i32 + 0x1_0000) as u16
                } else {
                    value as u16
                };
                Err(PeError::InvalidEnumValue(word))
            },
        }
    }
}

/// What kind of definition a symbol stands for.
#[allow(non_camel_case_types)]
#[derive(Debug, Clone, Copy, PartialEq, Eq, Structural)]
pub enum StorageClass {
    IMAGE_SYM_CLASS_END_OF_FUNCTION,
    IMAGE_SYM_CLASS_NULL,
    IMAGE_SYM_CLASS_AUTOMATIC,
    IMAGE_SYM_CLASS_EXTERNAL,
    IMAGE_SYM_CLASS_STATIC,
    IMAGE_SYM_CLASS_REGISTER,
    IMAGE_SYM_CLASS_EXTERNAL_DEF,
    IMAGE_SYM_CLASS_LABEL,
    IMAGE_SYM_CLASS_UNDEFINED_LABEL,
    IMAGE_SYM_CLASS_MEMBER_OF_STRUCT,
    IMAGE_SYM_CLASS_ARGUMENT,
    IMAGE_SYM_CLASS_STRUCT_TAG,
    IMAGE_SYM_CLASS_MEMBER_OF_UNION,
    IMAGE_SYM_CLASS_UNION_TAG,
    IMAGE_SYM_CLASS_TYPE_DEFINITION,
    IMAGE_SYM_CLASS_UNDEFINED_STATIC,
    IMAGE_SYM_CLASS_ENUM_TAG,
    IMAGE_SYM_CLASS_MEMBER_OF_ENUM,
    IMAGE_SYM_CLASS_REGISTER_PARAM,
    IMAGE_SYM_CLASS_BIT_FIELD,
    IMAGE_SYM_CLASS_BLOCK,
    IMAGE_SYM_CLASS_FUNCTION,
    IMAGE_SYM_CLASS_END_OF_STRUCT,
    IMAGE_SYM_CLASS_FILE,
    IMAGE_SYM_CLASS_SECTION,
    IMAGE_SYM_CLASS_WEAK_EXTERNAL,
    IMAGE_SYM_CLASS_CLR_TOKEN,
}

impl StorageClass {
    /// The storage class that a code stands for, if it stands for one.
    pub open spec fn from_code(code: u8) -> Option<StorageClass> {
        match code {
            0xFF => Some(StorageClass::IMAGE_SYM_CLASS_END_OF_FUNCTION),
            0 => Some(StorageClass::IMAGE_SYM_CLASS_NULL),
            1 => Some(StorageClass::IMAGE_SYM_CLASS_AUTOMATIC),
            2 => Some(StorageClass::IMAGE_SYM_CLASS_EXTERNAL),
            3 => Some(StorageClass::IMAGE_SYM_CLASS_STATIC),
            4 => Some(StorageClass::IMAGE_SYM_CLASS_REGISTER),
            5 => Some(StorageClass::IMAGE_SYM_CLASS_EXTERNAL_DEF),
            6 => Some(StorageClass::IMAGE_SYM_CLASS_LABEL),
            7 => Some(StorageClass::IMAGE_SYM_CLASS_UNDEFINED_LABEL),
            8 => Some(StorageClass::IMAGE_SYM_CLASS_MEMBER_OF_STRUCT),
            9 => Some(StorageClass::IMAGE_SYM_CLASS_ARGUMENT),
            10 => Some(StorageClass::IMAGE_SYM_CLASS_STRUCT_TAG),
            11 => Some(StorageClass::IMAGE_SYM_CLASS_MEMBER_OF_UNION),
            12 => Some(StorageClass::IMAGE_SYM_CLASS_UNION_TAG),
            13 => Some(StorageClass::IMAGE_SYM_CLASS_TYPE_DEFINITION),
            14 => Some(StorageClass::IMAGE_SYM_CLASS_UNDEFINED_STATIC),
            15 => Some(StorageClass::IMAGE_SYM_CLASS_ENUM_TAG),
            16 => Some(StorageClass::IMAGE_SYM_CLASS_MEMBER_OF_ENUM),
            17 => Some(StorageClass::IMAGE_SYM_CLASS_REGISTER_PARAM),
            18 => Some(StorageClass::IMAGE_SYM_CLASS_BIT_FIELD),
            100 => Some(StorageClass::IMAGE_SYM_CLASS_BLOCK),
            101 => Some(StorageClass::IMAGE_SYM_CLASS_FUNCTION),
            102 => Some(StorageClass::IMAGE_SYM_CLASS_END_OF_STRUCT),
            103 => Some(StorageClass::IMAGE_SYM_CLASS_FILE),
            104 => Some(StorageClass::IMAGE_SYM_CLASS_SECTION),
            105 => Some(StorageClass::IMAGE_SYM_CLASS_WEAK_EXTERNAL),
            107 => Some(StorageClass::IMAGE_SYM_CLASS_CLR_TOKEN),
            _ => None,
        }
    }
}

impl TryFromSpecImpl<u8> for StorageClass {
    open spec fn obeys_try_from_spec() -> bool {
        true
    }

    open spec fn try_from_spec(value: u8) -> Result<Self, PeError> {
        match StorageClass::from_code(value) {
            Some(class) => Ok(class),
            None => Err(PeError::InvalidEnumValue(value as u16)),
        }
    }
}

impl TryFrom<u8> for StorageClass {
    type Error = PeError;

    fn try_from(value: u8) -> (r: Result<Self, PeError>) {
        match value {
            0xFF => Ok(StorageClass::IMAGE_SYM_CLASS_END_OF_FUNCTION),
            0 => Ok(StorageClass::IMAGE_SYM_CLASS_NULL),
            1 => Ok(StorageClass::IMAGE_SYM_CLASS_AUTOMATIC),
            2 => Ok(StorageClass::IMAGE_SYM_CLASS_EXTERNAL),
            3 => Ok(StorageClass::IMAGE_SYM_CLASS_STATIC),
            4 => Ok(StorageClass::IMAGE_SYM_CLASS_REGISTER),
            5 => Ok(StorageClass::IMAGE_SYM_CLASS_EXTERNAL_DEF),
            6 => Ok(StorageClass::IMAGE_SYM_CLASS_LABEL),
            7 => Ok(StorageClass::IMAGE_SYM_CLASS_UNDEFINED_LABEL),
            8 => Ok(StorageClass::IMAGE_SYM_CLASS_MEMBER_OF_STRUCT),
            9 => Ok(StorageClass::IMAGE_SYM_CLASS_ARGUMENT),
            10 => Ok(StorageClass::IMAGE_SYM_CLASS_STRUCT_TAG),
            11 => Ok(StorageClass::IMAGE_SYM_CLASS_MEMBER_OF_UNION),
            12 => Ok(StorageClass::IMAGE_SYM_CLASS_UNION_TAG),
            13 => Ok(StorageClass::IMAGE_SYM_CLASS_TYPE_DEFINITION),
            14 => Ok(StorageClass::IMAGE_SYM_CLASS_UNDEFINED_STATIC),
            15 => Ok(StorageClass::IMAGE_SYM_CLASS_ENUM_TAG),
            16 => Ok(StorageClass::IMAGE_SYM_CLASS_MEMBER_OF_ENUM),
            17 => Ok(StorageClass::IMAGE_SYM_CLASS_REGISTER_PARAM),
            18 => Ok(StorageClass::IMAGE_SYM_CLASS_BIT_FIELD),
            100 => Ok(StorageClass::IMAGE_SYM_CLASS_BLOCK),
            101 => Ok(StorageClass::IMAGE_SYM_CLASS_FUNCTION),
            102 => Ok(StorageClass::IMAGE_SYM_CLASS_END_OF_STRUCT),
            103 => Ok(StorageClass::IMAGE_SYM_CLASS_FILE),
            104 => Ok(StorageClass::IMAGE_SYM_CLASS_SECTION),
            105 => Ok(StorageClass::IMAGE_SYM_CLASS_WEAK_EXTERNAL),
            107 => Ok(StorageClass::IMAGE_SYM_CLASS_CLR_TOKEN),
            _ => Err(PeError::InvalidEnumValue(value as u16)),
        }
    }
}

/// The name field of a symbol record.
#[derive(Debug, Clone, Copy, PartialEq, Eq, Structural)]
pub struct SymbolName {
    pub short_name: u32,
    pub zeroes: u16,
    pub offset: u16,
}

/// The type of a symbol.
#[allow(non_camel_case_types)]
#[derive(Debug, Clone, Copy, PartialEq, Eq, Structural)]
pub enum SymbolType {
    IMAGE_SYM_TYPE_NULL,
    IMAGE_SYM_TYPE_VOID,
    IMAGE_SYM_TYPE_CHAR,
    IMAGE_SYM_TYPE_SHORT,
    IMAGE_SYM_TYPE_INT,
    IMAGE_SYM_TYPE_LONG,
    IMAGE_SYM_TYPE_FLOAT,
    IMAGE_SYM_TYPE_DOUBLE,
    IMAGE_SYM_TYPE_STRUCT,
    IMAGE_SYM_TYPE_UNION,
    IMAGE_SYM_TYPE_ENUM,
    IMAGE_SYM_TYPE_MOE,
    IMAGE_SYM_TYPE_BYTE,
    IMAGE_SYM_TYPE_WORD,
    IMAGE_SYM_TYPE_UINT,
    IMAGE_SYM_TYPE_DWORD,
    IMAGE_SYM_TYPE_PCODE,
    FUNCTION,
}

impl SymbolType {
    /// The symbol type that a code stands for, if it stands for one.
    pub open spec fn from_code(code: u16) -> Option<SymbolType> {
        match code {
            0 => Some(SymbolType::IMAGE_SYM_TYPE_NULL),
            1 => Some(SymbolType::IMAGE_SYM_TYPE_VOID),
            2 => Some(SymbolType::IMAGE_SYM_TYPE_CHAR),
            3 => Some(SymbolType::IMAGE_SYM_TYPE_SHORT),
            4 => Some(SymbolType::IMAGE_SYM_TYPE_INT),
            5 => Some(SymbolType::IMAGE_SYM_TYPE_LONG),
            6 => Some(SymbolType::IMAGE_SYM_TYPE_FLOAT),
            7 => Some(SymbolType::IMAGE_SYM_TYPE_DOUBLE),
            8 => Some(SymbolType::IMAGE_SYM_TYPE_STRUCT),
            9 => Some(SymbolType::IMAGE_SYM_TYPE_UNION),
            10 => Some(SymbolType::IMAGE_SYM_TYPE_ENUM),
            11 => Some(SymbolType::IMAGE_SYM_TYPE_MOE),
            12 => Some(SymbolType::IMAGE_SYM_TYPE_BYTE),
            13 => Some(SymbolType::IMAGE_SYM_TYPE_WORD),
            14 => Some(SymbolType::IMAGE_SYM_TYPE_UINT),
            15 => Some(SymbolType::IMAGE_SYM_TYPE_DWORD),
            0x20 => Some(SymbolType::FUNCTION),
            _ => None,
        }
    }
}

impl TryFromSpecImpl<u16> for SymbolType {
    open spec fn obeys_try_from_spec() -> bool {
        true
    }

    open spec fn try_from_spec(value: u16) -> Result<Self, PeError> {
        match SymbolType::from_code(value) {
            Some(symbol_type) => Ok(symbol_type),
            None => Err(PeError::InvalidEnumValue(value)),
        }
    }
}

impl TryFrom<u16> for SymbolType {
    type Error = PeError;

    fn try_from(value: u16) -> (r: Result<Self, PeError>) {
        match value {
            0 => Ok(SymbolType::IMAGE_SYM_TYPE_NULL),
            1 => Ok(SymbolType::IMAGE_SYM_TYPE_VOID),
            2 => Ok(SymbolType::IMAGE_SYM_TYPE_CHAR),
            3 => Ok(SymbolType::IMAGE_SYM_TYPE_SHORT),
            4 => Ok(SymbolType::IMAGE_SYM_TYPE_INT),
            5 => Ok(SymbolType::IMAGE_SYM_TYPE_LONG),
            6 => Ok(SymbolType::IMAGE_SYM_TYPE_FLOAT),
            7 => Ok(SymbolType::IMAGE_SYM_TYPE_DOUBLE),
            8 => Ok(SymbolType::IMAGE_SYM_TYPE_STRUCT),
            9 => Ok(SymbolType::IMAGE_SYM_TYPE_UNION),
            10 => Ok(SymbolType::IMAGE_SYM_TYPE_ENUM),
            11 => Ok(SymbolType::IMAGE_SYM_TYPE_MOE),
            12 => Ok(SymbolType::IMAGE_SYM_TYPE_BYTE),
            13 => Ok(SymbolType::IMAGE_SYM_TYPE_WORD),
            14 => Ok(SymbolType::IMAGE_SYM_TYPE_UINT),
            15 => Ok(SymbolType::IMAGE_SYM_TYPE_DWORD),
            0x20 => Ok(SymbolType::FUNCTION),
            _ => Err(PeError::InvalidEnumValue(value)),
        }
    }
}

/// A symbol record in its standard form.
#[derive(Debug, Clone, Copy, PartialEq, Eq, Structural)]
pub struct StandardSymbolRecord {
    pub name: SymbolName,
    pub value: u32,
    pub section_number: SectionNumber,
    pub symbol_type: SymbolType,
    pub storage_class: StorageClass,
    pub number_of_aux_symbols: u8,
}

impl StandardSymbolRecord {
    /// Whether the record defines a function: an external symbol of function
    /// type whose section number is not the one of an undefined symbol.
    pub fn is_function_definition(&self) -> (b: bool)
        ensures
            b == (self.storage_class == StorageClass::IMAGE_SYM_CLASS_EXTERNAL && self.symbol_type
                == SymbolType::FUNCTION && self.section_number
                != SectionNumber::IMAGE_SYM_UNDEFINED),
    {
        self.storage_class == StorageClass::IMAGE_SYM_CLASS_EXTERNAL && self.symbol_type
            == SymbolType::FUNCTION && self.section_number != SectionNumber::IMAGE_SYM_UNDEFINED
    }
}

/// A symbol record in one of its auxiliary forms.
#[allow(inconsistent_fields)]
#[derive(Debug, Clone, PartialEq, Eq)]
pub enum AuxiliarySymbolRecord {
    FnDefinitions {
        tag_index: u32,
        total_size: u32,
        ptr_to_linenumber: u32,
        ptr_to_next_fn: u32,
        unused: u16,
    },
    BfAndEf { unused: u32, linenumber: u16, unused2: [u8; 6], ptr_to_next_fn: u32, unused3: u16 },
    WeakExternals { tag_index: u32, characteristics: u32, unused: [u8; 10] },
    Files { file_name: [u8; 18] },
    SectionDefinitions {
        length: u32,
        number_of_relocations: u16,
        number_of_linenumbers: u16,
        checksum: u32,
        number: u16,
        selection: u8,
        unused: [u8; 3],
    },
}

/// A record of a COFF symbol table.
#[derive(Debug, Clone, PartialEq, Eq)]
pub enum SymbolTableRecord {
    Standard(StandardSymbolRecord),
    Auxiliary(AuxiliarySymbolRecord),
}

/// The relocation that the ten bytes of `b` at `at` hold.
pub open spec fn relocation_at(b: Seq<u8>, at: int) -> Result<CoffRelocation, PeError> {
    if at + COFF_RELOCATION_SIZE > b.len() {
        Err(PeError::BoundsError)
    } else {
        match TypeIndicatorX64::from_code(le_u16(b, at + 8)) {
            None => Err(PeError::InvalidEnumValue(le_u16(b, at + 8))),
            Some(type_indicator) => Ok(
                CoffRelocation {
                    virtual_address: le_u32(b, at),
                    symbol_table_index: le_u32(b, at + 4),
                    type_indicator,
                },
            ),
        }
    }
}

/// The `count` relocations that follow one another in `b` from `at` on, or the
/// error of the first of them that cannot be read.
pub open spec fn relocations_at(b: Seq<u8>, at: int, count: nat) -> Result<
    Seq<CoffRelocation>,
    PeError,
>
    decreases count,
{
    if count == 0 {
        Ok(Seq::empty())
    } else {
        match relocation_at(b, at) {
            Err(e) => Err(e),
            Ok(first) => prepend(
                seq![first],
                relocations_at(b, at + COFF_RELOCATION_SIZE, (count - 1) as nat),
            ),
        }
    }
}

/// The relocations that follow one another in `b` from `at` on: `count` of
/// them, or fewer where a record starts with two zero bytes, which ends them.
pub open spec fn relocations_until_blank(b: Seq<u8>, at: int, count: nat) -> Result<
    Seq<CoffRelocation>,
    PeError,
>
    decreases count,
{
    if count == 0 {
        Ok(Seq::empty())
    } else if at + 2 > b.len() {
        Err(PeError::BoundsError)
    } else if b[at] == 0 && b[at + 1] == 0 {
        Ok(Seq::empty())
    } else {
        match relocation_at(b, at) {
            Err(e) => Err(e),
            Ok(first) => prepend(
                seq![first],
                relocations_until_blank(b, at + COFF_RELOCATION_SIZE, (count - 1) as nat),
            ),
        }
    }
}

/// The line-number record that the six bytes of `b` at `at` hold.
pub open spec fn line_number_at(b: Seq<u8>, at: int) -> LineNumber {
    LineNumber { type_value: le_u32(b, at), linenumber: le_u16(b, at + 4) }
}

/// The symbol record that the eighteen bytes of `b` at `at` hold, read as a
/// standard record. Its section number, its type and its storage class are
/// checked in this order.
pub open spec fn symbol_record_at(b: Seq<u8>, at: int) -> Result<SymbolTableRecord, PeError> {
    if at + SYMBOL_RECORD_SIZE > b.len() {
        Err(PeError::BoundsError)
    } else {
        match SectionNumber::from_code(as_signed_16(le_u16(b, at + 12))) {
            None => Err(PeError::InvalidEnumValue(le_u16(b, at + 12))),
            Some(section_number) => match SymbolType::from_code(le_u16(b, at + 14)) {
                None => Err(PeError::InvalidEnumValue(le_u16(b, at + 14))),
                Some(symbol_type) => match StorageClass::from_code(b[at + 16]) {
                    None => Err(PeError::InvalidEnumValue(b[at + 16] as u16)),
                    Some(storage_class) => Ok(
                        SymbolTableRecord::Standard(
                            StandardSymbolRecord {
                                name: SymbolName {
                                    short_name: le_u32(b, at),
                                    zeroes: le_u16(b, at + 4),
                                    offset: le_u16(b, at + 6),
                                },
                                value: le_u32(b, at + 8),
                                section_number,
                                symbol_type,
                                storage_class,
                                number_of_aux_symbols: b[at + 17],
                            },
                        ),
                    ),
                },
            },
        }
    }
}

/// The `count` symbol records that follow one another in `b` from `at` on, or
/// the error of the first of them that cannot be read.
pub open spec fn symbol_records_at(b: Seq<u8>, at: int, count: nat) -> Result<
    Seq<SymbolTableRecord>,
    PeError,
>
    decreases count,
{
    if count == 0 {
        Ok(Seq::empty())
    } else {
        match symbol_record_at(b, at) {
            Err(e) => Err(e),
            Ok(first) => prepend(
                seq![first],
                symbol_records_at(b, at + SYMBOL_RECORD_SIZE, (count - 1) as nat),
            ),
        }
    }
}

impl SectionHeaderView {
    /// The COFF relocations of the section in the file `memory`: as many as
    /// the header counts, from its relocation pointer on.
    pub open spec fn relocations(self, memory: Seq<u8>) -> Result<Seq<CoffRelocation>, PeError> {
        if self.ptr_to_relocations + COFF_RELOCATION_SIZE * self.number_of_relocations
            > memory.len() {
            Err(PeError::BoundsError)
        } else {
            relocations_at(
                memory,
                self.ptr_to_relocations as int,
                self.number_of_relocations as nat,
            )
        }
    }

    /// The line numbers of the section in the file `memory`: as many as the
    /// header counts, from its line-number pointer on.
    pub open spec fn line_numbers(self, memory: Seq<u8>) -> Result<Seq<LineNumber>, PeError> {
        if self.ptr_to_linenumbers + LINE_NUMBER_SIZE * self.number_of_linenumbers
            > memory.len() {
            Err(PeError::BoundsError)
        } else {
            Ok(
                Seq::new(
                    self.number_of_linenumbers as nat,
                    |i: int| line_number_at(memory, self.ptr_to_linenumbers + LINE_NUMBER_SIZE * i),
                ),
            )
        }
    }

    /// The symbol records in the file `memory` from `ptr_to_start` on, as many
    /// as the section has relocations.
    pub open spec fn symbol_table(self, memory: Seq<u8>, ptr_to_start: u32) -> Result<
        Seq<SymbolTableRecord>,
        PeError,
    > {
        if ptr_to_start + SYMBOL_RECORD_SIZE * self.number_of_relocations > memory.len() {
            Err(PeError::BoundsError)
        } else {
            symbol_records_at(memory, ptr_to_start as int, self.number_of_relocations as nat)
        }
    }
}

/// Reads the relocation at `at`.
fn read_relocation(memory: &[u8], at: usize) -> (r: Result<CoffRelocation, PeError>)
    ensures
        r == relocation_at(memory@, at as int),
{
    if at > memory.len() || memory.len() - at < COFF_RELOCATION_SIZE {
        return Err(PeError::BoundsError);
    }
    let virtual_address = u32_at(memory, at)?;
    let symbol_table_index = u32_at(memory, at + 4)?;
    let type_indicator = TypeIndicatorX64::try_from(u16_at(memory, at + 8)?)?;
    Ok(CoffRelocation { virtual_address, symbol_table_index, type_indicator })
}

/// Reads the symbol record at `at` in its standard form.
fn read_symbol_record(memory: &[u8], at: usize) -> (r: Result<SymbolTableRecord, PeError>)
    ensures
        r == symbol_record_at(memory@, at as int),
{
    if at > memory.len() || memory.len() - at < SYMBOL_RECORD_SIZE {
        return Err(PeError::BoundsError);
    }
    let short_name = u32_at(memory, at)?;
    let zeroes = u16_at(memory, at + 4)?;
    let offset = u16_at(memory, at + 6)?;
    let value = u32_at(memory, at + 8)?;
    let section_word = u16_at(memory, at + 12)?;
    let section_number = match SectionNumber::try_from(
        i16_from_bytes(slice_subrange(memory, at + 12, at + 14)),
    ) {
        Ok(section_number) => section_number,
        Err(_) => {
            return Err(PeError::InvalidEnumValue(section_word));
        },
    };
    let symbol_type = SymbolType::try_from(u16_at(memory, at + 14)?)?;
    let storage_class = StorageClass::try_from(memory[at + 16])?;
    let number_of_aux_symbols = memory[at + 17];
    Ok(
        SymbolTableRecord::Standard(
            StandardSymbolRecord {
                name: SymbolName { short_name, zeroes, offset },
                value,
                section_number,
                symbol_type,
                storage_class,
                number_of_aux_symbols,
            },
        ),
    )
}

impl SectionHeader {
    /// Reads the COFF relocations of the section from the file `memory`.
    pub fn coff_relocations(&self, memory: &Vec<u8>) -> (r: Result<Vec<CoffRelocation>, PeError>)
        ensures
            match self@.relocations(memory@) {
                Ok(relocations) => r matches Ok(v) && v@ == relocations,
                Err(error) => r matches Err(e) && e == error,
            },
            r matches Ok(v) ==> v@.len() == self.number_of_relocations,
    {
        let start = self.ptr_to_relocations as u64;
        let size = COFF_RELOCATION_SIZE as u64 * self.number_of_relocations as u64;
        if start + size > memory.len() as u64 {
            return Err(PeError::BoundsError);
        }
        let mut at: usize = start as usize;
        let mut relocations: Vec<CoffRelocation> = Vec::new();
        let mut index: u16 = 0;
        while index < self.number_of_relocations
            invariant
                index <= self.number_of_relocations,
                at == self.ptr_to_relocations + COFF_RELOCATION_SIZE * index,
                self.ptr_to_relocations + COFF_RELOCATION_SIZE * self.number_of_relocations
                    <= memory@.len() <= usize::MAX,
                relocations@.len() == index,
                relocations_at(
                    memory@,
                    self.ptr_to_relocations as int,
                    self.number_of_relocations as nat,
                ) == prepend(
                    relocations@,
                    relocations_at(
                        memory@,
                        at as int,
                        (self.number_of_relocations - index) as nat,
                    ),
                ),
            decreases self.number_of_relocations - index,
        {
            let ghost done = relocations@;
            let relocation = read_relocation(memory.as_slice(), at)?;
            proof {
                let rest = relocations_at(
                    memory@,
                    at + COFF_RELOCATION_SIZE,
                    (self.number_of_relocations - index - 1) as nat,
                );
                if let Ok(tail) = rest {
                    assert(done + (seq![relocation] + tail) =~= done.push(relocation) + tail);
                }
            }
            relocations.push(relocation);
            at = at + COFF_RELOCATION_SIZE;
            index += 1;
        }
        Ok(relocations)
    }

    /// Reads the COFF relocations of the section from the file `memory`, up
    /// to the first record that starts with two zero bytes, if one comes
    /// before the header's count is reached.
    pub fn get_coff_relocations(&self, memory: &Vec<u8>) -> (r: Result<
        Vec<CoffRelocation>,
        PeError,
    >)
        ensures
            match relocations_until_blank(
                memory@,
                self.ptr_to_relocations as int,
                self.number_of_relocations as nat,
            ) {
                Ok(relocations) => r matches Ok(v) && v@ == relocations,
                Err(error) => r matches Err(e) && e == error,
            },
    {
        let len = memory.len();
        let mut at: u64 = self.ptr_to_relocations as u64;
        let mut relocations: Vec<CoffRelocation> = Vec::new();
        let mut index: u16 = 0;
        while index < self.number_of_relocations
            invariant
                index <= self.number_of_relocations,
                at == self.ptr_to_relocations + COFF_RELOCATION_SIZE * index,
                len == memory@.len(),
                relocations_until_blank(
                    memory@,
                    self.ptr_to_relocations as int,
                    self.number_of_relocations as nat,
                ) == prepend(
                    relocations@,
                    relocations_until_blank(
                        memory@,
                        at as int,
                        (self.number_of_relocations - index) as nat,
                    ),
                ),
            decreases self.number_of_relocations - index,
        {
            let ghost done = relocations@;
            if at > len as u64 || len as u64 - at < 2 {
                return Err(PeError::BoundsError);
            }
            let here = at as usize;
            if memory[here] == 0 && memory[here + 1] == 0 {
                return Ok(relocations);
            }
            let relocation = read_relocation(memory.as_slice(), here)?;
            proof {
                let rest = relocations_until_blank(
                    memory@,
                    at + COFF_RELOCATION_SIZE,
                    (self.number_of_relocations - index - 1) as nat,
                );
                if let Ok(tail) = rest {
                    assert(done + (seq![relocation] + tail) =~= done.push(relocation) + tail);
                }
            }
            relocations.push(relocation);
            at = at + COFF_RELOCATION_SIZE as u64;
            index += 1;
        }
        Ok(relocations)
    }

    /// Reads the line numbers of the section from the file `memory`.
    pub fn coff_line_numbers(&self, memory: &Vec<u8>) -> (r: Result<Vec<LineNumber>, PeError>)
        ensures
            match self@.line_numbers(memory@) {
                Ok(line_numbers) => r matches Ok(v) && v@ == line_numbers,
                Err(error) => r matches Err(e) && e == error,
            },
    {
        let start = self.ptr_to_linenumbers as u64;
        let size = LINE_NUMBER_SIZE as u64 * self.number_of_linenumbers as u64;
        if start + size > memory.len() as u64 {
            return Err(PeError::BoundsError);
        }
        let mut at: usize = start as usize;
        let mut line_nums: Vec<LineNumber> = Vec::new();
        let mut index: u16 = 0;
        while index < self.number_of_linenumbers
            invariant
                index <= self.number_of_linenumbers,
                at == self.ptr_to_linenumbers + LINE_NUMBER_SIZE * index,
                self.ptr_to_linenumbers + LINE_NUMBER_SIZE * self.number_of_linenumbers
                    <= memory@.len() <= usize::MAX,
                line_nums@.len() == index,
                forall|k: int|
                    0 <= k < index ==> line_nums@[k] == line_number_at(
                        memory@,
                        self.ptr_to_linenumbers + LINE_NUMBER_SIZE * k,
                    ),
            decreases self.number_of_linenumbers - index,
        {
            let type_value = u32_at(memory.as_slice(), at)?;
            let linenumber = u16_at(memory.as_slice(), at + 4)?;
            line_nums.push(LineNumber { type_value, linenumber });
            at = at + LINE_NUMBER_SIZE;
            index += 1;
        }
        Ok(line_nums)
    }

    /// Reads symbol records from the file `memory` at `ptr_to_start`, as many
    /// as the section has relocations, each in its standard form.
    pub fn coff_symbol_table(&self, memory: &Vec<u8>, ptr_to_start: u32) -> (r: Result<
        Vec<SymbolTableRecord>,
        PeError,
    >)
        ensures
            match self@.symbol_table(memory@, ptr_to_start) {
                Ok(records) => r matches Ok(v) && v@ == records,
                Err(error) => r matches Err(e) && e == error,
            },
    {
        let start = ptr_to_start as u64;
        let size = SYMBOL_RECORD_SIZE as u64 * self.number_of_relocations as u64;
        if start + size > memory.len() as u64 {
            return Err(PeError::BoundsError);
        }
        let mut at: usize = start as usize;
        let mut records: Vec<SymbolTableRecord> = Vec::new();
        let mut index: u16 = 0;
        while index < self.number_of_relocations
            invariant
                index <= self.number_of_relocations,
                at == ptr_to_start + SYMBOL_RECORD_SIZE * index,
                ptr_to_start + SYMBOL_RECORD_SIZE * self.number_of_relocations <= memory@.len()
                    <= usize::MAX,
                symbol_records_at(
                    memory@,
                    ptr_to_start as int,
                    self.number_of_relocations as nat,
                ) == prepend(
                    records@,
                    symbol_records_at(
                        memory@,
                        at as int,
                        (self.number_of_relocations - index) as nat,
                    ),
                ),
            decreases self.number_of_relocations - index,
        {
            let ghost done = records@;
            let record = read_symbol_record(memory.as_slice(), at)?;
            proof {
                let rest = symbol_records_at(
                    memory@,
                    at + SYMBOL_RECORD_SIZE,
                    (self.number_of_relocations - index - 1) as nat,
                );
                if let Ok(tail) = rest {
                    assert(done + (seq![record] + tail) =~= done.push(record) + tail);
                }
            }
            records.push(record);
            at = at + SYMBOL_RECORD_SIZE;
            index += 1;
        }
        Ok(records)
    }
}

} // verus!
