//! The optional header: standard fields, Windows-specific fields and the
//! sixteen data directories.
//!
//! The magic word at its start tells a 32-bit image (PE32) from a 64-bit one
//! (PE32+), and with that the width of every address-sized field after it.

use crate::pe::cursor::Cursor;
use crate::pe::PeError;
use crate::util::{le_u16, le_u32, le_u64};
use vstd::prelude::*;
use vstd::std_specs::convert::TryFromSpecImpl;

verus! {

/// The number of data directories of an optional header.
pub const NUMBER_OF_DATA_DIRECTORIES: usize = 16;

/// The index of the import directory among the data directories.
pub const IMPORT_DIRECTORY_INDEX: usize = 1;

/// Whether an image is 32-bit (PE32) or 64-bit (PE32+).
#[allow(non_camel_case_types)]
#[derive(Debug, Clone, Copy, PartialEq, Eq, Structural)]
pub enum ExecutableKind {
    PE32,
    PE32_PLUS,
}

impl ExecutableKind {
    /// The kind that a magic word stands for, if it stands for one.
    pub open spec fn from_magic(magic: u16) -> Option<ExecutableKind> {
        if magic == 0x10b {
            Some(ExecutableKind::PE32)
        } else if magic == 0x20b {
            Some(ExecutableKind::PE32_PLUS)
        } else {
            None
        }
    }

    /// The number of bytes of an address-sized field.
    pub open spec fn word_size(self) -> int {
        match self {
            ExecutableKind::PE32 => 4,
            ExecutableKind::PE32_PLUS => 8,
        }
    }

    /// The number of bytes of the whole optional header.
    pub open spec fn header_size(self) -> int {
        match self {
            ExecutableKind::PE32 => 224,
            ExecutableKind::PE32_PLUS => 240,
        }
    }
}

impl TryFromSpecImpl<u16> for ExecutableKind {
    open spec fn obeys_try_from_spec() -> bool {
        true
    }

    open spec fn try_from_spec(val: u16) -> Result<Self, PeError> {
        match ExecutableKind::from_magic(val) {
            Some(kind) => Ok(kind),
            None => Err(PeError::InvalidEnumValue(val)),
        }
    }
}

impl TryFrom<u16> for ExecutableKind {
    type Error = PeError;

    fn try_from(val: u16) -> (r: Result<Self, PeError>) {
        match val {
            0x10b => Ok(Self::PE32),
            0x20b => Ok(Self::PE32_PLUS),
            _ => Err(PeError::InvalidEnumValue(val)),
        }
    }
}

impl Default for ExecutableKind {
    fn default() -> (r: Self)
        ensures
            r == ExecutableKind::PE32,
    {
        Self::PE32
    }
}

/// The subsystem that an image needs to run.
#[allow(non_camel_case_types)]
#[derive(Debug, Clone, Copy, PartialEq, Eq, Structural)]
pub enum WindowsSubsystem {
    UNKNOWN,
    NATIVE,
    WINDOWS_GUI,
    WINDOWS_CUI,
    POSIX_CUI,
    NATIVE_WINDOWS,
    WINDOWS_CE_GUI,
    EFI_APPLICATION,
    EFI_BOOT_SERVICE_DRIVER,
    EFI_RUNTIME_DRIVER,
    EFI_ROM,
    XBOX,
    WINDOWS_BOOT_APPLICATION,
}

impl WindowsSubsystem {
    /// The subsystem that a code stands for, if it stands for one.
    pub open spec fn from_code(code: u16) -> Option<WindowsSubsystem> {
        match code {
            0 => Some(WindowsSubsystem::UNKNOWN),
            1 => Some(WindowsSubsystem::NATIVE),
            2 => Some(WindowsSubsystem::WINDOWS_GUI),
            3 => Some(WindowsSubsystem::WINDOWS_CUI),
            7 => Some(WindowsSubsystem::POSIX_CUI),
            8 => Some(WindowsSubsystem::NATIVE_WINDOWS),
            9 => Some(WindowsSubsystem::WINDOWS_CE_GUI),
            10 => Some(WindowsSubsystem::EFI_APPLICATION),
            11 => Some(WindowsSubsystem::EFI_BOOT_SERVICE_DRIVER),
            12 => Some(WindowsSubsystem::EFI_RUNTIME_DRIVER),
            13 => Some(WindowsSubsystem::EFI_ROM),
            14 => Some(WindowsSubsystem::XBOX),
            16 => Some(WindowsSubsystem::WINDOWS_BOOT_APPLICATION),
            _ => None,
        }
    }
}

impl TryFromSpecImpl<u16> for WindowsSubsystem {
    open spec fn obeys_try_from_spec() -> bool {
        true
    }

    open spec fn try_from_spec(value: u16) -> Result<Self, PeError> {
        match WindowsSubsystem::from_code(value) {
            Some(subsystem) => Ok(subsystem),
            None => Err(PeError::InvalidEnumValue(value)),
        }
    }
}

impl TryFrom<u16> for WindowsSubsystem {
    type Error = PeError;

    fn try_from(value: u16) -> (r: Result<Self, PeError>) {
        let result = match value {
            0 => WindowsSubsystem::UNKNOWN,
            1 => WindowsSubsystem::NATIVE,
            2 => WindowsSubsystem::WINDOWS_GUI,
            3 => WindowsSubsystem::WINDOWS_CUI,
            7 => WindowsSubsystem::POSIX_CUI,
            8 => WindowsSubsystem::NATIVE_WINDOWS,
            9 => WindowsSubsystem::WINDOWS_CE_GUI,
            10 => WindowsSubsystem::EFI_APPLICATION,
            11 => WindowsSubsystem::EFI_BOOT_SERVICE_DRIVER,
            12 => WindowsSubsystem::EFI_RUNTIME_DRIVER,
            13 => WindowsSubsystem::EFI_ROM,
            14 => WindowsSubsystem::XBOX,
            16 => WindowsSubsystem::WINDOWS_BOOT_APPLICATION,
            _ => {
                return Err(PeError::InvalidEnumValue(value));
            },
        };
        Ok(result)
    }
}

/// The preferred load address of an image.
#[allow(non_camel_case_types)]
#[derive(Debug, Clone, Copy, PartialEq, Eq, Structural)]
pub enum ImageBase {
    PE32(u32),
    PE32_PLUS(u64),
}

#[allow(non_camel_case_types)]
#[derive(Debug, Clone, Copy, PartialEq, Eq, Structural)]
pub enum SizeOfStackReserve {
    PE32(u32),
    PE32_PLUS(u64),
}

#[allow(non_camel_case_types)]
#[derive(Debug, Clone, Copy, PartialEq, Eq, Structural)]
pub enum SizeOfStackCommit {
    PE32(u32),
    PE32_PLUS(u64),
}

#[allow(non_camel_case_types)]
#[derive(Debug, Clone, Copy, PartialEq, Eq, Structural)]
pub enum SizeOfHeapReserve {
    PE32(u32),
    PE32_PLUS(u64),
}

#[allow(non_camel_case_types)]
#[derive(Debug, Clone, Copy, PartialEq, Eq, Structural)]
pub enum SizeOfHeapCommit {
    PE32(u32),
    PE32_PLUS(u64),
}

/// The DLL characteristics word of an optional header, as a set of flag bits.
#[derive(Debug, Clone, Copy, PartialEq, Eq, Structural, Hash)]
pub struct DllCharacteristics {
    pub bits: u16,
}

impl DllCharacteristics {
    pub const RESERVED1: u16 = 0x0001;

    pub const RESERVED2: u16 = 0x0002;

    pub const RESERVED3: u16 = 0x0004;

    pub const RESERVED4: u16 = 0x0008;

    pub const IMAGE_DLLCHARACTERISTICS_HIGH_ENTROPY_VA: u16 = 0x0020;

    pub const IMAGE_DLLCHARACTERISTICS_DYNAMIC_BASE: u16 = 0x0040;

    pub const IMAGE_DLLCHARACTERISTICS_FORCE_INTEGRITY: u16 = 0x0080;

    pub const IMAGE_DLLCHARACTERISTICS_NX_COMPAT: u16 = 0x0100;

    pub const IMAGE_DLLCHARACTERISTICS_NO_ISOLATION: u16 = 0x0200;

    pub const IMAGE_DLLCHARACTERISTICS_NO_SEH: u16 = 0x0400;

    pub const IMAGE_DLLCHARACTERISTICS_NO_BIND: u16 = 0x0800;

    pub const IMAGE_DLLCHARACTERISTICS_APPCONTAINER: u16 = 0x1000;

    pub const IMAGE_DLLCHARACTERISTICS_WDM_DRIVER: u16 = 0x2000;

    pub const IMAGE_DLLCHARACTERISTICS_GUARD_CF: u16 = 0x4000;

    pub const IMAGE_DLLCHARACTERISTICS_TERMINAL_SERVER_AWARE: u16 = 0x8000;

    /// The set whose bits are exactly those of `bits`, known or not.
    pub fn from_bits_retain(bits: u16) -> (r: Self)
        ensures
            r.bits == bits,
    {
        Self { bits }
    }

    /// The flag bits as a word.
    pub fn bits(&self) -> (b: u16)
        ensures
            b == self.bits,
    {
        self.bits
    }

    /// Whether every bit of `flags` is set.
    pub fn contains(&self, flags: u16) -> (b: bool)
        ensures
            b == (self.bits & flags == flags),
    {
        self.bits & flags == flags
    }
}

/// The fields that every optional header starts with.
#[derive(Debug, Clone, Copy, PartialEq, Eq, Structural)]
pub struct StandardFields {
    pub magic: ExecutableKind,
    pub major_linker_version: u8,
    pub minor_linker_version: u8,
    pub size_of_code: u32,
    pub size_of_initialized_data: u32,
    pub size_of_uninitialized_data: u32,
    pub address_of_entry_point: u32,
    pub base_of_code: u32,
    /// Present in a PE32 image only.
    pub base_of_data: Option<u32>,
}

/// The fields that the Windows loader adds to the standard ones.
#[derive(Debug, Clone, Copy, PartialEq, Eq, Structural)]
pub struct WindowsSpecificFields {
    pub image_base: ImageBase,
    pub section_alignment: u32,
    pub file_alignment: u32,
    pub major_os_version: u16,
    pub minor_os_version: u16,
    pub major_image_version: u16,
    pub minor_image_version: u16,
    pub major_subsystem_version: u16,
    pub minor_subsystem_version: u16,
    pub win32_version_value: u32,
    pub size_of_image: u32,
    pub size_of_headers: u32,
    pub checksum: u32,
    pub subsystem: WindowsSubsystem,
    pub dll_characteristics: DllCharacteristics,
    pub size_of_stack_reserve: SizeOfStackReserve,
    pub size_of_stack_commit: SizeOfStackCommit,
    pub size_of_heap_reserve: SizeOfHeapReserve,
    pub size_of_heap_commit: SizeOfHeapCommit,
    pub loader_flags: u32,
    pub number_of_rva_and_sizes: u32,
}

/// One data directory: where a table of the image lies, how long it is, and
/// which table it is.
#[derive(Debug, Clone, PartialEq, Eq)]
pub struct ImageDataDirectory {
    pub virtual_address: u32,
    pub size: u32,
    pub tag: String,
}

/// The mathematical value of an `ImageDataDirectory`.
pub struct ImageDataDirectoryView {
    pub virtual_address: u32,
    pub size: u32,
    pub tag: Seq<char>,
}

impl View for ImageDataDirectory {
    type V = ImageDataDirectoryView;

    open spec fn view(&self) -> ImageDataDirectoryView {
        ImageDataDirectoryView {
            virtual_address: self.virtual_address,
            size: self.size,
            tag: self.tag@,
        }
    }
}

impl ImageDataDirectoryView {
    /// The directory names no table: its address and its size are both zero.
    pub open spec fn is_empty(self) -> bool {
        self.virtual_address == 0 && self.size == 0
    }
}

impl ImageDataDirectory {
    /// Whether the directory names no table.
    pub fn is_empty(&self) -> (b: bool)
        ensures
            b == self@.is_empty(),
    {
        self.virtual_address == 0 && self.size == 0
    }
}

/// A parsed optional header.
#[derive(Debug, Clone, PartialEq, Eq)]
pub struct OptionalHeader {
    pub std_fields: StandardFields,
    pub win_specific_fields: WindowsSpecificFields,
    pub data_directories: Vec<ImageDataDirectory>,
}

/// The mathematical value of an `OptionalHeader`.
pub struct OptionalHeaderView {
    pub std_fields: StandardFields,
    pub win_specific_fields: WindowsSpecificFields,
    pub data_directories: Seq<ImageDataDirectoryView>,
}

impl View for OptionalHeader {
    type V = OptionalHeaderView;

    open spec fn view(&self) -> OptionalHeaderView {
        OptionalHeaderView {
            std_fields: self.std_fields,
            win_specific_fields: self.win_specific_fields,
            data_directories: self.data_directories@.map_values(|d: ImageDataDirectory| d@),
        }
    }
}

impl OptionalHeaderView {
    /// Every width-dependent field has the width that the magic word asks for,
    /// the data base is there for PE32 only, and the directories are sixteen.
    pub open spec fn wf(self) -> bool {
        let w = self.win_specific_fields;
        &&& self.data_directories.len() == NUMBER_OF_DATA_DIRECTORIES
        &&& match self.std_fields.magic {
            ExecutableKind::PE32 => {
                &&& self.std_fields.base_of_data is Some
                &&& w.image_base is PE32
                &&& w.size_of_stack_reserve is PE32
                &&& w.size_of_stack_commit is PE32
                &&& w.size_of_heap_reserve is PE32
                &&& w.size_of_heap_commit is PE32
            },
            ExecutableKind::PE32_PLUS => {
                &&& self.std_fields.base_of_data is None
                &&& w.image_base is PE32_PLUS
                &&& w.size_of_stack_reserve is PE32_PLUS
                &&& w.size_of_stack_commit is PE32_PLUS
                &&& w.size_of_heap_reserve is PE32_PLUS
                &&& w.size_of_heap_commit is PE32_PLUS
            },
        }
    }
}

/// The name of the data directory at `index`, in the order of the format.
pub open spec fn directory_name(index: int) -> Seq<char> {
    if index == 0 {
        "export_table"@
    } else if index == 1 {
        "import_table"@
    } else if index == 2 {
        "resource_table"@
    } else if index == 3 {
        "exception_table"@
    } else if index == 4 {
        "certificate_table"@
    } else if index == 5 {
        "base_relocation_table"@
    } else if index == 6 {
        "debug"@
    } else if index == 7 {
        "architecture"@
    } else if index == 8 {
        "global_ptr"@
    } else if index == 9 {
        "tls_table"@
    } else if index == 10 {
        "load_config_table"@
    } else if index == 11 {
        "bound_import"@
    } else if index == 12 {
        "import_address_table"@
    } else if index == 13 {
        "delay_import_descriptor"@
    } else if index == 14 {
        "clr_runtime_header"@
    } else {
        "reserved"@
    }
}

/// The standard fields of the optional header of kind `magic` at `at`.
pub open spec fn standard_fields_at(b: Seq<u8>, at: int, magic: ExecutableKind) -> StandardFields {
    StandardFields {
        magic,
        major_linker_version: b[at + 2],
        minor_linker_version: b[at + 3],
        size_of_code: le_u32(b, at + 4),
        size_of_initialized_data: le_u32(b, at + 8),
        size_of_uninitialized_data: le_u32(b, at + 12),
        address_of_entry_point: le_u32(b, at + 16),
        base_of_code: le_u32(b, at + 20),
        base_of_data: match magic {
            ExecutableKind::PE32 => Some(le_u32(b, at + 24)),
            ExecutableKind::PE32_PLUS => None,
        },
    }
}

/// The Windows-specific fields of the optional header of kind `magic` at `at`,
/// with the subsystem that its subsystem code stands for.
pub open spec fn windows_fields_at(
    b: Seq<u8>,
    at: int,
    magic: ExecutableKind,
    subsystem: WindowsSubsystem,
) -> WindowsSpecificFields {
    let w = magic.word_size();
    WindowsSpecificFields {
        image_base: match magic {
            ExecutableKind::PE32 => ImageBase::PE32(le_u32(b, at + 28)),
            ExecutableKind::PE32_PLUS => ImageBase::PE32_PLUS(le_u64(b, at + 24)),
        },
        section_alignment: le_u32(b, at + 32),
        file_alignment: le_u32(b, at + 36),
        major_os_version: le_u16(b, at + 40),
        minor_os_version: le_u16(b, at + 42),
        major_image_version: le_u16(b, at + 44),
        minor_image_version: le_u16(b, at + 46),
        major_subsystem_version: le_u16(b, at + 48),
        minor_subsystem_version: le_u16(b, at + 50),
        win32_version_value: le_u32(b, at + 52),
        size_of_image: le_u32(b, at + 56),
        size_of_headers: le_u32(b, at + 60),
        checksum: le_u32(b, at + 64),
        subsystem,
        dll_characteristics: DllCharacteristics { bits: le_u16(b, at + 70) },
        size_of_stack_reserve: match magic {
            ExecutableKind::PE32 => SizeOfStackReserve::PE32(le_u32(b, at + 72)),
            ExecutableKind::PE32_PLUS => SizeOfStackReserve::PE32_PLUS(le_u64(b, at + 72)),
        },
        size_of_stack_commit: match magic {
            ExecutableKind::PE32 => SizeOfStackCommit::PE32(le_u32(b, at + 72 + w)),
            ExecutableKind::PE32_PLUS => SizeOfStackCommit::PE32_PLUS(le_u64(b, at + 72 + w)),
        },
        size_of_heap_reserve: match magic {
            ExecutableKind::PE32 => SizeOfHeapReserve::PE32(le_u32(b, at + 72 + 2 * w)),
            ExecutableKind::PE32_PLUS => SizeOfHeapReserve::PE32_PLUS(le_u64(b, at + 72 + 2 * w)),
        },
        size_of_heap_commit: match magic {
            ExecutableKind::PE32 => SizeOfHeapCommit::PE32(le_u32(b, at + 72 + 3 * w)),
            ExecutableKind::PE32_PLUS => SizeOfHeapCommit::PE32_PLUS(le_u64(b, at + 72 + 3 * w)),
        },
        loader_flags: le_u32(b, at + 72 + 4 * w),
        number_of_rva_and_sizes: le_u32(b, at + 76 + 4 * w),
    }
}

/// The data directory at `index` of a directory array that starts at `at`.
pub open spec fn data_directory_at(b: Seq<u8>, at: int, index: int) -> ImageDataDirectoryView {
    ImageDataDirectoryView {
        virtual_address: le_u32(b, at + 8 * index),
        size: le_u32(b, at + 8 * index + 4),
        tag: directory_name(index),
    }
}

/// The optional header that the bytes of `b` at `at` hold.
///
/// The magic word and the subsystem code are checked where they are read, so a
/// buffer that ends before either gives a bounds error, and one that ends
/// behind a bad code gives that code.
pub open spec fn optional_header_at(b: Seq<u8>, at: int) -> Result<OptionalHeaderView, PeError> {
    if at + 2 > b.len() {
        Err(PeError::BoundsError)
    } else {
        match ExecutableKind::from_magic(le_u16(b, at)) {
            None => Err(PeError::InvalidEnumValue(le_u16(b, at))),
            Some(magic) => if at + 70 > b.len() {
                Err(PeError::BoundsError)
            } else {
                match WindowsSubsystem::from_code(le_u16(b, at + 68)) {
                    None => Err(PeError::InvalidEnumValue(le_u16(b, at + 68))),
                    Some(subsystem) => if at + magic.header_size() > b.len() {
                        Err(PeError::BoundsError)
                    } else {
                        Ok(
                            OptionalHeaderView {
                                std_fields: standard_fields_at(b, at, magic),
                                win_specific_fields: windows_fields_at(b, at, magic, subsystem),
                                data_directories: Seq::new(
                                    NUMBER_OF_DATA_DIRECTORIES as nat,
                                    |i: int|
                                        data_directory_at(b, at + magic.header_size() - 128, i),
                                ),
                            },
                        )
                    },
                }
            },
        }
    }
}

/// The name of the data directory at `index`.
pub fn directory_tag(index: usize) -> (tag: &'static str)
    ensures
        tag@ == directory_name(index as int),
{
    match index {
        0 => "export_table",
        1 => "import_table",
        2 => "resource_table",
        3 => "exception_table",
        4 => "certificate_table",
        5 => "base_relocation_table",
        6 => "debug",
        7 => "architecture",
        8 => "global_ptr",
        9 => "tls_table",
        10 => "load_config_table",
        11 => "bound_import",
        12 => "import_address_table",
        13 => "delay_import_descriptor",
        14 => "clr_runtime_header",
        _ => "reserved",
    }
}

/// Reads the optional header at the cursor.
///
/// On success the cursor stands behind the last data directory; on failure it
/// has not moved.
pub fn parse_opt_header(cursor: &mut Cursor) -> (r: Result<OptionalHeader, PeError>)
    ensures
        match optional_header_at(old(cursor).bytes@, old(cursor).position as int) {
            Ok(header) => r matches Ok(h) && h@ == header && header.wf() && final(cursor).follows(
                *old(cursor),
                header.std_fields.magic.header_size(),
            ),
            Err(error) => r matches Err(e) && e == error && *final(cursor) == *old(cursor),
        },
{
    let ghost b = cursor.bytes@;
    let ghost at = cursor.position as int;
    let start = cursor.position;
    let magic = match ExecutableKind::try_from(cursor.read_u16()?) {
        Ok(magic) => magic,
        Err(e) => {
            cursor.position = start;
            return Err(e);
        },
    };
    if !cursor.has(68) {
        cursor.position = start;
        return Err(PeError::BoundsError);
    }
    let major_linker_version = cursor.read_u8()?;
    let minor_linker_version = cursor.read_u8()?;
    let size_of_code = cursor.read_u32()?;
    let size_of_initialized_data = cursor.read_u32()?;
    let size_of_uninitialized_data = cursor.read_u32()?;
    let address_of_entry_point = cursor.read_u32()?;
    let base_of_code = cursor.read_u32()?;
    let base_of_data = match magic {
        ExecutableKind::PE32 => Some(cursor.read_u32()?),
        ExecutableKind::PE32_PLUS => None,
    };
    let std_fields = StandardFields {
        magic,
        major_linker_version,
        minor_linker_version,
        size_of_code,
        size_of_initialized_data,
        size_of_uninitialized_data,
        address_of_entry_point,
        base_of_code,
        base_of_data,
    };

    let image_base = match magic {
        ExecutableKind::PE32 => ImageBase::PE32(cursor.read_u32()?),
        ExecutableKind::PE32_PLUS => ImageBase::PE32_PLUS(cursor.read_u64()?),
    };
    let section_alignment = cursor.read_u32()?;
    let file_alignment = cursor.read_u32()?;
    let major_os_version = cursor.read_u16()?;
    let minor_os_version = cursor.read_u16()?;
    let major_image_version = cursor.read_u16()?;
    let minor_image_version = cursor.read_u16()?;
    let major_subsystem_version = cursor.read_u16()?;
    let minor_subsystem_version = cursor.read_u16()?;
    let win32_version_value = cursor.read_u32()?;
    let size_of_image = cursor.read_u32()?;
    let size_of_headers = cursor.read_u32()?;
    let checksum = cursor.read_u32()?;
    let subsystem = match WindowsSubsystem::try_from(cursor.read_u16()?) {
        Ok(subsystem) => subsystem,
        Err(e) => {
            cursor.position = start;
            return Err(e);
        },
    };
    let rest: usize = match magic {
        ExecutableKind::PE32 => 154,
        ExecutableKind::PE32_PLUS => 170,
    };
    if !cursor.has(rest) {
        cursor.position = start;
        return Err(PeError::BoundsError);
    }
    let dll_characteristics = DllCharacteristics::from_bits_retain(cursor.read_u16()?);
    let size_of_stack_reserve = match magic {
        ExecutableKind::PE32 => SizeOfStackReserve::PE32(cursor.read_u32()?),
        ExecutableKind::PE32_PLUS => SizeOfStackReserve::PE32_PLUS(cursor.read_u64()?),
    };
    let size_of_stack_commit = match magic {
        ExecutableKind::PE32 => SizeOfStackCommit::PE32(cursor.read_u32()?),
        ExecutableKind::PE32_PLUS => SizeOfStackCommit::PE32_PLUS(cursor.read_u64()?),
    };
    let size_of_heap_reserve = match magic {
        ExecutableKind::PE32 => SizeOfHeapReserve::PE32(cursor.read_u32()?),
        ExecutableKind::PE32_PLUS => SizeOfHeapReserve::PE32_PLUS(cursor.read_u64()?),
    };
    let size_of_heap_commit = match magic {
        ExecutableKind::PE32 => SizeOfHeapCommit::PE32(cursor.read_u32()?),
        ExecutableKind::PE32_PLUS => SizeOfHeapCommit::PE32_PLUS(cursor.read_u64()?),
    };
    let loader_flags = cursor.read_u32()?;
    let number_of_rva_and_sizes = cursor.read_u32()?;
    let win_specific_fields = WindowsSpecificFields {
        image_base,
        section_alignment,
        file_alignment,
        major_os_version,
        minor_os_version,
        major_image_version,
        minor_image_version,
        major_subsystem_version,
        minor_subsystem_version,
        win32_version_value,
        size_of_image,
        size_of_headers,
        checksum,
        subsystem,
        dll_characteristics,
        size_of_stack_reserve,
        size_of_stack_commit,
        size_of_heap_reserve,
        size_of_heap_commit,
        loader_flags,
        number_of_rva_and_sizes,
    };

    let ghost first = at + magic.header_size() - 128;
    let mut data_directories: Vec<ImageDataDirectory> = Vec::new();
    let mut index: usize = 0;
    while index < NUMBER_OF_DATA_DIRECTORIES
        invariant
            index <= NUMBER_OF_DATA_DIRECTORIES,
            cursor.bytes@ == b,
            cursor.bytes == old(cursor).bytes,
            cursor.position == first + 8 * index,
            first + 128 <= b.len(),
            data_directories@.len() == index,
            forall|k: int|
                0 <= k < index ==> (#[trigger] data_directories@[k])@ == data_directory_at(
                    b,
                    first,
                    k,
                ),
        decreases NUMBER_OF_DATA_DIRECTORIES - index,
    {
        let virtual_address = cursor.read_u32()?;
        let size = cursor.read_u32()?;
        data_directories.push(
            ImageDataDirectory { virtual_address, size, tag: directory_tag(index).to_owned() },
        );
        index += 1;
    }
    let header = OptionalHeader { std_fields, win_specific_fields, data_directories };
    assert(header@.data_directories =~= Seq::new(
        NUMBER_OF_DATA_DIRECTORIES as nat,
        |i: int| data_directory_at(b, first, i),
    ));
    Ok(header)
}

} // verus!
