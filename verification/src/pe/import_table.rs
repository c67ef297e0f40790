//! The import directory: one descriptor for each library that an image
//! imports from, each with the table of the functions it imports.
//!
//! Neither the descriptors nor the entries of a table are counted in the file:
//! each sequence ends with a record of zeros.

use crate::pe::optional_header::{ExecutableKind, ImageDataDirectory, ImageDataDirectoryView};
use crate::pe::section_table::{
    find_section, lemma_find_section_is_first, prepend, rva2foa, translate, SectionHeaderView,
    SectionTable,
};
use crate::pe::{result_view, PeError};
use crate::util::{
    get_msb_u32, get_msb_u64, le_u16, le_u32, le_u64, null_offset, read_u8_until_null,
    string_from_utf8, u16_at, u32_at, u64_at,
};
use vstd::prelude::*;
use vstd::slice::slice_to_vec;
use vstd::utf8::{decode_utf8, encode_utf8_decode_utf8, valid_utf8};

verus! {

/// The number of bytes of an import descriptor.
pub const IMPORT_DESCRIPTOR_SIZE: usize = 20;

/// The flag of an import by ordinal in a 64-bit lookup entry.
pub const ORDINAL_FLAG_X64: u64 = 0x8000000000000000;

/// The flag of an import by ordinal in a 32-bit lookup entry.
pub const ORDINAL_FLAG_X86: u32 = 0x80000000;

/// The address, relative to the image base, of the slot that the loader fills
/// with the address of an imported function.
#[derive(Debug, Clone, Copy, PartialEq, Eq, Structural)]
pub enum FuncAddress {
    X64(u64),
    X86(u32),
}

/// One imported function.
#[derive(Debug, Clone, PartialEq, Eq)]
pub struct ImportLookupTableEntry {
    /// The hint of an import by name; zero for an import by ordinal.
    pub hint: u16,
    pub is_ordinal: bool,
    /// The ordinal of an import by ordinal; zero for an import by name.
    pub ordinal: u64,
    /// The name of an import by name; empty for an import by ordinal.
    pub name: Vec<u8>,
    pub func_ptr_address: FuncAddress,
}

/// The mathematical value of an `ImportLookupTableEntry`.
pub struct ImportLookupTableEntryView {
    pub hint: u16,
    pub is_ordinal: bool,
    pub ordinal: u64,
    pub name: Seq<u8>,
    pub func_ptr_address: FuncAddress,
}

impl View for ImportLookupTableEntry {
    type V = ImportLookupTableEntryView;

    open spec fn view(&self) -> ImportLookupTableEntryView {
        ImportLookupTableEntryView {
            hint: self.hint,
            is_ordinal: self.is_ordinal,
            ordinal: self.ordinal,
            name: self.name@,
            func_ptr_address: self.func_ptr_address,
        }
    }
}

/// The functions imported from one library, in file order.
#[derive(Debug, Clone, PartialEq, Eq)]
pub struct ImportLookupTable {
    pub entries: Vec<ImportLookupTableEntry>,
}

impl View for ImportLookupTable {
    type V = Seq<ImportLookupTableEntryView>;

    open spec fn view(&self) -> Seq<ImportLookupTableEntryView> {
        self.entries@.map_values(|e: ImportLookupTableEntry| e@)
    }
}

/// One imported library.
#[derive(Debug, Clone, PartialEq, Eq)]
pub struct ImageImportDescriptor {
    pub import_lookup_table_rva: u32,
    pub timedate_stamp: u32,
    pub forwarder_chain: u32,
    pub name_rva: u32,
    pub first_thunk: u32,
    /// The name of the library, read at `name_rva`.
    pub name: String,
    /// The first word of the descriptor as it stands in the file.
    pub characteristics: u32,
    pub import_lookup_table: ImportLookupTable,
}

/// The mathematical value of an `ImageImportDescriptor`.
pub struct ImageImportDescriptorView {
    pub import_lookup_table_rva: u32,
    pub timedate_stamp: u32,
    pub forwarder_chain: u32,
    pub name_rva: u32,
    pub first_thunk: u32,
    pub name: Seq<char>,
    pub characteristics: u32,
    pub import_lookup_table: Seq<ImportLookupTableEntryView>,
}

impl View for ImageImportDescriptor {
    type V = ImageImportDescriptorView;

    open spec fn view(&self) -> ImageImportDescriptorView {
        ImageImportDescriptorView {
            import_lookup_table_rva: self.import_lookup_table_rva,
            timedate_stamp: self.timedate_stamp,
            forwarder_chain: self.forwarder_chain,
            name_rva: self.name_rva,
            first_thunk: self.first_thunk,
            name: self.name@,
            characteristics: self.characteristics,
            import_lookup_table: self.import_lookup_table@,
        }
    }
}

/// The imported libraries of an image, in file order.
#[derive(Debug, Clone, PartialEq, Eq)]
pub struct ImportTable {
    pub image_descriptors: Vec<ImageImportDescriptor>,
}

impl View for ImportTable {
    type V = Seq<ImageImportDescriptorView>;

    open spec fn view(&self) -> Seq<ImageImportDescriptorView> {
        self.image_descriptors@.map_values(|d: ImageImportDescriptor| d@)
    }
}

/// The lookup entry at `at`, as wide as the kind says.
pub open spec fn thunk_at(b: Seq<u8>, at: int, kind: ExecutableKind) -> u64 {
    match kind {
        ExecutableKind::PE32 => le_u32(b, at) as u64,
        ExecutableKind::PE32_PLUS => le_u64(b, at),
    }
}

/// The value of the top bit of a lookup entry of the kind.
pub open spec fn ordinal_flag(kind: ExecutableKind) -> u64 {
    match kind {
        ExecutableKind::PE32 => ORDINAL_FLAG_X86 as u64,
        ExecutableKind::PE32_PLUS => ORDINAL_FLAG_X64,
    }
}

/// The lookup entry `raw` imports by ordinal: its top bit is set.
pub open spec fn imports_by_ordinal(kind: ExecutableKind, raw: u64) -> bool {
    raw >= ordinal_flag(kind)
}

/// The address of the hint and name of an import by name: the low 31 bits of
/// its lookup entry.
pub open spec fn hint_name_rva(raw: u64) -> u32 {
    (raw % 0x8000_0000) as u32
}

/// The slot at the relative address `slot`, where that address fits the width
/// of the kind.
pub open spec fn slot_address(kind: ExecutableKind, slot: int) -> Option<FuncAddress> {
    match kind {
        ExecutableKind::PE32 => if slot <= u32::MAX {
            Some(FuncAddress::X86(slot as u32))
        } else {
            None
        },
        ExecutableKind::PE32_PLUS => if slot <= u64::MAX {
            Some(FuncAddress::X64(slot as u64))
        } else {
            None
        },
    }
}

/// The import that the non-zero lookup entry `raw` stands for.
///
/// An entry with the top bit set imports by ordinal, and nothing else of the
/// file is read for it. Any other entry points at a hint and a name that ends
/// with a zero byte.
pub open spec fn lookup_entry_of(
    b: Seq<u8>,
    sections: Seq<SectionHeaderView>,
    kind: ExecutableKind,
    raw: u64,
    func_ptr_address: FuncAddress,
) -> Result<ImportLookupTableEntryView, PeError> {
    if imports_by_ordinal(kind, raw) {
        Ok(
            ImportLookupTableEntryView {
                hint: 0,
                is_ordinal: true,
                ordinal: (raw - ordinal_flag(kind)) as u64,
                name: Seq::empty(),
                func_ptr_address,
            },
        )
    } else {
        match translate(sections, hint_name_rva(raw)) {
            None => Err(PeError::AddressTranslationFailure(hint_name_rva(raw))),
            Some(offset) => if offset + 2 > b.len() {
                Err(PeError::BoundsError)
            } else {
                match null_offset(b, offset + 2) {
                    None => Err(PeError::BoundsError),
                    Some(end) => Ok(
                        ImportLookupTableEntryView {
                            hint: le_u16(b, offset as int),
                            is_ordinal: false,
                            ordinal: 0,
                            name: b.subrange(offset + 2, end),
                            func_ptr_address,
                        },
                    ),
                }
            },
        }
    }
}

/// The imports of the lookup table that starts at the file offset `at`, whose
/// first slot has the relative address `slot`.
///
/// The table ends with a zero entry. `first_thunk` is the address of the
/// table's first slot: it is named where a slot falls outside the address
/// space.
pub open spec fn lookup_table_at(
    b: Seq<u8>,
    sections: Seq<SectionHeaderView>,
    kind: ExecutableKind,
    at: int,
    first_thunk: u32,
    slot: int,
) -> Result<Seq<ImportLookupTableEntryView>, PeError>
    decreases b.len() - at,
{
    if at < 0 || at + kind.word_size() > b.len() {
        Err(PeError::BoundsError)
    } else if thunk_at(b, at, kind) == 0 {
        Ok(Seq::empty())
    } else {
        match slot_address(kind, slot) {
            None => Err(PeError::AddressTranslationFailure(first_thunk)),
            Some(func_ptr_address) => match lookup_entry_of(
                b,
                sections,
                kind,
                thunk_at(b, at, kind),
                func_ptr_address,
            ) {
                Err(e) => Err(e),
                Ok(entry) => prepend(
                    seq![entry],
                    lookup_table_at(
                        b,
                        sections,
                        kind,
                        at + kind.word_size(),
                        first_thunk,
                        slot + kind.word_size(),
                    ),
                ),
            },
        }
    }
}

/// The descriptor at `at` ends the directory: its five words are zero.
pub open spec fn is_sentinel(b: Seq<u8>, at: int) -> bool {
    &&& le_u32(b, at) == 0
    &&& le_u32(b, at + 4) == 0
    &&& le_u32(b, at + 8) == 0
    &&& le_u32(b, at + 12) == 0
    &&& le_u32(b, at + 16) == 0
}

/// The relative address of the lookup table of a descriptor: that of its import
/// lookup table where it has one, else that of its thunk table.
pub open spec fn lookup_table_rva(import_lookup_table_rva: u32, first_thunk: u32) -> u32 {
    if import_lookup_table_rva != 0 {
        import_lookup_table_rva
    } else {
        first_thunk
    }
}

/// The imported library that the descriptor at `at` stands for: its five
/// words, then its name, then its lookup table.
pub open spec fn descriptor_at(
    b: Seq<u8>,
    sections: Seq<SectionHeaderView>,
    kind: ExecutableKind,
    at: int,
) -> Result<ImageImportDescriptorView, PeError> {
    let import_lookup_table_rva = le_u32(b, at);
    let name_rva = le_u32(b, at + 12);
    let first_thunk = le_u32(b, at + 16);
    let table_rva = lookup_table_rva(import_lookup_table_rva, first_thunk);
    match translate(sections, name_rva) {
        None => Err(PeError::AddressTranslationFailure(name_rva)),
        Some(name_at) => match null_offset(b, name_at as int) {
            None => Err(PeError::BoundsError),
            Some(name_end) => if !valid_utf8(b.subrange(name_at as int, name_end)) {
                Err(PeError::EncodingError)
            } else {
                match translate(sections, table_rva) {
                    None => Err(PeError::AddressTranslationFailure(table_rva)),
                    Some(table_at) => match lookup_table_at(
                        b,
                        sections,
                        kind,
                        table_at as int,
                        first_thunk,
                        first_thunk as int,
                    ) {
                        Err(e) => Err(e),
                        Ok(entries) => Ok(
                            ImageImportDescriptorView {
                                import_lookup_table_rva,
                                timedate_stamp: le_u32(b, at + 4),
                                forwarder_chain: le_u32(b, at + 8),
                                name_rva,
                                first_thunk,
                                name: decode_utf8(b.subrange(name_at as int, name_end)),
                                characteristics: import_lookup_table_rva,
                                import_lookup_table: entries,
                            },
                        ),
                    },
                }
            },
        },
    }
}

/// The imported libraries whose descriptors follow one another from `at` on,
/// up to the descriptor of zeros, which must come before `end`.
pub open spec fn descriptors_at(
    b: Seq<u8>,
    sections: Seq<SectionHeaderView>,
    kind: ExecutableKind,
    at: int,
    end: int,
) -> Result<Seq<ImageImportDescriptorView>, PeError>
    decreases end - at,
{
    if at < 0 || at + IMPORT_DESCRIPTOR_SIZE > end {
        Err(PeError::BoundsError)
    } else if is_sentinel(b, at) {
        Ok(Seq::empty())
    } else {
        match descriptor_at(b, sections, kind, at) {
            Err(e) => Err(e),
            Ok(descriptor) => prepend(
                seq![descriptor],
                descriptors_at(b, sections, kind, at + IMPORT_DESCRIPTOR_SIZE, end),
            ),
        }
    }
}

/// The imports of the directory of `size` bytes at the file offset `offset`.
pub open spec fn import_directory_at(
    b: Seq<u8>,
    sections: Seq<SectionHeaderView>,
    kind: ExecutableKind,
    offset: int,
    size: int,
) -> Result<Seq<ImageImportDescriptorView>, PeError> {
    if offset + size > b.len() {
        Err(PeError::BoundsError)
    } else {
        descriptors_at(b, sections, kind, offset, offset + size)
    }
}

/// The imports of the image `b` whose import directory is `directory`.
pub open spec fn import_table_of(
    b: Seq<u8>,
    sections: Seq<SectionHeaderView>,
    kind: ExecutableKind,
    directory: ImageDataDirectoryView,
) -> Result<Seq<ImageImportDescriptorView>, PeError> {
    if directory.is_empty() {
        Err(PeError::MissingDirectory)
    } else {
        match translate(sections, directory.virtual_address) {
            None => Err(PeError::AddressTranslationFailure(directory.virtual_address)),
            Some(offset) => import_directory_at(
                b,
                sections,
                kind,
                offset as int,
                directory.size as int,
            ),
        }
    }
}

/// An entry with the top bit set imports by ordinal, whatever the file and its
/// sections hold: nothing is translated and no name is read for it.
pub proof fn lemma_ordinal_entry_reads_no_name(
    b: Seq<u8>,
    sections: Seq<SectionHeaderView>,
    kind: ExecutableKind,
    raw: u64,
    func_ptr_address: FuncAddress,
)
    requires
        imports_by_ordinal(kind, raw),
    ensures
        lookup_entry_of(b, sections, kind, raw, func_ptr_address) matches Ok(entry)
            && entry.is_ordinal && entry.ordinal == raw - ordinal_flag(kind)
            && entry.name.len() == 0 && entry.func_ptr_address == func_ptr_address,
        forall|other: Seq<u8>, others: Seq<SectionHeaderView>|
            lookup_entry_of(other, others, kind, raw, func_ptr_address) == lookup_entry_of(
                b,
                sections,
                kind,
                raw,
                func_ptr_address,
            ),
{
}

/// Reads the import that the non-zero lookup entry `raw` stands for.
fn read_lookup_entry(
    bytes: &Vec<u8>,
    section_table: &SectionTable,
    kind: ExecutableKind,
    raw: u64,
    func_ptr_address: FuncAddress,
) -> (r: Result<ImportLookupTableEntry, PeError>)
    requires
        kind is PE32 ==> raw <= u32::MAX,
    ensures
        result_view(r) == lookup_entry_of(bytes@, section_table@, kind, raw, func_ptr_address),
{
    let is_ordinal = match kind {
        ExecutableKind::PE32 => get_msb_u32(raw as u32) != 0,
        ExecutableKind::PE32_PLUS => get_msb_u64(raw) != 0,
    };
    if is_ordinal {
        let flag = match kind {
            ExecutableKind::PE32 => ORDINAL_FLAG_X86 as u64,
            ExecutableKind::PE32_PLUS => ORDINAL_FLAG_X64,
        };
        return Ok(
            ImportLookupTableEntry {
                hint: 0,
                is_ordinal,
                ordinal: raw - flag,
                name: Vec::new(),
                func_ptr_address,
            },
        );
    }
    assert(raw & 0x7FFF_FFFF == raw % 0x8000_0000) by (bit_vector);
    let rva = (raw & 0x7FFF_FFFF) as u32;
    let offset = match rva2foa(rva, section_table) {
        Some(offset) => offset,
        None => {
            return Err(PeError::AddressTranslationFailure(rva));
        },
    };
    if offset > bytes.len() as u64 {
        return Err(PeError::BoundsError);
    }
    let at = offset as usize;
    let hint = u16_at(bytes.as_slice(), at)?;
    let name = read_u8_until_null(at + 2, bytes.as_slice())?;
    Ok(
        ImportLookupTableEntry {
            hint,
            is_ordinal,
            ordinal: 0,
            name: slice_to_vec(name),
            func_ptr_address,
        },
    )
}

/// Reads the lookup table at the file offset `start`, up to its zero entry.
fn read_lookup_table(
    bytes: &Vec<u8>,
    section_table: &SectionTable,
    kind: ExecutableKind,
    start: u64,
    first_thunk: u32,
) -> (r: Result<ImportLookupTable, PeError>)
    ensures
        result_view(r) == lookup_table_at(
            bytes@,
            section_table@,
            kind,
            start as int,
            first_thunk,
            first_thunk as int,
        ),
{
    if start > bytes.len() as u64 {
        return Err(PeError::BoundsError);
    }
    let width: usize = match kind {
        ExecutableKind::PE32 => 4,
        ExecutableKind::PE32_PLUS => 8,
    };
    let mut at: usize = start as usize;
    let mut slot: Option<u64> = Some(first_thunk as u64);
    let mut entries: Vec<ImportLookupTableEntry> = Vec::new();
    let ghost mut slot_rva: int = first_thunk as int;
    loop
        invariant
            at <= bytes@.len() <= usize::MAX,
            width == kind.word_size(),
            0 <= slot_rva,
            slot == (if slot_rva <= u64::MAX {
                Some(slot_rva as u64)
            } else {
                None
            }),
            lookup_table_at(
                bytes@,
                section_table@,
                kind,
                start as int,
                first_thunk,
                first_thunk as int,
            ) == prepend(
                entries@.map_values(|e: ImportLookupTableEntry| e@),
                lookup_table_at(bytes@, section_table@, kind, at as int, first_thunk, slot_rva),
            ),
        decreases bytes@.len() - at,
    {
        let ghost done = entries@.map_values(|e: ImportLookupTableEntry| e@);
        let raw = match kind {
            ExecutableKind::PE32 => u32_at(bytes.as_slice(), at)? as u64,
            ExecutableKind::PE32_PLUS => u64_at(bytes.as_slice(), at)?,
        };
        if raw == 0 {
            let table = ImportLookupTable { entries };
            return Ok(table);
        }
        let func_ptr_address = match kind {
            ExecutableKind::PE32 => match slot {
                Some(address) => if address <= u32::MAX as u64 {
                    FuncAddress::X86(address as u32)
                } else {
                    return Err(PeError::AddressTranslationFailure(first_thunk));
                },
                None => {
                    return Err(PeError::AddressTranslationFailure(first_thunk));
                },
            },
            ExecutableKind::PE32_PLUS => match slot {
                Some(address) => FuncAddress::X64(address),
                None => {
                    return Err(PeError::AddressTranslationFailure(first_thunk));
                },
            },
        };
        let entry = read_lookup_entry(bytes, section_table, kind, raw, func_ptr_address)?;
        proof {
            let rest = lookup_table_at(
                bytes@,
                section_table@,
                kind,
                at + width,
                first_thunk,
                slot_rva + width,
            );
            assert(entries@.push(entry).map_values(|e: ImportLookupTableEntry| e@) =~= done.push(
                entry@,
            ));
            if let Ok(tail) = rest {
                assert(done + (seq![entry@] + tail) =~= done.push(entry@) + tail);
            }
            slot_rva = slot_rva + width;
        }
        entries.push(entry);
        at = at + width;
        slot =
        match slot {
            Some(address) => address.checked_add(width as u64),
            None => None,
        };
    }
}

/// Reads the descriptor at `at`; `None` stands for the descriptor of zeros.
fn read_descriptor(
    bytes: &Vec<u8>,
    section_table: &SectionTable,
    kind: ExecutableKind,
    at: usize,
) -> (r: Result<Option<ImageImportDescriptor>, PeError>)
    requires
        at + IMPORT_DESCRIPTOR_SIZE <= bytes@.len() <= usize::MAX,
    ensures
        is_sentinel(bytes@, at as int) ==> r matches Ok(None),
        !is_sentinel(bytes@, at as int) ==> match descriptor_at(
            bytes@,
            section_table@,
            kind,
            at as int,
        ) {
            Ok(descriptor) => r matches Ok(Some(d)) && d@ == descriptor,
            Err(error) => r matches Err(e) && e == error,
        },
{
    let import_lookup_table_rva = u32_at(bytes.as_slice(), at)?;
    let timedate_stamp = u32_at(bytes.as_slice(), at + 4)?;
    let forwarder_chain = u32_at(bytes.as_slice(), at + 8)?;
    let name_rva = u32_at(bytes.as_slice(), at + 12)?;
    let first_thunk = u32_at(bytes.as_slice(), at + 16)?;
    if import_lookup_table_rva == 0 && name_rva == 0 && timedate_stamp == 0 && forwarder_chain == 0
        && first_thunk == 0 {
        return Ok(None);
    }
    let name_at = match rva2foa(name_rva, section_table) {
        Some(offset) => offset,
        None => {
            return Err(PeError::AddressTranslationFailure(name_rva));
        },
    };
    if name_at > bytes.len() as u64 {
        return Err(PeError::BoundsError);
    }
    let name_bytes = read_u8_until_null(name_at as usize, bytes.as_slice())?;
    let name = match string_from_utf8(slice_to_vec(name_bytes)) {
        Some(name) => name,
        None => {
            return Err(PeError::EncodingError);
        },
    };
    proof {
        encode_utf8_decode_utf8(name@);
    }
    let table_rva = if import_lookup_table_rva != 0 {
        import_lookup_table_rva
    } else {
        first_thunk
    };
    let table_at = match rva2foa(table_rva, section_table) {
        Some(offset) => offset,
        None => {
            return Err(PeError::AddressTranslationFailure(table_rva));
        },
    };
    let import_lookup_table = read_lookup_table(bytes, section_table, kind, table_at, first_thunk)?;
    Ok(
        Some(
            ImageImportDescriptor {
                import_lookup_table_rva,
                timedate_stamp,
                forwarder_chain,
                name_rva,
                first_thunk,
                name,
                characteristics: import_lookup_table_rva,
                import_lookup_table,
            },
        ),
    )
}

/// Reads the import directory of `size` bytes at the file offset `offset`.
///
/// The descriptors are read up to the descriptor of zeros, which has to lie
/// inside the directory. Names and lookup tables are read wherever in the
/// file their addresses lead.
pub fn parse_import_directory(
    section_table: &SectionTable,
    bytes: &Vec<u8>,
    exec_kind: &ExecutableKind,
    offset: u64,
    size: u32,
) -> (r: Result<ImportTable, PeError>)
    ensures
        result_view(r) == import_directory_at(
            bytes@,
            section_table@,
            *exec_kind,
            offset as int,
            size as int,
        ),
{
    let len = bytes.len() as u64;
    if offset > len || size as u64 > len - offset {
        return Err(PeError::BoundsError);
    }
    let end: usize = (offset + size as u64) as usize;
    let mut at: usize = offset as usize;
    let mut image_descriptors: Vec<ImageImportDescriptor> = Vec::new();
    loop
        invariant
            at <= end <= bytes@.len() <= usize::MAX,
            end == offset + size,
            descriptors_at(bytes@, section_table@, *exec_kind, offset as int, end as int)
                == prepend(
                image_descriptors@.map_values(|d: ImageImportDescriptor| d@),
                descriptors_at(bytes@, section_table@, *exec_kind, at as int, end as int),
            ),
        decreases end - at,
    {
        let ghost done = image_descriptors@.map_values(|d: ImageImportDescriptor| d@);
        if end - at < IMPORT_DESCRIPTOR_SIZE {
            return Err(PeError::BoundsError);
        }
        let descriptor = match read_descriptor(bytes, section_table, *exec_kind, at)? {
            Some(descriptor) => descriptor,
            None => {
                let table = ImportTable { image_descriptors };
                return Ok(table);
            },
        };
        proof {
            let rest = descriptors_at(
                bytes@,
                section_table@,
                *exec_kind,
                at + IMPORT_DESCRIPTOR_SIZE,
                end as int,
            );
            assert(image_descriptors@.push(descriptor).map_values(|d: ImageImportDescriptor| d@)
                =~= done.push(descriptor@));
            if let Ok(tail) = rest {
                assert(done + (seq![descriptor@] + tail) =~= done.push(descriptor@) + tail);
            }
        }
        image_descriptors.push(descriptor);
        at = at + IMPORT_DESCRIPTOR_SIZE;
    }
}

/// Reads the imports of an image from its import directory.
///
/// The directory's address is translated by the section table; a directory of
/// zeros says that the image imports nothing that a directory names.
pub fn get_import_table(
    section_table: &SectionTable,
    bytes: &Vec<u8>,
    exec_kind: &ExecutableKind,
    import_table_dir: ImageDataDirectory,
) -> (r: Result<ImportTable, PeError>)
    ensures
        result_view(r) == import_table_of(
            bytes@,
            section_table@,
            *exec_kind,
            import_table_dir@,
        ),
{
    if import_table_dir.is_empty() {
        return Err(PeError::MissingDirectory);
    }
    let offset = match rva2foa(import_table_dir.virtual_address, section_table) {
        Some(offset) => offset,
        None => {
            return Err(PeError::AddressTranslationFailure(import_table_dir.virtual_address));
        },
    };
    parse_import_directory(section_table, bytes, exec_kind, offset, import_table_dir.size)
}

/// The imports of an image whose import directory is the raw data of its
/// `.idata` section.
pub open spec fn idata_import_table_of(
    b: Seq<u8>,
    sections: Seq<SectionHeaderView>,
    kind: ExecutableKind,
) -> Result<Seq<ImageImportDescriptorView>, PeError> {
    match find_section(sections, ".idata"@) {
        None => Err(PeError::MissingSection),
        Some(i) => import_directory_at(
            b,
            sections,
            kind,
            sections[i].ptr_to_raw_data as int,
            sections[i].size_of_raw_data as int,
        ),
    }
}

impl SectionTable {
    /// Reads the imports of an image from its `.idata` section, whose raw data
    /// is taken as the import directory.
    pub fn get_import_table(&self, bytes: &Vec<u8>, exec_kind: &ExecutableKind) -> (r: Result<
        ImportTable,
        PeError,
    >)
        ensures
            result_view(r) == idata_import_table_of(bytes@, self@, *exec_kind),
    {
        let header = match self.get_section_header(".idata") {
            Some(header) => header,
            None => {
                return Err(PeError::MissingSection);
            },
        };
        proof {
            lemma_find_section_is_first(self@, ".idata"@, 0);
        }
        parse_import_directory(
            self,
            bytes,
            exec_kind,
            header.ptr_to_raw_data as u64,
            header.size_of_raw_data,
        )
    }
}

/// The text that stands for a name that is not valid UTF-8.
pub open spec fn nameless() -> Seq<char> {
    "[NAMELESS]"@
}

impl ImportLookupTableEntry {
    /// The name as text, or `[NAMELESS]` where its bytes are not valid UTF-8.
    pub fn name(&self) -> (r: String)
        ensures
            r@ == if valid_utf8(self.name@) {
                decode_utf8(self.name@)
            } else {
                nameless()
            },
    {
        match string_from_utf8(slice_to_vec(self.name.as_slice())) {
            Some(name) => {
                proof {
                    encode_utf8_decode_utf8(name@);
                }
                name
            },
            None => "[NAMELESS]".to_owned(),
        }
    }
}

} // verus!
