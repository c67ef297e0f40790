//! The section table: section headers, lookup by name, raw data, and the
//! translation of relative virtual addresses to file offsets.

use crate::pe::cursor::Cursor;
use crate::pe::PeError;
use crate::util::{le_u16, le_u32};
use vstd::prelude::*;
use vstd::slice::slice_subrange;
use vstd::string::StrSliceExecFns;
use vstd::utf8::{decode_utf8, valid_utf8};

verus! {

/// The number of bytes of a section header.
pub const SECTION_HEADER_SIZE: usize = 40;

/// The number of bytes of a section name.
pub const SECTION_NAME_SIZE: usize = 8;

/// The characteristics word of a section header, as a set of flag bits.
#[derive(Debug, Clone, Copy, PartialEq, Eq, Structural, Hash)]
pub struct SectionFlags {
    pub bits: u32,
}

impl SectionFlags {
    pub const RESERVED0: u32 = 0x0000;

    pub const RESERVED1: u32 = 0x0001;

    pub const RESERVED2: u32 = 0x0002;

    pub const RESERVED3: u32 = 0x0004;

    pub const IMAGE_SCN_TYPE_NO_PAD: u32 = 0x0008;

    pub const RESERVED4: u32 = 0x0010;

    pub const IMAGE_SCN_CNT_CODE: u32 = 0x0020;

    pub const IMAGE_SCN_CNT_INITIALIZED_DATA: u32 = 0x0040;

    pub const IMAGE_SCN_CNT_UNINITIALIZED_DATA: u32 = 0x0080;

    pub const IMAGE_SCN_LNK_OTHER: u32 = 0x0100;

    pub const IMAGE_SCN_LNK_INFO: u32 = 0x0200;

    pub const RESERVED5: u32 = 0x0400;

    pub const IMAGE_SCN_LNK_REMOVE: u32 = 0x0800;

    pub const IMAGE_SCN_LNK_COMDAT: u32 = 0x1000;

    pub const IMAGE_SCN_GPREL: u32 = 0x8000;

    pub const IMAGE_SCN_MEM_PURGEABLE: u32 = 0x2000;

    pub const IMAGE_SCN_MEM_16BIT: u32 = 0x2000;

    pub const IMAGE_SCN_MEM_LOCKED: u32 = 0x4000;

    pub const IMAGE_SCN_MEM_PRELOAD: u32 = 0x1000000;

    pub const IMAGE_SCN_ALIGN_1BYTES: u32 = 0x00100000;

    pub const IMAGE_SCN_ALIGN_2BYTES: u32 = 0x00200000;

    pub const IMAGE_SCN_ALIGN_4BYTES: u32 = 0x00300000;

    pub const IMAGE_SCN_ALIGN_8BYTES: u32 = 0x00400000;

    pub const IMAGE_SCN_ALIGN_16BYTES: u32 = 0x00500000;

    pub const IMAGE_SCN_ALIGN_32BYTES: u32 = 0x00600000;

    pub const IMAGE_SCN_ALIGN_64BYTES: u32 = 0x00700000;

    pub const IMAGE_SCN_ALIGN_128BYTES: u32 = 0x00800000;

    pub const IMAGE_SCN_ALIGN_256BYTES: u32 = 0x00900000;

    pub const IMAGE_SCN_ALIGN_512BYTES: u32 = 0x00A00000;

    pub const IMAGE_SCN_ALIGN_1024BYTES: u32 = 0x00B00000;

    pub const IMAGE_SCN_ALIGN_2048BYTES: u32 = 0x00C00000;

    pub const IMAGE_SCN_ALIGN_4096BYTES: u32 = 0x00D00000;

    pub const IMAGE_SCN_ALIGN_8192BYTES: u32 = 0x00E00000;

    pub const IMAGE_SCN_LNK_NRELOC_OVFL: u32 = 0x01000000;

    pub const IMAGE_SCN_MEM_DISCARDABLE: u32 = 0x02000000;

    pub const IMAGE_SCN_MEM_NOT_CACHED: u32 = 0x04000000;

    pub const IMAGE_SCN_MEM_NOT_PAGED: u32 = 0x08000000;

    pub const IMAGE_SCN_MEM_SHARED: u32 = 0x10000000;

    pub const IMAGE_SCN_MEM_EXECUTE: u32 = 0x20000000;

    pub const IMAGE_SCN_MEM_READ: u32 = 0x40000000;

    pub const IMAGE_SCN_MEM_WRITE: u32 = 0x80000000;

    /// The set whose bits are exactly those of `bits`, known or not.
    pub fn from_bits_retain(bits: u32) -> (r: Self)
        ensures
            r.bits == bits,
    {
        Self { bits }
    }

    /// The flag bits as a word.
    pub fn bits(&self) -> (b: u32)
        ensures
            b == self.bits,
    {
        self.bits
    }

    /// Whether every bit of `flags` is set.
    pub fn contains(&self, flags: u32) -> (b: bool)
        ensures
            b == (self.bits & flags == flags),
    {
        self.bits & flags == flags
    }
}

/// One section header.
///
/// The name is kept as it stands in the file, with the zero bytes that pad it
/// to eight.
#[derive(Debug, Clone, PartialEq, Eq)]
pub struct SectionHeader {
    pub name: String,
    pub virtual_size: u32,
    pub virtual_address: u32,
    pub size_of_raw_data: u32,
    pub ptr_to_raw_data: u32,
    pub ptr_to_relocations: u32,
    pub ptr_to_linenumbers: u32,
    pub number_of_relocations: u16,
    pub number_of_linenumbers: u16,
    pub characteristics: SectionFlags,
}

/// The mathematical value of a `SectionHeader`.
pub struct SectionHeaderView {
    pub name: Seq<char>,
    pub virtual_size: u32,
    pub virtual_address: u32,
    pub size_of_raw_data: u32,
    pub ptr_to_raw_data: u32,
    pub ptr_to_relocations: u32,
    pub ptr_to_linenumbers: u32,
    pub number_of_relocations: u16,
    pub number_of_linenumbers: u16,
    pub characteristics: SectionFlags,
}

impl View for SectionHeader {
    type V = SectionHeaderView;

    open spec fn view(&self) -> SectionHeaderView {
        SectionHeaderView {
            name: self.name@,
            virtual_size: self.virtual_size,
            virtual_address: self.virtual_address,
            size_of_raw_data: self.size_of_raw_data,
            ptr_to_raw_data: self.ptr_to_raw_data,
            ptr_to_relocations: self.ptr_to_relocations,
            ptr_to_linenumbers: self.ptr_to_linenumbers,
            number_of_relocations: self.number_of_relocations,
            number_of_linenumbers: self.number_of_linenumbers,
            characteristics: self.characteristics,
        }
    }
}

/// `s` without the zero characters at its end.
pub open spec fn trim_nulls(s: Seq<char>) -> Seq<char>
    decreases s.len(),
{
    if s.len() > 0 && s.last() == '\0' {
        trim_nulls(s.drop_last())
    } else {
        s
    }
}

impl SectionHeaderView {
    /// The section bears the name `name`, its padding set aside.
    pub open spec fn is_named(self, name: Seq<char>) -> bool {
        trim_nulls(self.name) == name
    }

    /// The section claims `rva`: the address lies between the section's
    /// virtual address and that address plus the size of its raw data, both
    /// ends included.
    pub open spec fn claims(self, rva: u32) -> bool {
        self.virtual_address <= rva <= self.virtual_address + self.size_of_raw_data
    }

    /// The file offset of `rva` by this section.
    pub open spec fn file_offset(self, rva: u32) -> u64 {
        (self.ptr_to_raw_data + (rva - self.virtual_address)) as u64
    }

    /// The raw data of the section lies inside a file of `len` bytes.
    pub open spec fn raw_data_fits(self, len: int) -> bool {
        self.ptr_to_raw_data + self.size_of_raw_data <= len
    }

    /// The raw data of the section in the file `memory`.
    pub open spec fn raw_data(self, memory: Seq<u8>) -> Seq<u8> {
        memory.subrange(
            self.ptr_to_raw_data as int,
            self.ptr_to_raw_data + self.size_of_raw_data,
        )
    }
}

/// The section header that the bytes of `b` at `at` hold.
///
/// The name is read and decoded first; the other fields follow it.
pub open spec fn section_header_at(b: Seq<u8>, at: int) -> Result<SectionHeaderView, PeError> {
    if at + SECTION_NAME_SIZE > b.len() {
        Err(PeError::BoundsError)
    } else if !valid_utf8(b.subrange(at, at + SECTION_NAME_SIZE)) {
        Err(PeError::EncodingError)
    } else if at + SECTION_HEADER_SIZE > b.len() {
        Err(PeError::BoundsError)
    } else {
        Ok(
            SectionHeaderView {
                name: decode_utf8(b.subrange(at, at + SECTION_NAME_SIZE)),
                virtual_size: le_u32(b, at + 8),
                virtual_address: le_u32(b, at + 12),
                size_of_raw_data: le_u32(b, at + 16),
                ptr_to_raw_data: le_u32(b, at + 20),
                ptr_to_relocations: le_u32(b, at + 24),
                ptr_to_linenumbers: le_u32(b, at + 28),
                number_of_relocations: le_u16(b, at + 32),
                number_of_linenumbers: le_u16(b, at + 34),
                characteristics: SectionFlags { bits: le_u32(b, at + 36) },
            },
        )
    }
}

/// The `count` section headers that follow one another in `b` from `at` on, or
/// the error of the first of them that cannot be read.
pub open spec fn section_headers_at(b: Seq<u8>, at: int, count: nat) -> Result<
    Seq<SectionHeaderView>,
    PeError,
>
    decreases count,
{
    if count == 0 {
        Ok(Seq::empty())
    } else {
        match section_header_at(b, at) {
            Err(e) => Err(e),
            Ok(first) => match section_headers_at(
                b,
                at + SECTION_HEADER_SIZE,
                (count - 1) as nat,
            ) {
                Err(e) => Err(e),
                Ok(rest) => Ok(seq![first] + rest),
            },
        }
    }
}

/// Reads one section header at the cursor.
///
/// On success the cursor stands behind the header; on failure it has not moved.
pub fn parse_section_header(cursor: &mut Cursor) -> (r: Result<SectionHeader, PeError>)
    ensures
        match section_header_at(old(cursor).bytes@, old(cursor).position as int) {
            Ok(header) => r matches Ok(h) && h@ == header && final(cursor).follows(
                *old(cursor),
                SECTION_HEADER_SIZE as int,
            ),
            Err(error) => r matches Err(e) && e == error && *final(cursor) == *old(cursor),
        },
{
    let start = cursor.position;
    let name = cursor.read_str(SECTION_NAME_SIZE)?;
    if !cursor.has(SECTION_HEADER_SIZE - SECTION_NAME_SIZE) {
        cursor.position = start;
        return Err(PeError::BoundsError);
    }
    let virtual_size = cursor.read_u32()?;
    let virtual_address = cursor.read_u32()?;
    let size_of_raw_data = cursor.read_u32()?;
    let ptr_to_raw_data = cursor.read_u32()?;
    let ptr_to_relocations = cursor.read_u32()?;
    let ptr_to_linenumbers = cursor.read_u32()?;
    let number_of_relocations = cursor.read_u16()?;
    let number_of_linenumbers = cursor.read_u16()?;
    let characteristics = SectionFlags::from_bits_retain(cursor.read_u32()?);
    Ok(
        SectionHeader {
            name,
            virtual_size,
            virtual_address,
            size_of_raw_data,
            ptr_to_raw_data,
            ptr_to_relocations,
            ptr_to_linenumbers,
            number_of_relocations,
            number_of_linenumbers,
            characteristics,
        },
    )
}

/// The section headers of an image, in file order.
#[derive(Debug, Clone, PartialEq, Eq)]
pub struct SectionTable {
    pub section_headers: Vec<SectionHeader>,
}

impl View for SectionTable {
    type V = Seq<SectionHeaderView>;

    open spec fn view(&self) -> Seq<SectionHeaderView> {
        self.section_headers@.map_values(|h: SectionHeader| h@)
    }
}

/// `head` followed by what `tail` holds; an error in `tail` stays.
pub open spec fn prepend<T>(head: Seq<T>, tail: Result<Seq<T>, PeError>) -> Result<
    Seq<T>,
    PeError,
> {
    match tail {
        Ok(rest) => Ok(head + rest),
        Err(e) => Err(e),
    }
}

/// Reads `number_of_sections` section headers at the cursor.
///
/// On success the table has that many headers and the cursor stands behind the
/// last; on failure the cursor has not moved.
pub fn parse_section_headers(cursor: &mut Cursor, number_of_sections: u16) -> (r: Result<
    SectionTable,
    PeError,
>)
    ensures
        match section_headers_at(
            old(cursor).bytes@,
            old(cursor).position as int,
            number_of_sections as nat,
        ) {
            Ok(headers) => r matches Ok(t) && t@ == headers && final(cursor).follows(
                *old(cursor),
                SECTION_HEADER_SIZE * number_of_sections,
            ),
            Err(error) => r matches Err(e) && e == error && *final(cursor) == *old(cursor),
        },
        r matches Ok(t) ==> t@.len() == number_of_sections,
{
    let ghost b = cursor.bytes@;
    let ghost at = cursor.position as int;
    let start = cursor.position;
    let mut section_headers: Vec<SectionHeader> = Vec::new();
    let mut index: u16 = 0;
    while index < number_of_sections
        invariant
            index <= number_of_sections,
            cursor.bytes == old(cursor).bytes,
            cursor.bytes@ == b,
            start == at,
            at == old(cursor).position,
            cursor.position == at + SECTION_HEADER_SIZE * index,
            section_headers@.len() == index,
            section_headers_at(b, at, number_of_sections as nat) == prepend(
                section_headers@.map_values(|h: SectionHeader| h@),
                section_headers_at(
                    b,
                    at + SECTION_HEADER_SIZE * index,
                    (number_of_sections - index) as nat,
                ),
            ),
        decreases number_of_sections - index,
    {
        let ghost done = section_headers@.map_values(|h: SectionHeader| h@);
        match parse_section_header(cursor) {
            Ok(header) => {
                proof {
                    let rest = section_headers_at(
                        b,
                        at + SECTION_HEADER_SIZE * (index + 1),
                        (number_of_sections - index - 1) as nat,
                    );
                    let now = section_headers@.push(header).map_values(|h: SectionHeader| h@);
                    assert(now =~= done.push(header@));
                    if let Ok(tail) = rest {
                        assert(done + (seq![header@] + tail) =~= done.push(header@) + tail);
                    }
                }
                section_headers.push(header);
            },
            Err(e) => {
                cursor.position = start;
                return Err(e);
            },
        }
        index += 1;
    }
    let table = SectionTable { section_headers };
    Ok(table)
}

/// The index of the first of `sections` from `from` on that bears the name
/// `name`, if one does.
pub open spec fn find_section_from(
    sections: Seq<SectionHeaderView>,
    name: Seq<char>,
    from: int,
) -> Option<int>
    decreases sections.len() - from,
{
    if from < 0 || from >= sections.len() {
        None
    } else if sections[from].is_named(name) {
        Some(from)
    } else {
        find_section_from(sections, name, from + 1)
    }
}

/// The index of the first of `sections` that bears the name `name`, if one does.
pub open spec fn find_section(sections: Seq<SectionHeaderView>, name: Seq<char>) -> Option<int> {
    find_section_from(sections, name, 0)
}

/// The file offset of `rva` by the first of `sections` from `from` on that
/// claims it, if one does.
pub open spec fn translate_from(sections: Seq<SectionHeaderView>, rva: u32, from: int) -> Option<
    u64,
>
    decreases sections.len() - from,
{
    if from < 0 || from >= sections.len() {
        None
    } else if sections[from].claims(rva) {
        Some(sections[from].file_offset(rva))
    } else {
        translate_from(sections, rva, from + 1)
    }
}

/// The file offset of `rva`: that by the first of `sections` that claims it.
pub open spec fn translate(sections: Seq<SectionHeaderView>, rva: u32) -> Option<u64> {
    translate_from(sections, rva, 0)
}

/// `find_section` finds the first section of the name, and finds none only
/// where none bears it.
pub proof fn lemma_find_section_is_first(
    sections: Seq<SectionHeaderView>,
    name: Seq<char>,
    from: int,
)
    requires
        0 <= from,
    ensures
        match find_section_from(sections, name, from) {
            Some(i) => {
                &&& from <= i < sections.len()
                &&& sections[i].is_named(name)
                &&& forall|j: int| from <= j < i ==> !sections[j].is_named(name)
            },
            None => forall|j: int| from <= j < sections.len() ==> !sections[j].is_named(name),
        },
    decreases sections.len() - from,
{
    if from < sections.len() && !sections[from].is_named(name) {
        lemma_find_section_is_first(sections, name, from + 1);
    }
}

/// An address that the section at `index` claims translates by that section,
/// provided that every earlier section that claims it too gives the same offset.
pub proof fn lemma_translate_inside(sections: Seq<SectionHeaderView>, rva: u32, index: int)
    requires
        0 <= index < sections.len(),
        sections[index].claims(rva),
        forall|j: int|
            0 <= j < index && sections[j].claims(rva) ==> sections[j].file_offset(rva)
                == sections[index].file_offset(rva),
    ensures
        translate(sections, rva) == Some(sections[index].file_offset(rva)),
        sections[index].file_offset(rva) == sections[index].ptr_to_raw_data + (rva
            - sections[index].virtual_address),
{
    lemma_translate_from_inside(sections, rva, index, 0);
}

proof fn lemma_translate_from_inside(
    sections: Seq<SectionHeaderView>,
    rva: u32,
    index: int,
    from: int,
)
    requires
        0 <= from <= index < sections.len(),
        sections[index].claims(rva),
        forall|j: int|
            0 <= j < index && sections[j].claims(rva) ==> sections[j].file_offset(rva)
                == sections[index].file_offset(rva),
    ensures
        translate_from(sections, rva, from) == Some(sections[index].file_offset(rva)),
    decreases index - from,
{
    if from < index && !sections[from].claims(rva) {
        lemma_translate_from_inside(sections, rva, index, from + 1);
    }
}

/// An address translates exactly when some section claims it: one that lies
/// outside every section has no file offset.
pub proof fn lemma_translate_outside(sections: Seq<SectionHeaderView>, rva: u32)
    ensures
        translate(sections, rva) is None <==> forall|i: int|
            0 <= i < sections.len() ==> !sections[i].claims(rva),
{
    lemma_translate_from_outside(sections, rva, 0);
}

proof fn lemma_translate_from_outside(sections: Seq<SectionHeaderView>, rva: u32, from: int)
    requires
        0 <= from,
    ensures
        translate_from(sections, rva, from) is None <==> forall|i: int|
            from <= i < sections.len() ==> !sections[i].claims(rva),
    decreases sections.len() - from,
{
    if from < sections.len() && !sections[from].claims(rva) {
        lemma_translate_from_outside(sections, rva, from + 1);
    }
}

/// Whether the stored section name `stored` is `name`, its padding set aside.
pub fn name_matches(stored: &str, name: &str) -> (b: bool)
    ensures
        b == (trim_nulls(stored@) == name@),
{
    let mut end: usize = stored.unicode_len();
    assert(stored@.subrange(0, end as int) =~= stored@);
    while end > 0 && stored.get_char(end - 1) == '\0'
        invariant
            end <= stored@.len(),
            trim_nulls(stored@) == trim_nulls(stored@.subrange(0, end as int)),
        decreases end,
    {
        assert(stored@.subrange(0, end as int).drop_last() =~= stored@.subrange(
            0,
            end as int - 1,
        ));
        end -= 1;
    }
    let ghost trimmed = stored@.subrange(0, end as int);
    if name.unicode_len() != end {
        return false;
    }
    let mut i: usize = 0;
    while i < end
        invariant
            i <= end <= stored@.len(),
            name@.len() == end,
            trimmed == stored@.subrange(0, end as int),
            trim_nulls(stored@) == trimmed,
            forall|k: int| 0 <= k < i ==> trimmed[k] == name@[k],
        decreases end - i,
    {
        if stored.get_char(i) != name.get_char(i) {
            return false;
        }
        i += 1;
    }
    assert(trimmed =~= name@);
    true
}

impl SectionTable {
    /// The first section that bears the name `name`, its padding set aside.
    pub fn get_section_header(&self, name: &str) -> (r: Option<&SectionHeader>)
        ensures
            match find_section(self@, name@) {
                Some(i) => r == Some(&self.section_headers@[i]),
                None => r is None,
            },
    {
        let mut i: usize = 0;
        while i < self.section_headers.len()
            invariant
                i <= self.section_headers@.len(),
                find_section(self@, name@) == find_section_from(self@, name@, i as int),
            decreases self.section_headers@.len() - i,
        {
            if name_matches(self.section_headers[i].name.as_str(), name) {
                return Some(&self.section_headers[i]);
            }
            i += 1;
        }
        None
    }
}

impl SectionHeader {
    /// The raw data of the section in the file `memory`: the bytes from the
    /// section's file pointer on, as many as its raw size says.
    pub fn get_raw_data<'a>(&self, memory: &'a Vec<u8>) -> (r: Result<&'a [u8], PeError>)
        ensures
            self@.raw_data_fits(memory@.len() as int) ==> (r matches Ok(data) && data@
                == self@.raw_data(memory@)),
            !self@.raw_data_fits(memory@.len() as int) ==> (r matches Err(e) && e
                == PeError::BoundsError),
    {
        let start = self.ptr_to_raw_data as u64;
        let end = start + self.size_of_raw_data as u64;
        if end > memory.len() as u64 {
            return Err(PeError::BoundsError);
        }
        Ok(slice_subrange(memory.as_slice(), start as usize, end as usize))
    }
}

/// Maps a relative virtual address to its file offset.
///
/// The sections are tried in file order and the first that claims the address
/// decides. `None` says that no section claims it.
pub fn rva2foa(rva: u32, section_table: &SectionTable) -> (r: Option<u64>)
    ensures
        r == translate(section_table@, rva),
{
    let mut i: usize = 0;
    while i < section_table.section_headers.len()
        invariant
            i <= section_table.section_headers@.len(),
            translate(section_table@, rva) == translate_from(section_table@, rva, i as int),
        decreases section_table.section_headers@.len() - i,
    {
        let section = &section_table.section_headers[i];
        if rva >= section.virtual_address && rva as u64 <= section.virtual_address as u64
            + section.size_of_raw_data as u64 {
            return Some(section.ptr_to_raw_data as u64 + (rva - section.virtual_address) as u64);
        }
        i += 1;
    }
    None
}

} // verus!
