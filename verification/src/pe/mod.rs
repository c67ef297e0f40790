//! The parsed image and the errors of the parser.

pub mod coff;
pub mod cursor;
pub mod import_table;
pub mod laws;
pub mod object;
pub mod optional_header;
pub mod pdata;
pub mod section_table;

use crate::pe::coff::{coff_header_at, parse_coff, CoffHeader, COFF_HEADER_SIZE};
use crate::pe::cursor::Cursor;
use crate::pe::import_table::{
    get_import_table, import_table_of, ImageImportDescriptorView, ImportTable,
};
use crate::pe::optional_header::{
    optional_header_at, parse_opt_header, ExecutableKind, ImageDataDirectory, OptionalHeader,
    OptionalHeaderView, IMPORT_DIRECTORY_INDEX,
};
use crate::pe::section_table::{
    parse_section_headers, section_headers_at, SectionHeaderView, SectionTable,
};
use crate::util::{le_u32, u32_at};
use vstd::prelude::*;
use vstd::slice::slice_to_vec;
use vstd::std_specs::convert::TryFromSpecImpl;
use vstd::string::{StrSliceExecFns, StringSliceAdditionalSpecFns};
use vstd::utf8::encode_utf8;

verus! {

/// Why a parse step failed.
#[derive(Debug, Clone, Copy, PartialEq, Eq, Structural)]
pub enum PeError {
    /// The image could not be read from its source.
    IoError,
    /// No `PE\0\0` signature lies at an even offset behind the legacy marker.
    SignatureNotFound,
    /// A machine type, an optional-header magic, a subsystem, a relocation type
    /// or a code of a symbol record lies outside its closed set; the code is
    /// carried along.
    InvalidEnumValue(u16),
    /// A read or a slice would run past the end of its buffer.
    BoundsError,
    /// No section bears the requested name.
    MissingSection,
    /// The requested data directory is absent or all zero.
    MissingDirectory,
    /// The relative virtual address lies in no section; the address is carried along.
    AddressTranslationFailure(u32),
    /// A name is not valid UTF-8.
    EncodingError,
}

/// The mathematical value of a parse result: that of what was parsed, or the error.
pub open spec fn result_view<T: View>(r: Result<T, PeError>) -> Result<T::V, PeError> {
    match r {
        Ok(value) => Ok(value@),
        Err(e) => Err(e),
    }
}

/// The signature `PE\0\0`, read as a little-endian word.
pub const PE_SIGNATURE: u32 = 0x0000_4550;

/// The headers of an image, from the signature on.
#[derive(Debug, Clone, PartialEq, Eq)]
pub struct NtHeaders {
    /// The low word of the signature.
    pub pe_signature: u16,
    pub file_header: CoffHeader,
    pub opt_header: OptionalHeader,
}

/// The mathematical value of `NtHeaders`.
pub struct NtHeadersView {
    pub pe_signature: u16,
    pub file_header: CoffHeader,
    pub opt_header: OptionalHeaderView,
}

impl View for NtHeaders {
    type V = NtHeadersView;

    open spec fn view(&self) -> NtHeadersView {
        NtHeadersView {
            pe_signature: self.pe_signature,
            file_header: self.file_header,
            opt_header: self.opt_header@,
        }
    }
}

/// A parsed image: its headers, its section table, and the bytes it was
/// parsed from, which the import directory is read from on demand.
#[derive(Debug, Clone, PartialEq, Eq)]
pub struct PortableExecutable {
    pub nt_headers: NtHeaders,
    pub section_table: SectionTable,
    pub executable_type: ExecutableKind,
    /// The whole file.
    pub bytes: Vec<u8>,
}

/// The mathematical value of a `PortableExecutable`.
pub struct PortableExecutableView {
    pub nt_headers: NtHeadersView,
    pub section_table: Seq<SectionHeaderView>,
    pub executable_type: ExecutableKind,
    pub bytes: Seq<u8>,
}

impl View for PortableExecutable {
    type V = PortableExecutableView;

    open spec fn view(&self) -> PortableExecutableView {
        PortableExecutableView {
            nt_headers: self.nt_headers@,
            section_table: self.section_table@,
            executable_type: self.executable_type,
            bytes: self.bytes@,
        }
    }
}

impl PortableExecutableView {
    /// The imports that the import directory of the image leads to.
    pub open spec fn imports(self) -> Result<Seq<ImageImportDescriptorView>, PeError> {
        let directories = self.nt_headers.opt_header.data_directories;
        if directories.len() <= IMPORT_DIRECTORY_INDEX {
            Err(PeError::MissingDirectory)
        } else {
            import_table_of(
                self.bytes,
                self.section_table,
                self.executable_type,
                directories[IMPORT_DIRECTORY_INDEX as int],
            )
        }
    }

    /// The parts of a parsed image agree: the section table has as many
    /// headers as the file header counts, the kind is that of the optional
    /// header, and the optional header is well formed.
    pub open spec fn wf(self) -> bool {
        &&& self.nt_headers.pe_signature == PE_SIGNATURE
        &&& self.section_table.len() == self.nt_headers.file_header.number_of_sections
        &&& self.executable_type == self.nt_headers.opt_header.std_fields.magic
        &&& self.nt_headers.opt_header.wf()
    }
}

/// The offset of the first signature of `b` among `from`, `from + 2`,
/// `from + 4` and so on, if one of them holds it.
pub open spec fn find_signature_from(b: Seq<u8>, from: int) -> Option<int>
    decreases b.len() - from,
{
    if from < 0 || from + 4 > b.len() {
        None
    } else if le_u32(b, from) == PE_SIGNATURE {
        Some(from)
    } else {
        find_signature_from(b, from + 2)
    }
}

/// `find_signature_from` finds the first signature among the offsets it
/// tries, and finds none only where none of them holds one.
pub proof fn lemma_find_signature_is_first(b: Seq<u8>, from: int)
    requires
        0 <= from,
    ensures
        match find_signature_from(b, from) {
            Some(at) => {
                &&& from <= at
                &&& at + 4 <= b.len()
                &&& (at - from) % 2 == 0
                &&& le_u32(b, at) == PE_SIGNATURE
                &&& forall|k: int|
                    from <= k < at && (k - from) % 2 == 0 ==> le_u32(b, k) != PE_SIGNATURE
            },
            None => forall|k: int|
                from <= k && k + 4 <= b.len() && (k - from) % 2 == 0 ==> le_u32(b, k)
                    != PE_SIGNATURE,
        },
    decreases b.len() - from,
{
    if from + 4 <= b.len() && le_u32(b, from) != PE_SIGNATURE {
        lemma_find_signature_is_first(b, from + 2);
    }
}

/// The image that the bytes of `b` hold.
///
/// Two bytes of legacy marker come first and are not looked at. The signature
/// is searched from offset 2 on, two bytes at a time. Behind it stand the file
/// header, the optional header and the section table, one after the other.
pub open spec fn image_of(b: Seq<u8>) -> Result<PortableExecutableView, PeError> {
    if b.len() < 2 {
        Err(PeError::BoundsError)
    } else {
        match find_signature_from(b, 2) {
            None => Err(PeError::SignatureNotFound),
            Some(at) => match coff_header_at(b, at + 4) {
                Err(e) => Err(e),
                Ok(file_header) => match optional_header_at(b, at + 4 + COFF_HEADER_SIZE) {
                    Err(e) => Err(e),
                    Ok(opt_header) => match section_headers_at(
                        b,
                        at + 4 + COFF_HEADER_SIZE + opt_header.std_fields.magic.header_size(),
                        file_header.number_of_sections as nat,
                    ) {
                        Err(e) => Err(e),
                        Ok(section_table) => Ok(
                            PortableExecutableView {
                                nt_headers: NtHeadersView {
                                    pe_signature: 0x4550,
                                    file_header,
                                    opt_header,
                                },
                                section_table,
                                executable_type: opt_header.std_fields.magic,
                                bytes: b,
                            },
                        ),
                    },
                },
            },
        }
    }
}

/// Moves the cursor behind the signature of the image.
///
/// Two bytes at the cursor are skipped as the legacy marker. The signature is
/// then searched two bytes at a time. Where there is none, or no marker, the
/// cursor does not move.
pub fn find_pe_signature(cursor: &mut Cursor) -> (r: Result<(), PeError>)
    ensures
        !old(cursor).holds(2) ==> r == Err::<(), PeError>(PeError::BoundsError) && *final(cursor)
            == *old(cursor),
        old(cursor).holds(2) ==> match find_signature_from(
            old(cursor).bytes@,
            old(cursor).position + 2,
        ) {
            Some(at) => r is Ok && final(cursor).follows(
                *old(cursor),
                at + 4 - old(cursor).position,
            ),
            None => r == Err::<(), PeError>(PeError::SignatureNotFound)
                && *final(cursor) == *old(cursor),
        },
{
    let start = cursor.position;
    cursor.skip(2)?;
    loop
        invariant
            cursor.bytes == old(cursor).bytes,
            start == old(cursor).position,
            start + 2 <= cursor.position <= cursor.bytes@.len(),
            find_signature_from(cursor.bytes@, start + 2) == find_signature_from(
                cursor.bytes@,
                cursor.position as int,
            ),
        decreases cursor.bytes@.len() - cursor.position,
    {
        let word = match u32_at(cursor.bytes.as_slice(), cursor.position) {
            Ok(word) => word,
            Err(_) => {
                cursor.position = start;
                return Err(PeError::SignatureNotFound);
            },
        };
        if word == PE_SIGNATURE {
            cursor.skip(4)?;
            return Ok(());
        }
        cursor.skip(2)?;
    }
}

impl PortableExecutable {
    /// Parses an image: the signature, the file header, the optional header and
    /// the section table. The result is whole or there is none: the first
    /// error ends the parse.
    pub fn parse(bytes: Vec<u8>) -> (r: Result<Self, PeError>)
        ensures
            match image_of(bytes@) {
                Ok(image) => r matches Ok(pe) && pe@ == image,
                Err(error) => r matches Err(e) && e == error,
            },
            r matches Ok(pe) ==> pe@.wf(),
    {
        let mut cursor = Cursor::new(bytes);
        find_pe_signature(&mut cursor)?;
        let file_header = parse_coff(&mut cursor)?;
        let opt_header = parse_opt_header(&mut cursor)?;
        let magic = opt_header.std_fields.magic;
        let section_table = parse_section_headers(&mut cursor, file_header.number_of_sections)?;
        let nt_headers = NtHeaders { pe_signature: 0x4550, file_header, opt_header };
        Ok(
            PortableExecutable {
                nt_headers,
                executable_type: magic,
                section_table,
                bytes: cursor.bytes,
            },
        )
    }

    /// Reads the imports of the image from its import directory.
    pub fn get_import_table(&self) -> (r: Result<ImportTable, PeError>)
        ensures
            result_view(r) == self@.imports(),
    {
        if self.nt_headers.opt_header.data_directories.len() <= IMPORT_DIRECTORY_INDEX {
            return Err(PeError::MissingDirectory);
        }
        let directory = &self.nt_headers.opt_header.data_directories[IMPORT_DIRECTORY_INDEX];
        get_import_table(
            &self.section_table,
            &self.bytes,
            &self.executable_type,
            ImageDataDirectory {
                virtual_address: directory.virtual_address,
                size: directory.size,
                tag: directory.tag.clone(),
            },
        )
    }

    /// The data directory at the index `entry`, where the image has one there
    /// that is not all zero.
    pub fn get_image_directory(&self, entry: usize) -> (r: Result<ImageDataDirectory, PeError>)
        ensures
            match r {
                Ok(directory) => {
                    &&& entry < self@.nt_headers.opt_header.data_directories.len()
                    &&& directory@ == self@.nt_headers.opt_header.data_directories[entry as int]
                    &&& !directory@.is_empty()
                },
                Err(e) => {
                    &&& e == PeError::MissingDirectory
                    &&& entry < self@.nt_headers.opt_header.data_directories.len()
                        ==> self@.nt_headers.opt_header.data_directories[entry as int].is_empty()
                },
            },
    {
        if entry >= self.nt_headers.opt_header.data_directories.len() {
            return Err(PeError::MissingDirectory);
        }
        let directory = &self.nt_headers.opt_header.data_directories[entry];
        if directory.is_empty() {
            return Err(PeError::MissingDirectory);
        }
        Ok(
            ImageDataDirectory {
                virtual_address: directory.virtual_address,
                size: directory.size,
                tag: directory.tag.clone(),
            },
        )
    }
}

/// Two images of one value need not be one image, so the conversion is held
/// to its own contract, which is that of `parse`, and not to this function.
impl TryFromSpecImpl<Vec<u8>> for PortableExecutable {
    open spec fn obeys_try_from_spec() -> bool {
        false
    }

    open spec fn try_from_spec(data: Vec<u8>) -> Result<Self, PeError> {
        match image_of(data@) {
            Ok(image) => Ok(choose|pe: PortableExecutable| pe@ == image),
            Err(e) => Err(e),
        }
    }
}

impl TryFrom<Vec<u8>> for PortableExecutable {
    type Error = PeError;

    fn try_from(data: Vec<u8>) -> (r: Result<Self, PeError>)
        ensures
            match image_of(data@) {
                Ok(image) => r matches Ok(pe) && pe@ == image,
                Err(error) => r matches Err(e) && e == error,
            },
    {
        Self::parse(data)
    }
}

/// Two images of one value need not be one image, so the conversion is held
/// to its own contract, which is that of `parse`, and not to this function.
impl TryFromSpecImpl<&[u8]> for PortableExecutable {
    open spec fn obeys_try_from_spec() -> bool {
        false
    }

    open spec fn try_from_spec(data: &[u8]) -> Result<Self, PeError> {
        match image_of(data@) {
            Ok(image) => Ok(choose|pe: PortableExecutable| pe@ == image),
            Err(e) => Err(e),
        }
    }
}

impl TryFrom<&[u8]> for PortableExecutable {
    type Error = PeError;

    fn try_from(data: &[u8]) -> (r: Result<Self, PeError>)
        ensures
            match image_of(data@) {
                Ok(image) => r matches Ok(pe) && pe@ == image,
                Err(error) => r matches Err(e) && e == error,
            },
    {
        Self::parse(slice_to_vec(data))
    }
}

/// Two images of one value need not be one image, so the conversion is held
/// to its own contract, which is that of `parse`, and not to this function.
impl TryFromSpecImpl<&str> for PortableExecutable {
    open spec fn obeys_try_from_spec() -> bool {
        false
    }

    open spec fn try_from_spec(data: &str) -> Result<Self, PeError> {
        match image_of(data.spec_bytes()) {
            Ok(image) => Ok(choose|pe: PortableExecutable| pe@ == image),
            Err(e) => Err(e),
        }
    }
}

impl TryFrom<&str> for PortableExecutable {
    type Error = PeError;

    fn try_from(data: &str) -> (r: Result<Self, PeError>)
        ensures
            match image_of(data.spec_bytes()) {
                Ok(image) => r matches Ok(pe) && pe@ == image,
                Err(error) => r matches Err(e) && e == error,
            },
    {
        Self::parse(data.as_bytes_vec())
    }
}

/// Two images of one value need not be one image, so the conversion is held
/// to its own contract, which is that of `parse`, and not to this function.
impl TryFromSpecImpl<String> for PortableExecutable {
    open spec fn obeys_try_from_spec() -> bool {
        false
    }

    open spec fn try_from_spec(data: String) -> Result<Self, PeError> {
        match image_of(encode_utf8(data@)) {
            Ok(image) => Ok(choose|pe: PortableExecutable| pe@ == image),
            Err(e) => Err(e),
        }
    }
}

impl TryFrom<String> for PortableExecutable {
    type Error = PeError;

    fn try_from(data: String) -> (r: Result<Self, PeError>)
        ensures
            match image_of(encode_utf8(data@)) {
                Ok(image) => r matches Ok(pe) && pe@ == image,
                Err(error) => r matches Err(e) && e == error,
            },
    {
        Self::parse(data.as_str().as_bytes_vec())
    }
}

} // verus!
