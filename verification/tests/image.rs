use solaire::pe::coff::{Characteristic, CoffHeader, Machine};
use solaire::pe::import_table::{get_import_table, FuncAddress, ImportLookupTableEntry};
use solaire::pe::optional_header::{
    DllCharacteristics, ExecutableKind, ImageBase, ImageDataDirectory, SizeOfHeapCommit,
    SizeOfHeapReserve, SizeOfStackCommit, SizeOfStackReserve, StandardFields,
    WindowsSpecificFields, WindowsSubsystem,
};
use solaire::pe::section_table::{rva2foa, SectionFlags, SectionHeader};
use solaire::pe::{PeError, PortableExecutable};

const SIGNATURE_AT: usize = 0x40;
const DIRECTORY_NAMES: [&str; 16] = [
    "export_table",
    "import_table",
    "resource_table",
    "exception_table",
    "certificate_table",
    "base_relocation_table",
    "debug",
    "architecture",
    "global_ptr",
    "tls_table",
    "load_config_table",
    "bound_import",
    "import_address_table",
    "delay_import_descriptor",
    "clr_runtime_header",
    "reserved",
];

fn put16(image: &mut Vec<u8>, value: u16) {
    image.extend_from_slice(&value.to_le_bytes());
}

fn put32(image: &mut Vec<u8>, value: u32) {
    image.extend_from_slice(&value.to_le_bytes());
}

fn put64(image: &mut Vec<u8>, value: u64) {
    image.extend_from_slice(&value.to_le_bytes());
}

fn pad_to(image: &mut Vec<u8>, len: usize) {
    assert!(image.len() <= len);
    image.resize(len, 0);
}

fn write_at(image: &mut [u8], at: usize, bytes: &[u8]) {
    image[at..at + bytes.len()].copy_from_slice(bytes);
}

/// A PE32 or PE32+ image with one section, `.idata`, whose raw data lies at
/// file offset 0x200 and is mapped at the relative address 0x2000. The raw
/// data is left zero: the tests fill it.
fn image(plus: bool) -> Vec<u8> {
    let mut image = Vec::new();
    image.extend_from_slice(b"MZ");
    pad_to(&mut image, SIGNATURE_AT);
    image.extend_from_slice(b"PE\0\0");
    // file header
    put16(&mut image, if plus { 0x8664 } else { 0x14c });
    put16(&mut image, 1);
    put32(&mut image, 0x05f5_e100);
    put32(&mut image, 0);
    put32(&mut image, 0);
    put16(&mut image, if plus { 240 } else { 224 });
    put16(&mut image, 0x0102);
    // optional header, standard fields
    put16(&mut image, if plus { 0x20b } else { 0x10b });
    image.push(14);
    image.push(29);
    put32(&mut image, 0x200);
    put32(&mut image, 0x400);
    put32(&mut image, 0);
    put32(&mut image, 0x1000);
    put32(&mut image, 0x1000);
    if plus {
        put64(&mut image, 0x1_4000_0000);
    } else {
        put32(&mut image, 0x2000);
        put32(&mut image, 0x40_0000);
    }
    // optional header, Windows-specific fields
    put32(&mut image, 0x1000);
    put32(&mut image, 0x200);
    put16(&mut image, 6);
    put16(&mut image, 1);
    put16(&mut image, 2);
    put16(&mut image, 3);
    put16(&mut image, 6);
    put16(&mut image, 4);
    put32(&mut image, 0);
    put32(&mut image, 0x3000);
    put32(&mut image, 0x200);
    put32(&mut image, 0x1234);
    put16(&mut image, 3);
    put16(&mut image, 0x8160);
    for value in [0x10_0000u64, 0x1000, 0x20_0000, 0x2000] {
        if plus {
            put64(&mut image, value);
        } else {
            put32(&mut image, value as u32);
        }
    }
    put32(&mut image, 0);
    put32(&mut image, 16);
    for index in 0..16u32 {
        if index == 1 {
            put32(&mut image, 0x2000);
            put32(&mut image, 40);
        } else {
            put32(&mut image, 0);
            put32(&mut image, 0);
        }
    }
    // section table
    image.extend_from_slice(b".idata\0\0");
    put32(&mut image, 0x100);
    put32(&mut image, 0x2000);
    put32(&mut image, 0x200);
    put32(&mut image, 0x200);
    put32(&mut image, 0);
    put32(&mut image, 0);
    put16(&mut image, 0);
    put16(&mut image, 0);
    put32(&mut image, 0xc000_0040);
    pad_to(&mut image, 0x400);
    image
}

fn headers_end(plus: bool) -> usize {
    SIGNATURE_AT + 4 + 20 + if plus { 240 } else { 224 } + 40
}

fn descriptor(lookup: u32, name: u32, thunk: u32) -> Vec<u8> {
    let mut bytes = Vec::new();
    put32(&mut bytes, lookup);
    put32(&mut bytes, 0x1111_1111);
    put32(&mut bytes, 0x2222_2222);
    put32(&mut bytes, name);
    put32(&mut bytes, thunk);
    bytes
}

/// The image of `image(false)` with one imported library, `KERNEL32.dll`, and
/// one function imported from it by name, `ExitProcess`.
fn image_with_one_import() -> Vec<u8> {
    let mut image = image(false);
    write_at(&mut image, 0x200, &descriptor(0x2040, 0x2060, 0x2050));
    write_at(&mut image, 0x240, &0x2070u32.to_le_bytes());
    write_at(&mut image, 0x250, &0x2070u32.to_le_bytes());
    write_at(&mut image, 0x260, b"KERNEL32.dll\0");
    write_at(&mut image, 0x270, &[0x23, 0x01]);
    write_at(&mut image, 0x272, b"ExitProcess\0");
    image
}

fn import_directory() -> ImageDataDirectory {
    ImageDataDirectory { virtual_address: 0x2000, size: 40, tag: "import_table".to_string() }
}

#[test]
fn parse_reads_back_every_field_of_a_pe32_image() {
    let bytes = image_with_one_import();
    let pe = PortableExecutable::parse(bytes.clone()).unwrap();

    assert_eq!(pe.bytes, bytes);
    assert_eq!(pe.executable_type, ExecutableKind::PE32);
    assert_eq!(pe.nt_headers.pe_signature, 0x4550);
    assert_eq!(
        pe.nt_headers.file_header,
        CoffHeader {
            machine: Machine::IMAGE_FILE_MACHINE_I386,
            number_of_sections: 1,
            time_date_stamp: 0x05f5_e100,
            pointer_to_symbol_table: 0,
            number_of_symbols: 0,
            size_of_optional_header: 224,
            characteristics: Characteristic { bits: 0x0102 },
        }
    );
    assert_eq!(
        pe.nt_headers.opt_header.std_fields,
        StandardFields {
            magic: ExecutableKind::PE32,
            major_linker_version: 14,
            minor_linker_version: 29,
            size_of_code: 0x200,
            size_of_initialized_data: 0x400,
            size_of_uninitialized_data: 0,
            address_of_entry_point: 0x1000,
            base_of_code: 0x1000,
            base_of_data: Some(0x2000),
        }
    );
    assert_eq!(
        pe.nt_headers.opt_header.win_specific_fields,
        WindowsSpecificFields {
            image_base: ImageBase::PE32(0x40_0000),
            section_alignment: 0x1000,
            file_alignment: 0x200,
            major_os_version: 6,
            minor_os_version: 1,
            major_image_version: 2,
            minor_image_version: 3,
            major_subsystem_version: 6,
            minor_subsystem_version: 4,
            win32_version_value: 0,
            size_of_image: 0x3000,
            size_of_headers: 0x200,
            checksum: 0x1234,
            subsystem: WindowsSubsystem::WINDOWS_CUI,
            dll_characteristics: DllCharacteristics { bits: 0x8160 },
            size_of_stack_reserve: SizeOfStackReserve::PE32(0x10_0000),
            size_of_stack_commit: SizeOfStackCommit::PE32(0x1000),
            size_of_heap_reserve: SizeOfHeapReserve::PE32(0x20_0000),
            size_of_heap_commit: SizeOfHeapCommit::PE32(0x2000),
            loader_flags: 0,
            number_of_rva_and_sizes: 16,
        }
    );
    let directories = &pe.nt_headers.opt_header.data_directories;
    assert_eq!(directories.len(), 16);
    for (index, directory) in directories.iter().enumerate() {
        assert_eq!(directory.tag, DIRECTORY_NAMES[index]);
        if index == 1 {
            assert_eq!((directory.virtual_address, directory.size), (0x2000, 40));
        } else {
            assert_eq!((directory.virtual_address, directory.size), (0, 0));
        }
    }
    assert_eq!(
        pe.section_table.section_headers,
        vec![SectionHeader {
            name: ".idata\0\0".to_string(),
            virtual_size: 0x100,
            virtual_address: 0x2000,
            size_of_raw_data: 0x200,
            ptr_to_raw_data: 0x200,
            ptr_to_relocations: 0,
            ptr_to_linenumbers: 0,
            number_of_relocations: 0,
            number_of_linenumbers: 0,
            characteristics: SectionFlags { bits: 0xc000_0040 },
        }]
    );

    let imports = pe.get_import_table().unwrap();
    assert_eq!(imports.image_descriptors.len(), 1);
    let library = &imports.image_descriptors[0];
    assert_eq!(library.import_lookup_table_rva, 0x2040);
    assert_eq!(library.timedate_stamp, 0x1111_1111);
    assert_eq!(library.forwarder_chain, 0x2222_2222);
    assert_eq!(library.name_rva, 0x2060);
    assert_eq!(library.first_thunk, 0x2050);
    assert_eq!(library.name, "KERNEL32.dll");
    assert_eq!(library.characteristics, 0x2040);
    assert_eq!(
        library.import_lookup_table.entries,
        vec![ImportLookupTableEntry {
            hint: 0x0123,
            is_ordinal: false,
            ordinal: 0,
            name: b"ExitProcess".to_vec(),
            func_ptr_address: FuncAddress::X86(0x2050),
        }]
    );
    assert_eq!(library.import_lookup_table.entries[0].name(), "ExitProcess");
}

#[test]
fn parse_reads_the_wide_fields_of_a_pe32_plus_image() {
    let pe = PortableExecutable::parse(image(true)).unwrap();
    assert_eq!(pe.executable_type, ExecutableKind::PE32_PLUS);
    assert_eq!(pe.nt_headers.file_header.machine, Machine::IMAGE_FILE_MACHINE_AMD64);
    assert_eq!(pe.nt_headers.file_header.size_of_optional_header, 240);
    let standard = &pe.nt_headers.opt_header.std_fields;
    assert_eq!(standard.magic, ExecutableKind::PE32_PLUS);
    assert_eq!(standard.base_of_code, 0x1000);
    assert_eq!(standard.base_of_data, None);
    let windows = &pe.nt_headers.opt_header.win_specific_fields;
    assert_eq!(windows.image_base, ImageBase::PE32_PLUS(0x1_4000_0000));
    assert_eq!(windows.section_alignment, 0x1000);
    assert_eq!(windows.subsystem, WindowsSubsystem::WINDOWS_CUI);
    assert_eq!(windows.dll_characteristics.bits(), 0x8160);
    assert_eq!(windows.size_of_stack_reserve, SizeOfStackReserve::PE32_PLUS(0x10_0000));
    assert_eq!(windows.size_of_stack_commit, SizeOfStackCommit::PE32_PLUS(0x1000));
    assert_eq!(windows.size_of_heap_reserve, SizeOfHeapReserve::PE32_PLUS(0x20_0000));
    assert_eq!(windows.size_of_heap_commit, SizeOfHeapCommit::PE32_PLUS(0x2000));
    assert_eq!(windows.loader_flags, 0);
    assert_eq!(windows.number_of_rva_and_sizes, 16);
    let directories = &pe.nt_headers.opt_header.data_directories;
    assert_eq!(directories.len(), 16);
    assert_eq!((directories[1].virtual_address, directories[1].size), (0x2000, 40));
    assert_eq!(directories[1].tag, "import_table");
    assert_eq!(pe.section_table.section_headers.len(), 1);
    assert_eq!(pe.section_table.section_headers[0].name, ".idata\0\0");
}

#[test]
fn base_of_data_is_there_for_pe32_only() {
    let narrow = PortableExecutable::parse(image(false)).unwrap();
    assert!(narrow.nt_headers.opt_header.std_fields.base_of_data.is_some());
    let wide = PortableExecutable::parse(image(true)).unwrap();
    assert!(wide.nt_headers.opt_header.std_fields.base_of_data.is_none());
}

#[test]
fn section_table_has_as_many_headers_as_the_file_header_counts() {
    for sections in [0u16, 1, 3] {
        let mut bytes = image(false);
        write_at(&mut bytes, SIGNATURE_AT + 6, &sections.to_le_bytes());
        for index in 1..sections as usize {
            let at = headers_end(false) + 40 * (index - 1);
            write_at(&mut bytes, at, b".data\0\0\0");
        }
        let pe = PortableExecutable::parse(bytes).unwrap();
        assert_eq!(pe.nt_headers.file_header.number_of_sections, sections);
        assert_eq!(pe.section_table.section_headers.len(), sections as usize);
    }
}

#[test]
fn conversions_parse_as_parse_does() {
    let bytes = image(false);
    let parsed = PortableExecutable::parse(bytes.clone()).unwrap();
    assert_eq!(PortableExecutable::try_from(bytes.clone()), Ok(parsed.clone()));
    assert_eq!(PortableExecutable::try_from(bytes.as_slice()), Ok(parsed));
    assert_eq!(PortableExecutable::try_from("MZ"), Err(PeError::SignatureNotFound));
    assert_eq!(PortableExecutable::try_from("M".to_string()), Err(PeError::BoundsError));
}

#[test]
fn a_truncated_image_gives_a_bounds_error() {
    for plus in [false, true] {
        let bytes = image(plus);
        for cut in SIGNATURE_AT + 4..headers_end(plus) {
            assert_eq!(
                PortableExecutable::parse(bytes[..cut].to_vec()),
                Err(PeError::BoundsError),
                "cut at {}",
                cut
            );
        }
        assert!(PortableExecutable::parse(bytes[..headers_end(plus)].to_vec()).is_ok());
    }
}

#[test]
fn a_buffer_too_short_for_the_marker_gives_a_bounds_error() {
    assert_eq!(PortableExecutable::parse(vec![]), Err(PeError::BoundsError));
    assert_eq!(PortableExecutable::parse(vec![b'M']), Err(PeError::BoundsError));
}

#[test]
fn a_buffer_without_signature_gives_signature_not_found() {
    assert_eq!(PortableExecutable::parse(b"MZ".to_vec()), Err(PeError::SignatureNotFound));
    assert_eq!(PortableExecutable::parse(vec![0; 4096]), Err(PeError::SignatureNotFound));
    assert_eq!(PortableExecutable::parse(vec![0x50; 4097]), Err(PeError::SignatureNotFound));
    let mut cut_inside = image(false);
    cut_inside.truncate(SIGNATURE_AT + 3);
    assert_eq!(PortableExecutable::parse(cut_inside), Err(PeError::SignatureNotFound));
}

#[test]
fn the_signature_is_looked_for_at_even_offsets_only() {
    let mut odd = vec![0u8; 64];
    write_at(&mut odd, 0, b"MZ");
    write_at(&mut odd, 5, b"PE\0\0");
    assert_eq!(PortableExecutable::parse(odd), Err(PeError::SignatureNotFound));
}

#[test]
fn the_low_word_alone_is_no_signature() {
    let mut bytes = image(false);
    write_at(&mut bytes, 0x10, b"PE\x01\0");
    let pe = PortableExecutable::parse(bytes).unwrap();
    assert_eq!(pe.nt_headers.file_header.machine, Machine::IMAGE_FILE_MACHINE_I386);
}

#[test]
fn the_first_signature_decides() {
    let mut bytes = image(false);
    write_at(&mut bytes, 0x10, b"PE\0\0");
    write_at(&mut bytes, 0x14, &0xffffu16.to_le_bytes());
    assert_eq!(PortableExecutable::parse(bytes), Err(PeError::InvalidEnumValue(0xffff)));
}

#[test]
fn unknown_codes_are_refused_with_the_code() {
    let mut machine = image(false);
    write_at(&mut machine, SIGNATURE_AT + 4, &0x1234u16.to_le_bytes());
    assert_eq!(PortableExecutable::parse(machine), Err(PeError::InvalidEnumValue(0x1234)));

    let mut magic = image(false);
    write_at(&mut magic, SIGNATURE_AT + 24, &0x30bu16.to_le_bytes());
    assert_eq!(PortableExecutable::parse(magic), Err(PeError::InvalidEnumValue(0x30b)));

    let mut subsystem = image(true);
    write_at(&mut subsystem, SIGNATURE_AT + 24 + 68, &15u16.to_le_bytes());
    assert_eq!(PortableExecutable::parse(subsystem), Err(PeError::InvalidEnumValue(15)));
}

#[test]
fn a_section_name_that_is_not_utf8_is_an_encoding_error() {
    let mut bytes = image(false);
    write_at(&mut bytes, headers_end(false) - 40, &[0xff, 0xfe, 0, 0, 0, 0, 0, 0]);
    assert_eq!(PortableExecutable::parse(bytes), Err(PeError::EncodingError));
}

#[test]
fn get_image_directory_gives_the_directory_or_says_that_it_is_missing() {
    let pe = PortableExecutable::parse(image(false)).unwrap();
    assert_eq!(pe.get_image_directory(1), Ok(import_directory()));
    assert_eq!(pe.get_image_directory(0), Err(PeError::MissingDirectory));
    assert_eq!(pe.get_image_directory(15), Err(PeError::MissingDirectory));
    assert_eq!(pe.get_image_directory(16), Err(PeError::MissingDirectory));
}

#[test]
fn an_image_without_import_directory_has_no_import_table() {
    let mut bytes = image(false);
    let directory = SIGNATURE_AT + 24 + 96 + 8;
    write_at(&mut bytes, directory, &[0; 8]);
    let pe = PortableExecutable::parse(bytes).unwrap();
    assert_eq!(pe.get_import_table(), Err(PeError::MissingDirectory));
}

#[test]
fn two_descriptors_and_a_sentinel_give_two_libraries_in_file_order() {
    let mut bytes = image(false);
    write_at(&mut bytes, 0x200, &descriptor(0, 0x2080, 0x2060));
    write_at(&mut bytes, 0x214, &descriptor(0, 0x2090, 0x2070));
    write_at(&mut bytes, 0x260, &0x20a0u32.to_le_bytes());
    write_at(&mut bytes, 0x264, &0x20b0u32.to_le_bytes());
    write_at(&mut bytes, 0x270, &0x20b0u32.to_le_bytes());
    write_at(&mut bytes, 0x280, b"first.dll\0");
    write_at(&mut bytes, 0x290, b"second.dll\0");
    write_at(&mut bytes, 0x2a0, b"\x01\x00alpha\0");
    write_at(&mut bytes, 0x2b0, b"\x02\x00beta\0");
    let directory_size = SIGNATURE_AT + 24 + 96 + 12;
    write_at(&mut bytes, directory_size, &60u32.to_le_bytes());

    let pe = PortableExecutable::parse(bytes).unwrap();
    let imports = pe.get_import_table().unwrap();
    assert_eq!(imports.image_descriptors.len(), 2);
    let first = &imports.image_descriptors[0];
    let second = &imports.image_descriptors[1];
    assert_eq!(first.name, "first.dll");
    assert_eq!(second.name, "second.dll");
    assert_eq!(first.import_lookup_table.entries.len(), 2);
    assert_eq!(first.import_lookup_table.entries[0].name, b"alpha");
    assert_eq!(first.import_lookup_table.entries[0].hint, 1);
    assert_eq!(first.import_lookup_table.entries[0].func_ptr_address, FuncAddress::X86(0x2060));
    assert_eq!(first.import_lookup_table.entries[1].name, b"beta");
    assert_eq!(first.import_lookup_table.entries[1].hint, 2);
    assert_eq!(first.import_lookup_table.entries[1].func_ptr_address, FuncAddress::X86(0x2064));
    assert_eq!(second.import_lookup_table.entries.len(), 1);
    assert_eq!(second.import_lookup_table.entries[0].name, b"beta");
    assert_eq!(second.import_lookup_table.entries[0].func_ptr_address, FuncAddress::X86(0x2070));
}

#[test]
fn a_directory_without_sentinel_gives_a_bounds_error() {
    let mut bytes = image_with_one_import();
    let directory_size = SIGNATURE_AT + 24 + 96 + 12;
    write_at(&mut bytes, directory_size, &20u32.to_le_bytes());
    let pe = PortableExecutable::parse(bytes.clone()).unwrap();
    assert_eq!(pe.get_import_table(), Err(PeError::BoundsError));

    write_at(&mut bytes, directory_size, &39u32.to_le_bytes());
    let pe = PortableExecutable::parse(bytes).unwrap();
    assert_eq!(pe.get_import_table(), Err(PeError::BoundsError));
}

#[test]
fn a_directory_that_runs_past_the_file_gives_a_bounds_error() {
    let pe = PortableExecutable::parse(image_with_one_import()).unwrap();
    let directory =
        ImageDataDirectory { virtual_address: 0x2000, size: 0x201, tag: "import_table".to_string() };
    assert_eq!(
        get_import_table(&pe.section_table, &pe.bytes, &pe.executable_type, directory),
        Err(PeError::BoundsError)
    );
}

#[test]
fn an_ordinal_entry_is_recorded_and_reads_no_name() {
    let mut bytes = image(false);
    // The low bits of the entry are no address of the image: a read of a name would fail.
    write_at(&mut bytes, 0x200, &descriptor(0x2040, 0x2060, 0x2050));
    write_at(&mut bytes, 0x240, &0x8000_0010u32.to_le_bytes());
    write_at(&mut bytes, 0x260, b"USER32.dll\0");
    let pe = PortableExecutable::parse(bytes).unwrap();
    assert_eq!(rva2foa(0x10, &pe.section_table), None);
    let imports = pe.get_import_table().unwrap();
    assert_eq!(
        imports.image_descriptors[0].import_lookup_table.entries,
        vec![ImportLookupTableEntry {
            hint: 0,
            is_ordinal: true,
            ordinal: 0x10,
            name: vec![],
            func_ptr_address: FuncAddress::X86(0x2050),
        }]
    );
}

#[test]
fn a_pe32_plus_lookup_table_has_wide_entries_and_slots() {
    let mut bytes = image(true);
    write_at(&mut bytes, 0x200, &descriptor(0x2040, 0x2080, 0x2060));
    write_at(&mut bytes, 0x240, &0x2090u64.to_le_bytes());
    write_at(&mut bytes, 0x248, &0x8000_0000_0000_0007u64.to_le_bytes());
    write_at(&mut bytes, 0x250, &0x0000_0001_0000_20a0u64.to_le_bytes());
    write_at(&mut bytes, 0x280, b"ntdll.dll\0");
    write_at(&mut bytes, 0x290, b"\x34\x12NtClose\0");
    write_at(&mut bytes, 0x2a0, b"\x01\x00NtOpenFile\0");
    let pe = PortableExecutable::parse(bytes).unwrap();
    let imports = pe.get_import_table().unwrap();
    assert_eq!(imports.image_descriptors.len(), 1);
    assert_eq!(imports.image_descriptors[0].name, "ntdll.dll");
    assert_eq!(
        imports.image_descriptors[0].import_lookup_table.entries,
        vec![
            ImportLookupTableEntry {
                hint: 0x1234,
                is_ordinal: false,
                ordinal: 0,
                name: b"NtClose".to_vec(),
                func_ptr_address: FuncAddress::X64(0x2060),
            },
            ImportLookupTableEntry {
                hint: 0,
                is_ordinal: true,
                ordinal: 7,
                name: vec![],
                func_ptr_address: FuncAddress::X64(0x2068),
            },
            ImportLookupTableEntry {
                hint: 1,
                is_ordinal: false,
                ordinal: 0,
                name: b"NtOpenFile".to_vec(),
                func_ptr_address: FuncAddress::X64(0x2070),
            },
        ]
    );
}

#[test]
fn the_thunk_table_is_read_where_there_is_no_lookup_table() {
    let mut bytes = image(false);
    write_at(&mut bytes, 0x200, &descriptor(0, 0x2060, 0x2050));
    write_at(&mut bytes, 0x250, &0x2070u32.to_le_bytes());
    write_at(&mut bytes, 0x260, b"a.dll\0");
    write_at(&mut bytes, 0x270, b"\x00\x00f\0");
    let pe = PortableExecutable::parse(bytes).unwrap();
    let imports = pe.get_import_table().unwrap();
    assert_eq!(imports.image_descriptors[0].characteristics, 0);
    assert_eq!(imports.image_descriptors[0].import_lookup_table.entries.len(), 1);
    assert_eq!(imports.image_descriptors[0].import_lookup_table.entries[0].name, b"f");
}

#[test]
fn an_address_outside_every_section_is_a_translation_failure() {
    let directory =
        ImageDataDirectory { virtual_address: 0x5000, size: 40, tag: "import_table".to_string() };
    let pe = PortableExecutable::parse(image_with_one_import()).unwrap();
    assert_eq!(
        get_import_table(&pe.section_table, &pe.bytes, &pe.executable_type, directory),
        Err(PeError::AddressTranslationFailure(0x5000))
    );

    let mut name = image_with_one_import();
    write_at(&mut name, 0x200 + 12, &0x9000u32.to_le_bytes());
    let pe = PortableExecutable::parse(name).unwrap();
    assert_eq!(pe.get_import_table(), Err(PeError::AddressTranslationFailure(0x9000)));

    let mut table = image_with_one_import();
    write_at(&mut table, 0x200, &0x1fffu32.to_le_bytes());
    let pe = PortableExecutable::parse(table).unwrap();
    assert_eq!(pe.get_import_table(), Err(PeError::AddressTranslationFailure(0x1fff)));

    let mut function = image_with_one_import();
    write_at(&mut function, 0x240, &0x7000u32.to_le_bytes());
    let pe = PortableExecutable::parse(function).unwrap();
    assert_eq!(pe.get_import_table(), Err(PeError::AddressTranslationFailure(0x7000)));
}

#[test]
fn a_slot_outside_the_address_space_is_a_translation_failure() {
    let mut bytes = image_with_one_import();
    write_at(&mut bytes, 0x200 + 16, &0xffff_fffeu32.to_le_bytes());
    write_at(&mut bytes, 0x244, &0x2070u32.to_le_bytes());
    let pe = PortableExecutable::parse(bytes).unwrap();
    assert_eq!(pe.get_import_table(), Err(PeError::AddressTranslationFailure(0xffff_fffe)));
}

#[test]
fn a_library_name_that_is_not_utf8_is_an_encoding_error() {
    let mut bytes = image_with_one_import();
    write_at(&mut bytes, 0x260, &[0xc3, 0x28, 0]);
    let pe = PortableExecutable::parse(bytes).unwrap();
    assert_eq!(pe.get_import_table(), Err(PeError::EncodingError));
}

#[test]
fn names_and_tables_without_end_give_a_bounds_error() {
    let mut name = image_with_one_import();
    for byte in name[0x270..].iter_mut() {
        *byte = b'x';
    }
    let pe = PortableExecutable::parse(name).unwrap();
    assert_eq!(pe.get_import_table(), Err(PeError::BoundsError));

    let mut table = image_with_one_import();
    for byte in table[0x240..].iter_mut() {
        *byte = 0x80;
    }
    write_at(&mut table, 0x200 + 12, &0x2030u32.to_le_bytes());
    write_at(&mut table, 0x230, b"KERNEL32.dll\0");
    let pe = PortableExecutable::parse(table).unwrap();
    assert_eq!(pe.get_import_table(), Err(PeError::BoundsError));
}

#[test]
fn the_idata_section_can_stand_for_the_import_directory() {
    let pe = PortableExecutable::parse(image_with_one_import()).unwrap();
    let by_section = pe.section_table.get_import_table(&pe.bytes, &pe.executable_type);
    assert_eq!(by_section, pe.get_import_table());

    let mut renamed = image_with_one_import();
    write_at(&mut renamed, headers_end(false) - 40, b".rdata\0\0");
    let pe = PortableExecutable::parse(renamed).unwrap();
    assert_eq!(
        pe.section_table.get_import_table(&pe.bytes, &pe.executable_type),
        Err(PeError::MissingSection)
    );
    assert!(pe.get_import_table().is_ok());
}

#[test]
fn a_name_that_is_not_utf8_is_shown_as_nameless() {
    let entry = ImportLookupTableEntry {
        hint: 0,
        is_ordinal: false,
        ordinal: 0,
        name: vec![0xff, 0x41],
        func_ptr_address: FuncAddress::X64(0),
    };
    assert_eq!(entry.name(), "[NAMELESS]");
    let entry = ImportLookupTableEntry { name: "Grüße".as_bytes().to_vec(), ..entry };
    assert_eq!(entry.name(), "Grüße");
}
