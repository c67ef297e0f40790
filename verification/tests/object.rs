use solaire::pe::object::{
    CoffRelocation, LineNumber, SectionNumber, StandardSymbolRecord, StorageClass, SymbolName,
    SymbolTableRecord, SymbolType, TypeIndicatorX64,
};
use solaire::pe::pdata::ExportTableEntryX64;
use solaire::pe::section_table::{SectionFlags, SectionHeader, SectionTable};
use solaire::pe::PeError;

fn section(name: &str) -> SectionHeader {
    SectionHeader {
        name: name.to_string(),
        virtual_size: 0,
        virtual_address: 0,
        size_of_raw_data: 0,
        ptr_to_raw_data: 0,
        ptr_to_relocations: 0,
        ptr_to_linenumbers: 0,
        number_of_relocations: 0,
        number_of_linenumbers: 0,
        characteristics: SectionFlags { bits: 0 },
    }
}

fn relocation(virtual_address: u32, symbol: u32, kind: u16) -> Vec<u8> {
    let mut bytes = virtual_address.to_le_bytes().to_vec();
    bytes.extend_from_slice(&symbol.to_le_bytes());
    bytes.extend_from_slice(&kind.to_le_bytes());
    bytes
}

fn symbol(section_number: i16, symbol_type: u16, storage_class: u8) -> Vec<u8> {
    let mut bytes = 0x7478_742eu32.to_le_bytes().to_vec();
    bytes.extend_from_slice(&0x1122u16.to_le_bytes());
    bytes.extend_from_slice(&0x3344u16.to_le_bytes());
    bytes.extend_from_slice(&0x5566_7788u32.to_le_bytes());
    bytes.extend_from_slice(&section_number.to_le_bytes());
    bytes.extend_from_slice(&symbol_type.to_le_bytes());
    bytes.push(storage_class);
    bytes.push(3);
    bytes
}

fn record(section_number: SectionNumber, symbol_type: SymbolType, storage_class: StorageClass) -> StandardSymbolRecord {
    StandardSymbolRecord {
        name: SymbolName { short_name: 0x7478_742e, zeroes: 0x1122, offset: 0x3344 },
        value: 0x5566_7788,
        section_number,
        symbol_type,
        storage_class,
        number_of_aux_symbols: 3,
    }
}

#[test]
fn relocations_are_read_as_many_as_the_header_counts() {
    let mut memory = vec![0xee; 6];
    memory.extend(relocation(0x10, 1, 4));
    memory.extend(relocation(0, 2, 0x10));
    memory.extend(relocation(0x30, 3, 0));
    let mut header = section(".text");
    header.ptr_to_relocations = 6;
    header.number_of_relocations = 3;
    assert_eq!(
        header.coff_relocations(&memory),
        Ok(vec![
            CoffRelocation {
                virtual_address: 0x10,
                symbol_table_index: 1,
                type_indicator: TypeIndicatorX64::IMAGE_REL_AMD64_REL32,
            },
            CoffRelocation {
                virtual_address: 0,
                symbol_table_index: 2,
                type_indicator: TypeIndicatorX64::IMAGE_REL_AMD64_SSPAN32,
            },
            CoffRelocation {
                virtual_address: 0x30,
                symbol_table_index: 3,
                type_indicator: TypeIndicatorX64::IMAGE_REL_AMD64_ABSOLUTE,
            },
        ])
    );
    header.number_of_relocations = 0;
    assert_eq!(header.coff_relocations(&memory), Ok(vec![]));
    header.number_of_relocations = 4;
    assert_eq!(header.coff_relocations(&memory), Err(PeError::BoundsError));
    header.number_of_relocations = 1;
    header.ptr_to_relocations = 27;
    assert_eq!(header.coff_relocations(&memory), Err(PeError::BoundsError));
}

#[test]
fn a_relocation_of_unknown_type_is_refused_with_its_code() {
    let mut memory = relocation(0x10, 1, 4);
    memory.extend(relocation(0x20, 2, 0x11));
    memory.extend(relocation(0x30, 3, 0x55));
    let mut header = section(".text");
    header.number_of_relocations = 3;
    assert_eq!(header.coff_relocations(&memory), Err(PeError::InvalidEnumValue(0x11)));
    assert_eq!(header.get_coff_relocations(&memory), Err(PeError::InvalidEnumValue(0x11)));
    header.number_of_relocations = 1;
    assert_eq!(header.coff_relocations(&memory).map(|r| r.len()), Ok(1));
}

#[test]
fn relocations_up_to_a_blank_record_stop_there() {
    let mut memory = relocation(0x10, 1, 4);
    memory.extend(relocation(0x0001_0000, 2, 5));
    memory.extend(relocation(0x30, 3, 6));
    let mut header = section(".text");
    header.number_of_relocations = 3;
    assert_eq!(
        header.get_coff_relocations(&memory),
        Ok(vec![CoffRelocation {
            virtual_address: 0x10,
            symbol_table_index: 1,
            type_indicator: TypeIndicatorX64::IMAGE_REL_AMD64_REL32,
        }])
    );
    assert_eq!(header.coff_relocations(&memory).map(|r| r.len()), Ok(3));

    header.ptr_to_relocations = 20;
    header.number_of_relocations = 1;
    assert_eq!(header.get_coff_relocations(&memory).map(|r| r.len()), Ok(1));
    header.number_of_relocations = 2;
    assert_eq!(header.get_coff_relocations(&memory), Err(PeError::BoundsError));
    header.ptr_to_relocations = 10;
    assert_eq!(header.get_coff_relocations(&memory), Ok(vec![]));
    header.ptr_to_relocations = 29;
    assert_eq!(header.get_coff_relocations(&memory), Err(PeError::BoundsError));
    header.number_of_relocations = 0;
    assert_eq!(header.get_coff_relocations(&memory), Ok(vec![]));
}

#[test]
fn every_relocation_code_has_its_type() {
    assert_eq!(TypeIndicatorX64::try_from(0), Ok(TypeIndicatorX64::IMAGE_REL_AMD64_ABSOLUTE));
    assert_eq!(TypeIndicatorX64::try_from(1), Ok(TypeIndicatorX64::IMAGE_REL_AMD64_ADDR64));
    assert_eq!(TypeIndicatorX64::try_from(3), Ok(TypeIndicatorX64::IMAGE_REL_AMD64_ADDR32NB));
    assert_eq!(TypeIndicatorX64::try_from(9), Ok(TypeIndicatorX64::IMAGE_REL_AMD64_REL32_5));
    assert_eq!(TypeIndicatorX64::try_from(0xa), Ok(TypeIndicatorX64::IMAGE_REL_AMD64_SECTION));
    assert_eq!(TypeIndicatorX64::try_from(0xf), Ok(TypeIndicatorX64::IMAGE_REL_AMD64_PAIR));
    assert_eq!(TypeIndicatorX64::try_from(0x10), Ok(TypeIndicatorX64::IMAGE_REL_AMD64_SSPAN32));
    for code in 0x11..=u16::MAX {
        assert_eq!(TypeIndicatorX64::try_from(code), Err(PeError::InvalidEnumValue(code)));
    }
    for code in 0..=0x10 {
        assert!(TypeIndicatorX64::try_from(code).is_ok());
    }
}

#[test]
fn line_numbers_are_read_as_many_as_the_header_counts() {
    let mut memory = vec![0xee; 2];
    for (kind, line) in [(0x1000u32, 1u16), (0x1008, 2), (7, 0)] {
        memory.extend_from_slice(&kind.to_le_bytes());
        memory.extend_from_slice(&line.to_le_bytes());
    }
    let mut header = section(".text");
    header.ptr_to_linenumbers = 2;
    header.number_of_linenumbers = 3;
    assert_eq!(
        header.coff_line_numbers(&memory),
        Ok(vec![
            LineNumber { type_value: 0x1000, linenumber: 1 },
            LineNumber { type_value: 0x1008, linenumber: 2 },
            LineNumber { type_value: 7, linenumber: 0 },
        ])
    );
    header.number_of_linenumbers = 4;
    assert_eq!(header.coff_line_numbers(&memory), Err(PeError::BoundsError));
    header.number_of_linenumbers = 0;
    header.ptr_to_linenumbers = 20;
    assert_eq!(header.coff_line_numbers(&memory), Ok(vec![]));
    header.ptr_to_linenumbers = 21;
    assert_eq!(header.coff_line_numbers(&memory), Err(PeError::BoundsError));
}

#[test]
fn symbol_records_are_read_as_many_as_the_section_has_relocations() {
    let mut memory = vec![0xee; 4];
    memory.extend(symbol(0, 0x20, 2));
    memory.extend(symbol(-1, 0, 3));
    memory.extend(symbol(-2, 15, 0xff));
    let mut header = section(".text");
    header.number_of_relocations = 3;
    assert_eq!(
        header.coff_symbol_table(&memory, 4),
        Ok(vec![
            SymbolTableRecord::Standard(record(
                SectionNumber::IMAGE_SYM_UNDEFINED,
                SymbolType::FUNCTION,
                StorageClass::IMAGE_SYM_CLASS_EXTERNAL,
            )),
            SymbolTableRecord::Standard(record(
                SectionNumber::IMAGE_SYM_ABSOLUTE,
                SymbolType::IMAGE_SYM_TYPE_NULL,
                StorageClass::IMAGE_SYM_CLASS_STATIC,
            )),
            SymbolTableRecord::Standard(record(
                SectionNumber::IMAGE_SYM_DEBUG,
                SymbolType::IMAGE_SYM_TYPE_DWORD,
                StorageClass::IMAGE_SYM_CLASS_END_OF_FUNCTION,
            )),
        ])
    );
    assert_eq!(header.coff_symbol_table(&memory, 5), Err(PeError::BoundsError));
    header.number_of_relocations = 0;
    assert_eq!(header.coff_symbol_table(&memory, 58), Ok(vec![]));
    assert_eq!(header.coff_symbol_table(&memory, 59), Err(PeError::BoundsError));
}

#[test]
fn a_symbol_record_with_an_unknown_code_is_refused_with_the_code() {
    let mut header = section(".text");
    header.number_of_relocations = 1;
    assert_eq!(
        header.coff_symbol_table(&symbol(1, 0x21, 19), 0),
        Err(PeError::InvalidEnumValue(1))
    );
    assert_eq!(
        header.coff_symbol_table(&symbol(-3, 0x21, 19), 0),
        Err(PeError::InvalidEnumValue(0xfffd))
    );
    assert_eq!(
        header.coff_symbol_table(&symbol(0, 0x21, 19), 0),
        Err(PeError::InvalidEnumValue(0x21))
    );
    assert_eq!(
        header.coff_symbol_table(&symbol(0, 0x20, 19), 0),
        Err(PeError::InvalidEnumValue(19))
    );
}

#[test]
fn section_numbers_symbol_types_and_storage_classes_are_closed_sets() {
    assert_eq!(SectionNumber::try_from(0), Ok(SectionNumber::IMAGE_SYM_UNDEFINED));
    assert_eq!(SectionNumber::try_from(-1), Ok(SectionNumber::IMAGE_SYM_ABSOLUTE));
    assert_eq!(SectionNumber::try_from(-2), Ok(SectionNumber::IMAGE_SYM_DEBUG));
    assert_eq!(SectionNumber::try_from(1), Err(PeError::InvalidEnumValue(1)));
    assert_eq!(SectionNumber::try_from(i16::MAX), Err(PeError::InvalidEnumValue(0x7fff)));
    assert_eq!(SectionNumber::try_from(i16::MIN), Err(PeError::InvalidEnumValue(0x8000)));
    assert_eq!(SectionNumber::try_from(-3), Err(PeError::InvalidEnumValue(0xfffd)));

    assert_eq!(SymbolType::try_from(0), Ok(SymbolType::IMAGE_SYM_TYPE_NULL));
    assert_eq!(SymbolType::try_from(7), Ok(SymbolType::IMAGE_SYM_TYPE_DOUBLE));
    assert_eq!(SymbolType::try_from(15), Ok(SymbolType::IMAGE_SYM_TYPE_DWORD));
    assert_eq!(SymbolType::try_from(0x20), Ok(SymbolType::FUNCTION));
    assert_eq!(SymbolType::try_from(16), Err(PeError::InvalidEnumValue(16)));
    assert_eq!(SymbolType::try_from(0x21), Err(PeError::InvalidEnumValue(0x21)));

    assert_eq!(StorageClass::try_from(0xff), Ok(StorageClass::IMAGE_SYM_CLASS_END_OF_FUNCTION));
    assert_eq!(StorageClass::try_from(0), Ok(StorageClass::IMAGE_SYM_CLASS_NULL));
    assert_eq!(StorageClass::try_from(2), Ok(StorageClass::IMAGE_SYM_CLASS_EXTERNAL));
    assert_eq!(StorageClass::try_from(18), Ok(StorageClass::IMAGE_SYM_CLASS_BIT_FIELD));
    assert_eq!(StorageClass::try_from(100), Ok(StorageClass::IMAGE_SYM_CLASS_BLOCK));
    assert_eq!(StorageClass::try_from(105), Ok(StorageClass::IMAGE_SYM_CLASS_WEAK_EXTERNAL));
    assert_eq!(StorageClass::try_from(107), Ok(StorageClass::IMAGE_SYM_CLASS_CLR_TOKEN));
    assert_eq!(StorageClass::try_from(19), Err(PeError::InvalidEnumValue(19)));
    assert_eq!(StorageClass::try_from(106), Err(PeError::InvalidEnumValue(106)));
    assert_eq!(StorageClass::try_from(254), Err(PeError::InvalidEnumValue(254)));
    let accepted = (0..=u8::MAX).filter(|code| StorageClass::try_from(*code).is_ok()).count();
    assert_eq!(accepted, 27);
    let accepted = (0..=u16::MAX).filter(|code| SymbolType::try_from(*code).is_ok()).count();
    assert_eq!(accepted, 17);
}

#[test]
fn a_function_definition_is_external_of_function_type_and_defined() {
    let function = record(
        SectionNumber::IMAGE_SYM_ABSOLUTE,
        SymbolType::FUNCTION,
        StorageClass::IMAGE_SYM_CLASS_EXTERNAL,
    );
    assert!(function.is_function_definition());
    assert!(StandardSymbolRecord { section_number: SectionNumber::IMAGE_SYM_DEBUG, ..function }
        .is_function_definition());
    assert!(!StandardSymbolRecord { section_number: SectionNumber::IMAGE_SYM_UNDEFINED, ..function }
        .is_function_definition());
    assert!(!StandardSymbolRecord { symbol_type: SymbolType::IMAGE_SYM_TYPE_NULL, ..function }
        .is_function_definition());
    assert!(!StandardSymbolRecord { storage_class: StorageClass::IMAGE_SYM_CLASS_STATIC, ..function }
        .is_function_definition());
}

#[test]
fn the_function_table_is_read_up_to_its_entry_of_zeros() {
    let mut bytes = vec![0xee; 8];
    for value in [0x1000u32, 0x1040, 0x3000, 0x1040, 0x10a0, 0x300c, 0, 0, 0, 9, 9, 9] {
        bytes.extend_from_slice(&value.to_le_bytes());
    }
    let mut pdata = section(".pdata\0\0");
    pdata.ptr_to_raw_data = 8;
    pdata.size_of_raw_data = 48;
    let table = SectionTable { section_headers: vec![section(".text\0\0\0"), pdata.clone()] };
    assert_eq!(
        table.get_export_table_x64(&bytes),
        Ok(vec![
            ExportTableEntryX64 { begin_address: 0x1000, end_address: 0x1040, unwind_info_address: 0x3000 },
            ExportTableEntryX64 { begin_address: 0x1040, end_address: 0x10a0, unwind_info_address: 0x300c },
        ])
    );

    pdata.size_of_raw_data = 36;
    let table = SectionTable { section_headers: vec![pdata.clone()] };
    assert_eq!(table.get_export_table_x64(&bytes).map(|t| t.len()), Ok(2));
    pdata.size_of_raw_data = 35;
    let table = SectionTable { section_headers: vec![pdata.clone()] };
    assert_eq!(table.get_export_table_x64(&bytes), Err(PeError::BoundsError));
    pdata.size_of_raw_data = 49;
    let table = SectionTable { section_headers: vec![pdata.clone()] };
    assert_eq!(table.get_export_table_x64(&bytes), Err(PeError::BoundsError));
    pdata.ptr_to_raw_data = 32;
    pdata.size_of_raw_data = 12;
    let table = SectionTable { section_headers: vec![pdata] };
    assert_eq!(table.get_export_table_x64(&bytes), Ok(vec![]));
    let table = SectionTable { section_headers: vec![section(".text\0\0\0")] };
    assert_eq!(table.get_export_table_x64(&bytes), Err(PeError::MissingSection));
}
