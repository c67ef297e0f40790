//! What holds of every image: the shape of what `parse` returns, how it fails
//! on buffers that are cut short or hold no signature, and the order in
//! which section tables and import directories hold what they were read from.

use crate::pe::coff::{coff_header_at, CoffHeader, COFF_HEADER_SIZE};
use crate::pe::import_table::{
    descriptor_at, descriptors_at, imports_by_ordinal, is_sentinel, lookup_entry_of,
    lookup_table_at, slot_address, thunk_at, ImageImportDescriptorView,
    ImportLookupTableEntryView, IMPORT_DESCRIPTOR_SIZE,
};
use crate::pe::optional_header::{optional_header_at, ExecutableKind};
use crate::pe::section_table::{
    section_header_at, section_headers_at, SectionHeaderView, SECTION_HEADER_SIZE,
};
use crate::pe::{
    find_signature_from, image_of, lemma_find_signature_is_first, PeError, PE_SIGNATURE,
};
use crate::util::{le_u16, le_u32};
use vstd::prelude::*;

verus! {

/// A section table that parses has as many headers as were asked for.
pub proof fn lemma_section_headers_count(b: Seq<u8>, at: int, count: nat)
    ensures
        section_headers_at(b, at, count) matches Ok(headers) ==> headers.len() == count,
    decreases count,
{
    if count > 0 {
        lemma_section_headers_count(b, at + SECTION_HEADER_SIZE, (count - 1) as nat);
    }
}

/// An optional header that parses is well formed. In particular the base of
/// data is present in a PE32 header and absent from a PE32+ header.
pub proof fn lemma_optional_header_is_well_formed(b: Seq<u8>, at: int)
    ensures
        optional_header_at(b, at) matches Ok(header) ==> {
            &&& header.wf()
            &&& header.std_fields.magic == ExecutableKind::PE32
                ==> header.std_fields.base_of_data is Some
            &&& header.std_fields.magic == ExecutableKind::PE32_PLUS
                ==> header.std_fields.base_of_data is None
        },
{
}

/// An image that parses is well formed: its section table has as many
/// headers as its file header counts, its kind is that of its optional
/// header, and the base of data is present exactly in a PE32 image.
pub proof fn lemma_image_is_well_formed(b: Seq<u8>)
    ensures
        image_of(b) matches Ok(image) ==> {
            &&& image.wf()
            &&& image.section_table.len() == image.nt_headers.file_header.number_of_sections
            &&& image.executable_type == ExecutableKind::PE32
                <==> image.nt_headers.opt_header.std_fields.base_of_data is Some
            &&& image.bytes == b
        },
{
    if let Ok(image) = image_of(b) {
        let at = find_signature_from(b, 2).unwrap();
        let magic = image.nt_headers.opt_header.std_fields.magic;
        lemma_optional_header_is_well_formed(b, at + 4 + COFF_HEADER_SIZE);
        lemma_section_headers_count(
            b,
            at + 4 + COFF_HEADER_SIZE + magic.header_size(),
            image.nt_headers.file_header.number_of_sections as nat,
        );
    }
}

/// A buffer of two bytes or more that holds the signature nowhere is refused
/// for want of a signature.
pub proof fn lemma_no_signature(b: Seq<u8>)
    requires
        b.len() >= 2,
        forall|k: int| 0 <= k && k + 4 <= b.len() ==> le_u32(b, k) != PE_SIGNATURE,
    ensures
        image_of(b) matches Err(e) && e == PeError::SignatureNotFound,
{
    lemma_find_signature_is_first(b, 2);
}

/// The number of bytes from the start of an image that parses to the end of
/// its section table.
pub open spec fn headers_end(b: Seq<u8>) -> int
    recommends
        image_of(b) is Ok,
{
    let image = image_of(b).unwrap();
    find_signature_from(b, 2).unwrap() + 4 + COFF_HEADER_SIZE
        + image.nt_headers.opt_header.std_fields.magic.header_size() + SECTION_HEADER_SIZE
        * image.section_table.len()
}

/// A word that lies inside a prefix of a buffer is the same in both.
proof fn lemma_prefix_words(b: Seq<u8>, cut: int, at: int)
    requires
        0 <= at,
        0 <= cut <= b.len(),
    ensures
        at + 2 <= cut ==> le_u16(b.subrange(0, cut), at) == le_u16(b, at),
        at + 4 <= cut ==> le_u32(b.subrange(0, cut), at) == le_u32(b, at),
{
}

/// The file header of a buffer that is cut short: unchanged where the cut
/// comes behind it, and missing for want of bytes where it comes before.
proof fn lemma_truncated_coff_header(b: Seq<u8>, cut: int, at: int)
    requires
        0 <= at,
        0 <= cut <= b.len(),
        coff_header_at(b, at) is Ok,
    ensures
        at + COFF_HEADER_SIZE <= cut ==> coff_header_at(b.subrange(0, cut), at) == coff_header_at(
            b,
            at,
        ),
        at + COFF_HEADER_SIZE > cut ==> coff_header_at(b.subrange(0, cut), at) == Err::<
            CoffHeader,
            PeError,
        >(PeError::BoundsError),
{
    lemma_prefix_words(b, cut, at);
    lemma_prefix_words(b, cut, at + 2);
    lemma_prefix_words(b, cut, at + 4);
    lemma_prefix_words(b, cut, at + 8);
    lemma_prefix_words(b, cut, at + 12);
    lemma_prefix_words(b, cut, at + 16);
    lemma_prefix_words(b, cut, at + 18);
}

/// The optional header of a buffer that is cut short: of the same kind where
/// the cut comes behind it, and missing for want of bytes where it comes before.
proof fn lemma_truncated_optional_header(b: Seq<u8>, cut: int, at: int)
    requires
        0 <= at,
        0 <= cut <= b.len(),
        optional_header_at(b, at) is Ok,
    ensures
        at + optional_header_at(b, at).unwrap().std_fields.magic.header_size() <= cut ==> (
        optional_header_at(b.subrange(0, cut), at) matches Ok(header) && header.std_fields.magic
            == optional_header_at(b, at).unwrap().std_fields.magic),
        at + optional_header_at(b, at).unwrap().std_fields.magic.header_size() > cut ==> (
        optional_header_at(b.subrange(0, cut), at) matches Err(e) && e == PeError::BoundsError),
{
    lemma_prefix_words(b, cut, at);
    lemma_prefix_words(b, cut, at + 68);
}

/// The section table of a buffer that is cut short inside it cannot be read,
/// for want of bytes.
proof fn lemma_truncated_section_headers(b: Seq<u8>, cut: int, at: int, count: nat)
    requires
        0 <= at,
        0 <= cut <= b.len(),
        count > 0,
        cut < at + SECTION_HEADER_SIZE * count,
        section_headers_at(b, at, count) is Ok,
    ensures
        section_headers_at(b.subrange(0, cut), at, count) matches Err(e) && e
            == PeError::BoundsError,
    decreases count,
{
    let p = b.subrange(0, cut);
    if at + 8 <= cut {
        assert(p.subrange(at, at + 8) =~= b.subrange(at, at + 8));
        if at + SECTION_HEADER_SIZE <= cut {
            lemma_truncated_section_headers(
                b,
                cut,
                at + SECTION_HEADER_SIZE,
                (count - 1) as nat,
            );
        }
    }
}

/// The signature of a buffer that is cut short behind it is found where it was.
proof fn lemma_truncated_signature(b: Seq<u8>, cut: int)
    requires
        find_signature_from(b, 2) is Some,
        find_signature_from(b, 2).unwrap() + 4 <= cut <= b.len(),
    ensures
        find_signature_from(b.subrange(0, cut), 2) == find_signature_from(b, 2),
{
    let p = b.subrange(0, cut);
    let at = find_signature_from(b, 2).unwrap();
    lemma_find_signature_is_first(b, 2);
    lemma_find_signature_is_first(p, 2);
    lemma_prefix_words(b, cut, at);
    match find_signature_from(p, 2) {
        Some(other) => {
            lemma_prefix_words(b, cut, other);
        },
        None => {},
    }
}

/// A buffer that parses, cut short behind its signature and before the end of
/// its section table, is refused for want of bytes.
pub proof fn lemma_truncated_image(b: Seq<u8>, cut: int)
    requires
        image_of(b) is Ok,
        find_signature_from(b, 2).unwrap() + 4 <= cut < headers_end(b),
    ensures
        image_of(b.subrange(0, cut)) matches Err(e) && e == PeError::BoundsError,
{
    let image = image_of(b).unwrap();
    let at = find_signature_from(b, 2).unwrap();
    let magic = image.nt_headers.opt_header.std_fields.magic;
    let count = image.nt_headers.file_header.number_of_sections as nat;
    lemma_find_signature_is_first(b, 2);
    lemma_section_headers_count(b, at + 4 + COFF_HEADER_SIZE + magic.header_size(), count);
    assert(cut <= b.len()) by {
        if count > 0 {
            assert(section_header_at(
                b,
                at + 4 + COFF_HEADER_SIZE + magic.header_size() + SECTION_HEADER_SIZE * (count
                    - 1),
            ) is Ok) by {
                lemma_section_headers_in_file_order(
                    b,
                    at + 4 + COFF_HEADER_SIZE + magic.header_size(),
                    count,
                    count - 1,
                );
            }
        }
    }
    lemma_truncated_signature(b, cut);
    lemma_truncated_coff_header(b, cut, at + 4);
    lemma_truncated_optional_header(b, cut, at + 4 + COFF_HEADER_SIZE);
    if at + 4 + COFF_HEADER_SIZE + magic.header_size() <= cut {
        lemma_truncated_section_headers(
            b,
            cut,
            at + 4 + COFF_HEADER_SIZE + magic.header_size(),
            count,
        );
    }
}

/// A section table that parses holds its headers in file order: the header
/// at each index is the one that stands at that place in the file.
pub proof fn lemma_section_headers_in_file_order(b: Seq<u8>, at: int, count: nat, index: int)
    requires
        0 <= index < count,
        section_headers_at(b, at, count) is Ok,
    ensures
        section_headers_at(b, at, count).unwrap().len() == count,
        section_header_at(b, at + SECTION_HEADER_SIZE * index) == Ok::<SectionHeaderView, PeError>(
            section_headers_at(b, at, count).unwrap()[index],
        ),
    decreases count,
{
    lemma_section_headers_count(b, at, count);
    lemma_section_headers_count(b, at + SECTION_HEADER_SIZE, (count - 1) as nat);
    if index > 0 {
        lemma_section_headers_in_file_order(
            b,
            at + SECTION_HEADER_SIZE,
            (count - 1) as nat,
            index - 1,
        );
    }
}

/// A lookup table that parses ends at its first zero entry, and holds one
/// import for each entry before it, in file order. The slot of the import at
/// `index` lies `index` entries behind the first slot.
pub proof fn lemma_lookup_table_in_file_order(
    b: Seq<u8>,
    sections: Seq<SectionHeaderView>,
    kind: ExecutableKind,
    at: int,
    first_thunk: u32,
    slot: int,
    index: int,
)
    requires
        0 <= slot,
        lookup_table_at(b, sections, kind, at, first_thunk, slot) is Ok,
        0 <= index <= lookup_table_at(b, sections, kind, at, first_thunk, slot).unwrap().len(),
    ensures
        ({
            let entries = lookup_table_at(b, sections, kind, at, first_thunk, slot).unwrap();
            let here = at + kind.word_size() * index;
            &&& 0 <= here && here + kind.word_size() <= b.len()
            &&& index == entries.len() ==> thunk_at(b, here, kind) == 0
            &&& index < entries.len() ==> {
                &&& thunk_at(b, here, kind) != 0
                &&& slot_address(kind, slot + kind.word_size() * index) == Some(
                    entries[index].func_ptr_address,
                )
                &&& lookup_entry_of(
                    b,
                    sections,
                    kind,
                    thunk_at(b, here, kind),
                    entries[index].func_ptr_address,
                ) == Ok::<ImportLookupTableEntryView, PeError>(entries[index])
                &&& entries[index].is_ordinal == imports_by_ordinal(kind, thunk_at(b, here, kind))
            }
        }),
    decreases index,
{
    let w = kind.word_size();
    if index > 0 {
        lemma_lookup_table_in_file_order(
            b,
            sections,
            kind,
            at + w,
            first_thunk,
            slot + w,
            index - 1,
        );
        assert(at + w + w * (index - 1) == at + w * index) by (nonlinear_arith);
        assert(slot + w + w * (index - 1) == slot + w * index) by (nonlinear_arith);
    }
}

/// An import directory that parses ends at its first descriptor of zeros,
/// which lies inside the directory, and holds one library for each descriptor
/// before it, in file order.
pub proof fn lemma_descriptors_in_file_order(
    b: Seq<u8>,
    sections: Seq<SectionHeaderView>,
    kind: ExecutableKind,
    at: int,
    end: int,
    index: int,
)
    requires
        descriptors_at(b, sections, kind, at, end) is Ok,
        0 <= index <= descriptors_at(b, sections, kind, at, end).unwrap().len(),
    ensures
        ({
            let libraries = descriptors_at(b, sections, kind, at, end).unwrap();
            let here = at + IMPORT_DESCRIPTOR_SIZE * index;
            &&& 0 <= here && here + IMPORT_DESCRIPTOR_SIZE <= end
            &&& index == libraries.len() ==> is_sentinel(b, here)
            &&& index < libraries.len() ==> {
                &&& !is_sentinel(b, here)
                &&& descriptor_at(b, sections, kind, here) == Ok::<
                    ImageImportDescriptorView,
                    PeError,
                >(libraries[index])
            }
        }),
    decreases index,
{
    if index > 0 {
        lemma_descriptors_in_file_order(
            b,
            sections,
            kind,
            at + IMPORT_DESCRIPTOR_SIZE,
            end,
            index - 1,
        );
    }
}

} // verus!
