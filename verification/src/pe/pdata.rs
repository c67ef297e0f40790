//! The function table of a 64-bit image, kept in its `.pdata` section.

use crate::pe::section_table::{
    find_section, lemma_find_section_is_first, prepend, SectionHeaderView, SectionTable,
};
use crate::pe::PeError;
use crate::util::{le_u32, u32_at};
use vstd::prelude::*;

verus! {

/// The number of bytes of a function table entry.
pub const FUNCTION_ENTRY_SIZE: usize = 12;

/// One entry of the function table: where a function begins and ends, and
/// where its unwind information lies.
#[derive(Debug, Clone, Copy, PartialEq, Eq, Structural)]
pub struct ExportTableEntryX64 {
    pub begin_address: u32,
    pub end_address: u32,
    pub unwind_info_address: u32,
}

/// The function table entry that the twelve bytes of `b` at `at` hold.
pub open spec fn function_entry_at(b: Seq<u8>, at: int) -> ExportTableEntryX64 {
    ExportTableEntryX64 {
        begin_address: le_u32(b, at),
        end_address: le_u32(b, at + 4),
        unwind_info_address: le_u32(b, at + 8),
    }
}

/// The entries that follow one another from `at` on, up to the entry of
/// zeros, which must come before `end`.
pub open spec fn function_entries_at(b: Seq<u8>, at: int, end: int) -> Result<
    Seq<ExportTableEntryX64>,
    PeError,
>
    decreases end - at,
{
    let entry = function_entry_at(b, at);
    if at < 0 || at + FUNCTION_ENTRY_SIZE > end {
        Err(PeError::BoundsError)
    } else if entry.begin_address == 0 && entry.end_address == 0 && entry.unwind_info_address
        == 0 {
        Ok(Seq::empty())
    } else {
        prepend(seq![entry], function_entries_at(b, at + FUNCTION_ENTRY_SIZE, end))
    }
}

/// The function table of the image `b`: the entries in the raw data of its
/// `.pdata` section.
pub open spec fn function_table_of(b: Seq<u8>, sections: Seq<SectionHeaderView>) -> Result<
    Seq<ExportTableEntryX64>,
    PeError,
> {
    match find_section(sections, ".pdata"@) {
        None => Err(PeError::MissingSection),
        Some(i) => if !sections[i].raw_data_fits(b.len() as int) {
            Err(PeError::BoundsError)
        } else {
            function_entries_at(
                b,
                sections[i].ptr_to_raw_data as int,
                sections[i].ptr_to_raw_data + sections[i].size_of_raw_data,
            )
        },
    }
}

impl SectionTable {
    /// Reads the function table of a 64-bit image from the raw data of its
    /// `.pdata` section in the file `bytes`.
    pub fn get_export_table_x64(&self, bytes: &Vec<u8>) -> (r: Result<
        Vec<ExportTableEntryX64>,
        PeError,
    >)
        ensures
            match function_table_of(bytes@, self@) {
                Ok(entries) => r matches Ok(v) && v@ == entries,
                Err(error) => r matches Err(e) && e == error,
            },
    {
        let header = match self.get_section_header(".pdata") {
            Some(header) => header,
            None => {
                return Err(PeError::MissingSection);
            },
        };
        proof {
            lemma_find_section_is_first(self@, ".pdata"@, 0);
        }
        let start = header.ptr_to_raw_data as u64;
        let stop = start + header.size_of_raw_data as u64;
        if stop > bytes.len() as u64 {
            return Err(PeError::BoundsError);
        }
        let end = stop as usize;
        let mut at: usize = start as usize;
        let mut entries: Vec<ExportTableEntryX64> = Vec::new();
        loop
            invariant
                at <= end <= bytes@.len() <= usize::MAX,
                function_table_of(bytes@, self@) == function_entries_at(
                    bytes@,
                    start as int,
                    end as int,
                ),
                function_entries_at(bytes@, start as int, end as int) == prepend(
                    entries@,
                    function_entries_at(bytes@, at as int, end as int),
                ),
            decreases end - at,
        {
            let ghost done = entries@;
            if end - at < FUNCTION_ENTRY_SIZE {
                return Err(PeError::BoundsError);
            }
            let entry = ExportTableEntryX64 {
                begin_address: u32_at(bytes.as_slice(), at)?,
                end_address: u32_at(bytes.as_slice(), at + 4)?,
                unwind_info_address: u32_at(bytes.as_slice(), at + 8)?,
            };
            if entry.begin_address == 0 && entry.end_address == 0 && entry.unwind_info_address
                == 0 {
                return Ok(entries);
            }
            proof {
                let rest = function_entries_at(bytes@, at + FUNCTION_ENTRY_SIZE, end as int);
                if let Ok(tail) = rest {
                    assert(done + (seq![entry] + tail) =~= done.push(entry) + tail);
                }
            }
            entries.push(entry);
            at = at + FUNCTION_ENTRY_SIZE;
        }
    }
}

} // verus!
