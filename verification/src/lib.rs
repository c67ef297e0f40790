//! Structural parser for Portable Executable (PE/COFF) images.
//!
//! An image is a byte buffer. The parser decodes its header chain, its section
//! table and, on demand, its import directory, and maps relative virtual
//! addresses to file offsets. Nothing is loaded or executed.

pub mod pe;
pub mod util;
