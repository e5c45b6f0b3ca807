//! Address-space reconstruction and session rules for replaying a processor
//! trace against an executable image.
//!
//! `program_header` models the segment table of an executable, `elf_executable_page_cache`
//! builds and serves the page map, `relocation` proves what that map holds and how
//! it moves with the runtime base, `decoder_result` classifies the outcome of a
//! decode, and `session` holds the rules a decoding session applies to its inputs.

pub mod decoder_result;
pub mod elf_executable_page_cache;
pub mod program_header;
pub mod relocation;
pub mod session;

pub use session::PT_TRACE_END;
