//! The program-page operation's verified half.
//!
//! Programming a page is a direct pass-through to the ROM routine: a
//! buffer pointer, the target address and a 32-bit byte count go in,
//! a status word comes out. No alignment or write-once check is made
//! at this layer — an address the driver rejects comes back as a
//! non-zero status. The library's part is marshalling the byte count
//! and translating the status (`crate::status::status_to_result`).

use vstd::prelude::*;

verus! {

/// The byte count handed to the ROM program routine: the length of
/// the caller's buffer. The count must fit the routine's 32-bit
/// argument; a longer buffer is a caller contract violation.
pub fn program_byte_count(data: &[u8]) -> (r: u32)
    requires
        data@.len() <= u32::MAX,
    ensures
        r == data@.len(),
{
    data.len() as u32
}

} // verus!
