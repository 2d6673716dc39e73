//! Options that steer how addresses found in an image are treated.

use vstd::prelude::*;

verus! {

/// What a caller may switch off while an image is decoded.
#[derive(Debug, Copy, Clone)]
pub struct ParseOptions {
    /// Whether a relative virtual address is resolved to a file offset
    /// through the section table. When it is not, the address itself is
    /// taken as the offset.
    pub resolve_rva: bool,
}

impl Default for ParseOptions {
    /// The options of an ordinary parse: addresses are resolved.
    fn default() -> (r: ParseOptions)
        ensures
            r.resolve_rva,
    {
        ParseOptions { resolve_rva: true }
    }
}

} // verus!
