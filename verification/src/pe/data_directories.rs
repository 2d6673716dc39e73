//! One entry of an image's data-directory table.

use vstd::prelude::*;

verus! {

/// The size in bytes of one data directory in a file.
pub const SIZEOF_DATA_DIRECTORY: usize = 8;

/// Where a well-known table of the image lies, and how large it is.
#[derive(Debug, PartialEq, Copy, Clone, Default)]
pub struct DataDirectory {
    pub virtual_address: u32,
    pub size: u32,
}

} // verus!
