//! The two data directories that a Terse Executable header carries.

pub use crate::pe::data_directories::{DataDirectory, SIZEOF_DATA_DIRECTORY};
use crate::error::{cursor_result, ImageError};
use crate::wire::{gread_u32, le_u32, le_u32_encodes, overlay, put_u32, u32_le};
use vstd::prelude::*;

verus! {

/// How many data directories the header holds.
pub const NUM_DATA_DIRECTORIES: usize = 2;

/// The size in bytes of the header's data-directory table.
pub const SIZEOF_DATA_DIRECTORIES: usize = 16;

/// The header's data directories. One that the file holds as all zeros is
/// absent.
#[derive(Debug, PartialEq, Copy, Clone, Default)]
pub struct DataDirectories {
    pub base_relocation: Option<DataDirectory>,
    pub debug: Option<DataDirectory>,
}

/// The data directory that the eight bytes of `s` from `at` hold: none where
/// address and size are both zero.
pub open spec fn directory_at(s: Seq<u8>, at: int) -> Option<DataDirectory> {
    if le_u32(s, at) == 0 && le_u32(s, at + 4) == 0 {
        None
    } else {
        Some(DataDirectory { virtual_address: le_u32(s, at), size: le_u32(s, at + 4) })
    }
}

/// The data directories that the sixteen bytes of `s` from `at` hold.
pub open spec fn directories_at(s: Seq<u8>, at: int) -> DataDirectories {
    DataDirectories { base_relocation: directory_at(s, at), debug: directory_at(s, at + 8) }
}

/// The eight bytes that hold a data directory: zeros for an absent one.
pub open spec fn directory_encoding(d: Option<DataDirectory>) -> Seq<u8> {
    match d {
        Some(d) => u32_le(d.virtual_address) + u32_le(d.size),
        None => u32_le(0) + u32_le(0),
    }
}

/// Writing down the directory read at `at` gives the bytes it was read from.
pub proof fn directory_round_trip(s: Seq<u8>, at: int)
    requires
        0 <= at,
        at + 8 <= s.len(),
    ensures
        directory_encoding(directory_at(s, at)) == s.subrange(at, at + 8),
{
    le_u32_encodes(s, at);
    le_u32_encodes(s, at + 4);
    assert(s.subrange(at, at + 4) + s.subrange(at + 4, at + 8) =~= s.subrange(at, at + 8));
}

impl DataDirectories {
    /// The sixteen bytes that hold these directories in a file.
    pub open spec fn encoding(self) -> Seq<u8> {
        directory_encoding(self.base_relocation) + directory_encoding(self.debug)
    }

    /// Reads one directory at the cursor. The cursor moves past it only
    /// where all eight bytes were there.
    pub fn parse_single(bytes: &[u8], offset: &mut usize) -> (r: core::result::Result<
        Option<DataDirectory>,
        scroll::Error,
    >)
        ensures
            r is Ok <==> *old(offset) + 8 <= bytes@.len(),
            r is Ok ==> r->Ok_0 == directory_at(bytes@, *old(offset) as int) && *final(offset)
                == *old(offset) + 8,
            r is Err ==> *final(offset) == *old(offset),
    {
        let mut cursor: usize = *offset;
        let virtual_address: u32 = gread_u32(bytes, &mut cursor)?;
        let size: u32 = gread_u32(bytes, &mut cursor)?;
        *offset = cursor;
        if virtual_address == 0 && size == 0 {
            Ok(None)
        } else {
            Ok(Some(DataDirectory { virtual_address, size }))
        }
    }

    /// Reads both directories at the cursor, the base-relocation directory
    /// first. The cursor moves past each directory that was read whole.
    pub fn parse(bytes: &[u8], offset: &mut usize) -> (r: core::result::Result<
        DataDirectories,
        ImageError,
    >)
        ensures
            r is Ok <==> *old(offset) + 16 <= bytes@.len(),
            r is Ok ==> r->Ok_0 == directories_at(bytes@, *old(offset) as int) && *final(offset)
                == *old(offset) + 16,
            r is Err ==> r->Err_0 is Scroll && *final(offset) == (if *old(offset) + 8
                <= bytes@.len() {
                *old(offset) + 8
            } else {
                *old(offset) as int
            }),
    {
        let base_relocation = cursor_result(Self::parse_single(bytes, offset))?;
        let debug = cursor_result(Self::parse_single(bytes, offset))?;
        Ok(DataDirectories { base_relocation, debug })
    }

    pub fn get_base_relocation_table(&self) -> (r: &Option<DataDirectory>)
        ensures
            *r == self.base_relocation,
    {
        &self.base_relocation
    }

    pub fn get_debug_table(&self) -> (r: &Option<DataDirectory>)
        ensures
            *r == self.debug,
    {
        &self.debug
    }

    /// The size of the table in a file.
    pub fn size_with() -> (r: usize)
        ensures
            r == SIZEOF_DATA_DIRECTORIES,
    {
        SIZEOF_DATA_DIRECTORIES
    }

    /// Writes the table at the start of a buffer that is known to hold it.
    pub fn into_ctx(self, bytes: &mut [u8])
        requires
            old(bytes)@.len() >= 16,
        ensures
            final(bytes)@ == overlay(old(bytes)@, 0, self.encoding()),
    {
        let ghost full = self.encoding();
        assert(full.take(16) =~= full);
        let _ = self.try_into_ctx(bytes);
    }

    /// Appends the table to what an encoder has laid over `base` so far. The
    /// four numbers are written one by one: those that fit are written, and
    /// the first that does not fit ends the writing.
    pub(crate) fn put(
        self,
        bytes: &mut [u8],
        offset: &mut usize,
        Ghost(base): Ghost<Seq<u8>>,
        Ghost(done): Ghost<Seq<u8>>,
    ) -> (r: core::result::Result<usize, scroll::Error>)
        requires
            old(bytes)@ == overlay(base, 0, done),
            *old(offset) == done.len(),
            done.len() <= base.len(),
        ensures
            r is Ok <==> done.len() + 16 <= base.len(),
            r is Ok ==> r->Ok_0 == 16 && *final(offset) == done.len() + 16,
            final(bytes)@ == overlay(
                base,
                0,
                done + self.encoding().take(directories_fitting(base.len() - done.len())),
            ),
    {
        let base_relocation = match self.base_relocation {
            Some(d) => d,
            None => DataDirectory { virtual_address: 0, size: 0 },
        };
        let debug = match self.debug {
            Some(d) => d,
            None => DataDirectory { virtual_address: 0, size: 0 },
        };
        let ghost full = self.encoding();
        let ghost mut laid = done;
        assert(laid =~= done + full.take(0));
        put_u32(bytes, base_relocation.virtual_address, offset, Ghost(base), Ghost(laid))?;
        proof {
            laid = laid + u32_le(base_relocation.virtual_address);
            assert(laid =~= done + full.take(4));
        }
        put_u32(bytes, base_relocation.size, offset, Ghost(base), Ghost(laid))?;
        proof {
            laid = laid + u32_le(base_relocation.size);
            assert(laid =~= done + full.take(8));
        }
        put_u32(bytes, debug.virtual_address, offset, Ghost(base), Ghost(laid))?;
        proof {
            laid = laid + u32_le(debug.virtual_address);
            assert(laid =~= done + full.take(12));
        }
        put_u32(bytes, debug.size, offset, Ghost(base), Ghost(laid))?;
        proof {
            laid = laid + u32_le(debug.size);
            assert(laid =~= done + full.take(16));
        }
        Ok(SIZEOF_DATA_DIRECTORIES)
    }

    /// Writes the table at the start of `bytes`, an absent directory as
    /// zeros. The four numbers are written one by one, so that a buffer
    /// shorter than sixteen bytes receives those that fit before the write
    /// fails.
    pub fn try_into_ctx(self, bytes: &mut [u8]) -> (r: core::result::Result<usize, scroll::Error>)
        ensures
            r is Ok <==> old(bytes)@.len() >= 16,
            r is Ok ==> r->Ok_0 == SIZEOF_DATA_DIRECTORIES,
            final(bytes)@ == overlay(
                old(bytes)@,
                0,
                self.encoding().take(directories_fitting(old(bytes)@.len() as int)),
            ),
    {
        let mut offset: usize = 0;
        let ghost base = bytes@;
        assert(bytes@ =~= overlay(base, 0, Seq::empty()));
        let r = self.put(bytes, &mut offset, Ghost(base), Ghost(Seq::empty()));
        assert(Seq::<u8>::empty() + self.encoding().take(directories_fitting(base.len() as int))
            =~= self.encoding().take(directories_fitting(base.len() as int)));
        r
    }
}

/// How many bytes of the table are written into `room` bytes: the whole
/// numbers of four bytes that fit, and sixteen bytes at most.
pub open spec fn directories_fitting(room: int) -> int {
    if room >= 16 {
        16
    } else {
        4 * (room / 4)
    }
}

/// Writing down the directories read at `at` gives the sixteen bytes they
/// were read from.
pub proof fn directories_round_trip(s: Seq<u8>, at: int)
    requires
        0 <= at,
        at + 16 <= s.len(),
    ensures
        directories_at(s, at).encoding() == s.subrange(at, at + 16),
{
    directory_round_trip(s, at);
    directory_round_trip(s, at + 8);
    assert(s.subrange(at, at + 8) + s.subrange(at + 8, at + 16) =~= s.subrange(at, at + 16));
}

} // verus!
