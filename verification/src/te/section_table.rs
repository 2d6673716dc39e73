//! The section record of a Terse Executable image.

use crate::error::{cursor_result, ImageError};
use crate::pe::utils::{PESectionTable, SectionGeometry};
use crate::te::header::SIZEOF_TE_HEADER;
use crate::wire::{
    gread_bytes, gread_u16, gread_u32, is_text_at, le_u16, le_u16_encodes, le_u32, le_u32_encodes,
    overlay, pread_str, put_bytes, put_u16, put_u32, text_at, u16_le, u32_le,
};
use vstd::prelude::*;
use vstd::wrapping::u32_specs;

verus! {

/// The size in bytes of one section record in a file.
pub const SIZEOF_SECTION_TABLE: usize = 40;

/// The section should not be padded to the next boundary. This flag is obsolete and is replaced
/// by `IMAGE_SCN_ALIGN_1BYTES`. This is valid only for object files.
pub const IMAGE_SCN_TYPE_NO_PAD: u32 = 0x0000_0008;

/// The section contains executable code.
pub const IMAGE_SCN_CNT_CODE: u32 = 0x0000_0020;

/// The section contains initialized data.
pub const IMAGE_SCN_CNT_INITIALIZED_DATA: u32 = 0x0000_0040;

///  The section contains uninitialized data.
pub const IMAGE_SCN_CNT_UNINITIALIZED_DATA: u32 = 0x0000_0080;

pub const IMAGE_SCN_LNK_OTHER: u32 = 0x0000_0100;

/// The section contains comments or other information. The .drectve section has this type.
/// This is valid for object files only.
pub const IMAGE_SCN_LNK_INFO: u32 = 0x0000_0200;

/// The section will not become part of the image. This is valid only for object files.
pub const IMAGE_SCN_LNK_REMOVE: u32 = 0x0000_0800;

/// The section contains COMDAT data. This is valid only for object files.
pub const IMAGE_SCN_LNK_COMDAT: u32 = 0x0000_1000;

/// The section contains data referenced through the global pointer (GP).
pub const IMAGE_SCN_GPREL: u32 = 0x0000_8000;

pub const IMAGE_SCN_MEM_PURGEABLE: u32 = 0x0002_0000;

pub const IMAGE_SCN_MEM_16BIT: u32 = 0x0002_0000;

pub const IMAGE_SCN_MEM_LOCKED: u32 = 0x0004_0000;

pub const IMAGE_SCN_MEM_PRELOAD: u32 = 0x0008_0000;

pub const IMAGE_SCN_ALIGN_1BYTES: u32 = 0x0010_0000;

pub const IMAGE_SCN_ALIGN_2BYTES: u32 = 0x0020_0000;

pub const IMAGE_SCN_ALIGN_4BYTES: u32 = 0x0030_0000;

pub const IMAGE_SCN_ALIGN_8BYTES: u32 = 0x0040_0000;

pub const IMAGE_SCN_ALIGN_16BYTES: u32 = 0x0050_0000;

pub const IMAGE_SCN_ALIGN_32BYTES: u32 = 0x0060_0000;

pub const IMAGE_SCN_ALIGN_64BYTES: u32 = 0x0070_0000;

pub const IMAGE_SCN_ALIGN_128BYTES: u32 = 0x0080_0000;

pub const IMAGE_SCN_ALIGN_256BYTES: u32 = 0x0090_0000;

pub const IMAGE_SCN_ALIGN_512BYTES: u32 = 0x00A0_0000;

pub const IMAGE_SCN_ALIGN_1024BYTES: u32 = 0x00B0_0000;

pub const IMAGE_SCN_ALIGN_2048BYTES: u32 = 0x00C0_0000;

pub const IMAGE_SCN_ALIGN_4096BYTES: u32 = 0x00D0_0000;

pub const IMAGE_SCN_ALIGN_8192BYTES: u32 = 0x00E0_0000;

pub const IMAGE_SCN_ALIGN_MASK: u32 = 0x00F0_0000;

/// The section contains extended relocations.
pub const IMAGE_SCN_LNK_NRELOC_OVFL: u32 = 0x0100_0000;

/// The section can be discarded as needed.
pub const IMAGE_SCN_MEM_DISCARDABLE: u32 = 0x0200_0000;

/// The section cannot be cached.
pub const IMAGE_SCN_MEM_NOT_CACHED: u32 = 0x0400_0000;

/// The section is not pageable.
pub const IMAGE_SCN_MEM_NOT_PAGED: u32 = 0x0800_0000;

/// The section can be shared in memory.
pub const IMAGE_SCN_MEM_SHARED: u32 = 0x1000_0000;

/// The section can be executed as code.
pub const IMAGE_SCN_MEM_EXECUTE: u32 = 0x2000_0000;

/// The section can be read.
pub const IMAGE_SCN_MEM_READ: u32 = 0x4000_0000;

/// The section can be written to.
pub const IMAGE_SCN_MEM_WRITE: u32 = 0x8000_0000;

/// One section record. The pointers are kept as the file holds them; the
/// getters of the section interface hand them out rebased.
#[derive(Debug, PartialEq, Clone, Default)]
pub struct SectionTable {
    pub name: [u8; 8],
    pub virtual_size: u32,
    pub virtual_address: u32,
    pub size_of_raw_data: u32,
    pub pointer_to_raw_data: u32,
    pub pointer_to_relocations: u32,
    pub pointer_to_linenumbers: u32,
    pub number_of_relocations: u16,
    pub number_of_linenumbers: u16,
    pub characteristics: u32,
    /// The number of header bytes that were stripped from the image. It is
    /// not part of the record in the file.
    pub stripped_size: u32,
}

/// A file pointer of a stripped image moved to where it points in the file
/// at hand: less the stripped header bytes, plus the size of the header that
/// took their place, in 32 bits and wrapping.
pub open spec fn rebased(pointer: u32, stripped_size: u32) -> u32 {
    u32_specs::wrapping_add(u32_specs::wrapping_sub(pointer, stripped_size), 40)
}

/// Rebases a file pointer of a stripped image.
pub fn rebase(pointer: u32, stripped_size: u32) -> (r: u32)
    ensures
        r == rebased(pointer, stripped_size),
{
    pointer.wrapping_sub(stripped_size).wrapping_add(SIZEOF_TE_HEADER as u32)
}

/// How far a read of one record gets in `room` bytes: to the end of the last
/// field that lies in them whole.
pub open spec fn section_fitting(room: int) -> int {
    if room >= 40 {
        40
    } else if room >= 36 {
        36
    } else if room >= 34 {
        34
    } else if room >= 32 {
        32
    } else if room >= 8 {
        8 + 4 * ((room - 8) / 4)
    } else {
        0
    }
}

impl SectionTable {
    /// Whether this is the record that the forty bytes of `s` from `at` hold,
    /// with `stripped_size` carried along.
    pub open spec fn is_section_at(self, s: Seq<u8>, at: int, stripped_size: u32) -> bool {
        &&& self.name@ == s.subrange(at, at + 8)
        &&& self.virtual_size == le_u32(s, at + 8)
        &&& self.virtual_address == le_u32(s, at + 12)
        &&& self.size_of_raw_data == le_u32(s, at + 16)
        &&& self.pointer_to_raw_data == le_u32(s, at + 20)
        &&& self.pointer_to_relocations == le_u32(s, at + 24)
        &&& self.pointer_to_linenumbers == le_u32(s, at + 28)
        &&& self.number_of_relocations == le_u16(s, at + 32)
        &&& self.number_of_linenumbers == le_u16(s, at + 34)
        &&& self.characteristics == le_u32(s, at + 36)
        &&& self.stripped_size == stripped_size
    }

    /// The forty bytes that hold this record in a file.
    pub open spec fn encoding(self) -> Seq<u8> {
        self.name@ + u32_le(self.virtual_size) + u32_le(self.virtual_address) + u32_le(
            self.size_of_raw_data,
        ) + u32_le(self.pointer_to_raw_data) + u32_le(self.pointer_to_relocations) + u32_le(
            self.pointer_to_linenumbers,
        ) + u16_le(self.number_of_relocations) + u16_le(self.number_of_linenumbers) + u32_le(
            self.characteristics,
        )
    }

    /// Reads one record at the cursor, field by field. The cursor moves past
    /// every field that was read, so that after a failure it stands behind
    /// the last field that lay in the buffer whole.
    pub fn parse(bytes: &[u8], offset: &mut usize, stripped_size: u32) -> (r:
        core::result::Result<SectionTable, ImageError>)
        ensures
            r is Ok <==> *old(offset) + 40 <= bytes@.len(),
            r is Ok ==> r->Ok_0.is_section_at(bytes@, *old(offset) as int, stripped_size),
            r is Err ==> r->Err_0 is Scroll,
            *final(offset) == *old(offset) + section_fitting(bytes@.len() - *old(offset)),
    {
        let raw = cursor_result(gread_bytes(bytes, offset, 8))?;
        let name: [u8; 8] = [raw[0], raw[1], raw[2], raw[3], raw[4], raw[5], raw[6], raw[7]];
        assert(name@ =~= raw@);
        let virtual_size: u32 = cursor_result(gread_u32(bytes, offset))?;
        let virtual_address: u32 = cursor_result(gread_u32(bytes, offset))?;
        let size_of_raw_data: u32 = cursor_result(gread_u32(bytes, offset))?;
        let pointer_to_raw_data: u32 = cursor_result(gread_u32(bytes, offset))?;
        let pointer_to_relocations: u32 = cursor_result(gread_u32(bytes, offset))?;
        let pointer_to_linenumbers: u32 = cursor_result(gread_u32(bytes, offset))?;
        let number_of_relocations: u16 = cursor_result(gread_u16(bytes, offset))?;
        let number_of_linenumbers: u16 = cursor_result(gread_u16(bytes, offset))?;
        let characteristics: u32 = cursor_result(gread_u32(bytes, offset))?;
        Ok(
            SectionTable {
                name,
                virtual_size,
                virtual_address,
                size_of_raw_data,
                pointer_to_raw_data,
                pointer_to_relocations,
                pointer_to_linenumbers,
                number_of_relocations,
                number_of_linenumbers,
                characteristics,
                stripped_size,
            },
        )
    }

    /// The size of a record in a file.
    pub fn size_with() -> (r: usize)
        ensures
            r == SIZEOF_SECTION_TABLE,
    {
        SIZEOF_SECTION_TABLE
    }

    /// Writes the record at the start of `bytes`, field by field and with the
    /// pointers as they are stored. A buffer shorter than forty bytes
    /// receives the fields that fit before the write fails.
    pub fn try_into_ctx(self, bytes: &mut [u8]) -> (r: core::result::Result<usize, ImageError>)
        ensures
            r is Ok <==> old(bytes)@.len() >= 40,
            r is Ok ==> r->Ok_0 == SIZEOF_SECTION_TABLE,
            r is Err ==> r->Err_0 is Scroll,
            final(bytes)@ == overlay(
                old(bytes)@,
                0,
                self.encoding().take(section_fitting(old(bytes)@.len() as int)),
            ),
    {
        let mut offset: usize = 0;
        let ghost base = bytes@;
        let ghost full = self.encoding();
        let ghost mut laid = Seq::<u8>::empty();
        assert(bytes@ =~= overlay(base, 0, laid));
        assert(laid =~= full.take(0));
        let name = self.name.as_slice();
        cursor_result(put_bytes(bytes, name, &mut offset, Ghost(base), Ghost(laid)))?;
        proof {
            laid = laid + name@;
            assert(laid =~= full.take(8));
        }
        cursor_result(put_u32(bytes, self.virtual_size, &mut offset, Ghost(base), Ghost(laid)))?;
        proof {
            laid = laid + u32_le(self.virtual_size);
            assert(laid =~= full.take(12));
        }
        cursor_result(put_u32(bytes, self.virtual_address, &mut offset, Ghost(base), Ghost(laid)))?;
        proof {
            laid = laid + u32_le(self.virtual_address);
            assert(laid =~= full.take(16));
        }
        cursor_result(
            put_u32(bytes, self.size_of_raw_data, &mut offset, Ghost(base), Ghost(laid)),
        )?;
        proof {
            laid = laid + u32_le(self.size_of_raw_data);
            assert(laid =~= full.take(20));
        }
        cursor_result(
            put_u32(bytes, self.pointer_to_raw_data, &mut offset, Ghost(base), Ghost(laid)),
        )?;
        proof {
            laid = laid + u32_le(self.pointer_to_raw_data);
            assert(laid =~= full.take(24));
        }
        cursor_result(
            put_u32(bytes, self.pointer_to_relocations, &mut offset, Ghost(base), Ghost(laid)),
        )?;
        proof {
            laid = laid + u32_le(self.pointer_to_relocations);
            assert(laid =~= full.take(28));
        }
        cursor_result(
            put_u32(bytes, self.pointer_to_linenumbers, &mut offset, Ghost(base), Ghost(laid)),
        )?;
        proof {
            laid = laid + u32_le(self.pointer_to_linenumbers);
            assert(laid =~= full.take(32));
        }
        cursor_result(
            put_u16(bytes, self.number_of_relocations, &mut offset, Ghost(base), Ghost(laid)),
        )?;
        proof {
            laid = laid + u16_le(self.number_of_relocations);
            assert(laid =~= full.take(34));
        }
        cursor_result(
            put_u16(bytes, self.number_of_linenumbers, &mut offset, Ghost(base), Ghost(laid)),
        )?;
        proof {
            laid = laid + u16_le(self.number_of_linenumbers);
            assert(laid =~= full.take(36));
        }
        cursor_result(put_u32(bytes, self.characteristics, &mut offset, Ghost(base), Ghost(laid)))?;
        proof {
            laid = laid + u32_le(self.characteristics);
            assert(laid =~= full.take(40));
        }
        Ok(SIZEOF_SECTION_TABLE)
    }

    /// Writes the record at the start of a buffer that is known to hold it.
    pub fn into_ctx(self, bytes: &mut [u8])
        requires
            old(bytes)@.len() >= 40,
        ensures
            final(bytes)@ == overlay(old(bytes)@, 0, self.encoding()),
    {
        let ghost full = self.encoding();
        assert(full.take(40) =~= full);
        let _ = self.try_into_ctx(bytes);
    }
}

impl PESectionTable for SectionTable {
    open spec fn geometry(&self) -> SectionGeometry {
        SectionGeometry {
            virtual_size: self.virtual_size,
            virtual_address: self.virtual_address,
            size_of_raw_data: self.size_of_raw_data,
            pointer_to_raw_data: rebased(self.pointer_to_raw_data, self.stripped_size),
            pointer_to_relocations: rebased(self.pointer_to_relocations, self.stripped_size),
            pointer_to_linenumbers: rebased(self.pointer_to_linenumbers, self.stripped_size),
            number_of_relocations: self.number_of_relocations,
            number_of_linenumbers: self.number_of_linenumbers,
            characteristics: self.characteristics,
        }
    }

    /// The name: the bytes of the name field before its first zero byte, as
    /// text. It is an error of the cursor where they are not valid UTF-8.
    fn name(&self) -> (r: core::result::Result<&str, ImageError>)
        ensures
            r is Ok <==> is_text_at(self.name@, 0),
            r is Ok ==> r->Ok_0@ == text_at(self.name@, 0),
            r is Err ==> r->Err_0 is Scroll,
    {
        match pread_str(self.name.as_slice(), 0) {
            Ok(name) => Ok(name),
            Err(e) => Err(ImageError::Scroll(e)),
        }
    }

    fn virtual_size(&self) -> (r: u32) {
        self.virtual_size
    }

    fn virtual_address(&self) -> (r: u32) {
        self.virtual_address
    }

    fn size_of_raw_data(&self) -> (r: u32) {
        self.size_of_raw_data
    }

    fn pointer_to_raw_data(&self) -> (r: u32) {
        rebase(self.pointer_to_raw_data, self.stripped_size)
    }

    fn pointer_to_relocations(&self) -> (r: u32) {
        rebase(self.pointer_to_relocations, self.stripped_size)
    }

    fn pointer_to_linenumbers(&self) -> (r: u32) {
        rebase(self.pointer_to_linenumbers, self.stripped_size)
    }

    fn number_of_relocations(&self) -> (r: u16) {
        self.number_of_relocations
    }

    fn number_of_linenumbers(&self) -> (r: u16) {
        self.number_of_linenumbers
    }

    fn characteristics(&self) -> (r: u32) {
        self.characteristics
    }
}

/// Writing down the record read at `at` gives the forty bytes it was read
/// from: they are the record's encoding, and so the first forty bytes of any
/// buffer `out` that the record is written into.
pub proof fn section_round_trip(
    section: SectionTable,
    s: Seq<u8>,
    at: int,
    stripped_size: u32,
    out: Seq<u8>,
)
    requires
        0 <= at,
        at + 40 <= s.len(),
        section.is_section_at(s, at, stripped_size),
        out.len() >= 40,
    ensures
        section.encoding() == s.subrange(at, at + 40),
        overlay(out, 0, section.encoding()).subrange(0, 40) == s.subrange(at, at + 40),
{
    let mut laid = section.name@;
    le_u32_encodes(s, at + 8);
    assert(laid + u32_le(section.virtual_size) =~= s.subrange(at, at + 12));
    laid = laid + u32_le(section.virtual_size);
    le_u32_encodes(s, at + 12);
    assert(laid + u32_le(section.virtual_address) =~= s.subrange(at, at + 16));
    laid = laid + u32_le(section.virtual_address);
    le_u32_encodes(s, at + 16);
    assert(laid + u32_le(section.size_of_raw_data) =~= s.subrange(at, at + 20));
    laid = laid + u32_le(section.size_of_raw_data);
    le_u32_encodes(s, at + 20);
    assert(laid + u32_le(section.pointer_to_raw_data) =~= s.subrange(at, at + 24));
    laid = laid + u32_le(section.pointer_to_raw_data);
    le_u32_encodes(s, at + 24);
    assert(laid + u32_le(section.pointer_to_relocations) =~= s.subrange(at, at + 28));
    laid = laid + u32_le(section.pointer_to_relocations);
    le_u32_encodes(s, at + 28);
    assert(laid + u32_le(section.pointer_to_linenumbers) =~= s.subrange(at, at + 32));
    laid = laid + u32_le(section.pointer_to_linenumbers);
    le_u16_encodes(s, at + 32);
    assert(laid + u16_le(section.number_of_relocations) =~= s.subrange(at, at + 34));
    laid = laid + u16_le(section.number_of_relocations);
    le_u16_encodes(s, at + 34);
    assert(laid + u16_le(section.number_of_linenumbers) =~= s.subrange(at, at + 36));
    laid = laid + u16_le(section.number_of_linenumbers);
    le_u32_encodes(s, at + 36);
    assert(laid + u32_le(section.characteristics) =~= s.subrange(at, at + 40));
    laid = laid + u32_le(section.characteristics);
    assert(laid == section.encoding());
    assert(overlay(out, 0, section.encoding()).subrange(0, 40) =~= s.subrange(at, at + 40));
}

} // verus!
