//! Where the debug information of a Terse Executable image lies: the debug
//! directory record, and the file offset of the record that it points to.

use crate::error::{cursor_result, hex, hex_text, ImageError};
use crate::options::ParseOptions;
use crate::pe::data_directories::DataDirectory;
use crate::pe::utils::{find_offset, geometries, offset_in, PESectionTable, SectionGeometry};
use crate::wire::{gread_u16, gread_u32, le_u16, le_u32};
use vstd::prelude::*;

verus! {

/// The size in bytes of a debug directory record in a file.
pub const SIZEOF_IMAGE_DEBUG_DIRECTORY: usize = 28;

/// The debug directory record.
#[derive(Debug, PartialEq, Copy, Clone, Default)]
pub struct ImageDebugDirectory {
    pub characteristics: u32,
    pub time_date_stamp: u32,
    pub major_version: u16,
    pub minor_version: u16,
    pub data_type: u32,
    pub size_of_data: u32,
    pub address_of_raw_data: u32,
    pub pointer_to_raw_data: u32,
}

/// The debug directory of an image, and where its debug record lies.
#[derive(Debug, PartialEq, Copy, Clone, Default)]
pub struct DebugData {
    /// The debug directory record as the file holds it.
    pub image_debug_directory: ImageDebugDirectory,
    /// The record's raw-data pointer, rebased to the file at hand: the
    /// offset at which a decoder of debug records finds the record.
    pub codeview_pdb70_offset: u32,
}

/// The debug directory record that the bytes of `s` from `at` hold.
pub open spec fn debug_directory_at(s: Seq<u8>, at: int) -> ImageDebugDirectory {
    ImageDebugDirectory {
        characteristics: le_u32(s, at),
        time_date_stamp: le_u32(s, at + 4),
        major_version: le_u16(s, at + 8),
        minor_version: le_u16(s, at + 10),
        data_type: le_u32(s, at + 12),
        size_of_data: le_u32(s, at + 16),
        address_of_raw_data: le_u32(s, at + 20),
        pointer_to_raw_data: le_u32(s, at + 24),
    }
}

/// The message of the error for a debug directory whose address no section
/// holds.
pub open spec fn unmapped_directory_message(rva: u32) -> Seq<char> {
    "Cannot map ImageDebugDirectory rva "@ + hex_text(rva as nat) + " into offset"@
}

/// What reading the debug directory that `dd` points to comes to, given the
/// sections' geometry: the offset of the record where the address resolves
/// and all of the record lies in `s`.
pub open spec fn debug_directory_offset(
    s: Seq<u8>,
    dd: DataDirectory,
    sections: Seq<SectionGeometry>,
    file_alignment: u32,
) -> Option<usize> {
    match offset_in(dd.virtual_address as usize, sections, file_alignment, true) {
        Some(offset) => if offset + 28 <= s.len() {
            Some(offset)
        } else {
            None
        },
        None => None,
    }
}

impl ImageDebugDirectory {
    /// Resolves the address of the debug directory through the section
    /// table and reads the record there. An address that no section holds is
    /// `Malformed`; a record that runs past the end of the buffer is an
    /// error of the cursor.
    pub fn parse<T: PESectionTable>(
        bytes: &[u8],
        dd: DataDirectory,
        sections: &[T],
        file_alignment: u32,
    ) -> (r: core::result::Result<ImageDebugDirectory, ImageError>)
        ensures
            match debug_directory_offset(bytes@, dd, geometries(sections@), file_alignment) {
                Some(offset) => r is Ok && r->Ok_0 == debug_directory_at(bytes@, offset as int),
                None => r is Err && (if offset_in(
                    dd.virtual_address as usize,
                    geometries(sections@),
                    file_alignment,
                    true,
                ) is Some {
                    r->Err_0 is Scroll
                } else {
                    r->Err_0 is Malformed && r->Err_0.message() == unmapped_directory_message(
                        dd.virtual_address,
                    )
                }),
            },
    {
        let rva: usize = dd.virtual_address as usize;
        let opts = ParseOptions::default();
        let mut offset: usize = match find_offset(rva, sections, file_alignment, &opts) {
            Some(offset) => offset,
            None => {
                return Err(
                    ImageError::malformed_about(
                        "Cannot map ImageDebugDirectory rva ",
                        hex(dd.virtual_address as u64),
                        " into offset",
                    ),
                );
            },
        };
        let characteristics: u32 = cursor_result(gread_u32(bytes, &mut offset))?;
        let time_date_stamp: u32 = cursor_result(gread_u32(bytes, &mut offset))?;
        let major_version: u16 = cursor_result(gread_u16(bytes, &mut offset))?;
        let minor_version: u16 = cursor_result(gread_u16(bytes, &mut offset))?;
        let data_type: u32 = cursor_result(gread_u32(bytes, &mut offset))?;
        let size_of_data: u32 = cursor_result(gread_u32(bytes, &mut offset))?;
        let address_of_raw_data: u32 = cursor_result(gread_u32(bytes, &mut offset))?;
        let pointer_to_raw_data: u32 = cursor_result(gread_u32(bytes, &mut offset))?;
        Ok(
            ImageDebugDirectory {
                characteristics,
                time_date_stamp,
                major_version,
                minor_version,
                data_type,
                size_of_data,
                address_of_raw_data,
                pointer_to_raw_data,
            },
        )
    }
}

} // verus!
