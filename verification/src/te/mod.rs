//! The Terse Executable image: its header, its section table, and where its
//! debug information and base relocations lie.

use crate::error::ImageError;
use crate::pe::utils::{find_raw_offset, geometries, raw_offset_in, PESectionTable, SectionGeometry};
use crate::te::data_directories::DataDirectory;
use crate::te::debug::{
    debug_directory_at, debug_directory_offset, unmapped_directory_message, DebugData,
    ImageDebugDirectory,
};
use crate::te::header::{bad_signature_message, header_at, Header, SIZEOF_TE_HEADER, TE_MAGIC};
use crate::te::section_table::{rebase, rebased, SectionTable};
use crate::wire::{gread_bytes, le_u16, le_u32};
use vstd::prelude::*;
use vstd::wrapping::{u64_specs, usize_specs};

pub mod data_directories;
pub mod debug;
pub mod header;
pub mod section_table;

verus! {

/// The file alignment with which the debug directory's address is resolved.
pub const DEBUG_FILE_ALIGNMENT: u32 = 0x10;

/// A parsed Terse Executable image.
#[derive(Debug)]
pub struct TE {
    pub header: Header,
    pub sections: Vec<SectionTable>,
    pub debug_data: Option<DebugData>,
}

/// The geometry of the section record that the forty bytes of `s` from `at`
/// hold, with pointers rebased by `stripped_size`.
pub open spec fn geometry_at(s: Seq<u8>, at: int, stripped_size: u32) -> SectionGeometry {
    SectionGeometry {
        virtual_size: le_u32(s, at + 8),
        virtual_address: le_u32(s, at + 12),
        size_of_raw_data: le_u32(s, at + 16),
        pointer_to_raw_data: rebased(le_u32(s, at + 20), stripped_size),
        pointer_to_relocations: rebased(le_u32(s, at + 24), stripped_size),
        pointer_to_linenumbers: rebased(le_u32(s, at + 28), stripped_size),
        number_of_relocations: le_u16(s, at + 32),
        number_of_linenumbers: le_u16(s, at + 34),
        characteristics: le_u32(s, at + 36),
    }
}

/// The geometry of every section of the image in `s`, in table order.
pub open spec fn table_geometry(s: Seq<u8>) -> Seq<SectionGeometry> {
    Seq::new(
        header_at(s).number_of_sections as nat,
        |i: int| geometry_at(s, 40 + 40 * i, header_at(s).stripped_size as u32),
    )
}

/// Whether `s` begins with a header of the right signature.
pub open spec fn has_header(s: Seq<u8>) -> bool {
    s.len() >= 40 && le_u16(s, 0) == TE_MAGIC
}

/// Whether all the section records that the header counts lie in `s`.
pub open spec fn has_sections(s: Seq<u8>) -> bool {
    header_at(s).number_of_sections == 0 || 40 + 40 * header_at(s).number_of_sections <= s.len()
}

/// The offset of the debug directory record of the image in `s`, where the
/// header names one, its address resolves and the record lies in `s`.
pub open spec fn debug_offset(s: Seq<u8>) -> Option<usize> {
    match header_at(s).data_directories.debug {
        Some(dd) => debug_directory_offset(s, dd, table_geometry(s), DEBUG_FILE_ALIGNMENT),
        None => None,
    }
}

/// Whether `s` parses as an image: header, sections, and the debug directory
/// where the header names one.
pub open spec fn is_image(s: Seq<u8>) -> bool {
    &&& has_header(s)
    &&& has_sections(s)
    &&& header_at(s).data_directories.debug is Some ==> debug_offset(s) is Some
}

/// The debug data of the image in `s`: none where the header names no debug
/// directory, else the record and its raw-data pointer rebased.
pub open spec fn debug_data_in(s: Seq<u8>) -> Option<DebugData> {
    match debug_offset(s) {
        Some(offset) => Some(
            DebugData {
                image_debug_directory: debug_directory_at(s, offset as int),
                codeview_pdb70_offset: rebased(
                    debug_directory_at(s, offset as int).pointer_to_raw_data,
                    header_at(s).stripped_size as u32,
                ),
            },
        ),
        None => None,
    }
}

/// Whether the failure to parse `s` is a malformed structure rather than a
/// read past the end: a wrong signature, or a debug directory whose address
/// no section holds.
pub open spec fn is_malformed(s: Seq<u8>) -> bool {
    s.len() >= 40 && (le_u16(s, 0) != TE_MAGIC || (has_sections(s) && header_at(
        s,
    ).data_directories.debug is Some && crate::pe::utils::offset_in(
        header_at(s).data_directories.debug->Some_0.virtual_address as usize,
        table_geometry(s),
        DEBUG_FILE_ALIGNMENT,
        true,
    ) is None))
}

/// The message of the `Malformed` error for `s`.
pub open spec fn malformed_message(s: Seq<u8>) -> Seq<char> {
    if le_u16(s, 0) != TE_MAGIC {
        bad_signature_message(le_u16(s, 0))
    } else {
        unmapped_directory_message(header_at(s).data_directories.debug->Some_0.virtual_address)
    }
}

/// The section records read from `s` have the geometry that `s` holds.
pub proof fn sections_have_table_geometry(s: Seq<u8>, sections: Seq<SectionTable>)
    requires
        sections.len() == header_at(s).number_of_sections,
        forall|i: int|
            0 <= i < sections.len() ==> (#[trigger] sections[i]).is_section_at(
                s,
                40 + 40 * i,
                header_at(s).stripped_size as u32,
            ),
    ensures
        geometries(sections) == table_geometry(s),
{
    assert(geometries(sections) =~= table_geometry(s));
}

/// The offset `offset` rebased by `stripped_size`, in the machine's word and
/// wrapping.
pub open spec fn adjusted(offset: usize, stripped_size: u16) -> usize {
    usize_specs::wrapping_add(usize_specs::wrapping_sub(offset, stripped_size as usize), 40)
}

/// Rebasing an offset of the image and rebasing a section's pointer are the
/// same computation: for a pointer of 32 bits the rebased offset, cut to 32
/// bits, is the rebased pointer, and where nothing wraps both are the
/// pointer less the stripped size plus the size of the header.
pub proof fn adjust_offset_rebases(pointer: u32, stripped_size: u16)
    ensures
        adjusted(pointer as usize, stripped_size) as int % 0x1_0000_0000 == rebased(
            pointer,
            stripped_size as u32,
        ),
        stripped_size <= pointer && pointer - stripped_size + 40 <= u32::MAX ==> adjusted(
            pointer as usize,
            stripped_size,
        ) == pointer - stripped_size + 40 && rebased(pointer, stripped_size as u32) == pointer
            - stripped_size + 40,
{
    assert(usize::MAX == 0xffff_ffff || usize::MAX == 0xffff_ffff_ffff_ffff) by {
        assert(usize::BITS == 32 || usize::BITS == 64);
    }
}

impl TE {
    /// Parses an image: the header, then the section table that follows it,
    /// then, where the header names a debug directory, the debug directory
    /// record, whose raw-data pointer is rebased.
    pub fn parse(bytes: &[u8]) -> (r: core::result::Result<TE, ImageError>)
        ensures
            r is Ok <==> is_image(bytes@),
            r is Ok ==> ({
                let te = r->Ok_0;
                &&& te.header == header_at(bytes@)
                &&& te.sections@.len() == te.header.number_of_sections
                &&& forall|i: int|
                    0 <= i < te.sections@.len() ==> (#[trigger] te.sections@[i]).is_section_at(
                        bytes@,
                        40 + 40 * i,
                        te.header.stripped_size as u32,
                    )
                &&& geometries(te.sections@) == table_geometry(bytes@)
                &&& te.debug_data == debug_data_in(bytes@)
            }),
            r is Err ==> (if is_malformed(bytes@) {
                r->Err_0 is Malformed && r->Err_0.message() == malformed_message(bytes@)
            } else {
                r->Err_0 is Scroll
            }),
    {
        let header = Header::parse(bytes)?;
        let mut offset: usize = SIZEOF_TE_HEADER;
        let sections = header.sections(bytes, &mut offset)?;
        proof {
            sections_have_table_geometry(bytes@, sections@);
        }
        let mut debug_data: Option<DebugData> = None;
        if let Some(debug_table) = *header.data_directories.get_debug_table() {
            let image_debug_directory = ImageDebugDirectory::parse(
                bytes,
                debug_table,
                sections.as_slice(),
                DEBUG_FILE_ALIGNMENT,
            )?;
            let codeview_pdb70_offset: u32 = rebase(
                image_debug_directory.pointer_to_raw_data,
                header.stripped_size as u32,
            );
            debug_data = Some(DebugData { image_debug_directory, codeview_pdb70_offset });
        }
        Ok(TE { header, sections, debug_data })
    }

    /// The bytes of the base-relocation table: the header's base-relocation
    /// directory resolved through the sections with a file alignment of one,
    /// and as many bytes from there as the directory says. Nothing where the
    /// header names no such directory, no section holds its address, or the
    /// bytes run past the end of the buffer.
    pub fn base_relocations<'a>(&self, bytes: &'a [u8]) -> (r: Option<&'a [u8]>)
        ensures
            r is Some <==> self.relocation_offset() is Some && self.relocation_offset()->Some_0
                + self.header.data_directories.base_relocation->Some_0.size <= bytes@.len(),
            r is Some ==> r->Some_0@ == bytes@.subrange(
                self.relocation_offset()->Some_0 as int,
                self.relocation_offset()->Some_0
                    + self.header.data_directories.base_relocation->Some_0.size,
            ),
    {
        let relocs: DataDirectory = (*self.header.data_directories.get_base_relocation_table())?;
        let mut offset: usize = find_raw_offset(
            relocs.virtual_address as usize,
            self.sections.as_slice(),
            1,
        )?;
        match gread_bytes(bytes, &mut offset, relocs.size as usize) {
            Ok(reloc_bytes) => Some(reloc_bytes),
            Err(_) => None,
        }
    }

    /// Where the base-relocation table begins in the file: the raw offset of
    /// the directory's address, where the header names the directory and a
    /// section holds the address.
    pub open spec fn relocation_offset(&self) -> Option<usize> {
        match self.header.data_directories.base_relocation {
            Some(dd) => raw_offset_in(dd.virtual_address as usize, geometries(self.sections@), 1),
            None => None,
        }
    }

    /// Rebases a file offset of the unstripped image to the file at hand:
    /// less the stripped size, plus the size of the header.
    pub fn adjust_offset(&self, offset: usize) -> (r: usize)
        ensures
            r == adjusted(offset, self.header.stripped_size),
    {
        offset.wrapping_sub(self.header.stripped_size as usize).wrapping_add(SIZEOF_TE_HEADER)
    }

    /// The address of the entry point: the image base plus the entry point's
    /// relative address, wrapping.
    pub fn entry_point(&self) -> (r: u64)
        ensures
            r == u64_specs::wrapping_add(
                self.header.image_base,
                self.header.address_of_entry_point as u64,
            ),
    {
        self.image_base().wrapping_add(self.header.address_of_entry_point as u64)
    }

    pub fn image_base(&self) -> (r: u64)
        ensures
            r == self.header.image_base,
    {
        self.header.image_base
    }
}

} // verus!
