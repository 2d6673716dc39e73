//! The header of a Terse Executable image.

use crate::error::{cursor_result, hex, hex_text, ImageError};
use crate::te::data_directories::{
    directories_at, directories_fitting, directories_round_trip, DataDirectories,
};
use crate::te::section_table::SectionTable;
use crate::wire::{
    gread_u16, gread_u32, gread_u64, gread_u8, le_u16, le_u16_encodes, le_u32, le_u32_encodes,
    le_u64, le_u64_encodes, overlay, put_u16, put_u32, put_u64, put_u8, u16_le, u32_le, u64_le,
};
use vstd::prelude::*;

verus! {

/// The size in bytes of the header in a file.
pub const SIZEOF_TE_HEADER: usize = 40;

/// The signature of a Terse Executable: the letters `VZ`, read as a
/// little-endian number.
pub const TE_MAGIC: u16 = 0x5a56;

pub const TE_SUBSYSTEM_UNKNOWN: u8 = 0;
pub const TE_SUBSYSTEM_NATIVE: u8 = 1;
pub const TE_SUBSYSTEM_WINDOWS_GUI: u8 = 2;
pub const TE_SUBSYSTEM_WINDOWS_CUI: u8 = 3;
pub const TE_SUBSYSTEM_POSIX_CUI: u8 = 7;
pub const TE_SUBSYSTEM_WINDOWS_CE_GUI: u8 = 9;
pub const TE_SUBSYSTEM_EFI_APPLICATION: u8 = 10;
pub const TE_SUBSYSTEM_EFI_BOOT_SERVICE_DRIVER: u8 = 11;
pub const TE_SUBSYSTEM_EFI_RUNTIME_DRIVER: u8 = 12;
pub const TE_SUBSYSTEM_EFI_ROM: u8 = 13;
pub const TE_SUBSYSTEM_XBOX: u8 = 14;
pub const TE_SUBSYSTEM_WINDOWS_BOOT_APPLICATION: u8 = 16;
pub const TE_MACHINE_UNKNOWN: u16 = 0x0;
/// Matsushita AM33
pub const TE_MACHINE_AM33: u16 = 0x1d3;
/// x64
pub const TE_MACHINE_X86_64: u16 = 0x8664;
/// ARM little endian
pub const TE_MACHINE_ARM: u16 = 0x1c0;
/// ARM64 little endian
pub const TE_MACHINE_ARM64: u16 = 0xaa64;
/// ARM Thumb-2 little endian
pub const TE_MACHINE_ARMNT: u16 = 0x1c4;
/// EFI byte code
pub const TE_MACHINE_EBC: u16 = 0xebc;
/// Intel 386 or later processors and compatible processors
pub const TE_MACHINE_X86: u16 = 0x14c;
/// Intel Itanium processor family
pub const TE_MACHINE_IA64: u16 = 0x200;
/// Mitsubishi M32R little endian
pub const TE_MACHINE_M32R: u16 = 0x9041;
/// MIPS16
pub const TE_MACHINE_MIPS16: u16 = 0x266;
/// MIPS with FPU
pub const TE_MACHINE_MIPSFPU: u16 = 0x366;
/// MIPS16 with FPU
pub const TE_MACHINE_MIPSFPU16: u16 = 0x466;
/// Power PC little endian
pub const TE_MACHINE_POWERPC: u16 = 0x1f0;
/// Power PC with floating point support
pub const TE_MACHINE_POWERPCFP: u16 = 0x1f1;
/// MIPS little endian
pub const TE_MACHINE_R4000: u16 = 0x166;
/// RISC-V 32-bit address space
pub const TE_MACHINE_RISCV32: u16 = 0x5032;
/// RISC-V 64-bit address space
pub const TE_MACHINE_RISCV64: u16 = 0x5064;
/// RISC-V 128-bit address space
pub const TE_MACHINE_RISCV128: u16 = 0x5128;
/// Hitachi SH3
pub const TE_MACHINE_SH3: u16 = 0x1a2;
/// Hitachi SH3 DSP
pub const TE_MACHINE_SH3DSP: u16 = 0x1a3;
/// Hitachi SH4
pub const TE_MACHINE_SH4: u16 = 0x1a6;
/// Hitachi SH5
pub const TE_MACHINE_SH5: u16 = 0x1a8;
/// Thumb
pub const TE_MACHINE_THUMB: u16 = 0x1c2;
/// MIPS little-endian WCE v2
pub const TE_MACHINE_WCEMIPSV2: u16 = 0x169;

/// The header of a Terse Executable image.
#[derive(Debug, PartialEq, Copy, Clone)]
pub struct Header {
    pub signature: u16,
    pub machine: u16,
    pub number_of_sections: u8,
    pub subsystem: u8,
    pub stripped_size: u16,
    pub address_of_entry_point: u32,
    pub base_of_code: u32,
    pub image_base: u64,
    pub data_directories: DataDirectories,
}

/// The header that the first forty bytes of `s` hold, whatever its
/// signature.
pub open spec fn header_at(s: Seq<u8>) -> Header {
    Header {
        signature: le_u16(s, 0),
        machine: le_u16(s, 2),
        number_of_sections: s[4],
        subsystem: s[5],
        stripped_size: le_u16(s, 6),
        address_of_entry_point: le_u32(s, 8),
        base_of_code: le_u32(s, 12),
        image_base: le_u64(s, 16),
        data_directories: directories_at(s, 24),
    }
}

/// The message of the error for a header with a wrong signature.
pub open spec fn bad_signature_message(signature: u16) -> Seq<char> {
    "TE header is malformed (signature: "@ + hex_text(signature as nat) + ")"@
}

/// How many bytes of a header are written into a buffer of `room` bytes: up
/// to the end of the last field that fits.
pub open spec fn header_fitting(room: int) -> int {
    if room >= 24 {
        24 + directories_fitting(room - 24)
    } else if room >= 16 {
        16
    } else if room >= 8 {
        8 + 4 * ((room - 8) / 4)
    } else if room >= 6 {
        6
    } else if room >= 4 {
        room
    } else if room >= 2 {
        2
    } else {
        0
    }
}

/// Where the cursor stands after reading as many whole section records as
/// `room` bytes hold and as much of the next one as lies in them.
pub open spec fn sections_fitting(room: int) -> int {
    if room < 0 {
        0
    } else {
        40 * (room / 40) + crate::te::section_table::section_fitting(room % 40)
    }
}

impl Header {
    /// The forty bytes that hold this header in a file.
    pub open spec fn encoding(self) -> Seq<u8> {
        u16_le(self.signature) + u16_le(self.machine) + seq![self.number_of_sections] + seq![
            self.subsystem,
        ] + u16_le(self.stripped_size) + u32_le(self.address_of_entry_point) + u32_le(
            self.base_of_code,
        ) + u64_le(self.image_base) + self.data_directories.encoding()
    }

    /// Reads the header at the start of `bytes` and checks its signature.
    /// The read succeeds exactly when the buffer holds forty bytes and the
    /// first two are the signature. A shorter buffer is an error of the
    /// cursor; a wrong signature is `Malformed`, with the signature in the
    /// message.
    pub fn parse(bytes: &[u8]) -> (r: core::result::Result<Header, ImageError>)
        ensures
            r is Ok <==> bytes@.len() >= 40 && le_u16(bytes@, 0) == TE_MAGIC,
            r is Ok ==> r->Ok_0 == header_at(bytes@),
            r is Err ==> (if bytes@.len() < 40 {
                r->Err_0 is Scroll
            } else {
                r->Err_0 is Malformed && r->Err_0.message() == bad_signature_message(
                    le_u16(bytes@, 0),
                )
            }),
    {
        let mut offset: usize = 0;
        let signature: u16 = cursor_result(gread_u16(bytes, &mut offset))?;
        let machine: u16 = cursor_result(gread_u16(bytes, &mut offset))?;
        let number_of_sections: u8 = cursor_result(gread_u8(bytes, &mut offset))?;
        let subsystem: u8 = cursor_result(gread_u8(bytes, &mut offset))?;
        let stripped_size: u16 = cursor_result(gread_u16(bytes, &mut offset))?;
        let address_of_entry_point: u32 = cursor_result(gread_u32(bytes, &mut offset))?;
        let base_of_code: u32 = cursor_result(gread_u32(bytes, &mut offset))?;
        let image_base: u64 = cursor_result(gread_u64(bytes, &mut offset))?;
        let data_directories = DataDirectories::parse(bytes, &mut offset)?;
        if signature != TE_MAGIC {
            return Err(
                ImageError::malformed_about(
                    "TE header is malformed (signature: ",
                    hex(signature as u64),
                    ")",
                ),
            );
        }
        Ok(
            Header {
                signature,
                machine,
                number_of_sections,
                subsystem,
                stripped_size,
                address_of_entry_point,
                base_of_code,
                image_base,
                data_directories,
            },
        )
    }

    /// Reads the section table: as many records as the header counts, one
    /// behind the other from the cursor on, each with the header's stripped
    /// size. The cursor moves past every field that was read. A header that
    /// counts no section reads nothing and succeeds.
    pub fn sections(&self, bytes: &[u8], offset: &mut usize) -> (r: core::result::Result<
        Vec<SectionTable>,
        ImageError,
    >)
        ensures
            r is Ok <==> self.number_of_sections == 0 || *old(offset) + 40
                * self.number_of_sections <= bytes@.len(),
            r is Ok ==> r->Ok_0@.len() == self.number_of_sections && *final(offset) == *old(offset)
                + 40 * self.number_of_sections && forall|i: int|
                0 <= i < self.number_of_sections ==> (#[trigger] r->Ok_0@[i]).is_section_at(
                    bytes@,
                    *old(offset) + 40 * i,
                    self.stripped_size as u32,
                ),
            r is Err ==> r->Err_0 is Scroll && *final(offset) == *old(offset) + sections_fitting(
                bytes@.len() - *old(offset),
            ),
    {
        let nsections: usize = self.number_of_sections as usize;
        let mut sections: Vec<SectionTable> = Vec::with_capacity(nsections);
        let ghost start = *offset;
        let mut i: usize = 0;
        while i < nsections
            invariant
                i <= nsections,
                nsections == self.number_of_sections,
                sections@.len() == i,
                *offset == start + 40 * i,
                i > 0 ==> *offset <= bytes@.len(),
                start == *old(offset),
                forall|k: int|
                    0 <= k < i ==> (#[trigger] sections@[k]).is_section_at(
                        bytes@,
                        start + 40 * k,
                        self.stripped_size as u32,
                    ),
            decreases nsections - i,
        {
            let section = match SectionTable::parse(bytes, offset, self.stripped_size as u32) {
                Ok(v) => v,
                Err(e) => {
                    proof {
                        let room = bytes@.len() - start;
                        if room >= 0 {
                            vstd::arithmetic::div_mod::lemma_fundamental_div_mod_converse(
                                room,
                                40,
                                i as int,
                                room - 40 * i,
                            );
                        }
                    }
                    return Err(e);
                },
            };
            sections.push(section);
            i += 1;
        }
        Ok(sections)
    }

    /// Writes the header at the start of `bytes`, field by field. A buffer
    /// shorter than forty bytes receives the fields that fit before the
    /// write fails.
    pub fn try_into_ctx(self, bytes: &mut [u8]) -> (r: core::result::Result<usize, ImageError>)
        ensures
            r is Ok <==> old(bytes)@.len() >= 40,
            r is Ok ==> r->Ok_0 == SIZEOF_TE_HEADER,
            r is Err ==> r->Err_0 is Scroll,
            final(bytes)@ == overlay(
                old(bytes)@,
                0,
                self.encoding().take(header_fitting(old(bytes)@.len() as int)),
            ),
    {
        let mut offset: usize = 0;
        let ghost base = bytes@;
        let ghost full = self.encoding();
        let ghost mut laid = Seq::<u8>::empty();
        assert(bytes@ =~= overlay(base, 0, laid));
        assert(laid =~= full.take(0));
        cursor_result(put_u16(bytes, self.signature, &mut offset, Ghost(base), Ghost(laid)))?;
        proof {
            laid = laid + u16_le(self.signature);
            assert(laid =~= full.take(2));
        }
        cursor_result(put_u16(bytes, self.machine, &mut offset, Ghost(base), Ghost(laid)))?;
        proof {
            laid = laid + u16_le(self.machine);
            assert(laid =~= full.take(4));
        }
        cursor_result(
            put_u8(bytes, self.number_of_sections, &mut offset, Ghost(base), Ghost(laid)),
        )?;
        proof {
            laid = laid + seq![self.number_of_sections];
            assert(laid =~= full.take(5));
        }
        cursor_result(put_u8(bytes, self.subsystem, &mut offset, Ghost(base), Ghost(laid)))?;
        proof {
            laid = laid + seq![self.subsystem];
            assert(laid =~= full.take(6));
        }
        cursor_result(put_u16(bytes, self.stripped_size, &mut offset, Ghost(base), Ghost(laid)))?;
        proof {
            laid = laid + u16_le(self.stripped_size);
            assert(laid =~= full.take(8));
        }
        cursor_result(
            put_u32(bytes, self.address_of_entry_point, &mut offset, Ghost(base), Ghost(laid)),
        )?;
        proof {
            laid = laid + u32_le(self.address_of_entry_point);
            assert(laid =~= full.take(12));
        }
        cursor_result(put_u32(bytes, self.base_of_code, &mut offset, Ghost(base), Ghost(laid)))?;
        proof {
            laid = laid + u32_le(self.base_of_code);
            assert(laid =~= full.take(16));
        }
        cursor_result(put_u64(bytes, self.image_base, &mut offset, Ghost(base), Ghost(laid)))?;
        proof {
            laid = laid + u64_le(self.image_base);
            assert(laid =~= full.take(24));
        }
        let r = self.data_directories.put(bytes, &mut offset, Ghost(base), Ghost(laid));
        proof {
            let tail = self.data_directories.encoding().take(directories_fitting(base.len() - 24));
            assert(laid + tail =~= full.take(header_fitting(base.len() as int)));
        }
        match r {
            Ok(_) => Ok(SIZEOF_TE_HEADER),
            Err(e) => Err(ImageError::Scroll(e)),
        }
    }

    /// Writes the header at the start of a buffer that is known to hold it.
    pub fn into_ctx(self, bytes: &mut [u8])
        requires
            old(bytes)@.len() >= 40,
        ensures
            final(bytes)@ == overlay(old(bytes)@, 0, self.encoding()),
    {
        let ghost full = self.encoding();
        assert(full.take(40) =~= full);
        let _ = self.try_into_ctx(bytes);
    }
}

/// The signature is right exactly when the first byte is the letter `V` and
/// the second the letter `Z`.
pub proof fn signature_is_two_letters(s: Seq<u8>)
    requires
        s.len() >= 2,
    ensures
        le_u16(s, 0) == TE_MAGIC <==> s[0] == 0x56 && s[1] == 0x5a,
{
}

/// Writing down the header read from `s` gives the forty bytes it was read
/// from: they are the header's encoding, and so the first forty bytes of any
/// buffer `out` that the header is written into.
pub proof fn header_round_trip(s: Seq<u8>, out: Seq<u8>)
    requires
        s.len() >= 40,
        out.len() >= 40,
    ensures
        header_at(s).encoding() == s.subrange(0, 40),
        overlay(out, 0, header_at(s).encoding()).subrange(0, 40) == s.subrange(0, 40),
{
    le_u16_encodes(s, 0);
    le_u16_encodes(s, 2);
    le_u16_encodes(s, 6);
    le_u32_encodes(s, 8);
    le_u32_encodes(s, 12);
    le_u64_encodes(s, 16);
    directories_round_trip(s, 24);
    assert(header_at(s).encoding() =~= s.subrange(0, 40));
    assert(overlay(out, 0, header_at(s).encoding()).subrange(0, 40) =~= s.subrange(0, 40));
}

} // verus!
