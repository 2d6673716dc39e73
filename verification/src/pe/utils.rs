//! Section geometry and the resolution of relative virtual addresses to file
//! offsets.

use crate::error::{
    cursor_result, decimal, decimal_digits, hex, hex_text, listing, ImageError,
};
use crate::options::ParseOptions;
use crate::pe::data_directories::DataDirectory;
use crate::wire::{is_text_at, pread_str, text_at};
use vstd::prelude::*;
use vstd::wrapping::{u64_specs, usize_specs};

verus! {

/// The numbers of one section record, as the loader sees them.
pub struct SectionGeometry {
    pub virtual_size: u32,
    pub virtual_address: u32,
    pub size_of_raw_data: u32,
    pub pointer_to_raw_data: u32,
    pub pointer_to_relocations: u32,
    pub pointer_to_linenumbers: u32,
    pub number_of_relocations: u16,
    pub number_of_linenumbers: u16,
    pub characteristics: u32,
}

/// A section record of any image format. The address resolver reads a section
/// through this interface alone.
pub trait PESectionTable {
    /// The numbers that the getters below hand out.
    spec fn geometry(&self) -> SectionGeometry;

    /// The section's name, or an error where its bytes are no text.
    fn name(&self) -> core::result::Result<&str, ImageError>;

    fn virtual_size(&self) -> (r: u32)
        ensures
            r == self.geometry().virtual_size,
    ;

    fn virtual_address(&self) -> (r: u32)
        ensures
            r == self.geometry().virtual_address,
    ;

    fn size_of_raw_data(&self) -> (r: u32)
        ensures
            r == self.geometry().size_of_raw_data,
    ;

    fn pointer_to_raw_data(&self) -> (r: u32)
        ensures
            r == self.geometry().pointer_to_raw_data,
    ;

    fn pointer_to_relocations(&self) -> (r: u32)
        ensures
            r == self.geometry().pointer_to_relocations,
    ;

    fn pointer_to_linenumbers(&self) -> (r: u32)
        ensures
            r == self.geometry().pointer_to_linenumbers,
    ;

    fn number_of_relocations(&self) -> (r: u16)
        ensures
            r == self.geometry().number_of_relocations,
    ;

    fn number_of_linenumbers(&self) -> (r: u16)
        ensures
            r == self.geometry().number_of_linenumbers,
    ;

    fn characteristics(&self) -> (r: u32)
        ensures
            r == self.geometry().characteristics,
    ;
}

/// The geometry of each section of a table, in table order.
pub open spec fn geometries<T: PESectionTable>(sections: Seq<T>) -> Seq<SectionGeometry> {
    Seq::new(sections.len(), |i: int| sections[i].geometry())
}

/// `pointer` rounded down to the loader's 512-byte sector boundary.
pub open spec fn physical_align(pointer: int) -> int {
    pointer - pointer % 0x200
}

/// `size` rounded up to a multiple of 4 KiB.
pub open spec fn round_up_4k(size: int) -> int {
    ((size + 0xfff) / 0x1000) * 0x1000
}

/// The bits below a file alignment: the alignment less one, in 64 bits and
/// wrapping, so that an alignment of zero gives all bits.
pub open spec fn alignment_mask(file_alignment: u32) -> u64 {
    u64_specs::wrapping_sub(file_alignment as u64, 1)
}

/// `end` raised by the alignment mask and cleared of the mask's bits: for an
/// alignment that is a power of two, `end` rounded up to it.
pub open spec fn file_aligned_end(end: u64, file_alignment: u32) -> u64 {
    u64_specs::wrapping_add(end, alignment_mask(file_alignment)) & !alignment_mask(file_alignment)
}

/// The distance from the sector-aligned start of a section's raw data to the
/// file-aligned end of it, in 64 bits and wrapping.
pub open spec fn file_aligned_span(g: SectionGeometry, file_alignment: u32) -> u64 {
    u64_specs::wrapping_sub(
        file_aligned_end((g.pointer_to_raw_data + g.size_of_raw_data) as u64, file_alignment),
        physical_align(g.pointer_to_raw_data as int) as u64,
    )
}

/// The smaller of two numbers.
pub open spec fn least(a: int, b: int) -> int {
    if a <= b {
        a
    } else {
        b
    }
}

/// How many bytes of a section the file backs, as a loader computes it: the
/// smaller of the raw size rounded up to 4 KiB and the file-aligned span,
/// and no more than the virtual size rounded up to 4 KiB where that size is
/// not zero.
pub open spec fn read_size(g: SectionGeometry, file_alignment: u32) -> int {
    let backed = least(
        file_aligned_span(g, file_alignment) as int,
        round_up_4k(g.size_of_raw_data as int),
    );
    if g.virtual_size == 0 {
        backed
    } else {
        least(backed, round_up_4k(g.virtual_size as int))
    }
}

/// Whether `rva` lies in the part of the section that the file backs.
pub open spec fn in_section(rva: int, g: SectionGeometry, file_alignment: u32) -> bool {
    g.virtual_address <= rva < g.virtual_address + read_size(g, file_alignment)
}

/// Whether section `i` holds `rva` and no section before it does.
pub open spec fn is_first_match(
    rva: int,
    sections: Seq<SectionGeometry>,
    file_alignment: u32,
    i: int,
) -> bool {
    &&& 0 <= i < sections.len()
    &&& in_section(rva, sections[i], file_alignment)
    &&& forall|j: int| 0 <= j < i ==> !in_section(rva, #[trigger] sections[j], file_alignment)
}

/// The index of the first section, in table order, that holds `rva`.
pub open spec fn first_match(rva: int, sections: Seq<SectionGeometry>, file_alignment: u32)
    -> Option<int> {
    if exists|i: int| is_first_match(rva, sections, file_alignment, i) {
        Some(choose|i: int| is_first_match(rva, sections, file_alignment, i))
    } else {
        None
    }
}

/// The file offset of `rva` in a section, counted from the section's raw
/// pointer as it stands, with wrapping arithmetic.
pub open spec fn raw_offset(rva: usize, g: SectionGeometry) -> usize {
    usize_specs::wrapping_add(
        g.pointer_to_raw_data as usize,
        usize_specs::wrapping_sub(rva, g.virtual_address as usize),
    )
}

/// The file offset of `rva` in a section, counted from the section's raw
/// pointer rounded down to a sector boundary, with wrapping arithmetic.
pub open spec fn aligned_offset(rva: usize, g: SectionGeometry) -> usize {
    usize_specs::wrapping_add(
        usize_specs::wrapping_sub(rva, g.virtual_address as usize),
        physical_align(g.pointer_to_raw_data as int) as usize,
    )
}

/// What `find_raw_offset` finds: the raw offset in the first section that
/// holds `rva`.
pub open spec fn raw_offset_in(rva: usize, sections: Seq<SectionGeometry>, file_alignment: u32)
    -> Option<usize> {
    match first_match(rva as int, sections, file_alignment) {
        Some(i) => Some(raw_offset(rva, sections[i])),
        None => None,
    }
}

/// What `find_offset` finds: `rva` itself where addresses are not resolved,
/// else the sector-aligned offset in the first section that holds `rva`.
pub open spec fn offset_in(
    rva: usize,
    sections: Seq<SectionGeometry>,
    file_alignment: u32,
    resolve_rva: bool,
) -> Option<usize> {
    if !resolve_rva {
        Some(rva)
    } else {
        match first_match(rva as int, sections, file_alignment) {
            Some(i) => Some(aligned_offset(rva, sections[i])),
            None => None,
        }
    }
}

/// A section that holds `rva` while none before it does is the first match.
pub proof fn first_match_found(
    rva: int,
    sections: Seq<SectionGeometry>,
    file_alignment: u32,
    i: int,
)
    requires
        is_first_match(rva, sections, file_alignment, i),
    ensures
        first_match(rva, sections, file_alignment) == Some(i),
{
    let c = choose|c: int| is_first_match(rva, sections, file_alignment, c);
    if c < i {
        assert(!in_section(rva, sections[c], file_alignment));
    }
    if i < c {
        assert(!in_section(rva, sections[i], file_alignment));
    }
}

/// Where no section holds `rva`, there is no first match.
pub proof fn first_match_missing(rva: int, sections: Seq<SectionGeometry>, file_alignment: u32)
    requires
        forall|j: int|
            0 <= j < sections.len() ==> !in_section(rva, #[trigger] sections[j], file_alignment),
    ensures
        first_match(rva, sections, file_alignment) is None,
{
}

/// Whether a file alignment is a power of two.
pub open spec fn is_power_of_two(file_alignment: u32) -> bool {
    file_alignment != 0 && file_alignment & ((file_alignment - 1) as u32) == 0
}

/// For a file alignment that is a power of two, the file-aligned end is
/// `end` rounded up to the alignment: it has no bit below the alignment, is
/// no less than `end`, and exceeds it by less than the alignment.
pub proof fn file_aligned_end_rounds_up(end: u64, file_alignment: u32)
    requires
        is_power_of_two(file_alignment),
        end < 0x2_0000_0000,
    ensures
        file_aligned_end(end, file_alignment) & alignment_mask(file_alignment) == 0,
        end <= file_aligned_end(end, file_alignment) < end + file_alignment,
{
    let fa = file_alignment;
    let m = alignment_mask(fa);
    let e = ((end + m) as u64) & !m;
    assert(m == fa - 1);
    assert(e & m == 0 && end <= e && e - end < fa as u64) by (bit_vector)
        requires
            end < 0x2_0000_0000,
            fa != 0 && fa & ((fa - 1) as u32) == 0,
            m == (fa - 1) as u64,
            e == ((end + m) as u64) & !m,
    ;
    assert(file_aligned_end(end, fa) == e);
}

/// The read size never exceeds the raw size rounded up to 4 KiB, nor, for a
/// virtual size that is not zero, the virtual size rounded up to 4 KiB.
pub proof fn read_size_bounded(g: SectionGeometry, file_alignment: u32)
    ensures
        0 <= read_size(g, file_alignment) <= round_up_4k(g.size_of_raw_data as int),
        g.virtual_size != 0 ==> read_size(g, file_alignment) <= round_up_4k(
            g.virtual_size as int,
        ),
{
}

/// With the other fields fixed, a virtual size that is not zero and grows
/// never makes the read size smaller.
pub proof fn read_size_grows_with_virtual_size(
    g1: SectionGeometry,
    g2: SectionGeometry,
    file_alignment: u32,
)
    requires
        g2 == (SectionGeometry { virtual_size: g2.virtual_size, ..g1 }),
        0 < g1.virtual_size <= g2.virtual_size,
    ensures
        read_size(g1, file_alignment) <= read_size(g2, file_alignment),
{
    assert(file_aligned_span(g1, file_alignment) == file_aligned_span(g2, file_alignment));
    assert(round_up_4k(g1.virtual_size as int) <= round_up_4k(g2.virtual_size as int));
}

/// With the other fields fixed and a file alignment that is a power of two,
/// a raw size that grows never makes the read size smaller.
pub proof fn read_size_grows_with_raw_size(
    g1: SectionGeometry,
    g2: SectionGeometry,
    file_alignment: u32,
)
    requires
        g2 == (SectionGeometry { size_of_raw_data: g2.size_of_raw_data, ..g1 }),
        g1.size_of_raw_data <= g2.size_of_raw_data,
        is_power_of_two(file_alignment),
    ensures
        read_size(g1, file_alignment) <= read_size(g2, file_alignment),
{
    let fa = file_alignment;
    let m = alignment_mask(fa);
    let p = g1.pointer_to_raw_data as u64;
    let x1 = (g1.pointer_to_raw_data + g1.size_of_raw_data) as u64;
    let x2 = (g2.pointer_to_raw_data + g2.size_of_raw_data) as u64;
    let a = physical_align(p as int) as u64;
    assert(m == fa - 1);
    assert(fa <= 0x8000_0000 && m == ((fa - 1) as u32) as u64) by (bit_vector)
        requires
            fa != 0 && fa & ((fa - 1) as u32) == 0,
            m == (fa - 1) as u64,
    ;
    let e1 = ((x1 + m) as u64) & !m;
    let e2 = ((x2 + m) as u64) & !m;
    assert(e1 <= e2 && x1 <= e1 && x2 <= e2) by (bit_vector)
        requires
            x1 <= x2,
            x2 < 0x2_0000_0000,
            fa != 0 && fa & ((fa - 1) as u32) == 0,
            m == ((fa - 1) as u32) as u64,
            e1 == ((x1 + m) as u64) & !m,
            e2 == ((x2 + m) as u64) & !m,
    ;
    assert(file_aligned_end(x1, fa) == e1);
    assert(file_aligned_end(x2, fa) == e2);
    assert(a <= p <= x1);
    assert(file_aligned_span(g1, fa) == e1 - a);
    assert(file_aligned_span(g2, fa) == e2 - a);
    assert(round_up_4k(g1.size_of_raw_data as int) <= round_up_4k(g2.size_of_raw_data as int));
}

/// An address below the virtual address of every section resolves to
/// nothing. In a table ordered by virtual address these are the addresses
/// below the first section.
pub proof fn nothing_below_first_section(
    rva: usize,
    sections: Seq<SectionGeometry>,
    file_alignment: u32,
)
    requires
        sections.len() > 0,
        forall|i: int|
            0 <= i < sections.len() ==> sections[0].virtual_address <= (
            #[trigger] sections[i]).virtual_address,
        rva < sections[0].virtual_address,
    ensures
        raw_offset_in(rva, sections, file_alignment) is None,
        offset_in(rva, sections, file_alignment, true) is None,
{
    first_match_missing(rva as int, sections, file_alignment);
}

/// An address at or beyond the read boundary of every section resolves to
/// nothing. In a table whose last section ends last these are the addresses
/// at or beyond the last section's read boundary.
pub proof fn nothing_beyond_last_section(
    rva: usize,
    sections: Seq<SectionGeometry>,
    file_alignment: u32,
)
    requires
        sections.len() > 0,
        forall|i: int|
            0 <= i < sections.len() ==> (#[trigger] sections[i]).virtual_address + read_size(
                sections[i],
                file_alignment,
            ) <= sections.last().virtual_address + read_size(sections.last(), file_alignment),
        rva >= sections.last().virtual_address + read_size(sections.last(), file_alignment),
    ensures
        raw_offset_in(rva, sections, file_alignment) is None,
        offset_in(rva, sections, file_alignment, true) is None,
{
    first_match_missing(rva as int, sections, file_alignment);
}

/// The first section in table order that holds an address decides the
/// offset, whether or not a later section holds the address too.
pub proof fn first_section_wins(
    rva: usize,
    sections: Seq<SectionGeometry>,
    file_alignment: u32,
    i: int,
)
    requires
        is_first_match(rva as int, sections, file_alignment, i),
    ensures
        raw_offset_in(rva, sections, file_alignment) == Some(raw_offset(rva, sections[i])),
        offset_in(rva, sections, file_alignment, true) == Some(aligned_offset(rva, sections[i])),
        offset_in(rva, sections, file_alignment, false) == Some(rva),
{
    first_match_found(rva as int, sections, file_alignment, i);
}

/// An address resolves to nothing exactly when no section holds it.
pub proof fn resolves_where_held(rva: usize, sections: Seq<SectionGeometry>, file_alignment: u32)
    ensures
        raw_offset_in(rva, sections, file_alignment) is None <==> forall|j: int|
            0 <= j < sections.len() ==> !in_section(
                rva as int,
                #[trigger] sections[j],
                file_alignment,
            ),
{
    if exists|j: int|
        0 <= j < sections.len() && in_section(rva as int, sections[j], file_alignment) {
        let j = choose|j: int|
            0 <= j < sections.len() && in_section(rva as int, sections[j], file_alignment);
        first_holder(rva as int, sections, file_alignment, j);
    }
}

/// Where section `j` holds `rva`, some section at or before `j` is the first
/// to hold it.
proof fn first_holder(rva: int, sections: Seq<SectionGeometry>, file_alignment: u32, j: int)
    requires
        0 <= j < sections.len(),
        in_section(rva, sections[j], file_alignment),
    ensures
        exists|i: int| is_first_match(rva, sections, file_alignment, i),
    decreases j,
{
    if exists|k: int| 0 <= k < j && in_section(rva, sections[k], file_alignment) {
        let k = choose|k: int| 0 <= k < j && in_section(rva, sections[k], file_alignment);
        first_holder(rva, sections, file_alignment, k);
    } else {
        assert(is_first_match(rva, sections, file_alignment, j));
    }
}

pub fn is_in_range(rva: usize, r1: usize, r2: usize) -> (r: bool)
    ensures
        r == (r1 <= rva < r2),
{
    r1 <= rva && rva < r2
}

/// Rounds a raw pointer down to the 512-byte boundary from which a loader
/// reads.
pub fn aligned_pointer_to_raw_data(pointer_to_raw_data: usize) -> (r: usize)
    ensures
        r == physical_align(pointer_to_raw_data as int),
{
    let p: u64 = pointer_to_raw_data as u64;
    let aligned: u64 = p & !0x1ffu64;
    assert(p & !0x1ffu64 == p - p % 0x200) by (bit_vector);
    aligned as usize
}

/// Rounds a size of at most 32 bits up to a multiple of 4 KiB.
fn round_size(size: u64) -> (r: u64)
    requires
        size <= u32::MAX,
    ensures
        r == round_up_4k(size as int),
{
    let raised: u64 = size + 0xfff;
    assert(raised & !0xfffu64 == raised - raised % 0x1000) by (bit_vector);
    raised & !0xfffu64
}

/// The number of bytes of `section` that the file backs.
pub fn section_read_size<T: PESectionTable>(section: &T, file_alignment: u32) -> (r: u64)
    ensures
        r == read_size(section.geometry(), file_alignment),
        r <= round_up_4k(section.geometry().size_of_raw_data as int),
        section.geometry().virtual_size != 0 ==> r <= round_up_4k(
            section.geometry().virtual_size as int,
        ),
        r <= 0x1_0000_0000,
{
    let size_of_raw_data: u64 = section.size_of_raw_data() as u64;
    let virtual_size: u64 = section.virtual_size() as u64;
    let pointer: u64 = section.pointer_to_raw_data() as u64;
    let mask: u64 = (file_alignment as u64).wrapping_sub(1);
    let end: u64 = (pointer + size_of_raw_data).wrapping_add(mask) & !mask;
    assert(pointer & !0x1ffu64 == pointer - pointer % 0x200) by (bit_vector);
    let span: u64 = end.wrapping_sub(pointer & !0x1ffu64);
    let rounded: u64 = round_size(size_of_raw_data);
    let backed: u64 = if span <= rounded {
        span
    } else {
        rounded
    };
    if virtual_size == 0 {
        backed
    } else {
        let ceiling: u64 = round_size(virtual_size);
        if backed <= ceiling {
            backed
        } else {
            ceiling
        }
    }
}

/// The offset of `rva` from the sector-aligned start of `section`'s raw
/// data, with wrapping arithmetic.
pub fn rva2offset<T: PESectionTable>(rva: usize, section: &T) -> (r: usize)
    ensures
        r == aligned_offset(rva, section.geometry()),
{
    rva.wrapping_sub(section.virtual_address() as usize).wrapping_add(
        aligned_pointer_to_raw_data(section.pointer_to_raw_data() as usize),
    )
}

/// Where the relocations of `section` lie: the file offset of the first, and
/// how many there are.
pub fn relocations<T: PESectionTable>(section: &T) -> (r: (usize, usize))
    ensures
        r.0 == section.geometry().pointer_to_relocations,
        r.1 == section.geometry().number_of_relocations,
{
    let offset: usize = section.pointer_to_relocations() as usize;
    let number: usize = section.number_of_relocations() as usize;
    (offset, number)
}

/// Whether `rva` lies in the part of `section` that the file backs.
pub fn is_in_section<T: PESectionTable>(rva: usize, section: &T, file_alignment: u32) -> (r: bool)
    ensures
        r == in_section(rva as int, section.geometry(), file_alignment),
{
    let section_rva: u64 = section.virtual_address() as u64;
    let size: u64 = section_read_size(section, file_alignment);
    let at: u64 = rva as u64;
    section_rva <= at && at < section_rva + size
}

/// Finds the file offset of `rva`, counted from the raw pointer of the first
/// section in table order that holds it.
pub fn find_raw_offset<T: PESectionTable>(rva: usize, sections: &[T], file_alignment: u32) -> (r:
    Option<usize>)
    ensures
        r == raw_offset_in(rva, geometries(sections@), file_alignment),
{
    let ghost table = geometries(sections@);
    let mut i: usize = 0;
    while i < sections.len()
        invariant
            i <= sections.len(),
            table == geometries(sections@),
            forall|j: int|
                0 <= j < i ==> !in_section(rva as int, #[trigger] table[j], file_alignment),
        decreases sections.len() - i,
    {
        let section = &sections[i];
        assert(table[i as int] == section.geometry());
        if is_in_section(rva, section, file_alignment) {
            let offset: usize = (section.pointer_to_raw_data() as usize).wrapping_add(
                rva.wrapping_sub(section.virtual_address() as usize),
            );
            proof {
                first_match_found(rva as int, table, file_alignment, i as int);
            }
            return Some(offset);
        }
        i += 1;
    }
    proof {
        first_match_missing(rva as int, table, file_alignment);
    }
    None
}

/// Finds the file offset of `rva`, counted from the sector-aligned raw
/// pointer of the first section in table order that holds it. Where the
/// options switch address resolution off, `rva` is the offset.
pub fn find_offset<T: PESectionTable>(
    rva: usize,
    sections: &[T],
    file_alignment: u32,
    opts: &ParseOptions,
) -> (r: Option<usize>)
    ensures
        r == offset_in(rva, geometries(sections@), file_alignment, opts.resolve_rva),
{
    if opts.resolve_rva {
        let ghost table = geometries(sections@);
        let mut i: usize = 0;
        while i < sections.len()
            invariant
                opts.resolve_rva,
                i <= sections.len(),
                table == geometries(sections@),
                forall|j: int|
                    0 <= j < i ==> !in_section(rva as int, #[trigger] table[j], file_alignment),
            decreases sections.len() - i,
        {
            let section = &sections[i];
            assert(table[i as int] == section.geometry());
            if is_in_section(rva, section, file_alignment) {
                let offset: usize = rva2offset(rva, section);
                proof {
                    first_match_found(rva as int, table, file_alignment, i as int);
                }
                return Some(offset);
            }
            i += 1;
        }
        proof {
            first_match_missing(rva as int, table, file_alignment);
        }
        None
    } else {
        Some(rva)
    }
}

/// As `find_offset`, with a `Malformed` error that carries `msg` where no
/// section holds `rva`.
pub fn find_offset_or<T: PESectionTable>(
    rva: usize,
    sections: &[T],
    file_alignment: u32,
    opts: &ParseOptions,
    msg: &str,
) -> (r: core::result::Result<usize, ImageError>)
    ensures
        match offset_in(rva, geometries(sections@), file_alignment, opts.resolve_rva) {
            Some(offset) => r == Ok::<usize, ImageError>(offset),
            None => r is Err && r->Err_0 is Malformed && r->Err_0.message() == msg@,
        },
{
    match find_offset(rva, sections, file_alignment, opts) {
        Some(offset) => Ok(offset),
        None => Err(ImageError::malformed(msg)),
    }
}

/// How the message of `try_name` for an address that no section holds
/// begins. The listing of the sections follows.
pub open spec fn unnamed_rva_message(rva: usize) -> Seq<char> {
    "Cannot find name from rva "@ + hex_text(rva as nat) + " in sections: "@
}

/// Reads the zero-terminated text that stands at `rva`: it resolves the
/// address as `find_offset` does and decodes the bytes from that offset up to
/// the first zero byte, or to the end of the buffer. Where no section holds
/// the address the error is `Malformed`; its message names the address and
/// lists the sections in their debug form.
pub fn try_name<'a, T: PESectionTable + core::fmt::Debug>(
    bytes: &'a [u8],
    rva: usize,
    sections: &[T],
    file_alignment: u32,
    opts: &ParseOptions,
) -> (r: core::result::Result<&'a str, ImageError>)
    ensures
        match offset_in(rva, geometries(sections@), file_alignment, opts.resolve_rva) {
            Some(offset) => if is_text_at(bytes@, offset as int) {
                r is Ok && r->Ok_0@ == text_at(bytes@, offset as int)
            } else {
                r is Err && r->Err_0 is Scroll
            },
            None => r is Err && r->Err_0 is Malformed && unnamed_rva_message(rva).is_prefix_of(
                r->Err_0.message(),
            ),
        },
{
    match find_offset(rva, sections, file_alignment, opts) {
        Some(offset) => cursor_result(pread_str(bytes, offset)),
        None => {
            let table = listing(sections);
            let e = ImageError::malformed_about(
                "Cannot find name from rva ",
                hex(rva as u64),
                " in sections: ",
            );
            let e = e.followed_by(table.as_str());
            Err(e)
        },
    }
}

/// Finds the file offset at which the record that `directory` points to
/// begins, with addresses resolved. The caller decodes the record there.
pub fn get_data<U: PESectionTable>(sections: &[U], directory: DataDirectory, file_alignment: u32)
    -> (r: core::result::Result<usize, ImageError>)
    ensures
        match offset_in(
            directory.virtual_address as usize,
            geometries(sections@),
            file_alignment,
            true,
        ) {
            Some(offset) => r == Ok::<usize, ImageError>(offset),
            None => r is Err && r->Err_0 is Malformed && r->Err_0.message() == decimal_digits(
                directory.virtual_address as nat,
            ),
        },
{
    get_data_with_opts(sections, directory, file_alignment, &ParseOptions::default())
}

/// Finds the file offset at which the record that `directory` points to
/// begins. The caller decodes the record there. Where the address cannot be
/// resolved the error is `Malformed`, and its message is the address in
/// decimal.
pub fn get_data_with_opts<U: PESectionTable>(
    sections: &[U],
    directory: DataDirectory,
    file_alignment: u32,
    opts: &ParseOptions,
) -> (r: core::result::Result<usize, ImageError>)
    ensures
        match offset_in(
            directory.virtual_address as usize,
            geometries(sections@),
            file_alignment,
            opts.resolve_rva,
        ) {
            Some(offset) => r == Ok::<usize, ImageError>(offset),
            None => r is Err && r->Err_0 is Malformed && r->Err_0.message() == decimal_digits(
                directory.virtual_address as nat,
            ),
        },
{
    let rva: usize = directory.virtual_address as usize;
    match find_offset(rva, sections, file_alignment, opts) {
        Some(offset) => Ok(offset),
        None => {
            let e = ImageError::malformed_about("", decimal(directory.virtual_address), "");
            proof {
                reveal_strlit("");
                assert(""@ =~= Seq::<char>::empty());
                assert(e.message() =~= decimal_digits(directory.virtual_address as nat));
            }
            Err(e)
        },
    }
}

/// The zero bytes that bring `length` up to the next multiple of
/// `alignment`; nothing where no alignment is asked for or `length` is a
/// multiple already.
pub fn pad(length: usize, alignment: Option<usize>) -> (r: Option<Vec<u8>>)
    requires
        alignment != Some(0usize),
    ensures
        match alignment {
            Some(a) => if length % a != 0 {
                r is Some && r->Some_0@ == Seq::new((a - length % a) as nat, |i: int| 0u8)
            } else {
                r is None
            },
            None => r is None,
        },
{
    match alignment {
        Some(alignment) => {
            let overhang: usize = length % alignment;
            if overhang != 0 {
                let repeat: usize = alignment - overhang;
                let mut zeros: Vec<u8> = Vec::new();
                while zeros.len() < repeat
                    invariant
                        zeros@.len() <= repeat,
                        zeros@ == Seq::new(zeros@.len(), |i: int| 0u8),
                    decreases repeat - zeros@.len(),
                {
                    zeros.push(0u8);
                    assert(zeros@ =~= Seq::new(zeros@.len(), |i: int| 0u8));
                }
                Some(zeros)
            } else {
                None
            }
        },
        None => None,
    }
}

} // verus!
