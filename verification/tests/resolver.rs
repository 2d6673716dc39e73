use te_image::error::ImageError;
use te_image::options::ParseOptions;
use te_image::pe::data_directories::DataDirectory;
use te_image::pe::utils::{
    aligned_pointer_to_raw_data, find_offset, find_offset_or, find_raw_offset, get_data,
    get_data_with_opts, is_in_range, is_in_section, pad, relocations, rva2offset, section_read_size,
    try_name,
    PESectionTable,
};
use te_image::te::section_table::SectionTable;

/// A section whose pointers are handed out as they are stored.
fn section(virtual_address: u32, virtual_size: u32, size: u32, pointer: u32) -> SectionTable {
    SectionTable {
        name: *b".text\0\0\0",
        virtual_size,
        virtual_address,
        size_of_raw_data: size,
        pointer_to_raw_data: pointer,
        pointer_to_relocations: 0,
        pointer_to_linenumbers: 0,
        number_of_relocations: 0,
        number_of_linenumbers: 0,
        characteristics: 0x6000_0020,
        stripped_size: 40,
    }
}

fn table() -> Vec<SectionTable> {
    vec![
        section(0x1000, 0x1400, 0x1400, 0x400),
        section(0x2000, 0x200, 0x200, 0x2000),
        section(0x5000, 0, 0x100, 0x450),
    ]
}

#[test]
fn range_is_half_open() {
    assert!(is_in_range(5, 5, 6));
    assert!(!is_in_range(6, 5, 6));
    assert!(!is_in_range(4, 5, 6));
    assert!(!is_in_range(5, 5, 5));
}

#[test]
fn physical_alignment_clears_low_nine_bits() {
    assert_eq!(aligned_pointer_to_raw_data(0), 0);
    assert_eq!(aligned_pointer_to_raw_data(0x1ff), 0);
    assert_eq!(aligned_pointer_to_raw_data(0x200), 0x200);
    assert_eq!(aligned_pointer_to_raw_data(0x450), 0x400);
    assert_eq!(aligned_pointer_to_raw_data(0xffff_ffff), 0xffff_fe00);
}

#[test]
fn read_size_takes_the_smaller_of_span_and_rounded_raw_size() {
    assert_eq!(section_read_size(&section(0x1000, 0x1234, 0x1400, 0x400), 0x200), 0x1400);
    assert_eq!(section_read_size(&section(0x5000, 0, 0x100, 0x450), 0x200), 0x200);
    assert_eq!(section_read_size(&section(0x5000, 0, 0x3000, 0x400), 0x4000), 0x3000);
}

#[test]
fn read_size_is_clamped_by_a_virtual_size_that_is_not_zero() {
    assert_eq!(section_read_size(&section(0x1000, 0x10, 0x1400, 0x400), 0x200), 0x1000);
    assert_eq!(section_read_size(&section(0x1000, 0, 0x1400, 0x400), 0x200), 0x1400);
    assert_eq!(section_read_size(&section(0x1000, 0x1001, 0x3000, 0x400), 0x200), 0x2000);
}

#[test]
fn read_size_with_zero_alignment_does_not_panic() {
    assert_eq!(section_read_size(&section(0x1000, 0, 0x100, 0), 0), 0);
    assert_eq!(section_read_size(&section(0x1000, 0, 0x100, 0x200), 0), 0x1000);
}

#[test]
fn read_size_grows_with_raw_size_and_virtual_size() {
    let mut last: u64 = 0;
    for size in [0u32, 1, 0x1ff, 0x200, 0x201, 0xfff, 0x1000, 0x1001, 0x5000, 0xffff_ffff] {
        let now = section_read_size(&section(0x1000, 0, size, 0x450), 0x200);
        assert!(last <= now);
        assert!(now <= ((size as u64 + 0xfff) / 0x1000) * 0x1000);
        last = now;
    }
    let mut last: u64 = 0;
    for virtual_size in [1u32, 0x1000, 0x1001, 0x2000, 0x9000, 0xffff_ffff] {
        let now = section_read_size(&section(0x1000, virtual_size, 0x5000, 0x400), 0x200);
        assert!(last <= now);
        assert!(now <= ((virtual_size as u64 + 0xfff) / 0x1000) * 0x1000);
        last = now;
    }
}

#[test]
fn a_virtual_size_of_zero_does_not_clamp() {
    let unclamped = section_read_size(&section(0x1000, 0, 0x5000, 0x400), 0x200);
    let clamped = section_read_size(&section(0x1000, 1, 0x5000, 0x400), 0x200);
    assert_eq!(unclamped, 0x5000);
    assert_eq!(clamped, 0x1000);
}

#[test]
fn section_holds_addresses_up_to_its_read_boundary() {
    let s = section(0x1000, 0x1400, 0x1400, 0x400);
    assert!(is_in_section(0x1000, &s, 0x200));
    assert!(is_in_section(0x23ff, &s, 0x200));
    assert!(!is_in_section(0x2400, &s, 0x200));
    assert!(!is_in_section(0xfff, &s, 0x200));
}

#[test]
fn rva2offset_counts_from_the_aligned_pointer() {
    assert_eq!(rva2offset(0x5010, &section(0x5000, 0, 0x100, 0x450)), 0x410);
    assert_eq!(rva2offset(0x1100, &section(0x1000, 0, 0x100, 0x400)), 0x500);
}

#[test]
fn raw_offset_counts_from_the_pointer_as_it_stands() {
    assert_eq!(find_raw_offset(0x5010, &table(), 0x200), Some(0x460));
    assert_eq!(find_raw_offset(0x1000, &table(), 0x200), Some(0x400));
    assert_eq!(find_raw_offset(0x23ff, &table(), 0x200), Some(0x17ff));
}

#[test]
fn offset_counts_from_the_aligned_pointer() {
    let opts = ParseOptions::default();
    assert_eq!(find_offset(0x5010, &table(), 0x200, &opts), Some(0x410));
    assert_eq!(find_offset(0x1000, &table(), 0x200, &opts), Some(0x400));
}

#[test]
fn first_matching_section_wins() {
    let opts = ParseOptions::default();
    assert!(is_in_section(0x2100, &table()[0], 0x200));
    assert!(is_in_section(0x2100, &table()[1], 0x200));
    assert_eq!(find_raw_offset(0x2100, &table(), 0x200), Some(0x1500));
    assert_eq!(find_offset(0x2100, &table(), 0x200, &opts), Some(0x1500));
    let mut swapped = table();
    swapped.swap(0, 1);
    assert_eq!(find_raw_offset(0x2100, &swapped, 0x200), Some(0x2100));
}

#[test]
fn nothing_is_found_outside_every_section() {
    let opts = ParseOptions::default();
    assert_eq!(find_raw_offset(0xfff, &table(), 0x200), None);
    assert_eq!(find_offset(0xfff, &table(), 0x200, &opts), None);
    assert_eq!(find_raw_offset(0x5200, &table(), 0x200), None);
    assert_eq!(find_offset(0x5200, &table(), 0x200, &opts), None);
    assert_eq!(find_raw_offset(0x2400, &table(), 0x200), None);
    assert_eq!(find_raw_offset(usize::MAX, &table(), 0x200), None);
    let empty: Vec<SectionTable> = Vec::new();
    assert_eq!(find_raw_offset(0x1000, &empty, 0x200), None);
    assert_eq!(find_offset(0x1000, &empty, 0x200, &opts), None);
}

#[test]
fn unresolved_addresses_are_their_own_offset() {
    let opts = ParseOptions { resolve_rva: false };
    assert_eq!(find_offset(0xfff, &table(), 0x200, &opts), Some(0xfff));
    let empty: Vec<SectionTable> = Vec::new();
    assert_eq!(find_offset(7, &empty, 0x200, &opts), Some(7));
}

#[test]
fn default_options_resolve_addresses() {
    assert!(ParseOptions::default().resolve_rva);
}

#[test]
fn find_offset_or_carries_the_message() {
    let opts = ParseOptions::default();
    assert!(matches!(find_offset_or(0x5010, &table(), 0x200, &opts, "lost"), Ok(0x410)));
    match find_offset_or(0xfff, &table(), 0x200, &opts, "lost") {
        Err(ImageError::Malformed(m)) => assert_eq!(m, "lost"),
        other => panic!("{:?}", other),
    }
}

#[test]
fn try_name_reads_up_to_the_terminator() {
    let opts = ParseOptions { resolve_rva: false };
    let bytes = b"ab\0kernel32.dll\0tail";
    assert_eq!(try_name(bytes, 3, &table(), 0x200, &opts).unwrap(), "kernel32.dll");
    assert_eq!(try_name(bytes, 16, &table(), 0x200, &opts).unwrap(), "tail");
    assert_eq!(try_name(bytes, 2, &table(), 0x200, &opts).unwrap(), "");
    assert_eq!(try_name(bytes, 20, &table(), 0x200, &opts).unwrap(), "");
    assert!(matches!(try_name(bytes, 21, &table(), 0x200, &opts), Err(ImageError::Scroll(_))));
    let bad = [0xffu8, 0xfe, 0];
    assert!(matches!(try_name(&bad, 0, &table(), 0x200, &opts), Err(ImageError::Scroll(_))));
}

#[test]
fn try_name_names_the_unresolved_address() {
    let opts = ParseOptions::default();
    match try_name(b"abc", 0xfff, &table(), 0x200, &opts) {
        Err(ImageError::Malformed(m)) => {
            assert!(m.starts_with("Cannot find name from rva 0xfff in sections: [SectionTable {"));
            assert_eq!(m, format!("Cannot find name from rva 0xfff in sections: {:?}", table()));
        }
        other => panic!("{:?}", other),
    }
}

#[test]
fn get_data_resolves_the_directory() {
    let dd = DataDirectory { virtual_address: 0x5010, size: 8 };
    assert!(matches!(get_data(&table(), dd, 0x200), Ok(0x410)));
    let raw = ParseOptions { resolve_rva: false };
    assert!(matches!(get_data_with_opts(&table(), dd, 0x200, &raw), Ok(0x5010)));
}

#[test]
fn get_data_reports_the_address_in_decimal() {
    let dd = DataDirectory { virtual_address: 4095, size: 8 };
    match get_data(&table(), dd, 0x200) {
        Err(ImageError::Malformed(m)) => assert_eq!(m, "4095"),
        other => panic!("{:?}", other),
    }
    let zero = DataDirectory { virtual_address: 0, size: 8 };
    match get_data_with_opts(&table(), zero, 0x200, &ParseOptions::default()) {
        Err(ImageError::Malformed(m)) => assert_eq!(m, "0"),
        other => panic!("{:?}", other),
    }
}

#[test]
fn pad_fills_up_to_the_alignment() {
    assert_eq!(pad(5, Some(4)), Some(vec![0u8; 3]));
    assert_eq!(pad(8, Some(4)), None);
    assert_eq!(pad(0, Some(4)), None);
    assert_eq!(pad(1, Some(1)), None);
    assert_eq!(pad(7, Some(8)), Some(vec![0u8]));
    assert_eq!(pad(5, None), None);
}

#[test]
fn geometry_getters_rebase_the_pointers() {
    let s = SectionTable {
        name: *b".reloc\0\0",
        virtual_size: 1,
        virtual_address: 2,
        size_of_raw_data: 3,
        pointer_to_raw_data: 0x2d8,
        pointer_to_relocations: 0x100,
        pointer_to_linenumbers: 0x10,
        number_of_relocations: 7,
        number_of_linenumbers: 8,
        characteristics: 9,
        stripped_size: 0x100,
    };
    assert_eq!(s.virtual_size(), 1);
    assert_eq!(s.virtual_address(), 2);
    assert_eq!(s.size_of_raw_data(), 3);
    assert_eq!(s.pointer_to_raw_data(), 0x200);
    assert_eq!(s.pointer_to_relocations(), 0x28);
    assert_eq!(s.pointer_to_linenumbers(), 0xffff_ff38);
    assert_eq!(s.number_of_relocations(), 7);
    assert_eq!(s.number_of_linenumbers(), 8);
    assert_eq!(s.characteristics(), 9);
    assert_eq!(s.name().unwrap(), ".reloc");
}

#[test]
fn section_name_may_fill_all_eight_bytes_or_be_no_text() {
    let mut s = section(0, 0, 0, 0);
    s.name = *b"longname";
    assert_eq!(s.name().unwrap(), "longname");
    s.name = [0xff, 0xff, 0, 0, 0, 0, 0, 0];
    assert!(matches!(s.name(), Err(ImageError::Scroll(_))));
    s.name = [0; 8];
    assert_eq!(s.name().unwrap(), "");
}

#[test]
fn an_alignment_that_is_no_power_of_two_masks_bits() {
    assert_eq!(section_read_size(&section(0x1000, 0, 3, 0), 3), 5);
    assert_eq!(section_read_size(&section(0x1000, 0, 4, 0), 3), 4);
}

#[test]
fn a_table_out_of_order_resolves_below_its_first_section() {
    let sections = vec![section(0x2000, 0x200, 0x200, 0x2000), section(0x1000, 0x200, 0x200, 0x400)];
    assert_eq!(find_raw_offset(0x1010, &sections, 0x200), Some(0x410));
}

#[test]
fn relocations_lie_at_the_rebased_pointer() {
    let mut s = section(0x1000, 0, 0x100, 0x400);
    s.pointer_to_relocations = 0x300;
    s.number_of_relocations = 5;
    s.stripped_size = 0x100;
    assert_eq!(relocations(&s), (0x228, 5));
}
