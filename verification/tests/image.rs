use te_image::error::ImageError;
use te_image::pe::data_directories::DataDirectory;
use te_image::te::data_directories::{DataDirectories, SIZEOF_DATA_DIRECTORIES};
use te_image::te::debug::{DebugData, ImageDebugDirectory};
use te_image::te::header::{Header, SIZEOF_TE_HEADER, TE_MACHINE_X86_64, TE_MAGIC};
use te_image::te::section_table::{rebase, SectionTable, SIZEOF_SECTION_TABLE};
use te_image::te::TE;

fn put(buffer: &mut [u8], at: usize, bytes: &[u8]) {
    buffer[at..at + bytes.len()].copy_from_slice(bytes);
}

/// An image of 0x400 bytes with one section whose data lies at 0x200, a
/// debug directory at address 0x1010 and base relocations at 0x1100.
fn image() -> Vec<u8> {
    let mut b = vec![0u8; 0x400];
    put(&mut b, 0, &[0x56, 0x5a]);
    put(&mut b, 2, &0x8664u16.to_le_bytes());
    b[4] = 1;
    b[5] = 0x0b;
    put(&mut b, 6, &0x100u16.to_le_bytes());
    put(&mut b, 8, &0x1234u32.to_le_bytes());
    put(&mut b, 12, &0x1000u32.to_le_bytes());
    put(&mut b, 16, &0xffff_ffff_fffe_0000u64.to_le_bytes());
    put(&mut b, 24, &0x1100u32.to_le_bytes());
    put(&mut b, 28, &0x10u32.to_le_bytes());
    put(&mut b, 32, &0x1010u32.to_le_bytes());
    put(&mut b, 36, &0x1cu32.to_le_bytes());
    put(&mut b, 40, b".text\0\0\0");
    put(&mut b, 48, &0x200u32.to_le_bytes());
    put(&mut b, 52, &0x1000u32.to_le_bytes());
    put(&mut b, 56, &0x200u32.to_le_bytes());
    put(&mut b, 60, &0x2d8u32.to_le_bytes());
    put(&mut b, 64, &0x11u32.to_le_bytes());
    put(&mut b, 68, &0x22u32.to_le_bytes());
    put(&mut b, 72, &0x33u16.to_le_bytes());
    put(&mut b, 74, &0x44u16.to_le_bytes());
    put(&mut b, 76, &0x6000_0020u32.to_le_bytes());
    put(&mut b, 0x210, &0u32.to_le_bytes());
    put(&mut b, 0x214, &0x5f00_0001u32.to_le_bytes());
    put(&mut b, 0x218, &1u16.to_le_bytes());
    put(&mut b, 0x21a, &2u16.to_le_bytes());
    put(&mut b, 0x21c, &2u32.to_le_bytes());
    put(&mut b, 0x220, &0x30u32.to_le_bytes());
    put(&mut b, 0x224, &0x1040u32.to_le_bytes());
    put(&mut b, 0x228, &0x318u32.to_le_bytes());
    for i in 0..0x10 {
        b[0x300 + i] = 0xb0 + i as u8;
    }
    b
}

fn expected_header() -> Header {
    Header {
        signature: TE_MAGIC,
        machine: TE_MACHINE_X86_64,
        number_of_sections: 1,
        subsystem: 0x0b,
        stripped_size: 0x100,
        address_of_entry_point: 0x1234,
        base_of_code: 0x1000,
        image_base: 0xffff_ffff_fffe_0000,
        data_directories: DataDirectories {
            base_relocation: Some(DataDirectory { virtual_address: 0x1100, size: 0x10 }),
            debug: Some(DataDirectory { virtual_address: 0x1010, size: 0x1c }),
        },
    }
}

fn expected_section() -> SectionTable {
    SectionTable {
        name: *b".text\0\0\0",
        virtual_size: 0x200,
        virtual_address: 0x1000,
        size_of_raw_data: 0x200,
        pointer_to_raw_data: 0x2d8,
        pointer_to_relocations: 0x11,
        pointer_to_linenumbers: 0x22,
        number_of_relocations: 0x33,
        number_of_linenumbers: 0x44,
        characteristics: 0x6000_0020,
        stripped_size: 0x100,
    }
}

#[test]
fn header_parses_every_field_little_endian() {
    assert_eq!(Header::parse(&image()).unwrap(), expected_header());
    assert_eq!(Header::parse(&image()[..40]).unwrap(), expected_header());
}

#[test]
fn header_with_another_signature_is_malformed() {
    let mut bytes = image();
    bytes[0] = 0x5a;
    bytes[1] = 0x56;
    match Header::parse(&bytes) {
        Err(ImageError::Malformed(m)) => {
            assert_eq!(m, "TE header is malformed (signature: 0x565a)")
        }
        other => panic!("{:?}", other),
    }
    bytes[0] = 0x4d;
    bytes[1] = 0;
    match Header::parse(&bytes) {
        Err(ImageError::Malformed(m)) => assert_eq!(m, "TE header is malformed (signature: 0x4d)"),
        other => panic!("{:?}", other),
    }
    bytes[0] = 0;
    match Header::parse(&bytes) {
        Err(ImageError::Malformed(m)) => assert_eq!(m, "TE header is malformed (signature: 0x0)"),
        other => panic!("{:?}", other),
    }
}

#[test]
fn header_in_a_short_buffer_is_an_error_of_the_cursor() {
    assert!(matches!(Header::parse(&image()[..39]), Err(ImageError::Scroll(_))));
    assert!(matches!(Header::parse(&[0x56, 0x5a]), Err(ImageError::Scroll(_))));
    assert!(matches!(Header::parse(&[0x00, 0x00]), Err(ImageError::Scroll(_))));
    assert!(matches!(Header::parse(&[]), Err(ImageError::Scroll(_))));
}

#[test]
fn header_round_trips() {
    let bytes = image();
    let header = Header::parse(&bytes).unwrap();
    let mut out = [0xccu8; 48];
    assert_eq!(header.try_into_ctx(&mut out).unwrap(), SIZEOF_TE_HEADER);
    assert_eq!(&out[..40], &bytes[..40]);
    assert_eq!(&out[40..], &[0xcc; 8]);
}

#[test]
fn header_with_absent_directories_round_trips() {
    let mut bytes = image();
    for b in &mut bytes[24..40] {
        *b = 0;
    }
    let header = Header::parse(&bytes).unwrap();
    assert_eq!(header.data_directories, DataDirectories::default());
    let mut out = [0xccu8; 40];
    assert_eq!(header.try_into_ctx(&mut out).unwrap(), 40);
    assert_eq!(&out[..], &bytes[..40]);
}

#[test]
fn header_written_into_a_short_buffer_leaves_the_fields_that_fit() {
    let header = Header::parse(&image()).unwrap();
    let mut out = [0xccu8; 30];
    assert!(matches!(header.try_into_ctx(&mut out), Err(ImageError::Scroll(_))));
    assert_eq!(&out[..28], &image()[..28]);
    assert_eq!(&out[28..], &[0xcc, 0xcc]);
    let mut out = [0xccu8; 5];
    assert!(header.try_into_ctx(&mut out).is_err());
    assert_eq!(out, [0x56, 0x5a, 0x64, 0x86, 1]);
    let mut out = [0xccu8; 23];
    assert!(header.try_into_ctx(&mut out).is_err());
    assert_eq!(&out[..16], &image()[..16]);
    assert_eq!(&out[16..], &[0xcc; 7]);
}

#[test]
fn directories_of_zeros_are_absent() {
    let mut bytes = [0u8; 16];
    let mut offset = 0;
    let dirs = DataDirectories::parse(&bytes, &mut offset).unwrap();
    assert_eq!(offset, 16);
    assert_eq!(*dirs.get_base_relocation_table(), None);
    assert_eq!(*dirs.get_debug_table(), None);

    bytes[4] = 1;
    bytes[8] = 2;
    let mut offset = 0;
    let dirs = DataDirectories::parse(&bytes, &mut offset).unwrap();
    assert_eq!(
        *dirs.get_base_relocation_table(),
        Some(DataDirectory { virtual_address: 0, size: 1 })
    );
    assert_eq!(*dirs.get_debug_table(), Some(DataDirectory { virtual_address: 2, size: 0 }));
}

#[test]
fn directories_are_read_at_the_cursor() {
    let bytes = image();
    let mut offset = 24;
    let dirs = DataDirectories::parse(&bytes, &mut offset).unwrap();
    assert_eq!(offset, 40);
    assert_eq!(dirs, expected_header().data_directories);
    let mut offset = 0x400 - 12;
    assert!(matches!(DataDirectories::parse(&bytes, &mut offset), Err(ImageError::Scroll(_))));
    assert_eq!(offset, 0x400 - 4);
    let mut offset = 0x400 - 7;
    assert!(DataDirectories::parse(&bytes, &mut offset).is_err());
    assert_eq!(offset, 0x400 - 7);
    let mut offset = 0x500;
    assert!(DataDirectories::parse_single(&bytes, &mut offset).is_err());
    assert_eq!(offset, 0x500);
}

#[test]
fn directories_are_written_with_zeros_for_absent_ones() {
    let dirs = DataDirectories {
        base_relocation: None,
        debug: Some(DataDirectory { virtual_address: 0x0102_0304, size: 0x0a0b_0c0d }),
    };
    let mut out = [0xccu8; 17];
    assert_eq!(dirs.try_into_ctx(&mut out).unwrap(), SIZEOF_DATA_DIRECTORIES);
    assert_eq!(out, [0, 0, 0, 0, 0, 0, 0, 0, 4, 3, 2, 1, 0x0d, 0x0c, 0x0b, 0x0a, 0xcc]);
    assert_eq!(DataDirectories::size_with(), 16);
    let mut short = [0xccu8; 11];
    assert!(dirs.try_into_ctx(&mut short).is_err());
    assert_eq!(short, [0, 0, 0, 0, 0, 0, 0, 0, 0xcc, 0xcc, 0xcc]);
}

#[test]
fn section_parses_every_field_and_carries_the_stripped_size() {
    let bytes = image();
    let mut offset = 40;
    let section = SectionTable::parse(&bytes, &mut offset, 0x100).unwrap();
    assert_eq!(offset, 80);
    assert_eq!(section, expected_section());
}

#[test]
fn section_in_a_short_buffer_leaves_the_cursor_behind_the_last_field() {
    let bytes = image();
    let mut offset = 0x400 - 39;
    assert!(matches!(SectionTable::parse(&bytes, &mut offset, 0), Err(ImageError::Scroll(_))));
    assert_eq!(offset, 0x400 - 39 + 36);
    let mut offset = 0x400 - 7;
    assert!(SectionTable::parse(&bytes, &mut offset, 0).is_err());
    assert_eq!(offset, 0x400 - 7);
    let mut offset = 0x400 - 10;
    assert!(SectionTable::parse(&bytes, &mut offset, 0).is_err());
    assert_eq!(offset, 0x400 - 2);
    let mut offset = 0x401;
    assert!(SectionTable::parse(&bytes, &mut offset, 0).is_err());
    assert_eq!(offset, 0x401);
}

#[test]
fn section_round_trips() {
    let bytes = image();
    let mut offset = 40;
    let section = SectionTable::parse(&bytes, &mut offset, 0x100).unwrap();
    let mut out = [0xccu8; 41];
    assert_eq!(section.try_into_ctx(&mut out).unwrap(), SIZEOF_SECTION_TABLE);
    assert_eq!(&out[..40], &bytes[40..80]);
    assert_eq!(out[40], 0xcc);
    assert_eq!(SectionTable::size_with(), 40);
}

#[test]
fn section_written_into_a_short_buffer_leaves_the_fields_that_fit() {
    let section = expected_section();
    let mut out = [0xccu8; 35];
    assert!(matches!(section.clone().try_into_ctx(&mut out), Err(ImageError::Scroll(_))));
    assert_eq!(&out[..34], &image()[40..74]);
    assert_eq!(out[34], 0xcc);
    let mut out = [0xccu8; 7];
    assert!(section.try_into_ctx(&mut out).is_err());
    assert_eq!(out, [0xcc; 7]);
}

#[test]
fn sections_reads_as_many_records_as_the_header_counts() {
    let bytes = image();
    let header = expected_header();
    let mut offset = 40;
    let sections = header.sections(&bytes, &mut offset).unwrap();
    assert_eq!(offset, 80);
    assert_eq!(sections, vec![expected_section()]);

    let none = Header { number_of_sections: 0, ..header };
    let mut offset = 0x1000;
    assert!(none.sections(&bytes, &mut offset).unwrap().is_empty());
    assert_eq!(offset, 0x1000);

    let many = Header { number_of_sections: 26, ..header };
    let mut offset = 0;
    assert!(matches!(many.sections(&bytes, &mut offset), Err(ImageError::Scroll(_))));
    assert_eq!(offset, 1024);
    let mut offset = 0;
    assert!(many.sections(&bytes[..1010], &mut offset).is_err());
    assert_eq!(offset, 1008);
}

#[test]
fn rebase_subtracts_the_stripped_size_and_adds_the_header_size() {
    assert_eq!(rebase(0x2d8, 0x100), 0x200);
    assert_eq!(rebase(0, 0), 40);
    assert_eq!(rebase(0, 0x100), 0xffff_ff28);
    assert_eq!(rebase(0xffff_ffff, 0), 39);
}

#[test]
fn image_parses_header_sections_and_debug_data() {
    let bytes = image();
    let te = TE::parse(&bytes).unwrap();
    assert_eq!(te.header, expected_header());
    assert_eq!(te.sections, vec![expected_section()]);
    assert_eq!(
        te.debug_data,
        Some(DebugData {
            image_debug_directory: ImageDebugDirectory {
                characteristics: 0,
                time_date_stamp: 0x5f00_0001,
                major_version: 1,
                minor_version: 2,
                data_type: 2,
                size_of_data: 0x30,
                address_of_raw_data: 0x1040,
                pointer_to_raw_data: 0x318,
            },
            codeview_pdb70_offset: 0x240,
        })
    );
}

#[test]
fn image_without_a_debug_directory_has_no_debug_data() {
    let mut bytes = image();
    for b in &mut bytes[32..40] {
        *b = 0;
    }
    let te = TE::parse(&bytes).unwrap();
    assert_eq!(te.debug_data, None);
    assert_eq!(te.sections.len(), 1);
}

#[test]
fn image_whose_debug_directory_no_section_holds_is_malformed() {
    let mut bytes = image();
    put(&mut bytes, 32, &0x9000u32.to_le_bytes());
    match TE::parse(&bytes) {
        Err(ImageError::Malformed(m)) => {
            assert_eq!(m, "Cannot map ImageDebugDirectory rva 0x9000 into offset")
        }
        other => panic!("{:?}", other),
    }
}

#[test]
fn image_whose_debug_directory_runs_past_the_end_is_an_error_of_the_cursor() {
    let bytes = image();
    assert!(matches!(TE::parse(&bytes[..0x220]), Err(ImageError::Scroll(_))));
    assert!(TE::parse(&bytes[..0x22c]).is_ok());
}

#[test]
fn image_with_a_wrong_signature_or_missing_sections_fails() {
    let mut bytes = image();
    assert!(matches!(TE::parse(&bytes[..79]), Err(ImageError::Scroll(_))));
    assert!(matches!(TE::parse(&bytes[..10]), Err(ImageError::Scroll(_))));
    bytes[1] = 0;
    assert!(matches!(TE::parse(&bytes), Err(ImageError::Malformed(_))));
}

#[test]
fn base_relocations_are_the_bytes_of_the_directory() {
    let bytes = image();
    let te = TE::parse(&bytes).unwrap();
    let relocs = te.base_relocations(&bytes).unwrap();
    assert_eq!(relocs.len(), 0x10);
    assert_eq!(relocs[0], 0xb0);
    assert_eq!(relocs[15], 0xbf);
    assert!(te.base_relocations(&bytes[..0x30f]).is_none());
}

#[test]
fn base_relocations_are_absent_without_directory_or_section() {
    let mut bytes = image();
    put(&mut bytes, 24, &0x9000u32.to_le_bytes());
    let te = TE::parse(&bytes).unwrap();
    assert!(te.base_relocations(&bytes).is_none());
    for b in &mut bytes[24..32] {
        *b = 0;
    }
    let te = TE::parse(&bytes).unwrap();
    assert!(te.base_relocations(&bytes).is_none());
}

#[test]
fn adjust_offset_rebases_like_a_section_pointer() {
    let te = TE::parse(&image()).unwrap();
    assert_eq!(te.adjust_offset(0x318), 0x240);
    assert_eq!(te.adjust_offset(0x100), 40);
    assert_eq!(te.adjust_offset(0), 0usize.wrapping_sub(0x100).wrapping_add(40));
    for p in [0u32, 0x28, 0xff, 0x100, 0x2d8, 0xffff_ffff] {
        assert_eq!(te.adjust_offset(p as usize) as u32, rebase(p, 0x100));
    }
}

#[test]
fn entry_point_is_the_image_base_plus_the_entry_address() {
    let te = TE::parse(&image()).unwrap();
    assert_eq!(te.image_base(), 0xffff_ffff_fffe_0000);
    assert_eq!(te.entry_point(), 0xffff_ffff_fffe_1234);
    let mut bytes = image();
    put(&mut bytes, 8, &0x0002_0001u32.to_le_bytes());
    let te = TE::parse(&bytes).unwrap();
    assert_eq!(te.entry_point(), 1);
}

#[test]
fn into_ctx_writes_into_a_buffer_that_holds_the_value() {
    let bytes = image();
    let mut out = [0xccu8; 41];
    expected_header().into_ctx(&mut out);
    assert_eq!(&out[..40], &bytes[..40]);
    assert_eq!(out[40], 0xcc);
    let mut out = [0xccu8; 40];
    expected_section().into_ctx(&mut out);
    assert_eq!(&out[..], &bytes[40..80]);
    let mut out = [0xccu8; 16];
    expected_header().data_directories.into_ctx(&mut out);
    assert_eq!(&out[..], &bytes[24..40]);
}
