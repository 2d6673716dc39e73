use te_image::error::ImageError;
use te_image::pe::certs::{
    WinCertificate, WinCertificateHeader, WinCertificates, WIN_CERT_TYPE_EFI_GUID,
    WIN_CERT_TYPE_PKCS_SIGNED_DATA,
};

fn record(dw_length: u32, w_revision: u16, w_certificate_type: u16, payload: &[u8]) -> Vec<u8> {
    let mut out = Vec::new();
    out.extend_from_slice(&dw_length.to_le_bytes());
    out.extend_from_slice(&w_revision.to_le_bytes());
    out.extend_from_slice(&w_certificate_type.to_le_bytes());
    out.extend_from_slice(payload);
    out
}

#[test]
fn parse_certs_table() {
    let payload = vec![0xa5u8; 1684 - 8];
    let mut table = Vec::new();
    for _ in 0..2 {
        table.extend_from_slice(&record(1684, 512, 2, &payload));
        table.extend_from_slice(&[0u8; 1684 % 8]);
    }
    let file = &table[..];

    let mut certs = WinCertificates::parse(file).unwrap();
    let mut seen = 0;
    while let Some(cert) = certs.next() {
        assert_eq!(cert.header.dw_length, 1684);
        assert_eq!(cert.header.w_revision, 512);
        assert_eq!(cert.header.w_certificate_type, 2);
        seen += 1;
    }
    assert_eq!(seen, 2);
}

#[test]
fn one_record_without_padding_then_the_end() {
    let bytes = record(16, 0x0200, 0x0002, &[1, 2, 3, 4, 5, 6, 7, 8]);
    let mut certs = WinCertificates::parse(&bytes).unwrap();
    let cert = certs.next().unwrap();
    assert_eq!(
        cert.header,
        WinCertificateHeader {
            dw_length: 16,
            w_revision: 0x0200,
            w_certificate_type: WIN_CERT_TYPE_PKCS_SIGNED_DATA,
        }
    );
    assert_eq!(cert.bytes, &[1, 2, 3, 4, 5, 6, 7, 8]);
    assert!(certs.next().is_none());
    assert!(certs.next().is_none());
}

#[test]
fn a_length_below_the_header_size_is_malformed() {
    let bytes = record(4, 0x0200, 0x0002, &[0; 8]);
    match WinCertificate::try_from_ctx(&bytes) {
        Err(ImageError::Malformed(m)) => {
            assert_eq!(m, "dw_length field in certificate header is smaller than header size")
        }
        other => panic!("{:?}", other),
    }
    let mut certs = WinCertificates::parse(&bytes).unwrap();
    assert!(certs.next().is_none());
}

#[test]
fn decode_reports_the_bytes_taken_with_padding() {
    let mut bytes = record(11, 0x0100, WIN_CERT_TYPE_EFI_GUID, &[9, 8, 7]);
    bytes.extend_from_slice(&[0, 0, 0, 0xee]);
    let (cert, taken) = WinCertificate::try_from_ctx(&bytes).unwrap();
    assert_eq!(taken, 14);
    assert_eq!(cert.header.dw_length, 11);
    assert_eq!(cert.header.w_revision, 0x0100);
    assert_eq!(cert.header.w_certificate_type, 0x0EF1);
    assert_eq!(cert.bytes, &[9, 8, 7]);
}

#[test]
fn padding_is_the_remainder_of_the_length() {
    // A record of length 12 is followed by four bytes of padding, so the next
    // record is looked for at offset 16.
    let mut bytes = record(12, 0x0200, 2, &[1, 1, 1, 1]);
    bytes.extend_from_slice(&[0; 4]);
    bytes.extend_from_slice(&record(8, 0x0200, 0x0EF0, &[]));
    let mut certs = WinCertificates::parse(&bytes).unwrap();
    assert_eq!(certs.next().unwrap().bytes, &[1, 1, 1, 1]);
    let second = certs.next().unwrap();
    assert_eq!(second.header.dw_length, 8);
    assert_eq!(second.header.w_certificate_type, 0x0EF0);
    assert!(second.bytes.is_empty());
    assert!(certs.next().is_none());
}

#[test]
fn truncated_records_are_errors_of_the_cursor() {
    assert!(matches!(WinCertificate::try_from_ctx(&[]), Err(ImageError::Scroll(_))));
    assert!(matches!(WinCertificate::try_from_ctx(&[16, 0, 0, 0, 0, 2, 2]), Err(ImageError::Scroll(_))));
    let short_payload = record(16, 0x0200, 2, &[0; 7]);
    assert!(matches!(WinCertificate::try_from_ctx(&short_payload), Err(ImageError::Scroll(_))));
    let missing_padding = record(12, 0x0200, 2, &[0; 4]);
    assert!(matches!(WinCertificate::try_from_ctx(&missing_padding), Err(ImageError::Scroll(_))));
}

#[test]
fn corruption_in_the_middle_ends_the_table() {
    let mut bytes = record(16, 0x0200, 2, &[0; 8]);
    bytes.extend_from_slice(&record(3, 0x0200, 2, &[0; 8]));
    bytes.extend_from_slice(&record(16, 0x0200, 2, &[0; 8]));
    let mut certs = WinCertificates::parse(&bytes).unwrap();
    assert!(certs.next().is_some());
    assert!(certs.next().is_none());
    assert!(certs.next().is_none());
}

#[test]
fn an_empty_table_has_no_record() {
    let mut certs = WinCertificates::parse(&[]).unwrap();
    assert!(certs.next().is_none());
    let mut unset = WinCertificates::default();
    assert!(unset.next().is_none());
}

#[test]
fn encoding_writes_header_and_payload_without_padding() {
    let cert = WinCertificate {
        header: WinCertificateHeader { dw_length: 11, w_revision: 0x0200, w_certificate_type: 2 },
        bytes: &[7, 8, 9],
    };
    let mut buffer = [0xccu8; 16];
    assert_eq!(cert.try_into_ctx(&mut buffer).unwrap(), 11);
    assert_eq!(buffer, [11, 0, 0, 0, 0, 2, 2, 0, 7, 8, 9, 0xcc, 0xcc, 0xcc, 0xcc, 0xcc]);
}

#[test]
fn encoding_into_a_short_buffer_writes_what_fits() {
    let cert = WinCertificate {
        header: WinCertificateHeader { dw_length: 11, w_revision: 0x0200, w_certificate_type: 2 },
        bytes: &[7, 8, 9],
    };
    let mut buffer = [0xccu8; 10];
    assert!(cert.try_into_ctx(&mut buffer).is_err());
    assert_eq!(buffer, [11, 0, 0, 0, 0, 2, 2, 0, 0xcc, 0xcc]);
    let mut tiny = [0xccu8; 5];
    assert!(cert.try_into_ctx(&mut tiny).is_err());
    assert_eq!(tiny, [11, 0, 0, 0, 0xcc]);
}

#[test]
fn decoding_what_was_encoded_gives_the_record_back() {
    let cert = WinCertificate {
        header: WinCertificateHeader { dw_length: 16, w_revision: 0x0200, w_certificate_type: 2 },
        bytes: &[1, 2, 3, 4, 5, 6, 7, 8],
    };
    let mut buffer = [0u8; 16];
    assert_eq!(cert.try_into_ctx(&mut buffer).unwrap(), 16);
    let (back, taken) = WinCertificate::try_from_ctx(&buffer).unwrap();
    assert_eq!(back, cert);
    assert_eq!(taken, 16);
}

#[test]
fn collect_reads_every_record_up_to_the_end() {
    let mut bytes = record(12, 0x0200, 2, &[1, 1, 1, 1]);
    bytes.extend_from_slice(&[0; 4]);
    bytes.extend_from_slice(&record(16, 0x0200, 0x0EF0, &[2; 8]));
    bytes.extend_from_slice(&record(7, 0x0200, 2, &[3; 8]));
    let mut certs = WinCertificates::parse(&bytes).unwrap();
    let all = certs.collect();
    assert_eq!(all.len(), 2);
    assert_eq!(all[0].header.dw_length, 12);
    assert_eq!(all[0].bytes, &[1, 1, 1, 1]);
    assert_eq!(all[1].header.w_certificate_type, 0x0EF0);
    assert_eq!(all[1].bytes, &[2; 8]);
    assert!(certs.next().is_none());
    assert!(certs.collect().is_empty());
}

#[test]
fn collect_goes_on_from_where_the_reader_stands() {
    let mut bytes = record(8, 1, 2, &[]);
    bytes.extend_from_slice(&record(9, 3, 2, &[0x42]));
    bytes.push(0);
    let mut certs = WinCertificates::parse(&bytes).unwrap();
    assert_eq!(certs.next().unwrap().header.w_revision, 1);
    let rest = certs.collect();
    assert_eq!(rest.len(), 1);
    assert_eq!(rest[0].header.w_revision, 3);
    assert_eq!(rest[0].bytes, &[0x42]);
}
