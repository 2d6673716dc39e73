//! The Authenticode certificate table: a run of length-prefixed records,
//! each followed by padding, that ends where no further record can be read.

use crate::error::{cursor_result, ImageError};
use crate::wire::{
    gread_bytes, gread_u16, gread_u32, le_u16, le_u32, overlay, put_bytes, put_u16, put_u32,
    u16_le, u32_le,
};
use vstd::prelude::*;
use vstd::slice::slice_subrange;

verus! {

pub const WIN_CERT_TYPE_PKCS_SIGNED_DATA: u16 = 0x0002;

pub const WIN_CERT_TYPE_EFI_PKCS115: u16 = 0x0EF0;

pub const WIN_CERT_TYPE_EFI_GUID: u16 = 0x0EF1;

/// The size in bytes of a record's header.
pub const SIZEOF_WIN_CERTIFICATE_HEADER: usize = 8;

/// The header of one certificate record.
#[derive(Debug, Copy, Clone, PartialEq, Default)]
pub struct WinCertificateHeader {
    /// The length of the record, this header included.
    pub dw_length: u32,
    pub w_revision: u16,
    pub w_certificate_type: u16,
}

/// One certificate record: its header, and the payload that follows it.
#[derive(Debug, Copy, Clone, PartialEq, Default)]
pub struct WinCertificate<'a> {
    pub header: WinCertificateHeader,
    pub bytes: &'a [u8],
}

/// The record header that the first eight bytes of `s` hold.
pub open spec fn certificate_header_at(s: Seq<u8>) -> WinCertificateHeader {
    WinCertificateHeader {
        dw_length: le_u32(s, 0),
        w_revision: le_u16(s, 4),
        w_certificate_type: le_u16(s, 6),
    }
}

/// How many bytes a record of length `dw_length` takes with its padding: the
/// padding is the remainder of the length by eight.
pub open spec fn record_size(dw_length: u32) -> int {
    dw_length + dw_length % 8
}

/// Whether `s` begins with a whole record: a header whose length is no less
/// than the header's own size, the payload, and the padding.
pub open spec fn holds_certificate(s: Seq<u8>) -> bool {
    &&& s.len() >= 8
    &&& le_u32(s, 0) >= 8
    &&& record_size(le_u32(s, 0)) <= s.len()
}

/// The records of the table in `s`, each as its header and its payload: one
/// record after the other for as long as the bytes that remain begin with a
/// whole record.
pub open spec fn certificates_in(s: Seq<u8>) -> Seq<(WinCertificateHeader, Seq<u8>)>
    decreases s.len(),
{
    if holds_certificate(s) {
        seq![(certificate_header_at(s), s.subrange(8, le_u32(s, 0) as int))] + certificates_in(
            s.skip(record_size(le_u32(s, 0))),
        )
    } else {
        Seq::empty()
    }
}

/// The message of the error for a record shorter than its own header.
pub open spec fn short_record_message() -> Seq<char> {
    "dw_length field in certificate header is smaller than header size"@
}

/// What a write of a record with `payload` bytes of payload lays into `room`
/// bytes: up to the end of the last field that fits.
pub open spec fn certificate_fitting(room: int, payload: int) -> int {
    if room >= 8 + payload {
        8 + payload
    } else if room >= 8 {
        8
    } else if room >= 6 {
        6
    } else if room >= 4 {
        4
    } else {
        0
    }
}

impl<'a> WinCertificate<'a> {
    /// The bytes that hold this record in a file, without padding.
    pub open spec fn encoding(self) -> Seq<u8> {
        u32_le(self.header.dw_length) + u16_le(self.header.w_revision) + u16_le(
            self.header.w_certificate_type,
        ) + self.bytes@
    }

    /// Reads the record at the start of `from`, and says how many bytes it
    /// takes with its padding. A header that does not fit, or a payload or
    /// padding that runs past the end, is an error of the cursor; a length
    /// below the header's size is `Malformed`.
    pub fn try_from_ctx(from: &'a [u8]) -> (r: core::result::Result<
        (WinCertificate<'a>, usize),
        ImageError,
    >)
        ensures
            r is Ok <==> holds_certificate(from@),
            r is Ok ==> r->Ok_0.0.header == certificate_header_at(from@) && r->Ok_0.0.bytes@
                == from@.subrange(8, le_u32(from@, 0) as int) && r->Ok_0.1 == record_size(
                le_u32(from@, 0),
            ),
            r is Err ==> (if from@.len() >= 8 && le_u32(from@, 0) < 8 {
                r->Err_0 is Malformed && r->Err_0.message() == short_record_message()
            } else {
                r->Err_0 is Scroll
            }),
    {
        let mut offset: usize = 0;
        let dw_length: u32 = cursor_result(gread_u32(from, &mut offset))?;
        let w_revision: u16 = cursor_result(gread_u16(from, &mut offset))?;
        let w_certificate_type: u16 = cursor_result(gread_u16(from, &mut offset))?;
        let header = WinCertificateHeader { dw_length, w_revision, w_certificate_type };
        if (header.dw_length as usize) < offset {
            Err(
                ImageError::malformed(
                    "dw_length field in certificate header is smaller than header size",
                ),
            )
        } else {
            let payload: usize = header.dw_length as usize - offset;
            let bytes = cursor_result(gread_bytes(from, &mut offset, payload))?;
            cursor_result(gread_bytes(from, &mut offset, header.dw_length as usize % 8))?;
            Ok((WinCertificate { header, bytes }, offset))
        }
    }

    /// Writes the header and then the payload as it is, without padding, at
    /// the start of `bytes`, and returns how many bytes that took. A buffer
    /// that is too short receives the fields that fit before the write
    /// fails.
    pub fn try_into_ctx(self, bytes: &mut [u8]) -> (r: core::result::Result<usize, scroll::Error>)
        ensures
            r is Ok <==> old(bytes)@.len() >= 8 + self.bytes@.len(),
            r is Ok ==> r->Ok_0 == 8 + self.bytes@.len(),
            final(bytes)@ == overlay(
                old(bytes)@,
                0,
                self.encoding().take(
                    certificate_fitting(old(bytes)@.len() as int, self.bytes@.len() as int),
                ),
            ),
    {
        let mut offset: usize = 0;
        let ghost base = bytes@;
        let ghost full = self.encoding();
        let ghost mut laid = Seq::<u8>::empty();
        assert(bytes@ =~= overlay(base, 0, laid));
        assert(laid =~= full.take(0));
        put_u32(bytes, self.header.dw_length, &mut offset, Ghost(base), Ghost(laid))?;
        proof {
            laid = laid + u32_le(self.header.dw_length);
            assert(laid =~= full.take(4));
        }
        put_u16(bytes, self.header.w_revision, &mut offset, Ghost(base), Ghost(laid))?;
        proof {
            laid = laid + u16_le(self.header.w_revision);
            assert(laid =~= full.take(6));
        }
        put_u16(bytes, self.header.w_certificate_type, &mut offset, Ghost(base), Ghost(laid))?;
        proof {
            laid = laid + u16_le(self.header.w_certificate_type);
            assert(laid =~= full.take(8));
        }
        put_bytes(bytes, self.bytes, &mut offset, Ghost(base), Ghost(laid))?;
        proof {
            laid = laid + self.bytes@;
            assert(laid =~= full.take(8 + self.bytes@.len() as int));
        }
        Ok(offset)
    }
}

/// A forward-only reader of the records of a certificate table.
#[derive(Default, Clone)]
pub struct WinCertificates<'a> {
    offset: usize,
    bytes: &'a [u8],
}

impl<'a> WinCertificates<'a> {
    /// The bytes of the table that have not been read yet.
    pub closed spec fn remaining(&self) -> Seq<u8> {
        if self.offset <= self.bytes@.len() {
            self.bytes@.skip(self.offset as int)
        } else {
            Seq::empty()
        }
    }

    /// A reader that stands at the start of `bytes`.
    pub fn parse(bytes: &'a [u8]) -> (r: core::result::Result<WinCertificates<'a>, ImageError>)
        ensures
            r is Ok,
            r->Ok_0.remaining() == bytes@,
    {
        let certs = WinCertificates { offset: 0, bytes };
        assert(certs.remaining() =~= bytes@);
        Ok(certs)
    }

    /// Reads the next record. Where the bytes that remain begin with a whole
    /// record, it is handed out and the reader moves past it and its
    /// padding. Where they do not, whatever the reason, the table has ended:
    /// the reader stays where it is, and every later call ends the same way.
    pub fn next(&mut self) -> (r: Option<WinCertificate<'a>>)
        ensures
            r is Some <==> holds_certificate(old(self).remaining()),
            r is Some ==> r->Some_0.header == certificate_header_at(old(self).remaining())
                && r->Some_0.bytes@ == old(self).remaining().subrange(
                8,
                le_u32(old(self).remaining(), 0) as int,
            ) && final(self).remaining() == old(self).remaining().skip(
                record_size(le_u32(old(self).remaining(), 0)),
            ),
            r is None ==> final(self).remaining() == old(self).remaining(),
    {
        if self.offset > self.bytes.len() {
            return None;
        }
        let rest = slice_subrange(self.bytes, self.offset, self.bytes.len());
        assert(rest@ =~= self.remaining());
        match WinCertificate::try_from_ctx(rest) {
            Ok((cert, size)) => {
                self.offset = self.offset + size;
                assert(self.remaining() =~= old(self).remaining().skip(size as int));
                Some(cert)
            },
            Err(_) => None,
        }
    }

    /// Reads every record that is left, in order, up to the end of the
    /// table.
    pub fn collect(&mut self) -> (r: Vec<WinCertificate<'a>>)
        ensures
            r@.len() == certificates_in(old(self).remaining()).len(),
            forall|i: int|
                0 <= i < r@.len() ==> (#[trigger] r@[i]).header == certificates_in(
                    old(self).remaining(),
                )[i].0 && r@[i].bytes@ == certificates_in(old(self).remaining())[i].1,
            !holds_certificate(final(self).remaining()),
    {
        let mut found: Vec<WinCertificate<'a>> = Vec::new();
        let ghost all = certificates_in(self.remaining());
        assert(all.skip(0) =~= all);
        loop
            invariant
                found@.len() <= all.len(),
                all.skip(found@.len() as int) == certificates_in(self.remaining()),
                forall|i: int|
                    0 <= i < found@.len() ==> (#[trigger] found@[i]).header == all[i].0
                        && found@[i].bytes@ == all[i].1,
            ensures
                found@.len() == all.len(),
                !holds_certificate(self.remaining()),
            decreases self.remaining().len(),
        {
            let ghost k = found@.len() as int;
            match self.next() {
                Some(cert) => {
                    proof {
                        let rest = certificates_in(self.remaining());
                        let first = (cert.header, cert.bytes@);
                        assert(all.skip(k) == seq![first] + rest);
                        assert(all.skip(k)[0] == first);
                        assert(all.skip(k + 1) =~= all.skip(k).skip(1));
                        assert((seq![first] + rest).skip(1) =~= rest);
                    }
                    found.push(cert);
                },
                None => {
                    assert(all.skip(k).len() == 0);
                    break ;
                },
            }
        }
        found
    }
}

} // verus!
