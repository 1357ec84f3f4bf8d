//! gzip encoding of response bodies, done by the `flate2` crate.

use vstd::prelude::*;

use flate2::write::GzEncoder;
use flate2::Compression;
use std::io::Write;

verus! {

/// The gzip member that `flate2`'s `GzEncoder` writes for `data` at the default
/// compression level, with the encoder's default header (no file name, no
/// comment, modification time 0, operating system byte 255). It depends on
/// `data` alone.
pub uninterp spec fn gzip_of(data: Seq<u8>) -> Seq<u8>;

/// `n` as four bytes, least significant first.
pub open spec fn le32(n: nat) -> Seq<u8> {
    seq![(n % 256) as u8, (n / 256 % 256) as u8, (n / 65536 % 256) as u8, (n / 16777216 % 256) as u8]
}

/// Relies on `flate2::write::GzEncoder` (`new` at `Compression::default()`,
/// `write_all`, `finish`) writing into a `Vec<u8>`: the result is the gzip
/// member of `data`, which starts with the fixed ten-byte header
/// `1f 8b 08 00 00 00 00 00 00 ff` and ends with an eight-byte trailer whose
/// last four bytes are the length of `data` modulo 2^32 (`try_finish`).
/// Writing into a `Vec` does not fail.
#[verifier::external_body]
pub(crate) fn gzip_encode(data: &[u8]) -> (r: Vec<u8>)
    ensures
        r@ == gzip_of(data@),
        r@.len() >= 18,
        r@.subrange(0, 10) == seq![0x1fu8, 0x8b, 8, 0, 0, 0, 0, 0, 0, 0xff],
        r@.subrange(r@.len() - 4, r@.len() as int) == le32(data@.len() % 0x1_0000_0000),
{
    let mut encoder = GzEncoder::new(Vec::new(), Compression::default());
    encoder.write_all(data).unwrap();
    encoder.finish().unwrap()
}

} // verus!
