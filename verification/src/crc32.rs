use crate::bytes::{spec_u32_to_le, u32_to_le};
use vstd::prelude::*;

verus! {

/// The byte that stands before a Bluetooth output report when its checksum is taken.
pub const OUTPUT_CRC32_SEED: u8 = 0xa2;

/// The CRC-32/ISO-HDLC checksum of a run of bytes, as the `crc` crate
/// computes it for its catalogue entry `CRC_32_ISO_HDLC`.
pub uninterp spec fn crc32_iso_hdlc(bytes: Seq<u8>) -> u32;

/// Calls `crc::Crc::<u32>::checksum` with the algorithm `CRC_32_ISO_HDLC`.
/// The crate computes the checksum from the bytes alone, by table, and does
/// not fail; the contract gives the result its name.
#[verifier::external_body]
fn checksum(bytes: &[u8]) -> (sum: u32)
    ensures
        sum == crc32_iso_hdlc(bytes@),
{
    crc::Crc::<u32>::new(&crc::CRC_32_ISO_HDLC).checksum(bytes)
}

/// What is checksummed for a report: the seed byte, then the report without
/// its last four bytes.
pub open spec fn spec_crc_input(report: Seq<u8>) -> Seq<u8> {
    seq![OUTPUT_CRC32_SEED] + report.subrange(0, report.len() - 4)
}

/// The checksum that belongs at the end of `report`.
pub open spec fn spec_report_crc(report: Seq<u8>) -> u32 {
    crc32_iso_hdlc(spec_crc_input(report))
}

/// `report` with `crc`, little-endian, in its last four bytes.
pub open spec fn spec_with_trailer(report: Seq<u8>, crc: u32) -> Seq<u8> {
    report.subrange(0, report.len() - 4) + spec_u32_to_le(crc)
}

/// Computes the checksum of a report that is to go out over Bluetooth: over
/// the seed byte and all of the report but its last four bytes.
pub fn calc_crc32(report: &Vec<u8>) -> (crc: u32)
    requires
        report@.len() >= 4,
    ensures
        crc == spec_report_crc(report@),
{
    let n = report.len() - 4;
    let mut message: Vec<u8> = Vec::new();
    message.push(OUTPUT_CRC32_SEED);
    let mut i: usize = 0;
    while i < n
        invariant
            i <= n,
            n == report@.len() - 4,
            message@ == seq![OUTPUT_CRC32_SEED] + report@.subrange(0, i as int),
        decreases n - i,
    {
        message.push(report[i]);
        i += 1;
    }
    checksum(message.as_slice())
}

/// Writes `crc`, little-endian, over the last four bytes of `report`.
pub fn store_crc(report: &mut Vec<u8>, crc: u32)
    requires
        old(report)@.len() >= 4,
    ensures
        final(report)@ == spec_with_trailer(old(report)@, crc),
{
    let n = report.len();
    let bytes = u32_to_le(crc);
    report[n - 4] = bytes[0];
    report[n - 3] = bytes[1];
    report[n - 2] = bytes[2];
    report[n - 1] = bytes[3];
}

/// Whether the last four bytes of `report` are the checksum of the rest.
pub open spec fn spec_crc_valid(report: Seq<u8>) -> bool {
    &&& report.len() >= 4
    &&& report.subrange(report.len() - 4, report.len() as int) == spec_u32_to_le(
        spec_report_crc(report),
    )
}

/// Puts the checksum of `report` into its last four bytes.
pub fn seal_crc(report: &mut Vec<u8>)
    requires
        old(report)@.len() >= 4,
    ensures
        final(report)@ == spec_with_trailer(old(report)@, spec_report_crc(old(report)@)),
        spec_crc_valid(final(report)@),
{
    let crc = calc_crc32(report);
    store_crc(report, crc);
    proof {
        let before = old(report)@;
        let after = report@;
        let n = before.len() as int;
        assert(after.subrange(0, n - 4) == before.subrange(0, n - 4));
        assert(after.subrange(n - 4, n) == spec_u32_to_le(crc));
    }
}

} // verus!
