//! The frame codec: pure functions building the 3-byte command frame for a
//! channel and extracting the 10-bit sample from the 3-byte reply frame.
//!
//! Both directions are total over their fixed-size inputs; a reply has no
//! malformed case, since every non-data bit is masked away unconditionally.

use vstd::prelude::*;

verus! {

/// The command frame for a channel code: a start byte, then the
/// single-ended-mode flag (bit 3) combined with the channel code and
/// shifted into the upper nibble, then a clock-filler byte that keeps
/// the exchange long enough for the full 10-bit result.
pub open spec fn spec_command_frame(code: u8) -> Seq<u8> {
    seq![1u8, (0x08u8 | code) << 4u8, 0u8]
}

/// The sample held in a reply frame's two data-bearing bytes: the low
/// two bits of the first and all eight of the second, as a 10-bit value.
pub open spec fn spec_sample(b1: u8, b2: u8) -> u16 {
    (((b1 as u16) << 8u16) | (b2 as u16)) & 0x3ffu16
}

/// Build the 3-byte command frame that requests a read of `code`.
pub fn encode_command(code: u8) -> (frame: [u8; 3])
    ensures
        frame@ == spec_command_frame(code),
    no_unwind
{
    let frame: [u8; 3] = [1, (0x08 | code) << 4, 0];
    assert(frame@ =~= spec_command_frame(code));
    frame
}

/// Extract the 10-bit sample from a 3-byte reply frame. The first byte
/// and the high six bits of the second carry no data and are discarded.
pub fn decode_reply(reply: [u8; 3]) -> (sample: u16)
    ensures
        sample == spec_sample(reply[1], reply[2]),
        sample <= 1023,
    no_unwind
{
    let b1: u8 = reply[1];
    let b2: u8 = reply[2];
    let sample: u16 = (((b1 as u16) << 8) | (b2 as u16)) & 0x3ff;
    proof {
        lemma_sample_in_range(b1, b2);
    }
    sample
}

/// Decoding is total and its result always fits in 10 bits: every 3-byte
/// reply yields a sample in `0 ..= 1023`.
pub proof fn lemma_sample_in_range(b1: u8, b2: u8)
    by (bit_vector)
    ensures
        spec_sample(b1, b2) <= 1023,
{
}

/// The high six bits of the first data-bearing reply byte never affect
/// the decoded sample: the mask discards them all.
pub proof fn lemma_decode_masks_high_bits(b1: u8, b2: u8)
    by (bit_vector)
    ensures
        spec_sample(b1 | 0xfc, b2) == spec_sample(b1, b2),
{
}

/// If the high data byte is confined to its two valid low bits, decoding
/// reconstructs the sample exactly: `(hi << 8) | lo`.
pub proof fn lemma_decode_round_trip(hi: u8, lo: u8)
    by (bit_vector)
    requires
        hi <= 3,
    ensures
        spec_sample(hi, lo) == ((hi as u16) << 8u16) | (lo as u16),
        spec_sample(hi, lo) == (hi as u16) * 256 + (lo as u16),
{
}

} // verus!
