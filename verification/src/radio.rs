use vstd::prelude::*;

use crate::bytes::read_u16_le;
use crate::bytes::read_u32_le;
use crate::bytes::spec_u16_le;
use crate::bytes::spec_u32_le;
use crate::errors::PrefixError;

verus! {

/// Bytes needed to read the prefix's own length field: version, a pad byte,
/// and the little-endian length itself.
pub const RADIO_MIN_LEN: usize = 4;

/// The header length that the radio prefix of buffer `b` declares for itself.
pub open spec fn spec_prefix_len(b: Seq<u8>) -> int
    recommends
        b.len() >= RADIO_MIN_LEN,
{
    spec_u16_le(b, 2) as int
}

/// Which error, if any, reading the radio prefix of buffer `b` reports.
pub open spec fn spec_prefix_check(b: Seq<u8>) -> Result<(), PrefixError> {
    if b.len() < RADIO_MIN_LEN {
        Err(PrefixError::BufferTooShort)
    } else if spec_prefix_len(b) > b.len() {
        Err(PrefixError::MalformedPrefix)
    } else {
        Ok(())
    }
}

/// Whether the present-word chain from word `k` on keeps the capture-format
/// decoder on its bounds-checked paths, with `left` further words allowed.
/// A word that runs past the buffer is safe: the decoder stops with an error
/// before using it. A word with the vendor-namespace bit (30) is refused, as
/// is a chain that extends (bit 31) beyond the word budget: on both, the
/// decoder indexes with capture-controlled values it does not re-check.
pub open spec fn spec_chain_safe(b: Seq<u8>, k: int, left: int) -> bool
    decreases left,
{
    if 4 + 4 * k + 4 > b.len() {
        true
    } else {
        let w = spec_u32_le(b, 4 + 4 * k);
        if w & 0x4000_0000 != 0 {
            false
        } else if w & 0x8000_0000 == 0 {
            true
        } else if left <= 0 {
            false
        } else {
            spec_chain_safe(b, k + 1, left - 1)
        }
    }
}

/// Whether buffer `b` may be handed to the capture-format decoder: its chain
/// of present words holds no vendor-namespace bit and at most eight words.
pub open spec fn spec_radio_decodable(b: Seq<u8>) -> bool {
    spec_chain_safe(b, 0, 7)
}

fn chain_safe(b: &[u8], k: usize, left: usize) -> (r: bool)
    requires
        k + left <= 8,
    ensures
        r == spec_chain_safe(b@, k as int, left as int),
    decreases left,
{
    let n: usize = b.len();
    if 4 + 4 * k + 4 > n {
        return true;
    }
    let w = read_u32_le(b, 4 + 4 * k);
    if w & 0x4000_0000 != 0 {
        return false;
    }
    if w & 0x8000_0000 == 0 {
        return true;
    }
    if left == 0 {
        return false;
    }
    chain_safe(b, k + 1, left - 1)
}

/// Radio capture metadata: the prefix's own length, which places the start of
/// the MAC frame, and content fields that are opaque to the later stages.
#[derive(Clone, Copy, Debug)]
pub struct RadioMetadata {
    /// Number of bytes the radio prefix occupies.
    pub header_length: usize,
    /// Channel frequency in MHz, where the capture recorded one.
    pub channel_freq: Option<u16>,
    /// Antenna signal power in dBm, where the capture recorded one.
    pub antenna_signal: Option<i8>,
}

/// What the capture-format decoder extracts from buffer `b`: `None` where it
/// rejects the prefix, else the channel frequency and antenna signal fields,
/// each where present.
pub uninterp spec fn radio_fields_of(b: Seq<u8>) -> Option<(Option<u16>, Option<i8>)>;

/// Relies on radiotap::Radiotap::from_bytes: the decoded fields depend on the
/// input bytes alone. The decoder leaves two paths unchecked — a
/// vendor-namespace field's skip length is added to a slice bound without a
/// re-check, and a ninth chained present word overflows its 8-bit field
/// numbering — so captures that could reach either are kept out by
/// `requires`, and the caller decodes nothing for them.
#[verifier::external_body]
fn decode_radio_fields(b: &[u8]) -> (r: Option<(Option<u16>, Option<i8>)>)
    requires
        spec_radio_decodable(b@),
    ensures
        r == radio_fields_of(b@),
{
    match radiotap::Radiotap::from_bytes(b) {
        Ok(t) => Some((t.channel.map(|c| c.freq), t.antenna_signal.map(|a| a.value))),
        Err(_) => None,
    }
}

/// The metadata that reading the radio prefix of buffer `b` yields: the
/// declared header length, and the decoder's content fields passed through
/// opaquely — absent where the decoder rejects the prefix, and absent where
/// the prefix is kept away from the decoder altogether.
pub open spec fn spec_radio_metadata(b: Seq<u8>) -> RadioMetadata
    recommends
        spec_prefix_check(b) is Ok,
{
    if spec_radio_decodable(b) {
        match radio_fields_of(b) {
            Some((freq, signal)) => RadioMetadata {
                header_length: spec_prefix_len(b) as usize,
                channel_freq: freq,
                antenna_signal: signal,
            },
            None => RadioMetadata {
                header_length: spec_prefix_len(b) as usize,
                channel_freq: None,
                antenna_signal: None,
            },
        }
    } else {
        RadioMetadata {
            header_length: spec_prefix_len(b) as usize,
            channel_freq: None,
            antenna_signal: None,
        }
    }
}

/// Reads the self-describing variable-length prefix at the start of a capture.
pub struct RadioPrefixReader;

impl RadioPrefixReader {
    /// Reads the prefix's declared length and checks it against the buffer,
    /// so that slicing the buffer at the returned offset is always in
    /// bounds; the content fields ride along opaquely.
    pub fn read(buffer: &[u8]) -> (r: Result<(RadioMetadata, usize), PrefixError>)
        ensures
            r is Ok <==> spec_prefix_check(buffer@) is Ok,
            r matches Ok((m, off)) ==> {
                &&& off == spec_prefix_len(buffer@)
                &&& off <= buffer@.len()
                &&& m == spec_radio_metadata(buffer@)
                &&& m.header_length == off
            },
            r matches Err(e) ==> spec_prefix_check(buffer@) == Err::<(), PrefixError>(e),
    {
        let n: usize = buffer.len();
        if n < RADIO_MIN_LEN {
            return Err(PrefixError::BufferTooShort);
        }
        let declared = read_u16_le(buffer, 2) as usize;
        if declared > n {
            return Err(PrefixError::MalformedPrefix);
        }
        let fields = if chain_safe(buffer, 0, 7) {
            decode_radio_fields(buffer)
        } else {
            None
        };
        let meta = match fields {
            Some((freq, signal)) => RadioMetadata {
                header_length: declared,
                channel_freq: freq,
                antenna_signal: signal,
            },
            None => RadioMetadata { header_length: declared, channel_freq: None, antenna_signal: None },
        };
        Ok((meta, declared))
    }
}

} // verus!
