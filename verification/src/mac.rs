use vstd::prelude::*;

use crate::bytes::copy_range;
use crate::bytes::read_u16_le;
use crate::bytes::read_u32_le;
use crate::bytes::spec_u16_le;
use crate::bytes::spec_u32_le;
use crate::errors::MacError;

verus! {

/// Bytes of the fixed 802.11 header: frame control, duration, three
/// addresses and sequence control.
pub const MAC_HEADER_LEN: usize = 24;

/// Bytes of the trailing integrity field (frame check sequence).
pub const MAC_TRAILER_LEN: usize = 4;

/// Smallest buffer that holds a MAC frame: the fixed header plus the
/// trailer, around a possibly empty payload.
pub const MAC_MIN_LEN: usize = 28;

/// The decoded 802.11 header wrapping the candidate vendor element, with the
/// payload region copied out and the integrity trailer split off.
#[derive(Clone, Debug, PartialEq, Eq)]
pub struct Mac {
    pub framectrl: u16,
    pub dura_id: u16,
    pub addr1: Vec<u8>,
    pub addr2: Vec<u8>,
    pub addr3: Vec<u8>,
    pub sequencectrl: u16,
    /// Everything between the fixed header and the trailer.
    pub payload: Vec<u8>,
    /// The trailing integrity field, opaque to this crate.
    pub cksum: u32,
}

/// The mathematical shape of a decoded MAC frame.
#[verifier::ext_equal]
pub struct MacModel {
    pub framectrl: u16,
    pub dura_id: u16,
    pub addr1: Seq<u8>,
    pub addr2: Seq<u8>,
    pub addr3: Seq<u8>,
    pub sequencectrl: u16,
    pub payload: Seq<u8>,
    pub cksum: u32,
}

impl View for Mac {
    type V = MacModel;

    open spec fn view(&self) -> MacModel {
        MacModel {
            framectrl: self.framectrl,
            dura_id: self.dura_id,
            addr1: self.addr1@,
            addr2: self.addr2@,
            addr3: self.addr3@,
            sequencectrl: self.sequencectrl,
            payload: self.payload@,
            cksum: self.cksum,
        }
    }
}

/// The MAC frame spelled by buffer `b`: fields at their fixed offsets, the
/// payload as everything between header and trailer, the trailer last.
pub open spec fn spec_mac(b: Seq<u8>) -> MacModel
    recommends
        b.len() >= MAC_MIN_LEN,
{
    MacModel {
        framectrl: spec_u16_le(b, 0),
        dura_id: spec_u16_le(b, 2),
        addr1: b.subrange(4, 10),
        addr2: b.subrange(10, 16),
        addr3: b.subrange(16, 22),
        sequencectrl: spec_u16_le(b, 22),
        payload: b.subrange(24, b.len() - 4),
        cksum: spec_u32_le(b, b.len() - 4),
    }
}

/// Length of the variable payload region of a MAC frame held in `total_len` bytes.
pub fn payload_length(total_len: usize) -> (r: usize)
    requires
        total_len >= MAC_MIN_LEN,
    ensures
        r == total_len - MAC_HEADER_LEN - MAC_TRAILER_LEN,
{
    total_len - MAC_HEADER_LEN - MAC_TRAILER_LEN
}

/// Reads the fixed 802.11 header and integrity trailer around the payload.
pub struct MacFrameReader;

impl MacFrameReader {
    /// Decodes `buffer` as a MAC frame. The frame's boundaries are implicit
    /// in how much was captured, so the payload length is derived from the
    /// buffer length; a buffer below the two fixed regions is rejected
    /// before any slicing.
    pub fn read(buffer: &[u8]) -> (r: Result<Mac, MacError>)
        ensures
            r is Ok <==> buffer@.len() >= MAC_MIN_LEN,
            r matches Ok(m) ==> m@ == spec_mac(buffer@),
            r matches Err(e) ==> e == MacError::BufferTooShort,
    {
        let n: usize = buffer.len();
        if n < MAC_MIN_LEN {
            return Err(MacError::BufferTooShort);
        }
        let plen = payload_length(n);
        let m = Mac {
            framectrl: read_u16_le(buffer, 0),
            dura_id: read_u16_le(buffer, 2),
            addr1: copy_range(buffer, 4, 10),
            addr2: copy_range(buffer, 10, 16),
            addr3: copy_range(buffer, 16, 22),
            sequencectrl: read_u16_le(buffer, 22),
            payload: copy_range(buffer, MAC_HEADER_LEN, MAC_HEADER_LEN + plen),
            cksum: read_u32_le(buffer, n - MAC_TRAILER_LEN),
        };
        assert(m@ =~= spec_mac(buffer@));
        Ok(m)
    }
}

} // verus!
