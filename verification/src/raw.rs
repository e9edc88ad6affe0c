use vstd::prelude::*;
use vstd::slice::slice_index_get;
use vstd::slice::slice_subrange;

use crate::bytes::copy_range;
use crate::element::ELEMENT_MIN_DECLARED_LEN;

verus! {

/// Byte offset of the element's declared `length` field in a frame that
/// still carries its 24-byte MAC header in front.
pub const RAW_LENGTH_OFFSET: usize = 33;

/// Byte offset of the element's opaque data in such a frame: the MAC header
/// plus the element's fifteen fixed bytes.
pub const RAW_DATA_OFFSET: usize = 39;

/// A flat reading of a frame that has already been stripped of its radio
/// prefix: the whole 24-byte MAC header kept as raw bytes, followed by the
/// element's fixed fields at their absolute offsets. Only the element's
/// framing is checked here — the fields fit and the declared length is
/// consistent with the buffer; the layered readers are the validated path.
#[derive(Clone, Debug, PartialEq, Eq)]
pub struct ESPNOW {
    pub mac: Vec<u8>,
    pub catcode: u8,
    pub orga: Vec<u8>,
    pub padding: Vec<u8>,
    pub element_id: u8,
    pub length: u8,
    pub orga2: Vec<u8>,
    pub ptype: u8,
    pub version: u8,
}

/// Whether `data` holds the fixed fields and as many data bytes as its
/// `length` field declares: the fields reach the `version` byte, the
/// declared length keeps `length - 5` well-defined, and that many data
/// bytes are really there.
pub open spec fn spec_raw_framing_ok(data: Seq<u8>) -> bool {
    &&& data.len() >= RAW_DATA_OFFSET
    &&& data[RAW_LENGTH_OFFSET as int] >= ELEMENT_MIN_DECLARED_LEN
    &&& data[RAW_LENGTH_OFFSET as int] - ELEMENT_MIN_DECLARED_LEN <= data.len() - RAW_DATA_OFFSET
}

impl ESPNOW {
    /// Splits `data` into the fixed fields and the element's opaque data:
    /// exactly `length - 5` bytes from the data offset on. Rejects a buffer
    /// whose fixed fields do not fit, whose declared length is below the
    /// minimum, or whose declared length claims more data than is present.
    pub fn parse<'a>(data: &'a [u8]) -> (r: Option<(ESPNOW, &'a [u8])>)
        ensures
            r is Some <==> spec_raw_framing_ok(data@),
            r matches Some((e, rest)) ==> {
                &&& e.mac@ == data@.subrange(0, 24)
                &&& e.catcode == data@[24]
                &&& e.orga@ == data@.subrange(25, 28)
                &&& e.padding@ == data@.subrange(28, 32)
                &&& e.element_id == data@[32]
                &&& e.length == data@[33]
                &&& e.orga2@ == data@.subrange(34, 37)
                &&& e.ptype == data@[37]
                &&& e.version == data@[38]
                &&& rest@ == data@.subrange(39, 39 + (data@[33] - 5))
            },
    {
        let n: usize = data.len();
        if n < RAW_DATA_OFFSET {
            return None;
        }
        let length = *slice_index_get(data, RAW_LENGTH_OFFSET);
        if length < ELEMENT_MIN_DECLARED_LEN {
            return None;
        }
        let data_len = (length as usize) - (ELEMENT_MIN_DECLARED_LEN as usize);
        if data_len > n - RAW_DATA_OFFSET {
            return None;
        }
        let e = ESPNOW {
            mac: copy_range(data, 0, 24),
            catcode: *slice_index_get(data, 24),
            orga: copy_range(data, 25, 28),
            padding: copy_range(data, 28, 32),
            element_id: *slice_index_get(data, 32),
            length,
            orga2: copy_range(data, 34, 37),
            ptype: *slice_index_get(data, 37),
            version: *slice_index_get(data, 38),
        };
        Some((e, slice_subrange(data, RAW_DATA_OFFSET, RAW_DATA_OFFSET + data_len)))
    }
}

} // verus!
