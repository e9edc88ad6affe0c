//! Decoder for the ESP-NOW vendor information element carried inside captured
//! 802.11 management frames.
//!
//! A captured frame is parsed in three layered stages: the variable-length
//! radio metadata prefix, the fixed 802.11 MAC header with its integrity
//! trailer, and finally the vendor information element itself, whose fields
//! are cross-checked before an [`element::EspNow`] value is handed back.

pub mod bytes;
pub mod element;
pub mod errors;
pub mod mac;
pub mod radio;
pub mod raw;

use vstd::prelude::*;
use vstd::slice::slice_subrange;
use vstd::slice::slice_to_vec;

use crate::element::EspNow;
use crate::element::EspNowElementReader;
use crate::element::spec_element_check;
use crate::element::spec_element_data;
use crate::element::spec_element_fields;
use crate::errors::MacError;
use crate::errors::PipelineError;
use crate::mac::MAC_MIN_LEN;
use crate::mac::MacFrameReader;
use crate::radio::RadioPrefixReader;
use crate::radio::spec_prefix_check;
use crate::radio::spec_prefix_len;

verus! {

/// The outcome that parsing the raw capture `raw` owes: the element and its
/// data on success, else the first stage's reason for rejecting the frame.
pub open spec fn spec_parse_frame(raw: Seq<u8>) -> Result<(EspNow, Seq<u8>), PipelineError> {
    match spec_prefix_check(raw) {
        Err(e) => Err(PipelineError::Prefix(e)),
        Ok(_) => {
            let frame = raw.subrange(spec_prefix_len(raw), raw.len() as int);
            if frame.len() < MAC_MIN_LEN {
                Err(PipelineError::Mac(MacError::BufferTooShort))
            } else {
                let p = frame.subrange(24, frame.len() - 4);
                match spec_element_check(p) {
                    Err(e) => Err(PipelineError::Element(e)),
                    Ok(_) => Ok((spec_element_fields(p), spec_element_data(p))),
                }
            }
        },
    }
}

/// The mathematical value of an exec parse result: the data bytes by their view.
pub open spec fn frame_outcome(r: Result<(EspNow, Vec<u8>), PipelineError>) -> Result<
    (EspNow, Seq<u8>),
    PipelineError,
> {
    match r {
        Ok((e, d)) => Ok((e, d@)),
        Err(x) => Err(x),
    }
}

/// Runs the three stages over one captured buffer: radio prefix, MAC frame,
/// vendor element. A failure at any stage is reported as that stage's error;
/// on success the validated element and its opaque data come back.
pub fn parse_frame(raw: &[u8]) -> (r: Result<(EspNow, Vec<u8>), PipelineError>)
    ensures
        frame_outcome(r) == spec_parse_frame(raw@),
{
    let (_meta, off) = match RadioPrefixReader::read(raw) {
        Ok(pre) => pre,
        Err(e) => {
            return Err(PipelineError::Prefix(e));
        },
    };
    let frame = slice_subrange(raw, off, raw.len());
    let mac = match MacFrameReader::read(frame) {
        Ok(m) => m,
        Err(e) => {
            return Err(PipelineError::Mac(e));
        },
    };
    match EspNowElementReader::read(mac.payload.as_slice()) {
        Ok((element, data)) => Ok((element, slice_to_vec(data))),
        Err(e) => Err(PipelineError::Element(e)),
    }
}

/// Law: the pipeline is a pure function of the captured bytes. Any two
/// results that `parse_frame`'s contract admits for the same buffer are the
/// same, so parsing a buffer twice yields identical outcomes.
pub proof fn lemma_parse_frame_deterministic(
    raw: Seq<u8>,
    r1: Result<(EspNow, Seq<u8>), PipelineError>,
    r2: Result<(EspNow, Seq<u8>), PipelineError>,
)
    requires
        r1 == spec_parse_frame(raw),
        r2 == spec_parse_frame(raw),
    ensures
        r1 == r2,
{
}

} // verus!
