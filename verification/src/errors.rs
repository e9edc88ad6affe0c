use vstd::prelude::*;

verus! {

/// Failure of the radio-prefix stage.
#[derive(Clone, Copy, Debug, PartialEq, Eq, Structural)]
pub enum PrefixError {
    /// The buffer is smaller than the fixed portion of the radio prefix.
    BufferTooShort,
    /// The prefix's internal length field claims more bytes than the buffer holds.
    MalformedPrefix,
}

/// Failure of the 802.11 MAC-frame stage.
#[derive(Clone, Copy, Debug, PartialEq, Eq, Structural)]
pub enum MacError {
    /// The buffer is smaller than the fixed MAC header plus the integrity trailer.
    BufferTooShort,
}

/// Failure of the vendor-element stage: either the element's framing is
/// inconsistent with the payload, or a validated field holds the wrong value.
#[derive(Clone, Copy, Debug, PartialEq, Eq, Structural)]
pub enum ElementError {
    /// The payload is smaller than the fixed fields up to and including `length`.
    BufferTooShort,
    /// The declared `length` is below the minimum that keeps `length - 5` well-defined.
    LengthUnderflow,
    /// The declared `length` claims more data bytes than the payload holds.
    LengthExceedsBuffer,
    /// `category_code` is not the vendor-specific value.
    InvalidCategoryCode,
    /// The organization identifier differs from the vendor constant, or the two
    /// copies of it differ from each other.
    OrganizationMismatch,
    /// `element_id` is not the vendor-specific value.
    InvalidElementId,
    /// `protocol_type` is not the ESP-NOW value.
    InvalidProtocolType,
}

/// Failure of the whole pipeline: the stage that rejected the frame, with its reason.
#[derive(Clone, Copy, Debug, PartialEq, Eq, Structural)]
pub enum PipelineError {
    Prefix(PrefixError),
    Mac(MacError),
    Element(ElementError),
}

} // verus!
