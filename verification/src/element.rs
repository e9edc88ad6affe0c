use vstd::prelude::*;
use vstd::slice::slice_index_get;
use vstd::slice::slice_subrange;

use crate::bytes::read_u32_le;
use crate::bytes::spec_u32_le;
use crate::errors::ElementError;

verus! {

/// `category_code` value marking a vendor-specific element.
pub const CATEGORY_CODE_VENDOR: u8 = 127;

/// `element_id` value marking a vendor-specific element.
pub const ELEMENT_ID_VENDOR: u8 = 221;

/// `protocol_type` value marking an ESP-NOW element.
pub const PROTOCOL_TYPE_ESP_NOW: u8 = 4;

/// Smallest `length` value that keeps `length - 5` well-defined: the field
/// counts `organization_id_2`, `protocol_type`, `version` and the data.
pub const ELEMENT_MIN_DECLARED_LEN: u8 = 5;

/// Number of bytes of the element's eight fixed fields, everything before the data.
pub const ELEMENT_FIXED_LEN: usize = 15;

/// Number of fixed bytes before the region that the `length` field counts.
pub const ELEMENT_PRE_LEN: usize = 10;

/// A 3-byte vendor identifier, compared for equality against the vendor constant.
#[derive(Clone, Copy, Debug, PartialEq, Eq, Structural, Hash)]
pub struct OrganisationCode(pub u8, pub u8, pub u8);

/// The vendor identifier that marks a genuine ESP-NOW element.
pub open spec fn spec_vendor_org() -> OrganisationCode {
    OrganisationCode(0x18, 0xFE, 0x34)
}

impl OrganisationCode {
    pub fn new(a: u8, b: u8, c: u8) -> (r: OrganisationCode)
        ensures
            r == OrganisationCode(a, b, c),
    {
        OrganisationCode(a, b, c)
    }
}

/// The 24-bit integer that an organisation code spells, high byte first.
pub open spec fn spec_org_u32(o: OrganisationCode) -> u32 {
    ((o.0 as int) * 0x10000 + (o.1 as int) * 0x100 + (o.2 as int)) as u32
}

impl From<OrganisationCode> for u32 {
    fn from(orga: OrganisationCode) -> (r: u32)
        ensures
            r == spec_org_u32(orga),
    {
        (orga.0 as u32) * 0x10000 + (orga.1 as u32) * 0x100 + (orga.2 as u32)
    }
}

impl vstd::std_specs::convert::FromSpecImpl<OrganisationCode> for u32 {
    open spec fn obeys_from_spec() -> bool {
        true
    }

    open spec fn from_spec(v: OrganisationCode) -> u32 {
        spec_org_u32(v)
    }
}

/// The validated ESP-NOW vendor information element: its eight fixed fields.
/// The opaque data that follows them is handed back beside it.
#[derive(Clone, Copy, Debug, PartialEq, Eq, Structural)]
pub struct EspNow {
    /// Must equal 127 (vendor-specific).
    pub catcode: u8,
    /// Must equal the vendor constant.
    pub orga: OrganisationCode,
    /// Anti-replay filler; only its presence is checked.
    pub padding: u32,
    /// Must equal 221.
    pub element_id: u8,
    /// Size in bytes of `orga2`, `ptype`, `version` and the data together.
    pub length: u8,
    /// Must equal `orga` exactly.
    pub orga2: OrganisationCode,
    /// Must equal 4.
    pub ptype: u8,
    /// Informational, not constrained.
    pub version: u8,
}

/// All cross-field constraints of a genuine ESP-NOW element.
pub open spec fn spec_is_valid(e: EspNow) -> bool {
    &&& e.ptype == PROTOCOL_TYPE_ESP_NOW
    &&& e.orga == e.orga2
    &&& e.orga == spec_vendor_org()
    &&& e.catcode == CATEGORY_CODE_VENDOR
    &&& e.element_id == ELEMENT_ID_VENDOR
}

impl EspNow {
    /// Returns true if the fields form a valid ESP-NOW element.
    pub fn is_valid(&self) -> (r: bool)
        ensures
            r == spec_is_valid(*self),
    {
        self.ptype == PROTOCOL_TYPE_ESP_NOW && self.orga == self.orga2 && self.orga
            == OrganisationCode::new(0x18, 0xFE, 0x34) && self.catcode == CATEGORY_CODE_VENDOR
            && self.element_id == ELEMENT_ID_VENDOR
    }
}

/// The fixed fields of the element spelled by payload `p`.
pub open spec fn spec_element_fields(p: Seq<u8>) -> EspNow
    recommends
        p.len() >= ELEMENT_FIXED_LEN,
{
    EspNow {
        catcode: p[0],
        orga: OrganisationCode(p[1], p[2], p[3]),
        padding: spec_u32_le(p, 4),
        element_id: p[8],
        length: p[9],
        orga2: OrganisationCode(p[10], p[11], p[12]),
        ptype: p[13],
        version: p[14],
    }
}

/// The opaque data that follows the fixed fields: exactly `length - 5` bytes.
pub open spec fn spec_element_data(p: Seq<u8>) -> Seq<u8>
    recommends
        p.len() >= ELEMENT_PRE_LEN + p[9],
        p[9] >= ELEMENT_MIN_DECLARED_LEN,
{
    p.subrange(ELEMENT_FIXED_LEN as int, ELEMENT_PRE_LEN + p[9])
}

/// Which error, if any, reading payload `p` as an ESP-NOW element reports.
/// The checks run in a fixed order and stop at the first failure, so each
/// malformed payload maps to one deterministic reason.
pub open spec fn spec_element_check(p: Seq<u8>) -> Result<(), ElementError> {
    if p.len() < ELEMENT_PRE_LEN {
        Err(ElementError::BufferTooShort)
    } else if p[9] < ELEMENT_MIN_DECLARED_LEN {
        Err(ElementError::LengthUnderflow)
    } else if p.len() < ELEMENT_PRE_LEN + p[9] {
        Err(ElementError::LengthExceedsBuffer)
    } else if p[0] != CATEGORY_CODE_VENDOR {
        Err(ElementError::InvalidCategoryCode)
    } else if OrganisationCode(p[1], p[2], p[3]) != spec_vendor_org() || OrganisationCode(
        p[10],
        p[11],
        p[12],
    ) != OrganisationCode(p[1], p[2], p[3]) {
        Err(ElementError::OrganizationMismatch)
    } else if p[8] != ELEMENT_ID_VENDOR {
        Err(ElementError::InvalidElementId)
    } else if p[13] != PROTOCOL_TYPE_ESP_NOW {
        Err(ElementError::InvalidProtocolType)
    } else {
        Ok(())
    }
}

/// Law: once a payload's framing passes (the fixed fields fit and the
/// declared length is consistent with the buffer), the reader accepts it
/// exactly when its decoded fields satisfy [`spec_is_valid`], the predicate
/// behind [`EspNow::is_valid`].
pub proof fn lemma_check_ok_iff_valid(p: Seq<u8>)
    requires
        p.len() >= ELEMENT_PRE_LEN,
        p[9] >= ELEMENT_MIN_DECLARED_LEN,
        p.len() >= ELEMENT_PRE_LEN + p[9],
    ensures
        spec_element_check(p) is Ok <==> spec_is_valid(spec_element_fields(p)),
{
}

/// Law: overwriting any single byte of `organization_id_2` in a payload that
/// parses and validates makes the reader report `OrganizationMismatch`, and
/// no other error.
pub proof fn lemma_orga2_corruption(p: Seq<u8>, i: int, v: u8)
    requires
        spec_element_check(p) is Ok,
        10 <= i < 13,
        v != p[i],
    ensures
        spec_element_check(p.update(i, v)) == Err::<(), ElementError>(
            ElementError::OrganizationMismatch,
        ),
{
}

/// Law: overwriting `category_code` with anything but the vendor value in a
/// payload that parses and validates makes the reader report
/// `InvalidCategoryCode`: it is the first validated field, so no other check
/// gets to run.
pub proof fn lemma_catcode_corruption(p: Seq<u8>, v: u8)
    requires
        spec_element_check(p) is Ok,
        v != CATEGORY_CODE_VENDOR,
    ensures
        spec_element_check(p.update(0, v)) == Err::<(), ElementError>(
            ElementError::InvalidCategoryCode,
        ),
{
}

/// Reads one ESP-NOW element out of a MAC payload.
pub struct EspNowElementReader;

impl EspNowElementReader {
    /// Decodes the eight fixed fields of `payload`, cross-checks them, and on
    /// success hands back the element beside a view of exactly `length - 5`
    /// bytes of opaque data.
    pub fn read<'a>(payload: &'a [u8]) -> (r: Result<(EspNow, &'a [u8]), ElementError>)
        ensures
            r is Ok <==> spec_element_check(payload@) is Ok,
            r matches Ok((e, d)) ==> e == spec_element_fields(payload@) && d@
                == spec_element_data(payload@),
            r matches Err(err) ==> spec_element_check(payload@) == Err::<(), ElementError>(err),
    {
        let n: usize = payload.len();
        if n < ELEMENT_PRE_LEN {
            return Err(ElementError::BufferTooShort);
        }
        let length = *slice_index_get(payload, 9);
        if length < ELEMENT_MIN_DECLARED_LEN {
            return Err(ElementError::LengthUnderflow);
        }
        if n < ELEMENT_PRE_LEN + (length as usize) {
            return Err(ElementError::LengthExceedsBuffer);
        }
        let catcode = *slice_index_get(payload, 0);
        if catcode != CATEGORY_CODE_VENDOR {
            return Err(ElementError::InvalidCategoryCode);
        }
        let orga = OrganisationCode::new(
            *slice_index_get(payload, 1),
            *slice_index_get(payload, 2),
            *slice_index_get(payload, 3),
        );
        let orga2 = OrganisationCode::new(
            *slice_index_get(payload, 10),
            *slice_index_get(payload, 11),
            *slice_index_get(payload, 12),
        );
        if orga != OrganisationCode::new(0x18, 0xFE, 0x34) || orga2 != orga {
            return Err(ElementError::OrganizationMismatch);
        }
        let element_id = *slice_index_get(payload, 8);
        if element_id != ELEMENT_ID_VENDOR {
            return Err(ElementError::InvalidElementId);
        }
        let ptype = *slice_index_get(payload, 13);
        if ptype != PROTOCOL_TYPE_ESP_NOW {
            return Err(ElementError::InvalidProtocolType);
        }
        let element = EspNow {
            catcode,
            orga,
            padding: read_u32_le(payload, 4),
            element_id,
            length,
            orga2,
            ptype,
            version: *slice_index_get(payload, 14),
        };
        let data = slice_subrange(payload, ELEMENT_FIXED_LEN, ELEMENT_PRE_LEN + (length as usize));
        Ok((element, data))
    }
}

} // verus!
