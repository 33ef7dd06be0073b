//! The advertisement classifier: decides, from the manufacturer-data
//! mapping of a single BLE advertisement, whether the broadcaster is a
//! tracking tag of the "find my" accessory class.

use vstd::prelude::*;
use std::collections::HashMap;

verus! {

broadcast use vstd::std_specs::hash::group_hash_axioms;

/// Bluetooth SIG company identifier for Apple, the key under which the
/// accessory advertisement payload is filed.
pub const APPLE_COMPANY_ID: u16 = 0x004C;

/// Payload length emitted by earlier accessory firmware revisions.
pub const ADV_PAYLOAD_LEN_SHORT: usize = 27;

/// Payload length emitted by later accessory firmware revisions.
pub const ADV_PAYLOAD_LEN_LONG: usize = 28;

/// First prefix byte identifying the "find my" advertisement subtype.
pub const TAG_PREFIX_0: u8 = 0x12;

/// Second prefix byte identifying the "find my" advertisement subtype.
pub const TAG_PREFIX_1: u8 = 0x19;

/// Third prefix byte identifying the "find my" advertisement subtype.
pub const TAG_PREFIX_2: u8 = 0x10;

/// A payload length is canonical when it matches either known firmware
/// revision's accessory advertisement size.
pub open spec fn is_canonical_len(n: nat) -> bool {
    n == ADV_PAYLOAD_LEN_SHORT || n == ADV_PAYLOAD_LEN_LONG
}

/// The payload opens with the fixed three-byte "find my" subtype prefix.
pub open spec fn has_tag_prefix(payload: Seq<u8>) -> bool {
    &&& payload.len() >= 3
    &&& payload[0] == TAG_PREFIX_0
    &&& payload[1] == TAG_PREFIX_1
    &&& payload[2] == TAG_PREFIX_2
}

/// A payload belongs to a tracking tag when its length is canonical and
/// it carries the subtype prefix.
pub open spec fn is_tag_payload(payload: Seq<u8>) -> bool {
    is_canonical_len(payload.len()) && has_tag_prefix(payload)
}

/// A manufacturer-data mapping classifies as a tracking tag when the
/// Apple entry is present and its payload is a tag payload.
pub open spec fn spec_is_airtag(m: Map<u16, Vec<u8>>) -> bool {
    m.contains_key(APPLE_COMPANY_ID) && is_tag_payload(m[APPLE_COMPANY_ID]@)
}

/// Decide whether an advertisement's manufacturer data belongs to a
/// tracking tag. Total over arbitrary mappings: an absent Apple entry, a
/// payload of unexpected length (including one shorter than the prefix)
/// or a foreign prefix all classify as `false`, never as an error.
pub fn is_airtag(manufacturer_data: &HashMap<u16, Vec<u8>>) -> (r: bool)
    ensures
        r == spec_is_airtag(manufacturer_data@),
{
    let apple_data: &Vec<u8> = match manufacturer_data.get(&APPLE_COMPANY_ID) {
        Some(payload) => payload,
        None => {
            return false;
        },
    };
    if apple_data.len() != ADV_PAYLOAD_LEN_SHORT && apple_data.len() != ADV_PAYLOAD_LEN_LONG {
        return false;
    }
    apple_data[0] == TAG_PREFIX_0 && apple_data[1] == TAG_PREFIX_1 && apple_data[2]
        == TAG_PREFIX_2
}

/// Law: a mapping without the Apple company identifier entry never
/// classifies as a tracking tag, whatever else it holds.
pub proof fn lemma_missing_apple_entry_not_tag(m: Map<u16, Vec<u8>>)
    requires
        !m.contains_key(APPLE_COMPANY_ID),
    ensures
        !spec_is_airtag(m),
{
}

/// Law: a payload of non-canonical length under the Apple entry never
/// classifies, whatever its bytes hold — including a payload shorter
/// than the three-byte prefix.
pub proof fn lemma_non_canonical_len_not_tag(m: Map<u16, Vec<u8>>)
    requires
        m.contains_key(APPLE_COMPANY_ID),
        !is_canonical_len(m[APPLE_COMPANY_ID]@.len()),
    ensures
        !spec_is_airtag(m),
{
}

/// Law: at canonical payload length, classification is decided by the
/// three-byte prefix alone — it matches exactly when the mapping
/// classifies as a tracking tag.
pub proof fn lemma_canonical_len_prefix_decides(m: Map<u16, Vec<u8>>)
    requires
        m.contains_key(APPLE_COMPANY_ID),
        is_canonical_len(m[APPLE_COMPANY_ID]@.len()),
    ensures
        spec_is_airtag(m) <==> has_tag_prefix(m[APPLE_COMPANY_ID]@),
{
}

/// Law: classification is a pure function of the mapping. Two calls of
/// `is_airtag` on the same mapping agree, since each returns
/// `spec_is_airtag` of its argument's view and nothing else.
pub proof fn lemma_classification_deterministic(r1: bool, r2: bool, m: Map<u16, Vec<u8>>)
    requires
        r1 == spec_is_airtag(m),
        r2 == spec_is_airtag(m),
    ensures
        r1 == r2,
{
}

} // verus!
