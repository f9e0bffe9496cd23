//! The device's cryptographic identity, as plain bytes, and the
//! encodings of it that the onboarding payloads carry.
//!
//! The device identity key is the 32-byte public key derived from the
//! device's configuration bundle.  The node stores and compares the
//! key in its 39-byte agent form: a fixed 3-byte prefix, the key
//! itself, and 4 location bytes computed from it.

use vstd::prelude::*;

verus! {

/// Number of bytes in the device identity key.
pub const IDENTITY_KEY_LEN: usize = 32;

/// Number of bytes in the agent form of the key.
pub const AGENT_KEY_LEN: usize = 39;

/// The fixed prefix that opens every agent-form key.
pub open spec fn agent_key_prefix() -> Seq<u8> {
    seq![0x84u8, 0x20u8, 0x24u8]
}

/// The base-36 encoding of a byte string, over the alphabet of
/// `base36::encode`.
pub uninterp spec fn base36_of(bytes: Seq<u8>) -> Seq<char>;

/// The 4 location bytes that `holo_hash` derives from a 32-byte key.
pub uninterp spec fn dht_location_of(core: Seq<u8>) -> Seq<u8>;

/// The URL-safe, unpadded base-64 encoding of a byte string.
pub uninterp spec fn base64url_of(bytes: Seq<u8>) -> Seq<char>;

/// Relies on base36::encode: the base-36 rendering of the bytes,
/// a function of the bytes alone.
#[verifier::external_body]
pub(crate) fn base36_encode(bytes: &Vec<u8>) -> (r: String)
    ensures
        r@ == base36_of(bytes@),
{
    base36::encode(bytes)
}

/// Relies on holo_hash::AgentPubKey::from_raw_32: prepends the agent
/// prefix and appends the 4 computed location bytes; panics unless
/// given exactly 32 bytes.
#[verifier::external_body]
pub(crate) fn agent_key_from_raw_32(core: Vec<u8>) -> (r: Vec<u8>)
    requires
        core@.len() == IDENTITY_KEY_LEN,
    ensures
        r@ == agent_key_prefix() + core@ + dht_location_of(core@),
        r@.len() == AGENT_KEY_LEN,
{
    holo_hash::AgentPubKey::from_raw_32(core).get_raw_39().to_vec()
}

/// Relies on holo_hash::AgentPubKey::try_from_raw_39: accepts exactly
/// 39-byte strings that open with the agent prefix, and keeps the
/// bytes as given.
#[verifier::external_body]
pub(crate) fn agent_key_try_from_raw_39(bytes: Vec<u8>) -> (r: Option<Vec<u8>>)
    ensures
        (r is Some) == (bytes@.len() == AGENT_KEY_LEN && bytes@.subrange(0, 3)
            == agent_key_prefix()),
        r matches Some(k) ==> k@ == bytes@,
{
    match holo_hash::AgentPubKey::try_from_raw_39(bytes) {
        Ok(key) => Some(key.get_raw_39().to_vec()),
        Err(_) => None,
    }
}

/// Relies on holo_hash::encode::holo_hash_encode: a literal `u`
/// followed by the URL-safe, unpadded base-64 rendering of the bytes.
#[verifier::external_body]
pub(crate) fn holo_hash_encode(bytes: &Vec<u8>) -> (r: String)
    ensures
        r@ == seq!['u'] + base64url_of(bytes@),
{
    holo_hash::encode::holo_hash_encode(bytes)
}

/// The encoded agent key that the registration payload carries: the
/// agent form of the device key, rendered as `u` plus base-64.
pub open spec fn encoded_agent_key_of(core: Seq<u8>) -> Seq<char> {
    seq!['u'] + base64url_of(agent_key_prefix() + core + dht_location_of(core))
}

/// Derive the agent form of a 32-byte device identity key.
pub fn derive_agent_key(core: &Vec<u8>) -> (r: Vec<u8>)
    requires
        core@.len() == IDENTITY_KEY_LEN,
    ensures
        r@ == agent_key_prefix() + core@ + dht_location_of(core@),
        r@.len() == AGENT_KEY_LEN,
{
    let mut copy: Vec<u8> = Vec::new();
    copy.extend_from_slice(core.as_slice());
    assert(copy@ =~= core@);
    agent_key_from_raw_32(copy)
}

/// Encode a 32-byte device identity key as the registration
/// authority's agent-key string.
pub fn holochain_encoded_agent_key(core: &Vec<u8>) -> (r: String)
    requires
        core@.len() == IDENTITY_KEY_LEN,
    ensures
        r@ == encoded_agent_key_of(core@),
{
    let agent = derive_agent_key(core);
    holo_hash_encode(&agent)
}

} // verus!
