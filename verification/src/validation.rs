//! The pre-flight key-consistency check.
//!
//! Before either registration phase may run, the identity key the
//! local node actually uses must agree with the identity key derivable
//! from the device's configuration bundle.  Both keys are compared in
//! their 39-byte agent form.  A development-network run bypasses the
//! check; a device with no stored key has nothing to compare against
//! and passes.

use vstd::prelude::*;
use crate::AuthError;
use crate::keys;

verus! {

/// The message a key mismatch is reported with.
pub open spec fn key_mismatch_message() -> Seq<char> {
    "Keys on holoport does not match. Please reset your holoport"@
}

/// The message an unreadable configuration is reported with.
pub open spec fn config_unreadable_message() -> Seq<char> {
    "Unable to read config hp-*.json"@
}

/// Whether the check passes: no stored key, or a configuration key
/// that matches it byte for byte.
pub open spec fn spec_validation_passes(
    dev_network: bool,
    stored_key: Option<Seq<u8>>,
    config_key: Option<Seq<u8>>,
) -> bool {
    ||| dev_network
    ||| stored_key is None
    ||| (config_key is Some && stored_key.unwrap() == config_key.unwrap())
}

/// Byte-for-byte equality of two keys.
fn bytes_equal(a: &Vec<u8>, b: &Vec<u8>) -> (r: bool)
    ensures
        r == (a@ == b@),
{
    if a.len() != b.len() {
        return false;
    }
    let n = a.len();
    let mut i: usize = 0;
    while i < n
        invariant
            n == a@.len() && n == b@.len(),
            i <= n,
            forall|j: int| 0 <= j < i ==> a@[j] == b@[j],
        decreases n - i,
    {
        if a[i] != b[i] {
            return false;
        }
        i += 1;
    }
    assert(a@ =~= b@);
    true
}

/// The key-consistency gate of the onboarding run.
///
/// `stored_key` is the agent key the local node is using, if one is
/// stored; `config_key` is the agent key derived from the
/// configuration bundle, or `None` when the bundle could not be read
/// or decoded.  The configuration key is consulted only when a stored
/// key exists, so a caller that found no stored key (or that runs on
/// the development network) may pass `None` without reading the
/// bundle at all.
pub fn init_validation(
    dev_network: bool,
    stored_key: Option<&Vec<u8>>,
    config_key: Option<&Vec<u8>>,
) -> (r: Result<(), AuthError>)
    ensures
        r is Ok == spec_validation_passes(
            dev_network,
            match stored_key { Some(k) => Some(k@), None => None },
            match config_key { Some(k) => Some(k@), None => None },
        ),
        !dev_network && stored_key is Some && config_key is None ==> (r matches Err(e)
            && e matches AuthError::InitializationError(m) && m@ == config_unreadable_message()),
        !dev_network && stored_key is Some && config_key is Some && stored_key.unwrap()@
            != config_key.unwrap()@ ==> (r matches Err(e)
            && e matches AuthError::InitializationError(m) && m@ == key_mismatch_message()),
{
    if dev_network {
        return Ok(());
    }
    match stored_key {
        None => Ok(()),
        Some(stored) => {
            match config_key {
                None => Err(AuthError::InitializationError(
                    "Unable to read config hp-*.json".to_owned(),
                )),
                Some(derived) => {
                    if bytes_equal(stored, derived) {
                        Ok(())
                    } else {
                        Err(AuthError::InitializationError(
                            "Keys on holoport does not match. Please reset your holoport"
                                .to_owned(),
                        ))
                    }
                },
            }
        },
    }
}

/// Parse the node's stored key file into its agent key, if the bytes
/// form one.
pub fn stored_agent_key(file_bytes: Vec<u8>) -> (r: Option<Vec<u8>>)
    ensures
        (r is Some) == (file_bytes@.len() == keys::AGENT_KEY_LEN && file_bytes@.subrange(0, 3)
            == keys::agent_key_prefix()),
        r matches Some(k) ==> k@ == file_bytes@,
{
    keys::agent_key_try_from_raw_39(file_bytes)
}

} // verus!
