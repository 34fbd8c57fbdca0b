//! The enforcement decision on a submitted token: decode, then revocation
//! (which takes precedence over everything else), then signature, context
//! binding, expiry and skew, then the context store's authorization rule.
//! Reading the request bytes and writing the outcome to the stream are the
//! caller's business.

use vstd::prelude::*;
use crate::token::{RTAToken, DecodeError, ValidateError, spec_decode, spec_validate};
use crate::hexcode::{spec_hex_of, session_id_hex};
use crate::context::{ContextManager, ContextView, spec_validate_action};
use crate::revocation::RevocationSet;

verus! {

/// The outcome of enforcing one submitted token.
#[derive(Clone, Copy, Debug, PartialEq, Eq, Structural)]
pub enum EnforceOutcome {
    /// The token is valid, unrevoked, and its session may act on the
    /// requested resource.
    Granted,
    /// The session is in the revocation set.
    Revoked,
    /// The token bytes failed decoding.
    Malformed(DecodeError),
    /// The token failed validation.
    Invalid(ValidateError),
    /// No context authorizes the action.
    Unauthorized,
}

/// The enforcement decision on the submitted bytes, given this node's
/// revocation set and context store, the service public key, the expected
/// context bytes, the expiry window, the time, and the requested resource.
pub open spec fn spec_enforce(
    bytes: Seq<u8>,
    revoked: Set<Seq<char>>,
    contexts: Map<Seq<char>, ContextView>,
    public_key: Seq<u8>,
    expected_context: Seq<u8>,
    max_age_secs: u64,
    now: u64,
    resource: Seq<char>,
) -> EnforceOutcome {
    match spec_decode(bytes) {
        Err(e) => EnforceOutcome::Malformed(e),
        Ok(t) => if revoked.contains(spec_hex_of(t.session_id)) {
            EnforceOutcome::Revoked
        } else {
            match spec_validate(t, public_key, expected_context, max_age_secs, now) {
                Err(e) => EnforceOutcome::Invalid(e),
                Ok(_) => match spec_validate_action(contexts, spec_hex_of(t.session_id),
                    resource) {
                    Ok(_) => EnforceOutcome::Granted,
                    Err(_) => EnforceOutcome::Unauthorized,
                },
            }
        },
    }
}

/// Enforce one submitted token. Revocation precedence: a token whose
/// session is in the revocation set is answered `Revoked`, whatever its
/// signature, context or age.
pub fn enforce(
    bytes: &[u8],
    revoked: &RevocationSet,
    contexts: &ContextManager,
    public_key: &Vec<u8>,
    expected_context: &[u8],
    max_age_secs: u64,
    now: u64,
    resource: &str,
) -> (r: EnforceOutcome)
    ensures
        r == spec_enforce(
            bytes@,
            revoked.contents(),
            contexts.contents(),
            public_key@,
            expected_context@,
            max_age_secs,
            now,
            resource@,
        ),
        spec_decode(bytes@) is Ok && revoked.contents().contains(
            spec_hex_of(spec_decode(bytes@)->Ok_0.session_id),
        ) ==> r == EnforceOutcome::Revoked,
{
    let token = match RTAToken::deserialize(bytes) {
        Ok(t) => t,
        Err(e) => {
            return EnforceOutcome::Malformed(e);
        },
    };
    let sid = session_id_hex(&token.session_id);
    if revoked.is_revoked(&sid) {
        return EnforceOutcome::Revoked;
    }
    if let Err(e) = token.validate(public_key, expected_context, max_age_secs, now) {
        return EnforceOutcome::Invalid(e);
    }
    match contexts.validate_action(&sid, resource) {
        Ok(_) => EnforceOutcome::Granted,
        Err(_) => EnforceOutcome::Unauthorized,
    }
}

} // verus!
