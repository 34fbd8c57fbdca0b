//! The token-exchange side: parsing the exchange request, checking the
//! grant type, resolving the provider descriptor for OAuth introspection,
//! and — once the introspection answer is in — issuing the token and its
//! Base64 JSON response. The HTTP round-trip to the provider and the
//! stream transport are the caller's business: the caller resolves the
//! descriptor here, performs the introspection, and hands the answer
//! back in.

use vstd::prelude::*;
use crate::config::{IdpConfig, IdpConfigView, IdpProviders, IdpProvidersView};
use crate::crypto::{sha256_of, ed25519_sig_of, ed25519_verifies, Signer, random_session_id};
use crate::token::{RTAToken, spec_token_header, spec_sign_input};
use crate::hexcode::{spec_hex_of, session_id_hex};
use crate::events::DomainEvent;
use crate::strutil::{str_eq, str_eq_ignore_ascii_case, spec_eq_ignore_ascii_case, concat_str};
use base64::Engine;

verus! {

/// Requests larger than this many bytes are rejected.
pub const MAX_REQUEST_BYTES: usize = 4096;

#[derive(Clone, Copy, Debug, PartialEq, Eq, Structural)]
pub enum ExchangeError {
    /// The request bytes do not parse as the expected JSON object.
    BadRequest,
    /// The grant type is not the token-exchange URN.
    UnsupportedGrantType,
    /// The resolved provider key names no registry entry.
    UnknownProvider,
    /// The identity provider judged the OAuth token invalid.
    IntrospectionFailed,
    /// The identity provider could not be reached.
    IdpUnreachable,
    /// The request exceeds the size bound.
    RequestTooLarge,
    /// Key material or the random generator failed.
    InternalError,
}

/// A token-exchange request, as carried in the request JSON.
pub struct TokenExchangeRequest {
    pub grant_type: String,
    pub oauth_token: String,
    pub agent_id: String,
    pub provider: Option<String>,
}

/// A token-exchange response: the issued token, encoded and Base64-wrapped.
pub struct TokenExchangeResponse {
    pub rtatoken: String,
}

/// A request to exchange an OAuth token for a session token.
pub struct IssueTokenCommand {
    pub oauth_token: String,
    pub agent_id: String,
    pub provider: Option<String>,
}

/// Reject a request longer than the size bound.
pub fn check_request_size(n: usize) -> (r: Result<(), ExchangeError>)
    ensures
        r is Ok <==> n <= MAX_REQUEST_BYTES,
        r is Err ==> r->Err_0 == ExchangeError::RequestTooLarge,
{
    if n > MAX_REQUEST_BYTES {
        Err(ExchangeError::RequestTooLarge)
    } else {
        Ok(())
    }
}

/// The exact grant type the exchange accepts.
pub open spec fn spec_grant_type_urn() -> Seq<char> {
    "urn:ietf:params:oauth:grant-type:rta_token_exchange"@
}

/// The provider key a request selects: the one it names, or the
/// registry's default.
pub open spec fn spec_provider_key(provider: Option<Seq<char>>, p: IdpProvidersView) -> Seq<
    char,
> {
    match provider {
        Some(k) => k,
        None => p.default,
    }
}

/// The registry entry a key names, if any: the key is matched without
/// regard to ASCII case, as if folded to lowercase first.
pub open spec fn spec_lookup_provider(key: Seq<char>, p: IdpProvidersView) -> Option<
    IdpConfigView,
> {
    if spec_eq_ignore_ascii_case(key, "azure"@) {
        Some(p.azure)
    } else if spec_eq_ignore_ascii_case(key, "okta"@) {
        Some(p.okta)
    } else if spec_eq_ignore_ascii_case(key, "auth0"@) {
        Some(p.auth0)
    } else {
        None
    }
}

/// The descriptor a request resolves to, if any.
pub open spec fn spec_resolve_provider(provider: Option<Seq<char>>, p: IdpProvidersView) -> Option<
    IdpConfigView,
> {
    spec_lookup_provider(spec_provider_key(provider, p), p)
}

/// The character view of an optionally supplied key.
pub open spec fn spec_opt_str(provider: Option<&String>) -> Option<Seq<char>> {
    match provider {
        Some(s) => Some(s@),
        None => None,
    }
}

/// The character view of an optionally held key.
pub open spec fn spec_opt_view(provider: Option<String>) -> Option<Seq<char>> {
    match provider {
        Some(s) => Some(s@),
        None => None,
    }
}

/// Default provider: a request naming no provider resolves exactly as the
/// registry's default key does.
pub proof fn lemma_default_provider(p: IdpProvidersView)
    ensures
        spec_resolve_provider(None, p) == spec_lookup_provider(p.default, p),
{
}

/// Resolve the provider descriptor a request selects, falling back to the
/// registry's default; a key naming no entry is `UnknownProvider`.
pub fn resolve_provider<'a>(provider: Option<&String>, providers: &'a IdpProviders) -> (r: Result<
    &'a IdpConfig,
    ExchangeError,
>)
    ensures
        match r {
            Ok(c) => spec_resolve_provider(spec_opt_str(provider), providers@) == Some(c@),
            Err(e) => e == ExchangeError::UnknownProvider && spec_resolve_provider(
                spec_opt_str(provider),
                providers@,
            ) is None,
        },
{
    let key: &String = match provider {
        Some(k) => k,
        None => &providers.default,
    };
    if str_eq_ignore_ascii_case(key.as_str(), "azure") {
        Ok(&providers.azure)
    } else if str_eq_ignore_ascii_case(key.as_str(), "okta") {
        Ok(&providers.okta)
    } else if str_eq_ignore_ascii_case(key.as_str(), "auth0") {
        Ok(&providers.auth0)
    } else {
        Err(ExchangeError::UnknownProvider)
    }
}

/// First stage of the exchange: check the grant type, then resolve the
/// provider whose endpoint the caller must introspect against. An
/// unsupported grant type or unknown provider ends the exchange here,
/// before any introspection.
pub fn plan_exchange<'a>(req: &TokenExchangeRequest, providers: &'a IdpProviders) -> (r: Result<
    &'a IdpConfig,
    ExchangeError,
>)
    ensures
        req.grant_type@ != spec_grant_type_urn() ==> r is Err && r->Err_0
            == ExchangeError::UnsupportedGrantType,
        req.grant_type@ == spec_grant_type_urn() ==> match r {
            Ok(c) => spec_resolve_provider(spec_opt_view(req.provider), providers@)
                == Some(c@),
            Err(e) => e == ExchangeError::UnknownProvider && spec_resolve_provider(
                spec_opt_view(req.provider),
                providers@,
            ) is None,
        },
{
    if !str_eq(req.grant_type.as_str(), "urn:ietf:params:oauth:grant-type:rta_token_exchange") {
        return Err(ExchangeError::UnsupportedGrantType);
    }
    let provider_ref: Option<&String> = match &req.provider {
        Some(s) => Some(s),
        None => None,
    };
    resolve_provider(provider_ref, providers)
}

/// Second stage of the exchange, after the caller has the introspection
/// answer: a negative answer is `IntrospectionFailed`; a positive one
/// issues a token for the fresh session, with the matching event.
pub fn complete_exchange(
    introspection_ok: bool,
    signer: &Signer,
    session_id: Vec<u8>,
    context_data: &[u8],
    now: u64,
) -> (r: Result<(RTAToken, DomainEvent), ExchangeError>)
    requires
        signer.wf(),
        session_id@.len() == 16,
    ensures
        !introspection_ok ==> r is Err && r->Err_0 == ExchangeError::IntrospectionFailed,
        introspection_ok ==> r is Ok,
        r is Ok ==> r->Ok_0.0@.header == spec_token_header(),
        r is Ok ==> r->Ok_0.0@.session_id == session_id@,
        r is Ok ==> r->Ok_0.0@.context_hash == sha256_of(context_data@),
        r is Ok ==> r->Ok_0.0@.timestamp == now,
        r is Ok ==> r->Ok_0.0@.signature == ed25519_sig_of(
            signer.material(),
            spec_sign_input(r->Ok_0.0@),
        ),
        r is Ok ==> ed25519_verifies(
            signer.spec_public_key(),
            spec_sign_input(r->Ok_0.0@),
            r->Ok_0.0@.signature,
        ),
        r is Ok ==> r->Ok_0.0.wf(),
        r is Ok ==> (r->Ok_0.1 matches DomainEvent::TokenIssued { session_id: sid } && sid@
            == spec_hex_of(session_id@)),
{
    if !introspection_ok {
        return Err(ExchangeError::IntrospectionFailed);
    }
    let hexid = session_id_hex(&session_id);
    let token = RTAToken::issue(signer, session_id, context_data, now);
    let event = DomainEvent::TokenIssued { session_id: hexid };
    Ok((token, event))
}

/// The whole post-introspection exchange from raw key material: parse the
/// key, draw a fresh session identifier, and issue. A negative answer is
/// `IntrospectionFailed`; rejected key material or a failed random draw is
/// `InternalError`.
pub fn exchange_with_key_material(
    introspection_ok: bool,
    pkcs8: Vec<u8>,
    context_data: &[u8],
    now: u64,
) -> (r: Result<(RTAToken, DomainEvent), ExchangeError>)
    ensures
        !introspection_ok ==> r is Err && r->Err_0 == ExchangeError::IntrospectionFailed,
        r is Err && r->Err_0 == ExchangeError::IntrospectionFailed ==> !introspection_ok,
        r is Err ==> r->Err_0 == ExchangeError::IntrospectionFailed || r->Err_0
            == ExchangeError::InternalError,
        r is Ok ==> introspection_ok,
        r is Ok ==> r->Ok_0.0@.header == spec_token_header(),
        r is Ok ==> r->Ok_0.0@.context_hash == sha256_of(context_data@),
        r is Ok ==> r->Ok_0.0@.timestamp == now,
        r is Ok ==> r->Ok_0.0.wf(),
        r is Ok ==> (r->Ok_0.1 matches DomainEvent::TokenIssued { session_id: sid } && sid@
            == spec_hex_of(r->Ok_0.0@.session_id)),
{
    if !introspection_ok {
        return Err(ExchangeError::IntrospectionFailed);
    }
    let signer = match Signer::from_pkcs8(pkcs8) {
        Ok(s) => s,
        Err(_) => return Err(ExchangeError::InternalError),
    };
    let session_id = match random_session_id() {
        Ok(id) => id,
        Err(_) => return Err(ExchangeError::InternalError),
    };
    complete_exchange(true, &signer, session_id, context_data, now)
}

/// What Base64 renders a byte string as: standard alphabet with padding,
/// a function of the input bytes alone.
pub uninterp spec fn base64_of(bytes: Seq<u8>) -> Seq<char>;

/// Relies on `base64::engine::general_purpose::STANDARD.encode`: standard
/// alphabet with padding, depending on the input bytes alone.
#[verifier::external_body]
pub(crate) fn base64_encode(data: &Vec<u8>) -> (r: String)
    ensures
        r@ == base64_of(data@),
{
    base64::engine::general_purpose::STANDARD.encode(data)
}

/// The response JSON around a Base64-rendered token.
pub open spec fn spec_response_json(token_b64: Seq<char>) -> Seq<char> {
    "{\"rtatoken\":\""@ + token_b64 + "\"}"@
}

/// The exchange response body: the encoded token, Base64-rendered, in the
/// response JSON object.
pub fn exchange_response_json(token_bytes: &Vec<u8>) -> (r: String)
    ensures
        r@ == spec_response_json(base64_of(token_bytes@)),
{
    let b64 = base64_encode(token_bytes);
    let s = concat_str("{\"rtatoken\":\"", b64.as_str());
    concat_str(s.as_str(), "\"}")
}

/// The string value of the named member of the JSON document `bytes`
/// holds: `Some` exactly when the bytes parse as JSON with that member
/// present and a string. A function of the bytes and the key alone.
pub uninterp spec fn json_str_member(bytes: Seq<u8>, key: Seq<char>) -> Option<Seq<char>>;

/// Whether the named member is JSON null or absent in the document the
/// bytes hold; also true when the bytes do not parse as JSON, since no
/// member is present then. A function of the bytes and the key alone.
pub uninterp spec fn json_member_null_or_absent(bytes: Seq<u8>, key: Seq<char>) -> bool;

/// Relies on `serde_json::from_slice` at `serde_json::Value` and on
/// `Value::get` and `Value::as_str`: the named member's string value in
/// the JSON document the bytes hold, when the bytes parse and the member
/// is a string; parsing given bytes is deterministic.
#[verifier::external_body]
fn json_str_member_exec(bytes: &[u8], key: &str) -> (r: Option<String>)
    ensures
        match r {
            Some(s) => json_str_member(bytes@, key@) == Some(s@),
            None => json_str_member(bytes@, key@) is None,
        },
{
    let v: serde_json::Value = match serde_json::from_slice(bytes) {
        Ok(v) => v,
        Err(_) => return None,
    };
    match v.get(key) {
        Some(member) => match member.as_str() {
            Some(s) => Some(s.to_owned()),
            None => None,
        },
        None => None,
    }
}

/// Relies on `serde_json::from_slice` at `serde_json::Value` and on
/// `Value::get` and `Value::is_null`: whether the named member is null or
/// absent in the JSON document the bytes hold.
#[verifier::external_body]
fn json_member_null_or_absent_exec(bytes: &[u8], key: &str) -> (r: bool)
    ensures
        r == json_member_null_or_absent(bytes@, key@),
{
    let v: serde_json::Value = match serde_json::from_slice(bytes) {
        Ok(v) => v,
        Err(_) => return true,
    };
    match v.get(key) {
        Some(member) => member.is_null(),
        None => true,
    }
}

/// Parse the exchange request JSON: an object whose members `grant_type`,
/// `oauth_token` and `agent_id` are strings, with `provider` a string,
/// null or absent. Anything else is `BadRequest`.
pub fn parse_exchange_request(bytes: &[u8]) -> (r: Result<TokenExchangeRequest, ExchangeError>)
    ensures
        r is Err ==> r->Err_0 == ExchangeError::BadRequest,
        r is Ok <==> json_str_member(bytes@, "grant_type"@) is Some && json_str_member(
            bytes@,
            "oauth_token"@,
        ) is Some && json_str_member(bytes@, "agent_id"@) is Some && (json_str_member(
            bytes@,
            "provider"@,
        ) is Some || json_member_null_or_absent(bytes@, "provider"@)),
        r is Ok ==> Some(r->Ok_0.grant_type@) == json_str_member(bytes@, "grant_type"@),
        r is Ok ==> Some(r->Ok_0.oauth_token@) == json_str_member(bytes@, "oauth_token"@),
        r is Ok ==> Some(r->Ok_0.agent_id@) == json_str_member(bytes@, "agent_id"@),
        r is Ok ==> spec_opt_view(r->Ok_0.provider) == json_str_member(bytes@, "provider"@),
{
    let grant_type = match json_str_member_exec(bytes, "grant_type") {
        Some(s) => s,
        None => return Err(ExchangeError::BadRequest),
    };
    let oauth_token = match json_str_member_exec(bytes, "oauth_token") {
        Some(s) => s,
        None => return Err(ExchangeError::BadRequest),
    };
    let agent_id = match json_str_member_exec(bytes, "agent_id") {
        Some(s) => s,
        None => return Err(ExchangeError::BadRequest),
    };
    let provider = match json_str_member_exec(bytes, "provider") {
        Some(s) => Some(s),
        None => {
            if json_member_null_or_absent_exec(bytes, "provider") {
                None
            } else {
                return Err(ExchangeError::BadRequest);
            }
        },
    };
    Ok(TokenExchangeRequest { grant_type, oauth_token, agent_id, provider })
}

/// Whether an HTTP status code counts as introspection success: exactly
/// the 2xx range, the status being authoritative.
pub fn introspection_succeeded(status: u16) -> (r: bool)
    ensures
        r == (200 <= status && status <= 299),
{
    200 <= status && status <= 299
}

} // verus!
