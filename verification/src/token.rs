//! The signed, context-bound token: its byte layout, deterministic
//! encoding and decoding, issuance, and validation against signature,
//! context binding, expiry and clock skew.
//!
//! Byte order, used both for the signed byte string and on the wire:
//! an 8-byte magic header, a 16-byte session identifier, a 32-byte
//! SHA-256 context hash, the issuance timestamp as big-endian seconds,
//! then (on the wire only) the signature, length-prefixed with a
//! little-endian 64-bit length. The signature covers the first four
//! fields only.

use vstd::prelude::*;
use crate::byteorder::{
    spec_u64_to_be_bytes,
    spec_u64_from_be_bytes,
    u64_to_be_bytes,
    u64_from_be_bytes,
    lemma_u64_be_bytes_roundtrip,
    bytes_eq,
};
use crate::crypto::{sha256_of, ed25519_pub_of, ed25519_sig_of, ed25519_verifies, sha256,
    ed25519_verify, Signer};
use vstd::slice::{slice_subrange, slice_to_vec};

verus! {

/// Tokens issued no further in the future than this many seconds are
/// tolerated, to absorb clock skew between issuer and enforcer.
pub const SKEW_TOLERANCE_SECS: u64 = 60;

/// The eight magic bytes `RTA1TOKN` that begin every valid token and
/// identify the format version.
pub open spec fn spec_token_header() -> Seq<u8> {
    seq![0x52u8, 0x54u8, 0x41u8, 0x31u8, 0x54u8, 0x4fu8, 0x4bu8, 0x4eu8]
}

/// The magic header as bytes.
pub fn token_header_bytes() -> (r: Vec<u8>)
    ensures
        r@ == spec_token_header(),
{
    let mut v: Vec<u8> = Vec::new();
    v.push(0x52);
    v.push(0x54);
    v.push(0x41);
    v.push(0x31);
    v.push(0x54);
    v.push(0x4f);
    v.push(0x4b);
    v.push(0x4e);
    proof {
        assert(v@ =~= spec_token_header());
    }
    v
}

/// The mathematical content of a token: the byte strings of its four
/// fixed fields and its signature.
pub ghost struct TokenModel {
    pub header: Seq<u8>,
    pub session_id: Seq<u8>,
    pub context_hash: Seq<u8>,
    pub timestamp: u64,
    pub signature: Seq<u8>,
}

/// Field sizes are as the layout fixes them.
pub open spec fn token_wf(t: TokenModel) -> bool {
    &&& t.header.len() == 8
    &&& t.session_id.len() == 16
    &&& t.context_hash.len() == 32
}

/// The byte string the signature is computed over: the four fixed fields
/// in layout order.
pub open spec fn spec_sign_input(t: TokenModel) -> Seq<u8> {
    t.header + t.session_id + t.context_hash + spec_u64_to_be_bytes(t.timestamp)
}

/// The wire encoding: the signed fields, then the signature behind a
/// little-endian 64-bit length prefix. The same token always encodes to
/// the same bytes.
pub open spec fn spec_encode(t: TokenModel) -> Seq<u8> {
    spec_sign_input(t) + vstd::bytes::spec_u64_to_le_bytes(t.signature.len() as u64)
        + t.signature
}

#[derive(Clone, Copy, Debug, PartialEq, Eq, Structural)]
pub enum DecodeError {
    /// Fewer bytes than the fixed fields and the length prefix occupy.
    TooShort,
    /// The total length disagrees with the signature length prefix.
    LengthMismatch,
}

/// The token a byte string encodes, if any: the inverse of `spec_encode`.
pub open spec fn spec_decode(b: Seq<u8>) -> Result<TokenModel, DecodeError> {
    if b.len() < 72 {
        Err(DecodeError::TooShort)
    } else {
        let sig_len = vstd::bytes::spec_u64_from_le_bytes(b.subrange(64, 72));
        if b.len() != 72 + sig_len {
            Err(DecodeError::LengthMismatch)
        } else {
            Ok(TokenModel {
                header: b.subrange(0, 8),
                session_id: b.subrange(8, 24),
                context_hash: b.subrange(24, 56),
                timestamp: spec_u64_from_be_bytes(b.subrange(56, 64)),
                signature: b.subrange(72, b.len() as int),
            })
        }
    }
}

#[derive(Clone, Copy, Debug, PartialEq, Eq, Structural)]
pub enum ValidateError {
    /// The magic header is not `RTA1TOKN`.
    BadHeader,
    /// Ed25519 verification rejected the signature.
    BadSignature,
    /// The presented context bytes hash to something other than the
    /// token's context hash.
    ContextMismatch,
    /// Issued longer ago than the permitted age.
    Expired,
    /// Issued further in the future than the skew tolerance.
    FutureDated,
}

/// The validation decision on a token: header, then signature, then
/// context binding, then expiry, then clock skew; the first failing
/// check names the error.
pub open spec fn spec_validate(
    t: TokenModel,
    public_key: Seq<u8>,
    context: Seq<u8>,
    max_age_secs: u64,
    now: u64,
) -> Result<(), ValidateError> {
    if t.header != spec_token_header() {
        Err(ValidateError::BadHeader)
    } else if !ed25519_verifies(public_key, spec_sign_input(t), t.signature) {
        Err(ValidateError::BadSignature)
    } else if sha256_of(context) != t.context_hash {
        Err(ValidateError::ContextMismatch)
    } else if now > t.timestamp + max_age_secs {
        Err(ValidateError::Expired)
    } else if t.timestamp > now + SKEW_TOLERANCE_SECS {
        Err(ValidateError::FutureDated)
    } else {
        Ok(())
    }
}

/// A token as held in memory.
pub struct RTAToken {
    pub header: Vec<u8>,
    pub session_id: Vec<u8>,
    pub context_hash: Vec<u8>,
    pub timestamp: u64,
    pub signature: Vec<u8>,
}

impl View for RTAToken {
    type V = TokenModel;

    open spec fn view(&self) -> TokenModel {
        TokenModel {
            header: self.header@,
            session_id: self.session_id@,
            context_hash: self.context_hash@,
            timestamp: self.timestamp,
            signature: self.signature@,
        }
    }
}

impl RTAToken {
    pub open spec fn wf(&self) -> bool {
        token_wf(self@)
    }

    /// The byte string this token's signature covers.
    pub fn sign_input(&self) -> (r: Vec<u8>)
        ensures
            r@ == spec_sign_input(self@),
    {
        let mut out: Vec<u8> = Vec::new();
        out.extend_from_slice(self.header.as_slice());
        out.extend_from_slice(self.session_id.as_slice());
        out.extend_from_slice(self.context_hash.as_slice());
        let ts = u64_to_be_bytes(self.timestamp);
        out.extend_from_slice(ts.as_slice());
        proof {
            assert(out@ =~= spec_sign_input(self@));
        }
        out
    }

    /// Issue a token for `session_id`, binding it to `context_data` and
    /// stamping it with `now`, signed with the service's key.
    pub fn issue(signer: &Signer, session_id: Vec<u8>, context_data: &[u8], now: u64) -> (r:
        RTAToken)
        requires
            signer.wf(),
            session_id@.len() == 16,
        ensures
            r@.header == spec_token_header(),
            r@.session_id == session_id@,
            r@.context_hash == sha256_of(context_data@),
            r@.timestamp == now,
            r@.signature == ed25519_sig_of(signer.material(), spec_sign_input(r@)),
            ed25519_verifies(signer.spec_public_key(), spec_sign_input(r@), r@.signature),
            r.wf(),
    {
        let header = token_header_bytes();
        let context_hash = sha256(context_data);
        let mut token = RTAToken {
            header,
            session_id,
            context_hash,
            timestamp: now,
            signature: Vec::new(),
        };
        let msg = token.sign_input();
        let signature = signer.sign(&msg);
        token.signature = signature;
        token
    }

    /// Validate this token against the service public key, the expected
    /// context bytes, the permitted age and the current time.
    pub fn validate(
        &self,
        public_key: &Vec<u8>,
        context_data: &[u8],
        max_age_secs: u64,
        now: u64,
    ) -> (r: Result<(), ValidateError>)
        ensures
            r == spec_validate(self@, public_key@, context_data@, max_age_secs, now),
    {
        let magic = token_header_bytes();
        if !bytes_eq(self.header.as_slice(), magic.as_slice()) {
            return Err(ValidateError::BadHeader);
        }
        let msg = self.sign_input();
        if !ed25519_verify(public_key.as_slice(), &msg, self.signature.as_slice()) {
            return Err(ValidateError::BadSignature);
        }
        let expected = sha256(context_data);
        if !bytes_eq(expected.as_slice(), self.context_hash.as_slice()) {
            return Err(ValidateError::ContextMismatch);
        }
        if now > max_age_secs && now - max_age_secs > self.timestamp {
            return Err(ValidateError::Expired);
        }
        if self.timestamp > SKEW_TOLERANCE_SECS && self.timestamp - SKEW_TOLERANCE_SECS > now {
            return Err(ValidateError::FutureDated);
        }
        Ok(())
    }

    /// Encode this token to its deterministic wire form.
    pub fn serialize(&self) -> (r: Vec<u8>)
        ensures
            r@ == spec_encode(self@),
    {
        let mut out = self.sign_input();
        let len_bytes = vstd::bytes::u64_to_le_bytes(self.signature.len() as u64);
        out.extend_from_slice(len_bytes.as_slice());
        out.extend_from_slice(self.signature.as_slice());
        proof {
            assert(out@ =~= spec_encode(self@));
        }
        out
    }

    /// Decode a wire-form byte string back into a token.
    pub fn deserialize(bytes: &[u8]) -> (r: Result<RTAToken, DecodeError>)
        ensures
            match r {
                Ok(t) => spec_decode(bytes@) == Ok::<TokenModel, DecodeError>(t@) && t.wf(),
                Err(e) => spec_decode(bytes@) == Err::<TokenModel, DecodeError>(e),
            },
    {
        if bytes.len() < 72 {
            return Err(DecodeError::TooShort);
        }
        let len_slice = slice_subrange(bytes, 64, 72);
        let sig_len = vstd::bytes::u64_from_le_bytes(len_slice);
        if (bytes.len() - 72) as u64 != sig_len {
            return Err(DecodeError::LengthMismatch);
        }
        let header = slice_to_vec(slice_subrange(bytes, 0, 8));
        let session_id = slice_to_vec(slice_subrange(bytes, 8, 24));
        let context_hash = slice_to_vec(slice_subrange(bytes, 24, 56));
        let timestamp = u64_from_be_bytes(slice_subrange(bytes, 56, 64));
        let signature = slice_to_vec(slice_subrange(bytes, 72, bytes.len()));
        let t = RTAToken { header, session_id, context_hash, timestamp, signature };
        Ok(t)
    }
}

/// Round-trip: decoding the encoding of any well-formed token yields
/// that token again.
pub proof fn lemma_token_roundtrip(t: TokenModel)
    requires
        token_wf(t),
        t.signature.len() <= u64::MAX,
    ensures
        spec_decode(spec_encode(t)) == Ok::<TokenModel, DecodeError>(t),
{
    let b = spec_encode(t);
    vstd::bytes::lemma_auto_spec_u64_to_from_le_bytes();
    lemma_u64_be_bytes_roundtrip(t.timestamp);
    assert(b.len() == 72 + t.signature.len());
    assert(b.subrange(64, 72) =~= vstd::bytes::spec_u64_to_le_bytes(t.signature.len() as u64));
    assert(b.subrange(0, 8) =~= t.header);
    assert(b.subrange(8, 24) =~= t.session_id);
    assert(b.subrange(24, 56) =~= t.context_hash);
    assert(b.subrange(56, 64) =~= spec_u64_to_be_bytes(t.timestamp));
    assert(b.subrange(72, b.len() as int) =~= t.signature);
}

/// Signature validity: a token carrying the fields `issue` produces —
/// the magic header, the context hash of its context bytes, and a
/// signature that verifies under the issuing key's public key — passes
/// validation against those context bytes at any time from issuance
/// until the permitted age has elapsed.
pub proof fn lemma_issue_validates(
    t: TokenModel,
    pkcs8: Seq<u8>,
    context: Seq<u8>,
    max_age_secs: u64,
    now: u64,
)
    requires
        t.header == spec_token_header(),
        t.context_hash == sha256_of(context),
        ed25519_verifies(ed25519_pub_of(pkcs8), spec_sign_input(t), t.signature),
        t.timestamp <= now <= t.timestamp + max_age_secs,
    ensures
        spec_validate(t, ed25519_pub_of(pkcs8), context, max_age_secs, now) == Ok::<(),
            ValidateError>(()),
{
}

/// Context binding: when the presented context bytes hash differently
/// from the token's context hash, validation of a token that passes the
/// header and signature checks fails with `ContextMismatch`. (That
/// tampered context bytes hash differently is a property of SHA-256,
/// outside this model.)
pub proof fn lemma_context_mismatch(
    t: TokenModel,
    public_key: Seq<u8>,
    context: Seq<u8>,
    max_age_secs: u64,
    now: u64,
)
    requires
        t.header == spec_token_header(),
        ed25519_verifies(public_key, spec_sign_input(t), t.signature),
        sha256_of(context) != t.context_hash,
    ensures
        spec_validate(t, public_key, context, max_age_secs, now) == Err::<(), ValidateError>(
            ValidateError::ContextMismatch,
        ),
{
}

/// Signature tamper: whenever Ed25519 verification rejects the token's
/// signature over its signed fields, validation of a token with the
/// magic header fails with `BadSignature`, whatever the context, age
/// and time. (That a flipped bit makes verification reject is
/// unforgeability of Ed25519, outside this model.)
pub proof fn lemma_signature_tamper(
    t: TokenModel,
    public_key: Seq<u8>,
    context: Seq<u8>,
    max_age_secs: u64,
    now: u64,
)
    requires
        t.header == spec_token_header(),
        !ed25519_verifies(public_key, spec_sign_input(t), t.signature),
    ensures
        spec_validate(t, public_key, context, max_age_secs, now) == Err::<(), ValidateError>(
            ValidateError::BadSignature,
        ),
{
}

/// Expiry boundary: a token that passes the header, signature and
/// context checks validates exactly at age `max_age_secs`, and fails
/// with `Expired` one second past it.
pub proof fn lemma_expiry_boundary(
    t: TokenModel,
    public_key: Seq<u8>,
    context: Seq<u8>,
    max_age_secs: u64,
    now: u64,
)
    requires
        t.header == spec_token_header(),
        ed25519_verifies(public_key, spec_sign_input(t), t.signature),
        sha256_of(context) == t.context_hash,
    ensures
        now == t.timestamp + max_age_secs ==> spec_validate(t, public_key, context, max_age_secs,
            now) == Ok::<(), ValidateError>(()),
        now == t.timestamp + max_age_secs + 1 ==> spec_validate(t, public_key, context,
            max_age_secs, now) == Err::<(), ValidateError>(ValidateError::Expired),
{
}

} // verus!
