//! The envelope format, the results of signing and verifying, and offline
//! verification of an envelope against a payload.

use crate::digest::{compute_hash, payload_hash_of};
use vstd::prelude::*;
use vstd::string::StringExecFns;

verus! {

/// Identifier of the envelope format.
pub const SPEC: &'static str = "moss-0001";

/// Version of the envelope format.
pub const VERSION: i32 = 1;

/// Signature algorithm named in envelopes.
pub const ALGORITHM: &'static str = "ML-DSA-44";

/// Base URL of the MOSS API.
pub const DEFAULT_BASE_URL: &'static str = "https://api.mosscomputing.com";

/// Views an optional string as an optional character sequence.
pub open spec fn opt_view(o: Option<String>) -> Option<Seq<char>> {
    match o {
        Some(s) => Some(s@),
        None => None,
    }
}

/// A MOSS signature envelope.
#[derive(Debug, Clone)]
pub struct Envelope {
    pub spec: String,
    pub version: i32,
    pub alg: String,
    pub subject: String,
    pub key_version: i32,
    pub seq: i64,
    pub issued_at: i64,
    pub payload_hash: String,
    pub signature: String,
}

/// The mathematical content of an [`Envelope`].
pub struct EnvelopeView {
    pub spec: Seq<char>,
    pub version: i32,
    pub alg: Seq<char>,
    pub subject: Seq<char>,
    pub key_version: i32,
    pub seq: i64,
    pub issued_at: i64,
    pub payload_hash: Seq<char>,
    pub signature: Seq<char>,
}

impl View for Envelope {
    type V = EnvelopeView;

    open spec fn view(&self) -> EnvelopeView {
        EnvelopeView {
            spec: self.spec@,
            version: self.version,
            alg: self.alg@,
            subject: self.subject@,
            key_version: self.key_version,
            seq: self.seq,
            issued_at: self.issued_at,
            payload_hash: self.payload_hash@,
            signature: self.signature@,
        }
    }
}

/// The envelope that the client issues itself for a payload: current format
/// and algorithm, key version 1, the payload's hash and an empty signature.
/// The client holds no signing key, so such an envelope is unsigned: it binds
/// the payload by its hash and nothing binds its other members.
pub open spec fn local_envelope(
    payload_json: Seq<char>,
    subject: Seq<char>,
    seq: i64,
    issued_at: i64,
) -> EnvelopeView {
    EnvelopeView {
        spec: SPEC@,
        version: VERSION,
        alg: ALGORITHM@,
        subject,
        key_version: 1,
        seq,
        issued_at,
        payload_hash: payload_hash_of(payload_json),
        signature: Seq::empty(),
    }
}

/// Whether an envelope carries no signature.
pub open spec fn is_unsigned(envelope: EnvelopeView) -> bool {
    envelope.signature.len() == 0
}

/// Result of a sign operation.
#[derive(Debug, Clone)]
pub struct SignResult {
    pub envelope: Envelope,
    pub allowed: bool,
    pub blocked: bool,
    pub held: bool,
    pub decision: String,
    pub reason: Option<String>,
    pub action_id: Option<String>,
    pub evidence_id: Option<String>,
    pub signature_valid: bool,
}

/// Result of a verify operation.
#[derive(Debug, Clone)]
pub struct VerifyResult {
    pub valid: bool,
    pub subject: Option<String>,
    pub issued_at: Option<i64>,
    pub sequence: Option<i64>,
    pub error: Option<String>,
}

/// The mathematical content of a [`VerifyResult`].
pub struct VerifyView {
    pub valid: bool,
    pub subject: Option<Seq<char>>,
    pub issued_at: Option<i64>,
    pub sequence: Option<i64>,
    pub error: Option<Seq<char>>,
}

impl View for VerifyResult {
    type V = VerifyView;

    open spec fn view(&self) -> VerifyView {
        VerifyView {
            valid: self.valid,
            subject: opt_view(self.subject),
            issued_at: self.issued_at,
            sequence: self.sequence,
            error: opt_view(self.error),
        }
    }
}

/// A failed verification with the given reason.
pub open spec fn rejected(reason: Seq<char>) -> VerifyView {
    VerifyView { valid: false, subject: None, issued_at: None, sequence: None, error: Some(reason) }
}

/// What verifying `envelope` against a payload yields. The payload is given
/// by its JSON text, or by the reason its encoding failed. The format is
/// checked first, then the encoding, then the payload hash. No signature is
/// checked: a valid result says that the payload is the one the envelope
/// was issued for, and reports the subject, issue time and sequence number
/// as the envelope states them, without authenticating them.
pub open spec fn verify_outcome(
    payload_json: Result<Seq<char>, Seq<char>>,
    envelope: EnvelopeView,
) -> VerifyView {
    if envelope.spec != SPEC@ {
        rejected("Unknown spec: "@ + envelope.spec)
    } else {
        match payload_json {
            Err(reason) => rejected("Failed to encode payload: "@ + reason),
            Ok(text) => if payload_hash_of(text) != envelope.payload_hash {
                rejected("Payload hash mismatch"@)
            } else {
                VerifyView {
                    valid: true,
                    subject: Some(envelope.subject),
                    issued_at: Some(envelope.issued_at),
                    sequence: Some(envelope.seq),
                    error: None,
                }
            },
        }
    }
}

/// Views a payload encoding outcome as character sequences.
pub open spec fn encoding_view(r: Result<String, String>) -> Result<Seq<char>, Seq<char>> {
    match r {
        Ok(t) => Ok(t@),
        Err(e) => Err(e@),
    }
}

fn rejection(prefix: &str, detail: &str) -> (r: VerifyResult)
    ensures
        r@ == rejected(prefix@ + detail@),
{
    let mut reason = prefix.to_string();
    reason.append(detail);
    VerifyResult { valid: false, subject: None, issued_at: None, sequence: None, error: Some(reason) }
}

/// Verifies `envelope` offline against a payload, given as its JSON text or
/// as the reason its encoding failed.
pub fn verify_envelope(payload_json: &Result<String, String>, envelope: &Envelope) -> (r:
    VerifyResult)
    ensures
        r@ == verify_outcome(encoding_view(*payload_json), envelope@),
{
    let expected = SPEC.to_string();
    if !(envelope.spec == expected) {
        return rejection("Unknown spec: ", envelope.spec.as_str());
    }
    match payload_json {
        Err(reason) => rejection("Failed to encode payload: ", reason.as_str()),
        Ok(text) => {
            let computed = compute_hash(text.as_str());
            if !(computed == envelope.payload_hash) {
                VerifyResult {
                    valid: false,
                    subject: None,
                    issued_at: None,
                    sequence: None,
                    error: Some("Payload hash mismatch".to_string()),
                }
            } else {
                VerifyResult {
                    valid: true,
                    subject: Some(envelope.subject.clone()),
                    issued_at: Some(envelope.issued_at),
                    sequence: Some(envelope.seq),
                    error: None,
                }
            }
        },
    }
}

} // verus!
