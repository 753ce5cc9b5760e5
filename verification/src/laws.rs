//! Properties that hold across the operations of the library.

use crate::client::{flags_match_decision, local_subject, settled, signed_locally, ClientView, EvaluateReply, PendingSign, SignRequest};
use crate::digest::{base64_url_nopad, payload_hash_of, sha256_of};
use crate::json::{json_string, quoted_list};
use crate::uninstall::{
    uninstall_text, DRY_RUN_LINE, UNINSTALL_CHECKLIST, UNINSTALL_FOOTER, UNINSTALL_HEADER,
};
use vstd::utf8::encode_utf8;
use crate::protocol::{
    is_unsigned, local_envelope, verify_outcome, EnvelopeView, SignResult, VerifyView, ALGORITHM,
    SPEC, VERSION,
};
use vstd::prelude::*;

verus! {

/// An envelope that the client issues itself verifies against the payload it
/// was issued for, and the verification reports the envelope's subject,
/// issue time and sequence number.
pub proof fn lemma_local_envelope_verifies(
    payload_json: Seq<char>,
    subject: Seq<char>,
    seq: i64,
    issued_at: i64,
)
    ensures
        verify_outcome(Ok(payload_json), local_envelope(payload_json, subject, seq, issued_at))
            == (VerifyView {
            valid: true,
            subject: Some(subject),
            issued_at: Some(issued_at),
            sequence: Some(seq),
            error: None,
        }),
{
}

/// What `sign` returns locally verifies against the signed payload, and the
/// verification names the agent (or the local default subject) and the
/// envelope's sequence number.
pub proof fn lemma_sign_then_verify(
    before: ClientView,
    after: ClientView,
    req: SignRequest,
    r: SignResult,
)
    requires
        signed_locally(before, after, req, r),
    ensures
        verify_outcome(Ok(req.payload_json@), r.envelope@) == (VerifyView {
            valid: true,
            subject: Some(r.envelope.subject@),
            issued_at: Some(r.envelope.issued_at),
            sequence: Some(r.envelope.seq),
            error: None,
        }),
        r.envelope.subject@ == local_subject(req.agent_id@),
        r.envelope.seq == after.sequence,
{
    lemma_local_envelope_verifies(
        req.payload_json@,
        local_subject(req.agent_id@),
        after.sequence,
        r.envelope.issued_at,
    );
}

/// A locally issued envelope verifies against another payload exactly when
/// the two payloads hash alike; otherwise the verification reports a hash
/// mismatch.
pub proof fn lemma_other_payload_verifies_iff_same_hash(
    signed_json: Seq<char>,
    other_json: Seq<char>,
    subject: Seq<char>,
    seq: i64,
    issued_at: i64,
)
    ensures
        verify_outcome(Ok(other_json), local_envelope(signed_json, subject, seq, issued_at)).valid
            <==> payload_hash_of(other_json) == payload_hash_of(signed_json),
        payload_hash_of(other_json) != payload_hash_of(signed_json) ==> verify_outcome(
            Ok(other_json),
            local_envelope(signed_json, subject, seq, issued_at),
        ).error == Some("Payload hash mismatch"@),
{
}

/// Verification accepts only an envelope of the current format whose hash
/// is that of the payload it is checked against.
pub proof fn lemma_verify_sound(payload_json: Result<Seq<char>, Seq<char>>, envelope: EnvelopeView)
    ensures
        verify_outcome(payload_json, envelope).valid ==> {
            &&& envelope.spec == SPEC@
            &&& payload_json matches Ok(t)
            &&& payload_hash_of(t) == envelope.payload_hash
        },
{
}

/// A verification result either accepts, naming subject, issue time and
/// sequence and no error, or rejects, naming an error and nothing else.
pub proof fn lemma_verify_outcome_shape(
    payload_json: Result<Seq<char>, Seq<char>>,
    envelope: EnvelopeView,
)
    ensures
        ({
            let v = verify_outcome(payload_json, envelope);
            if v.valid {
                v.subject is Some && v.issued_at is Some && v.sequence is Some && v.error is None
            } else {
                v.subject is None && v.issued_at is None && v.sequence is None && v.error is Some
            }
        }),
{
}

/// Two successive local signatures carry strictly increasing sequence
/// numbers, one apart.
pub proof fn lemma_sequence_increases(
    s0: ClientView,
    s1: ClientView,
    s2: ClientView,
    req1: SignRequest,
    req2: SignRequest,
    r1: SignResult,
    r2: SignResult,
)
    requires
        signed_locally(s0, s1, req1, r1),
        signed_locally(s1, s2, req2, r2),
    ensures
        r1.envelope.seq < r2.envelope.seq,
        r2.envelope.seq == r1.envelope.seq + 1,
{
}

proof fn lemma_decisions_distinct()
    ensures
        "allow"@ != "block"@,
        "allow"@ != "hold"@,
        "block"@ != "hold"@,
{
    reveal_strlit("allow");
    reveal_strlit("block");
    reveal_strlit("hold");
    assert("allow"@[0] != "block"@[0]);
    assert("allow"@[0] != "hold"@[0]);
    assert("block"@[0] != "hold"@[0]);
}

/// Signing never reports a decision as more than one of allowed, blocked
/// and held, and reports any other decision as none of them.
pub proof fn lemma_flags_exclusive(r: SignResult)
    requires
        flags_match_decision(r),
    ensures
        !(r.allowed && r.blocked),
        !(r.allowed && r.held),
        !(r.blocked && r.held),
        r.decision@ != "allow"@ && r.decision@ != "block"@ && r.decision@ != "hold"@ ==> !r.allowed
            && !r.blocked && !r.held,
{
    lemma_decisions_distinct();
}

/// A local signature is allowed, and neither blocked nor held.
pub proof fn lemma_local_signature_allowed(
    before: ClientView,
    after: ClientView,
    req: SignRequest,
    r: SignResult,
)
    requires
        signed_locally(before, after, req, r),
    ensures
        flags_match_decision(r),
{
    lemma_decisions_distinct();
}

/// A local signature is in the current envelope format, names the agent (or
/// the local default where the agent id is empty), and carries an empty
/// signature while its result reports `signature_valid`.
pub proof fn lemma_local_signature_format(
    before: ClientView,
    after: ClientView,
    req: SignRequest,
    r: SignResult,
)
    requires
        signed_locally(before, after, req, r),
    ensures
        r.envelope.spec@ == SPEC@,
        r.envelope.version == VERSION,
        r.envelope.alg@ == ALGORITHM@,
        r.envelope.key_version == 1,
        req.agent_id@.len() > 0 ==> r.envelope.subject@ == req.agent_id@,
        req.agent_id@.len() == 0 ==> r.envelope.subject@ == "moss:local:default"@,
        is_unsigned(r.envelope@),
        r.signature_valid,
{
}

/// Successive local signatures, any number of them, carry the sequence
/// numbers that follow the client's counter one by one, and leave the
/// counter advanced by their number.
pub proof fn lemma_local_signature_sequence(
    states: Seq<ClientView>,
    reqs: Seq<SignRequest>,
    results: Seq<SignResult>,
)
    requires
        states.len() == results.len() + 1,
        reqs.len() == results.len(),
        forall|i: int|
            0 <= i < results.len() ==> signed_locally(
                #[trigger] states[i],
                states[i + 1],
                reqs[i],
                results[i],
            ),
    ensures
        forall|i: int|
            0 <= i < results.len() ==> #[trigger] results[i].envelope.seq == states[0].sequence
                + i + 1,
        states.last().sequence == states[0].sequence + results.len(),
    decreases results.len(),
{
    let n = results.len();
    if n > 0 {
        let k = (n - 1) as int;
        assert(signed_locally(states[k], states[k + 1], reqs[k], results[k]));
        lemma_local_signature_sequence(states.take(k + 1), reqs.take(k), results.take(k));
        assert forall|i: int| 0 <= i < n implies #[trigger] results[i].envelope.seq
            == states[0].sequence + i + 1 by {
            if i < k {
                assert(results.take(k)[i] == results[i]);
            }
        }
    }
}

/// Where the evaluation answers without an envelope, the envelope that the
/// client issues in its place verifies against the payload and names the
/// agent as given.
pub proof fn lemma_evaluated_local_envelope_verifies(
    before: ClientView,
    after: ClientView,
    pending: PendingSign,
    reply: EvaluateReply,
    now: i64,
    r: SignResult,
)
    requires
        settled(before, after, pending, reply, now, r),
        reply.envelope is None,
    ensures
        verify_outcome(Ok(pending.payload_json@), r.envelope@).valid,
        verify_outcome(Ok(pending.payload_json@), r.envelope@).subject == Some(
            pending.agent_id@,
        ),
        is_unsigned(r.envelope@),
{
    lemma_local_envelope_verifies(pending.payload_json@, pending.agent_id@, after.sequence, now);
}

/// Verification accepts exactly the envelopes of the current format whose
/// payload hash is that of the payload, whatever their version, key version,
/// signature, subject, sequence number or issue time; an accepted result
/// reports the envelope's subject, issue time and sequence number.
pub proof fn lemma_verify_accepts_exactly_matching_hash(payload_json: Seq<char>, envelope: EnvelopeView)
    ensures
        verify_outcome(Ok(payload_json), envelope).valid <==> (envelope.spec == SPEC@
            && payload_hash_of(payload_json) == envelope.payload_hash),
        verify_outcome(Ok(payload_json), envelope).valid ==> verify_outcome(
            Ok(payload_json),
            envelope,
        ) == (VerifyView {
            valid: true,
            subject: Some(envelope.subject),
            issued_at: Some(envelope.issued_at),
            sequence: Some(envelope.seq),
            error: None,
        }),
{
}

/// The payload hash is the unpadded URL-safe base64 of the SHA-256 digest of
/// all of the payload text's UTF-8 bytes: texts with the same bytes hash
/// alike, and texts whose bytes differ anywhere are hashed from different
/// digest inputs.
pub proof fn lemma_payload_hash_covers_all_bytes(t1: Seq<char>, t2: Seq<char>)
    ensures
        payload_hash_of(t1) == base64_url_nopad(sha256_of(encode_utf8(t1))),
        encode_utf8(t1) == encode_utf8(t2) ==> payload_hash_of(t1) == payload_hash_of(t2),
        payload_hash_of(t1) != payload_hash_of(t2) ==> sha256_of(encode_utf8(t1)) != sha256_of(
            encode_utf8(t2),
        ),
{
}

/// Where the evaluation answers with an envelope, signing returns that
/// envelope member for member and leaves the client's state unchanged.
pub proof fn lemma_evaluated_envelope_taken_over(
    before: ClientView,
    after: ClientView,
    pending: PendingSign,
    reply: EvaluateReply,
    now: i64,
    r: SignResult,
    e: EnvelopeView,
)
    requires
        settled(before, after, pending, reply, now, r),
        reply.envelope matches Some(env) && env@ == e,
    ensures
        r.envelope@ == e,
        r.envelope.key_version == e.key_version,
        r.envelope.signature@ == e.signature,
        after == before,
{
}

/// A list of quoted strings separates consecutive items by exactly one
/// comma: it is empty for no items, the one quoted item for one, and
/// appending an item to a non-empty list appends a comma and the quoted item.
pub proof fn lemma_quoted_list_joins_with_commas(items: Seq<Seq<char>>, x: Seq<char>)
    ensures
        quoted_list(Seq::empty()) == Seq::<char>::empty(),
        quoted_list(seq![x]) == json_string(x),
        items.len() > 0 ==> quoted_list(items.push(x)) == quoted_list(items) + ","@ + json_string(
            x,
        ),
{
    assert(items.push(x).drop_last() =~= items);
    assert(seq![x].len() == 1);
}

/// The uninstall report carries the whole checklist in both modes: both end
/// with the checklist and the closing line, and the dry-run report is the
/// normal one with the dry-run line after the title.
pub proof fn lemma_uninstall_report_has_checklist(dry_run: bool)
    ensures
        uninstall_text(dry_run).len() >= UNINSTALL_CHECKLIST@.len() + UNINSTALL_FOOTER@.len(),
        uninstall_text(dry_run).subrange(
            uninstall_text(dry_run).len() - UNINSTALL_CHECKLIST@.len() - UNINSTALL_FOOTER@.len(),
            uninstall_text(dry_run).len() as int,
        ) == UNINSTALL_CHECKLIST@ + UNINSTALL_FOOTER@,
        uninstall_text(false) == UNINSTALL_HEADER@ + UNINSTALL_CHECKLIST@ + UNINSTALL_FOOTER@,
        uninstall_text(true) == UNINSTALL_HEADER@ + DRY_RUN_LINE@ + uninstall_text(false).subrange(
            UNINSTALL_HEADER@.len() as int,
            uninstall_text(false).len() as int,
        ),
{
    let h = UNINSTALL_HEADER@;
    let c = UNINSTALL_CHECKLIST@;
    let f = UNINSTALL_FOOTER@;
    let d = DRY_RUN_LINE@;
    assert(uninstall_text(false) =~= h + c + f);
    assert(uninstall_text(true) =~= h + d + c + f);
    let t = uninstall_text(dry_run);
    assert(t.subrange(t.len() - c.len() - f.len(), t.len() as int) =~= c + f);
    assert(uninstall_text(false).subrange(h.len() as int, uninstall_text(false).len() as int)
        =~= c + f);
    assert(uninstall_text(true) =~= h + d + (c + f));
}

} // verus!
