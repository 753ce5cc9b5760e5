//! Client-side logic of the MOSS message-origin signing protocol: envelope
//! construction, offline verification, the enterprise evaluation exchange and
//! the agent lifecycle requests, each with its contract.

mod agents;
mod bodies;
mod client;
mod clock;
mod digest;
mod error;
mod http;
mod json;
mod laws;
mod protocol;
mod uninstall;

pub use agents::{RegisterAgentRequest, RegisterAgentResult, RotateKeyResult};
pub use bodies::{
    evaluate_body, evaluate_body_json, reason_body, reason_body_json, register_body, register_body_json,
    tags_json,
};
pub use client::{
    advanced, agent_path, approved_locally, decision_of, evaluate_call, flags_match_decision, keyed_call, local_subject,
    settled, signed_locally, str_opt_view, ClientView, EvaluateReply, MossClient, MossConfig, PendingSign,
    SignRequest, SignStep,
};
pub use digest::{
    base64_nopad_len, is_base64_url_char, is_base64_url_text, base64_url_nopad, compute_hash, payload_hash_of,
    sha256_of,
};
pub use error::MossError;
pub use http::{
    api_call, api_error, api_error_message, is_success_status, kind_of_status, make_call, response_kind,
    HttpCall, HttpCallView, HttpMethod, ResponseKind,
};
pub use json::{
    json_array_of, json_opt_quoted, json_opt_string, json_quoted, json_string, json_string_array, or_null,
    quoted_list, strings_view,
};
pub use laws::{
    lemma_evaluated_envelope_taken_over, lemma_payload_hash_covers_all_bytes,
    lemma_quoted_list_joins_with_commas, lemma_uninstall_report_has_checklist,
    lemma_verify_accepts_exactly_matching_hash,
    lemma_evaluated_local_envelope_verifies, lemma_flags_exclusive, lemma_local_envelope_verifies,
    lemma_local_signature_allowed, lemma_local_signature_format,
    lemma_local_signature_sequence, lemma_other_payload_verifies_iff_same_hash, lemma_sequence_increases,
    lemma_sign_then_verify, lemma_verify_outcome_shape, lemma_verify_sound,
};
pub use protocol::{
    encoding_view, is_unsigned, local_envelope, opt_view, rejected, verify_envelope, verify_outcome, Envelope,
    EnvelopeView, SignResult, VerifyResult, VerifyView, ALGORITHM, DEFAULT_BASE_URL, SPEC, VERSION,
};
pub use uninstall::{
    asks_dry_run, dry_run_requested, uninstall_report, uninstall_text, DRY_RUN_FLAG, DRY_RUN_LINE,
    UNINSTALL_CHECKLIST, UNINSTALL_FOOTER, UNINSTALL_HEADER,
};
