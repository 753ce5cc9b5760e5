use moss_sdk::{
    api_error, compute_hash, dry_run_requested, json_array_of, json_quoted, response_kind,
    uninstall_report, Envelope, EvaluateReply, HttpMethod, MossClient, MossConfig, MossError,
    PendingSign, RegisterAgentRequest, ResponseKind, SignRequest, SignStep, ALGORITHM,
    DEFAULT_BASE_URL, SPEC, VERSION,
};

fn req(payload_json: &str, agent_id: &str) -> SignRequest {
    SignRequest {
        payload_json: payload_json.to_string(),
        agent_id: agent_id.to_string(),
        action: None,
        context_json: None,
    }
}

fn enterprise_client() -> MossClient {
    MossClient::with_config(MossConfig {
        api_key: Some("k1".to_string()),
        base_url: "https://moss.test".to_string(),
    })
    .unwrap()
}

fn empty_reply() -> EvaluateReply {
    EvaluateReply {
        envelope: None,
        decision: None,
        reason: None,
        action_id: None,
        evidence_id: None,
        signature_valid: None,
    }
}

#[test]
fn hash_of_known_texts() {
    assert_eq!(compute_hash(""), "47DEQpj8HBSa-_TImW-5JCeuQeRkm5NMpJWZG3hSuFU");
    assert_eq!(compute_hash("abc"), "ungWv48Bz-pBQUDeXa4iI7ADYaOWF3qctBD_YfIAFa0");
    assert_eq!(compute_hash("\"test1\"").len(), 43);
    for text in ["", "abc", "{\"a\":1}", "\u{e9}\u{1f600}"] {
        let h = compute_hash(text);
        assert_eq!(h.len(), 43);
        assert!(h.chars().all(|c| c.is_ascii_alphanumeric() || c == '-' || c == '_'));
    }
}

#[test]
fn json_quoting_escapes() {
    assert_eq!(json_quoted("a\"b\n"), "\"a\\\"b\\n\"");
    assert_eq!(json_quoted(""), "\"\"");
    let items = vec!["x".to_string(), "y\"".to_string()];
    assert_eq!(json_array_of(&items), "[\"x\",\"y\\\"\"]");
    assert_eq!(json_array_of(&Vec::new()), "[]");
}

#[test]
fn local_signature_fields() {
    let mut client = MossClient::new(None, None).unwrap();
    let r = client.sign_local_at(req("{\"a\":1}", "bot"), 1700000000);
    assert_eq!(r.envelope.spec, SPEC);
    assert_eq!(r.envelope.version, VERSION);
    assert_eq!(r.envelope.alg, ALGORITHM);
    assert_eq!(r.envelope.subject, "bot");
    assert_eq!(r.envelope.key_version, 1);
    assert_eq!(r.envelope.seq, 1);
    assert_eq!(r.envelope.issued_at, 1700000000);
    assert_eq!(r.envelope.payload_hash, compute_hash("{\"a\":1}"));
    assert_eq!(r.envelope.signature, "");
    assert!(r.allowed && !r.blocked && !r.held);
    assert!(r.signature_valid);
    assert_eq!(r.decision, "allow");
    assert_eq!(client.last_sequence(), 1);
}

#[test]
fn empty_agent_signs_as_local_default() {
    let mut client = MossClient::new(None, None).unwrap();
    let r = client.sign_local_at(req("null", ""), 5);
    assert_eq!(r.envelope.subject, "moss:local:default");
}

#[test]
fn sequence_counts_every_local_envelope() {
    let mut client = MossClient::new(None, None).unwrap();
    let a = client.sign_local_at(req("1", "a"), 0);
    let b = client.sign_local_at(req("2", "a"), 0);
    let c = client.sign_local_at(req("3", "a"), 0);
    assert_eq!((a.envelope.seq, b.envelope.seq, c.envelope.seq), (1, 2, 3));
}

#[test]
fn signed_payload_verifies_with_its_details() {
    let mut client = MossClient::new(None, None).unwrap();
    let r = client.sign_local_at(req("[1,2]", "agent-9"), 42);
    let v = client.verify(&Ok("[1,2]".to_string()), &r.envelope);
    assert!(v.valid);
    assert_eq!(v.subject, Some("agent-9".to_string()));
    assert_eq!(v.issued_at, Some(42));
    assert_eq!(v.sequence, Some(1));
    assert_eq!(v.error, None);
}

#[test]
fn verify_reports_hash_mismatch() {
    let mut client = MossClient::new(None, None).unwrap();
    let r = client.sign_local_at(req("[1,2]", "agent-9"), 42);
    let v = client.verify(&Ok("[1,3]".to_string()), &r.envelope);
    assert!(!v.valid);
    assert_eq!(v.error, Some("Payload hash mismatch".to_string()));
    assert_eq!((v.subject, v.issued_at, v.sequence), (None, None, None));
}

#[test]
fn verify_rejects_unknown_spec_first() {
    let mut client = MossClient::new(None, None).unwrap();
    let mut r = client.sign_local_at(req("1", "a"), 0);
    r.envelope.spec = "moss-0002".to_string();
    let v = client.verify(&Err("boom".to_string()), &r.envelope);
    assert!(!v.valid);
    assert_eq!(v.error, Some("Unknown spec: moss-0002".to_string()));
}

#[test]
fn verify_reports_encoding_failure() {
    let mut client = MossClient::new(None, None).unwrap();
    let r = client.sign_local_at(req("1", "a"), 0);
    let v = client.verify(&Err("boom".to_string()), &r.envelope);
    assert!(!v.valid);
    assert_eq!(v.error, Some("Failed to encode payload: boom".to_string()));
}

#[test]
fn config_defaults() {
    let c = MossConfig::with_env_key(Some("env-key".to_string()));
    assert_eq!(c.api_key, Some("env-key".to_string()));
    assert_eq!(c.base_url, DEFAULT_BASE_URL);
    let client = MossClient::new(None, Some("env-key".to_string())).unwrap();
    assert!(client.is_enterprise_enabled());
    let client = MossClient::with_config(MossConfig::with_env_key(None)).unwrap();
    assert!(!client.is_enterprise_enabled());
}

#[test]
fn enterprise_sign_asks_for_evaluation() {
    let mut client = enterprise_client();
    let request = SignRequest {
        payload_json: "{\"a\":1}".to_string(),
        agent_id: "agent-1".to_string(),
        action: Some("transfer".to_string()),
        context_json: Some("{\"user_id\":\"u123\"}".to_string()),
    };
    match client.sign(request).unwrap() {
        SignStep::Evaluate(call, pending) => {
            assert_eq!(call.method, HttpMethod::Post);
            assert_eq!(call.url, "https://moss.test/v1/evaluate");
            assert_eq!(call.authorization, "Bearer k1");
            assert_eq!(
                call.body,
                Some(
                    "{\"subject\":\"agent-1\",\"payload\":{\"a\":1},\"action\":\"transfer\",\"context\":{\"user_id\":\"u123\"}}"
                        .to_string()
                )
            );
            assert_eq!(pending.agent_id, "agent-1");
            assert_eq!(pending.payload_json, "{\"a\":1}");
        }
        SignStep::Signed(_) => panic!("a client with an API key asks for evaluation"),
    }
    assert_eq!(client.last_sequence(), 0);

    match client.sign(req("2", "b")).unwrap() {
        SignStep::Evaluate(call, _) => {
            assert_eq!(call.body, Some("{\"subject\":\"b\",\"payload\":2}".to_string()));
        }
        SignStep::Signed(_) => panic!("a client with an API key asks for evaluation"),
    }
}

#[test]
fn evaluation_without_answers_issues_local_envelope() {
    let mut client = enterprise_client();
    let pending = PendingSign { agent_id: "".to_string(), payload_json: "7".to_string() };
    let r = client.finish_sign_at(pending, empty_reply(), 99);
    assert_eq!(r.decision, "allow");
    assert!(r.allowed && !r.blocked && !r.held);
    assert!(r.signature_valid);
    assert_eq!(r.envelope.signature, "");
    assert_eq!(r.envelope.subject, "");
    assert_eq!(r.envelope.seq, 1);
    assert_eq!(r.envelope.issued_at, 99);
    assert_eq!(r.envelope.payload_hash, compute_hash("7"));
    assert_eq!(client.last_sequence(), 1);
    let v = client.verify(&Ok("7".to_string()), &r.envelope);
    assert!(v.valid);
}

#[test]
fn evaluation_answers_are_taken_over() {
    let mut client = enterprise_client();
    let envelope = Envelope {
        spec: SPEC.to_string(),
        version: 1,
        alg: ALGORITHM.to_string(),
        subject: "srv".to_string(),
        key_version: 3,
        seq: 77,
        issued_at: 1234,
        payload_hash: "h".to_string(),
        signature: "sig".to_string(),
    };
    let reply = EvaluateReply {
        envelope: Some(envelope),
        decision: Some("block".to_string()),
        reason: Some("limit".to_string()),
        action_id: Some("act-1".to_string()),
        evidence_id: Some("ev-1".to_string()),
        signature_valid: Some(false),
    };
    let pending = PendingSign { agent_id: "a".to_string(), payload_json: "1".to_string() };
    let r = client.finish_sign(pending, reply).unwrap();
    assert_eq!(r.envelope.seq, 77);
    assert_eq!(r.envelope.signature, "sig");
    assert_eq!(r.decision, "block");
    assert!(!r.allowed && r.blocked && !r.held);
    assert_eq!(r.reason, Some("limit".to_string()));
    assert_eq!(r.action_id, Some("act-1".to_string()));
    assert_eq!(r.evidence_id, Some("ev-1".to_string()));
    assert!(!r.signature_valid);
    assert_eq!(client.last_sequence(), 0);
}

#[test]
fn evaluation_decision_hold_and_other() {
    let mut client = enterprise_client();
    let mut reply = empty_reply();
    reply.decision = Some("hold".to_string());
    let p = PendingSign { agent_id: "a".to_string(), payload_json: "1".to_string() };
    let r = client.finish_sign_at(p, reply, 0);
    assert!(!r.allowed && !r.blocked && r.held);
    let mut reply = empty_reply();
    reply.decision = Some("review".to_string());
    let p = PendingSign { agent_id: "a".to_string(), payload_json: "1".to_string() };
    let r = client.finish_sign_at(p, reply, 0);
    assert!(!r.allowed && !r.blocked && !r.held);
    assert_eq!(r.decision, "review");
    assert_eq!(client.last_sequence(), 2);
}

#[test]
fn finish_sign_reads_clock_for_local_envelope() {
    let mut client = enterprise_client();
    let p = PendingSign { agent_id: "a".to_string(), payload_json: "1".to_string() };
    let r = client.finish_sign(p, empty_reply()).unwrap();
    assert_eq!(r.envelope.seq, 1);
    assert!(r.envelope.issued_at > 1_600_000_000);
}

#[test]
fn local_sign_reads_clock() {
    let mut client = MossClient::new(None, None).unwrap();
    match client.sign(req("1", "a")).unwrap() {
        SignStep::Signed(r) => assert!(r.envelope.issued_at > 1_600_000_000),
        SignStep::Evaluate(_, _) => panic!("a client without an API key signs locally"),
    }
}

#[test]
fn response_statuses() {
    assert_eq!(response_kind(200, false), ResponseKind::Success);
    assert_eq!(response_kind(299, true), ResponseKind::Success);
    assert_eq!(response_kind(199, false), ResponseKind::Failure);
    assert_eq!(response_kind(300, false), ResponseKind::Failure);
    assert_eq!(response_kind(404, true), ResponseKind::Absent);
    assert_eq!(response_kind(404, false), ResponseKind::Failure);
    assert_eq!(response_kind(500, true), ResponseKind::Failure);
}

#[test]
fn api_error_message() {
    match api_error("404 Not Found", "missing") {
        MossError::ApiError(m) => assert_eq!(m, "status 404 Not Found: missing"),
        other => panic!("unexpected error {:?}", other),
    }
}

#[test]
fn lifecycle_needs_api_key() {
    let client = MossClient::new(None, None).unwrap();
    let reg = RegisterAgentRequest {
        agent_id: "a".to_string(),
        display_name: None,
        tags: None,
        metadata_json: None,
        policy_id: None,
    };
    assert!(matches!(client.register_agent_call(&reg), Err(MossError::NoApiKey)));
    assert!(matches!(client.get_agent_call("a"), Err(MossError::NoApiKey)));
    assert!(matches!(client.rotate_agent_key_call("a", None), Err(MossError::NoApiKey)));
    assert!(matches!(client.suspend_agent_call("a", Some("x")), Err(MossError::NoApiKey)));
    assert!(matches!(client.reactivate_agent_call("a"), Err(MossError::NoApiKey)));
    assert!(matches!(client.revoke_agent_call("a", "x"), Err(MossError::NoApiKey)));
}

#[test]
fn lifecycle_requests() {
    let client = enterprise_client();
    let reg = RegisterAgentRequest {
        agent_id: "my-new-agent".to_string(),
        display_name: Some("My New Agent".to_string()),
        tags: Some(vec!["production".to_string(), "finance".to_string()]),
        metadata_json: None,
        policy_id: None,
    };
    let call = client.register_agent_call(&reg).unwrap();
    assert_eq!(call.method, HttpMethod::Post);
    assert_eq!(call.url, "https://moss.test/v1/agents");
    assert_eq!(call.authorization, "Bearer k1");
    assert_eq!(
        call.body,
        Some(
            "{\"agent_id\":\"my-new-agent\",\"display_name\":\"My New Agent\",\"tags\":[\"production\",\"finance\"],\"metadata\":null,\"policy_id\":null}"
                .to_string()
        )
    );

    let call = client.get_agent_call("my-new-agent").unwrap();
    assert_eq!(call.method, HttpMethod::Get);
    assert_eq!(call.url, "https://moss.test/v1/agents/my-new-agent");
    assert_eq!(call.body, None);

    let call = client.rotate_agent_key_call("my-new-agent", Some("quarterly rotation")).unwrap();
    assert_eq!(call.url, "https://moss.test/v1/agents/my-new-agent/rotate");
    assert_eq!(call.body, Some("{\"reason\":\"quarterly rotation\"}".to_string()));
    let call = client.rotate_agent_key_call("my-new-agent", None).unwrap();
    assert_eq!(call.body, Some("{}".to_string()));

    let call = client.suspend_agent_call("my-new-agent", Some("suspicious activity")).unwrap();
    assert_eq!(call.url, "https://moss.test/v1/agents/my-new-agent/suspend");
    assert_eq!(call.body, Some("{\"reason\":\"suspicious activity\"}".to_string()));

    let call = client.reactivate_agent_call("my-new-agent").unwrap();
    assert_eq!(call.method, HttpMethod::Post);
    assert_eq!(call.url, "https://moss.test/v1/agents/my-new-agent/reactivate");
    assert_eq!(call.body, None);

    let call = client.revoke_agent_call("my-new-agent", "compromised credentials").unwrap();
    assert_eq!(call.url, "https://moss.test/v1/agents/my-new-agent/revoke");
    assert_eq!(call.body, Some("{\"reason\":\"compromised credentials\"}".to_string()));
}

#[test]
fn register_body_with_metadata_and_policy() {
    let client = enterprise_client();
    let reg = RegisterAgentRequest {
        agent_id: "a".to_string(),
        display_name: None,
        tags: Some(Vec::new()),
        metadata_json: Some("{\"team\":\"ops\"}".to_string()),
        policy_id: Some("p-1".to_string()),
    };
    let call = client.register_agent_call(&reg).unwrap();
    assert_eq!(
        call.body,
        Some(
            "{\"agent_id\":\"a\",\"display_name\":null,\"tags\":[],\"metadata\":{\"team\":\"ops\"},\"policy_id\":\"p-1\"}"
                .to_string()
        )
    );
}

#[test]
fn uninstall_helper() {
    let args = vec!["uninstall".to_string(), "--dry-run".to_string()];
    assert!(dry_run_requested(&args));
    let args = vec!["--dry-run".to_string()];
    assert!(!dry_run_requested(&args));
    assert!(!dry_run_requested(&Vec::new()));
    let report = uninstall_report(true);
    assert!(report.starts_with("MOSS Uninstall Helper for moss-rust\n"));
    assert!(report.contains("[DRY-RUN MODE]\n\nMANUAL CLEANUP CHECKLIST\n"));
    assert!(report.ends_with("\nChecklist printed. Complete the steps above manually.\n"));
    assert!(!uninstall_report(false).contains("DRY-RUN"));
}

#[test]
fn sign_local_numbers_consecutively() {
    let mut client = MossClient::new(None, None).unwrap();
    for n in 1..=4 {
        let r = client.sign_local(req("{}", "agent")).unwrap();
        assert_eq!(r.envelope.seq, n);
        assert!(r.envelope.issued_at > 1_600_000_000);
        assert!(r.signature_valid);
    }
    assert_eq!(client.last_sequence(), 4);
}
