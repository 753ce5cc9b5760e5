//! The client: its configuration and sequence counter, local signing, the
//! evaluation exchange, offline verification and the agent lifecycle
//! requests.

use crate::agents::RegisterAgentRequest;
use crate::bodies::{
    evaluate_body, evaluate_body_json, reason_body, reason_body_json, register_body,
    register_body_json,
};
use crate::clock::unix_time_secs;
use crate::digest::compute_hash;
use crate::error::MossError;
use crate::http::{api_call, make_call, HttpCall, HttpCallView, HttpMethod};
use crate::protocol::{
    encoding_view, local_envelope, opt_view, verify_envelope, verify_outcome, Envelope,
    SignResult, VerifyResult, ALGORITHM, DEFAULT_BASE_URL, SPEC, VERSION,
};
use vstd::prelude::*;
use vstd::string::StringExecFns;

verus! {

/// Client configuration.
#[derive(Debug, Clone)]
pub struct MossConfig {
    pub api_key: Option<String>,
    pub base_url: String,
}

impl MossConfig {
    /// The default configuration: the API key found in the environment
    /// (`MOSS_API_KEY`), given here as `env_api_key`, and the default base
    /// URL.
    pub fn with_env_key(env_api_key: Option<String>) -> (r: MossConfig)
        ensures
            opt_view(r.api_key) == opt_view(env_api_key),
            r.base_url@ == DEFAULT_BASE_URL@,
    {
        MossConfig { api_key: env_api_key, base_url: DEFAULT_BASE_URL.to_string() }
    }
}

/// Request to sign a payload, given by its JSON text. The context, a JSON
/// object forwarded to the policy evaluation, is held as its JSON text too.
#[derive(Debug, Clone)]
pub struct SignRequest {
    pub payload_json: String,
    pub agent_id: String,
    pub action: Option<String>,
    pub context_json: Option<String>,
}

/// What the policy evaluation answered, as far as signing reads it. Each
/// member is `None` where the answer lacks it or it is not of the expected
/// JSON type.
#[derive(Debug)]
pub struct EvaluateReply {
    pub envelope: Option<Envelope>,
    pub decision: Option<String>,
    pub reason: Option<String>,
    pub action_id: Option<String>,
    pub evidence_id: Option<String>,
    pub signature_valid: Option<bool>,
}

/// A signature that waits for the policy evaluation of its payload.
#[derive(Debug, Clone)]
pub struct PendingSign {
    pub agent_id: String,
    pub payload_json: String,
}

/// The outcome of the first step of signing.
#[derive(Debug)]
pub enum SignStep {
    /// Signed locally; nothing is left to do.
    Signed(SignResult),
    /// The request is to be sent for policy evaluation; `finish_sign` then
    /// reads the answer.
    Evaluate(HttpCall, PendingSign),
}

/// The state of a client: its API key, base URL, and the sequence number of
/// the last envelope it issued itself.
pub struct ClientView {
    pub api_key: Option<Seq<char>>,
    pub base_url: Seq<char>,
    pub sequence: i64,
}

/// MOSS client for signing and verification.
pub struct MossClient {
    config: MossConfig,
    sequence: i64,
}

impl View for MossClient {
    type V = ClientView;

    closed spec fn view(&self) -> ClientView {
        ClientView {
            api_key: opt_view(self.config.api_key),
            base_url: self.config.base_url@,
            sequence: self.sequence,
        }
    }
}

/// The subject of a locally signed envelope: the agent, or the local default
/// when the agent id is empty.
pub open spec fn local_subject(agent_id: Seq<char>) -> Seq<char> {
    if agent_id.len() == 0 {
        "moss:local:default"@
    } else {
        agent_id
    }
}

/// The state after issuing one envelope: the sequence advanced by one, the
/// configuration unchanged.
pub open spec fn advanced(before: ClientView, after: ClientView) -> bool {
    &&& after.api_key == before.api_key
    &&& after.base_url == before.base_url
    &&& after.sequence == before.sequence + 1
}

/// The unconditional approval that a local signature carries: allowed, with
/// no reason, action or evidence, and `signature_valid` set. The envelope
/// itself carries an empty signature (see `local_envelope`).
pub open spec fn approved_locally(r: SignResult) -> bool {
    &&& r.allowed
    &&& !r.blocked
    &&& !r.held
    &&& r.decision@ == "allow"@
    &&& r.reason is None
    &&& r.action_id is None
    &&& r.evidence_id is None
    &&& r.signature_valid
}

/// `r` is the local signature of `req` by a client that went from `before`
/// to `after`, issued at some time.
pub open spec fn signed_locally(
    before: ClientView,
    after: ClientView,
    req: SignRequest,
    r: SignResult,
) -> bool {
    &&& advanced(before, after)
    &&& r.envelope@ == local_envelope(
        req.payload_json@,
        local_subject(req.agent_id@),
        after.sequence,
        r.envelope.issued_at,
    )
    &&& approved_locally(r)
}

/// The evaluation request that signing `req` sends with `api_key`.
pub open spec fn evaluate_call(base_url: Seq<char>, api_key: Seq<char>, req: SignRequest) -> HttpCallView {
    api_call(
        HttpMethod::Post,
        base_url,
        "/v1/evaluate"@,
        api_key,
        Some(
            evaluate_body(
                req.agent_id@,
                req.payload_json@,
                opt_view(req.action),
                opt_view(req.context_json),
            ),
        ),
    )
}

/// The decision an evaluation reports; `allow` where it reports none.
pub open spec fn decision_of(decision: Option<Seq<char>>) -> Seq<char> {
    match decision {
        Some(d) => d,
        None => "allow"@,
    }
}

/// The flags of a sign result agree with its decision.
pub open spec fn flags_match_decision(r: SignResult) -> bool {
    &&& r.allowed == (r.decision@ == "allow"@)
    &&& r.blocked == (r.decision@ == "block"@)
    &&& r.held == (r.decision@ == "hold"@)
}

/// `r` is what signing reads from `reply` for `pending`, by a client that went
/// from `before` to `after`, with `now` as the clock's reading where an
/// envelope had to be issued locally. `signature_valid` is the evaluation's
/// report, or set where it reports none.
pub open spec fn settled(
    before: ClientView,
    after: ClientView,
    pending: PendingSign,
    reply: EvaluateReply,
    now: i64,
    r: SignResult,
) -> bool {
    &&& match reply.envelope {
        Some(e) => after == before && r.envelope@ == e@,
        None => advanced(before, after) && r.envelope@ == local_envelope(
            pending.payload_json@,
            pending.agent_id@,
            after.sequence,
            now,
        ),
    }
    &&& r.decision@ == decision_of(opt_view(reply.decision))
    &&& flags_match_decision(r)
    &&& opt_view(r.reason) == opt_view(reply.reason)
    &&& opt_view(r.action_id) == opt_view(reply.action_id)
    &&& opt_view(r.evidence_id) == opt_view(reply.evidence_id)
    &&& r.signature_valid == match reply.signature_valid {
        Some(b) => b,
        None => true,
    }
}

/// An operation that needs an API key: without one it fails with
/// `NoApiKey`, with one it yields the request that `call` describes.
pub open spec fn keyed_call(
    api_key: Option<Seq<char>>,
    r: Result<HttpCall, MossError>,
    call: spec_fn(Seq<char>) -> HttpCallView,
) -> bool {
    match api_key {
        None => r matches Err(MossError::NoApiKey),
        Some(key) => r matches Ok(c) && c@ == call(key),
    }
}

/// The path of an agent's resource, followed by `suffix`.
pub open spec fn agent_path(agent_id: Seq<char>, suffix: Seq<char>) -> Seq<char> {
    "/v1/agents/"@ + agent_id + suffix
}

/// Views an optional string slice as an optional character sequence.
pub open spec fn str_opt_view(o: Option<&str>) -> Option<Seq<char>> {
    match o {
        Some(s) => Some(s@),
        None => None,
    }
}

fn agent_path_string(agent_id: &str, suffix: &str) -> (r: String)
    ensures
        r@ == agent_path(agent_id@, suffix@),
{
    let mut path = "/v1/agents/".to_string();
    path.append(agent_id);
    path.append(suffix);
    path
}

impl MossClient {
    /// Creates a client. The key is `api_key`, or else the one found in the
    /// environment (`MOSS_API_KEY`), given here as `env_api_key`.
    pub fn new(api_key: Option<String>, env_api_key: Option<String>) -> (r: Result<
        MossClient,
        MossError,
    >)
        ensures
            r matches Ok(c) && c@.api_key == match api_key {
                Some(k) => Some(k@),
                None => opt_view(env_api_key),
            } && c@.base_url == DEFAULT_BASE_URL@ && c@.sequence == 0,
    {
        let key = match api_key {
            Some(k) => Some(k),
            None => env_api_key,
        };
        Ok(MossClient { config: MossConfig { api_key: key, base_url: DEFAULT_BASE_URL.to_string() }, sequence: 0 })
    }

    /// Creates a client with the given configuration.
    pub fn with_config(config: MossConfig) -> (r: Result<MossClient, MossError>)
        ensures
            r matches Ok(c) && c@.api_key == opt_view(config.api_key) && c@.base_url
                == config.base_url@ && c@.sequence == 0,
    {
        Ok(MossClient { config, sequence: 0 })
    }

    /// Whether enterprise mode is enabled: the client has an API key.
    pub fn is_enterprise_enabled(&self) -> (r: bool)
        ensures
            r == self@.api_key is Some,
    {
        self.config.api_key.is_some()
    }

    /// The sequence number of the last envelope this client issued itself;
    /// 0 before the first.
    pub fn last_sequence(&self) -> (r: i64)
        ensures
            r == self@.sequence,
    {
        self.sequence
    }

    /// Issues the local envelope for `req`, stamped `now`, and advances the
    /// sequence.
    pub fn sign_local_at(&mut self, req: SignRequest, now: i64) -> (r: SignResult)
        requires
            old(self)@.sequence < i64::MAX,
        ensures
            signed_locally(old(self)@, final(self)@, req, r),
            r.envelope.issued_at == now,
    {
        let payload_hash = compute_hash(req.payload_json.as_str());
        self.sequence = self.sequence + 1;
        let subject = if req.agent_id.as_str().is_empty() {
            "moss:local:default".to_string()
        } else {
            req.agent_id
        };
        let envelope = Envelope {
            spec: SPEC.to_string(),
            version: VERSION,
            alg: ALGORITHM.to_string(),
            subject,
            key_version: 1,
            seq: self.sequence,
            issued_at: now,
            payload_hash,
            signature: String::new(),
        };
        SignResult {
            envelope,
            allowed: true,
            blocked: false,
            held: false,
            decision: "allow".to_string(),
            reason: None,
            action_id: None,
            evidence_id: None,
            signature_valid: true,
        }
    }

    /// Signs `req` locally, stamped with the clock's reading. Fails with
    /// `InvalidEnvelope`, and changes nothing, where the clock reads before
    /// the UNIX epoch.
    pub fn sign_local(&mut self, req: SignRequest) -> (r: Result<SignResult, MossError>)
        requires
            old(self)@.sequence < i64::MAX,
        ensures
            match r {
                Ok(res) => signed_locally(old(self)@, final(self)@, req, res),
                Err(e) => e is InvalidEnvelope && final(self)@ == old(self)@,
            },
    {
        match unix_time_secs() {
            Some(secs) => Ok(self.sign_local_at(req, secs as i64)),
            None => Err(MossError::InvalidEnvelope),
        }
    }

    /// Signs a payload. Without an API key the client issues the envelope
    /// itself; with one, the payload goes to policy evaluation first, and
    /// the call to send is returned.
    pub fn sign(&mut self, req: SignRequest) -> (r: Result<SignStep, MossError>)
        requires
            old(self)@.api_key is None ==> old(self)@.sequence < i64::MAX,
        ensures
            r matches Err(e) ==> e is InvalidEnvelope,
            old(self)@.api_key is None ==> match r {
                Ok(SignStep::Signed(res)) => signed_locally(old(self)@, final(self)@, req, res),
                Ok(SignStep::Evaluate(_, _)) => false,
                Err(e) => e is InvalidEnvelope && final(self)@ == old(self)@,
            },
            old(self)@.api_key matches Some(key) ==> {
                &&& final(self)@ == old(self)@
                &&& r matches Ok(SignStep::Evaluate(call, pending))
                &&& call@ == evaluate_call(old(self)@.base_url, key, req)
                &&& pending.agent_id@ == req.agent_id@
                &&& pending.payload_json@ == req.payload_json@
            },
    {
        match &self.config.api_key {
            None => match self.sign_local(req) {
                Ok(res) => Ok(SignStep::Signed(res)),
                Err(e) => Err(e),
            },
            Some(key) => {
                let body = evaluate_body_json(
                    req.agent_id.as_str(),
                    req.payload_json.as_str(),
                    &req.action,
                    &req.context_json,
                );
                let call = make_call(
                    HttpMethod::Post,
                    self.config.base_url.as_str(),
                    "/v1/evaluate",
                    key.as_str(),
                    Some(body),
                );
                Ok(SignStep::Evaluate(call, PendingSign { agent_id: req.agent_id, payload_json: req.payload_json }))
            },
        }
    }

    /// Reads the policy evaluation's answer for a pending signature, with
    /// `now` as the clock's reading for an envelope issued locally.
    pub fn finish_sign_at(&mut self, pending: PendingSign, reply: EvaluateReply, now: i64) -> (r:
        SignResult)
        requires
            reply.envelope is None ==> old(self)@.sequence < i64::MAX,
        ensures
            settled(old(self)@, final(self)@, pending, reply, now, r),
            reply.envelope matches Some(e) ==> r.envelope@ == e@ && final(self)@ == old(self)@,
    {
        let envelope = match reply.envelope {
            Some(e) => e,
            None => {
                let payload_hash = compute_hash(pending.payload_json.as_str());
                self.sequence = self.sequence + 1;
                Envelope {
                    spec: SPEC.to_string(),
                    version: VERSION,
                    alg: ALGORITHM.to_string(),
                    subject: pending.agent_id,
                    key_version: 1,
                    seq: self.sequence,
                    issued_at: now,
                    payload_hash,
                    signature: String::new(),
                }
            },
        };
        let decision = match reply.decision {
            Some(d) => d,
            None => "allow".to_string(),
        };
        let allowed = decision == "allow".to_string();
        let blocked = decision == "block".to_string();
        let held = decision == "hold".to_string();
        let signature_valid = match reply.signature_valid {
            Some(b) => b,
            None => true,
        };
        SignResult {
            envelope,
            allowed,
            blocked,
            held,
            decision,
            reason: reply.reason,
            action_id: reply.action_id,
            evidence_id: reply.evidence_id,
            signature_valid,
        }
    }

    /// Reads the policy evaluation's answer for a pending signature. Fails
    /// with `InvalidEnvelope`, and changes nothing, where the answer carries
    /// no envelope and the clock reads before the UNIX epoch.
    pub fn finish_sign(&mut self, pending: PendingSign, reply: EvaluateReply) -> (r: Result<
        SignResult,
        MossError,
    >)
        requires
            reply.envelope is None ==> old(self)@.sequence < i64::MAX,
        ensures
            reply.envelope matches Some(e) ==> r matches Ok(res) && res.envelope@ == e@,
            match r {
                Ok(res) => settled(
                    old(self)@,
                    final(self)@,
                    pending,
                    reply,
                    res.envelope.issued_at,
                    res,
                ),
                Err(e) => e is InvalidEnvelope && reply.envelope is None && final(self)@ == old(
                    self,
                )@,
            },
    {
        let now = match &reply.envelope {
            Some(e) => e.issued_at,
            None => match unix_time_secs() {
                Some(secs) => secs as i64,
                None => {
                    return Err(MossError::InvalidEnvelope);
                },
            },
        };
        Ok(self.finish_sign_at(pending, reply, now))
    }

    /// The API key, or `NoApiKey` where the client has none.
    fn require_key(&self) -> (r: Result<&String, MossError>)
        ensures
            match self@.api_key {
                None => r matches Err(MossError::NoApiKey),
                Some(k) => r matches Ok(key) && key@ == k,
            },
    {
        match &self.config.api_key {
            Some(k) => Ok(k),
            None => Err(MossError::NoApiKey),
        }
    }

    /// The request that registers an agent; `NoApiKey` without an API key.
    pub fn register_agent_call(&self, req: &RegisterAgentRequest) -> (r: Result<HttpCall, MossError>)
        ensures
            keyed_call(
                self@.api_key,
                r,
                |key: Seq<char>|
                    api_call(
                        HttpMethod::Post,
                        self@.base_url,
                        "/v1/agents"@,
                        key,
                        Some(register_body(*req)),
                    ),
            ),
    {
        let key = self.require_key()?;
        let body = register_body_json(req);
        Ok(make_call(HttpMethod::Post, self.config.base_url.as_str(), "/v1/agents", key.as_str(), Some(body)))
    }

    /// The request that reads an agent's record; `NoApiKey` without an API
    /// key. A `404` answer to it means that there is no such agent.
    pub fn get_agent_call(&self, agent_id: &str) -> (r: Result<HttpCall, MossError>)
        ensures
            keyed_call(
                self@.api_key,
                r,
                |key: Seq<char>|
                    api_call(HttpMethod::Get, self@.base_url, "/v1/agents/"@ + agent_id@, key, None),
            ),
    {
        let key = self.require_key()?;
        let mut path = "/v1/agents/".to_string();
        path.append(agent_id);
        Ok(make_call(HttpMethod::Get, self.config.base_url.as_str(), path.as_str(), key.as_str(), None))
    }

    /// The request that rotates an agent's signing key; `NoApiKey` without an
    /// API key.
    pub fn rotate_agent_key_call(&self, agent_id: &str, reason: Option<&str>) -> (r: Result<
        HttpCall,
        MossError,
    >)
        ensures
            keyed_call(
                self@.api_key,
                r,
                |key: Seq<char>|
                    api_call(
                        HttpMethod::Post,
                        self@.base_url,
                        agent_path(agent_id@, "/rotate"@),
                        key,
                        Some(reason_body(str_opt_view(reason))),
                    ),
            ),
    {
        let key = self.require_key()?;
        let path = agent_path_string(agent_id, "/rotate");
        let body = reason_body_json(reason);
        Ok(make_call(HttpMethod::Post, self.config.base_url.as_str(), path.as_str(), key.as_str(), Some(body)))
    }

    /// The request that suspends an agent; `NoApiKey` without an API key.
    pub fn suspend_agent_call(&self, agent_id: &str, reason: Option<&str>) -> (r: Result<
        HttpCall,
        MossError,
    >)
        ensures
            keyed_call(
                self@.api_key,
                r,
                |key: Seq<char>|
                    api_call(
                        HttpMethod::Post,
                        self@.base_url,
                        agent_path(agent_id@, "/suspend"@),
                        key,
                        Some(reason_body(str_opt_view(reason))),
                    ),
            ),
    {
        let key = self.require_key()?;
        let path = agent_path_string(agent_id, "/suspend");
        let body = reason_body_json(reason);
        Ok(make_call(HttpMethod::Post, self.config.base_url.as_str(), path.as_str(), key.as_str(), Some(body)))
    }

    /// The request that reactivates a suspended agent; it has no body.
    /// `NoApiKey` without an API key.
    pub fn reactivate_agent_call(&self, agent_id: &str) -> (r: Result<HttpCall, MossError>)
        ensures
            keyed_call(
                self@.api_key,
                r,
                |key: Seq<char>|
                    api_call(
                        HttpMethod::Post,
                        self@.base_url,
                        agent_path(agent_id@, "/reactivate"@),
                        key,
                        None,
                    ),
            ),
    {
        let key = self.require_key()?;
        let path = agent_path_string(agent_id, "/reactivate");
        Ok(make_call(HttpMethod::Post, self.config.base_url.as_str(), path.as_str(), key.as_str(), None))
    }

    /// The request that permanently revokes an agent; `NoApiKey` without an
    /// API key.
    pub fn revoke_agent_call(&self, agent_id: &str, reason: &str) -> (r: Result<HttpCall, MossError>)
        ensures
            keyed_call(
                self@.api_key,
                r,
                |key: Seq<char>|
                    api_call(
                        HttpMethod::Post,
                        self@.base_url,
                        agent_path(agent_id@, "/revoke"@),
                        key,
                        Some(reason_body(Some(reason@))),
                    ),
            ),
    {
        let key = self.require_key()?;
        let path = agent_path_string(agent_id, "/revoke");
        let body = reason_body_json(Some(reason));
        Ok(make_call(HttpMethod::Post, self.config.base_url.as_str(), path.as_str(), key.as_str(), Some(body)))
    }

    /// Verifies an envelope against a payload, given by its JSON text or by
    /// the reason its encoding failed.
    pub fn verify(&self, payload_json: &Result<String, String>, envelope: &Envelope) -> (r:
        VerifyResult)
        ensures
            r@ == verify_outcome(encoding_view(*payload_json), envelope@),
    {
        verify_envelope(payload_json, envelope)
    }
}

} // verus!
