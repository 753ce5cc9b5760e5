//! The JSON bodies of API requests.

use crate::agents::RegisterAgentRequest;
use crate::json::{
    json_array_of, json_opt_quoted, json_opt_string, json_quoted, json_string, json_string_array,
    or_null, strings_view,
};
use crate::protocol::opt_view;
use vstd::prelude::*;
use vstd::string::StringExecFns;

verus! {

/// The body of an evaluation request: subject, payload and, where given,
/// action and context.
pub open spec fn evaluate_body(
    subject: Seq<char>,
    payload_json: Seq<char>,
    action: Option<Seq<char>>,
    context_json: Option<Seq<char>>,
) -> Seq<char> {
    "{\"subject\":"@ + json_string(subject) + ",\"payload\":"@ + payload_json + match action {
        Some(a) => ",\"action\":"@ + json_string(a),
        None => Seq::empty(),
    } + match context_json {
        Some(c) => ",\"context\":"@ + c,
        None => Seq::empty(),
    } + "}"@
}

/// The body of a key rotation or a suspension: an object with the reason
/// where one is given, else the empty object.
pub open spec fn reason_body(reason: Option<Seq<char>>) -> Seq<char> {
    match reason {
        Some(r) => "{\"reason\":"@ + json_string(r) + "}"@,
        None => "{}"@,
    }
}

/// The tags of a registration as JSON: an array of strings, or `null`.
pub open spec fn tags_json(tags: Option<Vec<String>>) -> Seq<char> {
    match tags {
        Some(t) => json_string_array(strings_view(t@)),
        None => "null"@,
    }
}

/// The body of a registration: every member in declaration order, absent
/// ones as `null`.
pub open spec fn register_body(req: RegisterAgentRequest) -> Seq<char> {
    "{\"agent_id\":"@ + json_string(req.agent_id@) + ",\"display_name\":"@ + json_opt_string(
        opt_view(req.display_name),
    ) + ",\"tags\":"@ + tags_json(req.tags) + ",\"metadata\":"@ + or_null(
        opt_view(req.metadata_json),
    ) + ",\"policy_id\":"@ + json_opt_string(opt_view(req.policy_id)) + "}"@
}

/// Writes the body of an evaluation request.
pub fn evaluate_body_json(
    subject: &str,
    payload_json: &str,
    action: &Option<String>,
    context_json: &Option<String>,
) -> (r: String)
    ensures
        r@ == evaluate_body(subject@, payload_json@, opt_view(*action), opt_view(*context_json)),
{
    let mut out = "{\"subject\":".to_string();
    let q = json_quoted(subject);
    out.append(q.as_str());
    out.append(",\"payload\":");
    out.append(payload_json);
    let ghost head = out@;
    match action {
        Some(a) => {
            out.append(",\"action\":");
            let qa = json_quoted(a.as_str());
            out.append(qa.as_str());
        },
        None => {
            assert(out@ =~= head + Seq::<char>::empty());
        },
    }
    let ghost mid = out@;
    match context_json {
        Some(c) => {
            out.append(",\"context\":");
            out.append(c.as_str());
        },
        None => {
            assert(out@ =~= mid + Seq::<char>::empty());
        },
    }
    out.append("}");
    out
}

/// Writes the body of a key rotation or a suspension.
pub fn reason_body_json(reason: Option<&str>) -> (r: String)
    ensures
        r@ == reason_body(
            match reason {
                Some(s) => Some(s@),
                None => None,
            },
        ),
{
    match reason {
        Some(s) => {
            let mut out = "{\"reason\":".to_string();
            let q = json_quoted(s);
            out.append(q.as_str());
            out.append("}");
            out
        },
        None => "{}".to_string(),
    }
}

/// Writes the body of a registration.
pub fn register_body_json(req: &RegisterAgentRequest) -> (r: String)
    ensures
        r@ == register_body(*req),
{
    let mut out = "{\"agent_id\":".to_string();
    let q = json_quoted(req.agent_id.as_str());
    out.append(q.as_str());
    out.append(",\"display_name\":");
    let d = json_opt_quoted(&req.display_name);
    out.append(d.as_str());
    out.append(",\"tags\":");
    match &req.tags {
        Some(t) => {
            let a = json_array_of(t);
            out.append(a.as_str());
        },
        None => {
            out.append("null");
        },
    }
    out.append(",\"metadata\":");
    match &req.metadata_json {
        Some(m) => {
            out.append(m.as_str());
        },
        None => {
            out.append("null");
        },
    }
    out.append(",\"policy_id\":");
    let p = json_opt_quoted(&req.policy_id);
    out.append(p.as_str());
    out.append("}");
    out
}

} // verus!
