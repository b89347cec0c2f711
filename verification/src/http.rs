//! Read-only projections of the application state into response bodies.
//! The HTTP framework around them only routes and sends; every body is
//! computed here.

use vstd::prelude::*;

use crate::fingerprint::spec_sentinel;
use crate::state::AppState;
use crate::state::ReportEnvelope;
use crate::state::spec_default_report;
use crate::state::spec_status_text;
use crate::text::html_escape;
use crate::text::html_escaped;
use crate::text::json_escape;
use crate::text::json_escaped;
use crate::text::json_plain_char;
use crate::text::lemma_json_escaped_plain;

verus! {

/// The body of the liveness response.
pub open spec fn spec_health_body() -> Seq<char> {
    "{\"status\":\"healthy\"}"@
}

/// Liveness probe: the same healthy status whatever happened upstream.
pub fn health() -> (res: String)
    ensures
        res@ == spec_health_body(),
{
    String::from_str("{\"status\":\"healthy\"}")
}

/// The JSON body of the fingerprint route.
pub open spec fn spec_hash_body(hash: Seq<char>) -> Seq<char> {
    "{\"derived_key_hash\":\""@ + json_escaped(hash) + "\"}"@
}

/// Renders the fingerprint route: a JSON object holding the current
/// derived-key fingerprint, degraded sentinel included.
pub fn get_hash(state: &AppState) -> (res: String)
    ensures
        res@ == spec_hash_body(state.derived_key_hash@),
{
    let mut res = String::from_str("{\"derived_key_hash\":\"");
    let escaped = json_escape(state.derived_key_hash.as_str());
    res.append(escaped.as_str());
    res.append("\"}");
    proof {
        assert(res@ =~= spec_hash_body(state.derived_key_hash@));
    }
    res
}

/// When the secret endpoint was unreachable the stored fingerprint is
/// the sentinel, and the fingerprint route serves it verbatim inside
/// the fixed JSON object — an ordinary response, never an error.
pub proof fn lemma_degraded_hash_body()
    ensures
        spec_hash_body(spec_sentinel()) == "{\"derived_key_hash\":\"ERROR_FETCHING_KEY\"}"@,
{
    reveal_strlit("ERROR_FETCHING_KEY");
    assert forall|i: int| 0 <= i < spec_sentinel().len() implies json_plain_char(
        #[trigger] spec_sentinel()[i],
    ) by {}
    lemma_json_escaped_plain(spec_sentinel());
    reveal_strlit("{\"derived_key_hash\":\"");
    reveal_strlit("\"}");
    reveal_strlit("{\"derived_key_hash\":\"ERROR_FETCHING_KEY\"}");
    assert(spec_hash_body(spec_sentinel()) =~= "{\"derived_key_hash\":\"ERROR_FETCHING_KEY\"}"@);
}

/// The JSON body of the report route when an envelope is present.
pub open spec fn spec_envelope_body(env: ReportEnvelope) -> Seq<char> {
    "{\"report_type\":\""@ + json_escaped(env.report_type@) + "\",\"message\":\""@
        + json_escaped(env.message@) + "\",\"status\":\""@ + spec_status_text(env.status)
        + "\",\"details\":\""@ + json_escaped(env.details@) + "\"}"@
}

/// The JSON body of the report route: the envelope when one is present,
/// else the fallback object around the text view.
pub open spec fn spec_report_body(state: AppState) -> Seq<char> {
    match state.raw_report {
        Option::Some(env) => spec_envelope_body(env),
        Option::None => "{\"attestation_report\":\""@ + json_escaped(state.attestation_report@)
            + "\"}"@,
    }
}

/// Renders the report route.
pub fn get_report(state: &AppState) -> (res: String)
    ensures
        res@ == spec_report_body(*state),
{
    match &state.raw_report {
        Some(env) => {
            let mut res = String::from_str("{\"report_type\":\"");
            let report_type = json_escape(env.report_type.as_str());
            res.append(report_type.as_str());
            res.append("\",\"message\":\"");
            let message = json_escape(env.message.as_str());
            res.append(message.as_str());
            res.append("\",\"status\":\"");
            res.append(env.status.as_text());
            res.append("\",\"details\":\"");
            let details = json_escape(env.details.as_str());
            res.append(details.as_str());
            res.append("\"}");
            proof {
                assert(res@ =~= spec_report_body(*state));
            }
            res
        },
        None => {
            let mut res = String::from_str("{\"attestation_report\":\"");
            let report = json_escape(state.attestation_report.as_str());
            res.append(report.as_str());
            res.append("\"}");
            proof {
                assert(res@ =~= spec_report_body(*state));
            }
            res
        },
    }
}

/// While no attestation report is available — before attestation ran,
/// or after the provider failed — the report route answers with the
/// fixed placeholder object, an ordinary response, never an error.
pub proof fn lemma_placeholder_report_body(state: AppState)
    requires
        state.raw_report is None,
        state.attestation_report@ == spec_default_report(),
    ensures
        spec_report_body(state) == "{\"attestation_report\":\"No attestation report available.\"}"@,
{
    reveal_strlit("No attestation report available.");
    assert forall|i: int| 0 <= i < spec_default_report().len() implies json_plain_char(
        #[trigger] spec_default_report()[i],
    ) by {}
    lemma_json_escaped_plain(spec_default_report());
    reveal_strlit("{\"attestation_report\":\"");
    reveal_strlit("\"}");
    reveal_strlit("{\"attestation_report\":\"No attestation report available.\"}");
    assert(spec_report_body(state)
        =~= "{\"attestation_report\":\"No attestation report available.\"}"@);
}

/// After startup the state is read-only: any two snapshots of one
/// store have the same mathematical value, and every route's body
/// depends on that value alone, so repeated reads render byte-identical
/// bodies on every route.
pub proof fn lemma_reads_agree(s1: AppState, s2: AppState)
    requires
        s1@ == s2@,
    ensures
        spec_hash_body(s1.derived_key_hash@) == spec_hash_body(s2.derived_key_hash@),
        spec_report_body(s1) == spec_report_body(s2),
        spec_index_body(s1) == spec_index_body(s2),
{
    assert(s1.derived_key_hash@ == s2.derived_key_hash@);
    assert(s1.attestation_report@ == s2.attestation_report@);
    match s1.raw_report {
        Option::Some(env1) => {
            assert(s2.raw_report matches Some(env2) && env1@ == env2@);
            match s2.raw_report {
                Option::Some(env2) => {
                    assert(env1.report_type@ == env2.report_type@);
                    assert(env1.message@ == env2.message@);
                    assert(env1.status == env2.status);
                    assert(env1.details@ == env2.details@);
                },
                Option::None => {},
            }
        },
        Option::None => {
            assert(s2.raw_report is None);
        },
    }
}

/// The HTML body of the index route.
pub open spec fn spec_index_body(state: AppState) -> Seq<char> {
    "<!DOCTYPE html>\n<html>\n<head><title>Reporteer Status</title></head>\n<body>\n<h1>Reporteer Status</h1>\n<h2>Derived Key Hash</h2>\n<p>"@
        + html_escaped(state.derived_key_hash@)
        + "</p>\n<h2>Attestation Report</h2>\n<pre>"@ + html_escaped(
        state.attestation_report@,
    ) + "</pre>\n</body>\n</html>\n"@
}

/// Renders the index route: an HTML page showing the current fingerprint
/// and the text view of the report.
pub fn index(state: &AppState) -> (res: String)
    ensures
        res@ == spec_index_body(*state),
{
    let mut res = String::from_str(
        "<!DOCTYPE html>\n<html>\n<head><title>Reporteer Status</title></head>\n<body>\n<h1>Reporteer Status</h1>\n<h2>Derived Key Hash</h2>\n<p>",
    );
    let hash = html_escape(state.derived_key_hash.as_str());
    res.append(hash.as_str());
    res.append("</p>\n<h2>Attestation Report</h2>\n<pre>");
    let report = html_escape(state.attestation_report.as_str());
    res.append(report.as_str());
    res.append("</pre>\n</body>\n</html>\n");
    proof {
        assert(res@ =~= spec_index_body(*state));
    }
    res
}

} // verus!
