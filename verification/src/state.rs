//! The application state: the derived-key fingerprint and the two views
//! of the attestation report, with their consistency invariant.

use vstd::prelude::*;

verus! {

/// Whether the report was cryptographically verified after generation or
/// only generated for display.
#[derive(Clone, Copy, PartialEq, Eq, Structural, Debug)]
pub enum ReportStatus {
    Verified,
    Generated,
}

/// The text a status shows in the JSON envelope.
pub open spec fn spec_status_text(status: ReportStatus) -> Seq<char> {
    match status {
        ReportStatus::Verified => "verified"@,
        ReportStatus::Generated => "generated"@,
    }
}

impl ReportStatus {
    pub fn as_text(&self) -> (t: &'static str)
        ensures
            t@ == spec_status_text(*self),
    {
        match self {
            ReportStatus::Verified => "verified",
            ReportStatus::Generated => "generated",
        }
    }
}

/// The report type shown in every JSON envelope.
pub open spec fn spec_report_type() -> Seq<char> {
    "AMD SEV-SNP Attestation"@
}

/// The text view shown while no attestation report is available.
pub open spec fn spec_default_report() -> Seq<char> {
    "No attestation report available."@
}

/// The machine-readable envelope derived from an attestation report.
pub struct ReportEnvelope {
    pub report_type: String,
    pub message: String,
    pub status: ReportStatus,
    pub details: String,
}

/// The mathematical value of an envelope: its text fields as character
/// sequences, with the status.
pub struct EnvelopeView {
    pub report_type: Seq<char>,
    pub message: Seq<char>,
    pub status: ReportStatus,
    pub details: Seq<char>,
}

impl View for ReportEnvelope {
    type V = EnvelopeView;

    open spec fn view(&self) -> EnvelopeView {
        EnvelopeView {
            report_type: self.report_type@,
            message: self.message@,
            status: self.status,
            details: self.details@,
        }
    }
}

/// The state shared between the startup orchestration and the HTTP
/// readers: fingerprint, human-readable report, machine-readable report.
pub struct AppState {
    pub derived_key_hash: String,
    pub attestation_report: String,
    pub raw_report: Option<ReportEnvelope>,
}

/// The mathematical value of the whole state.
pub struct AppStateView {
    pub derived_key_hash: Seq<char>,
    pub attestation_report: Seq<char>,
    pub raw_report: Option<EnvelopeView>,
}

impl View for AppState {
    type V = AppStateView;

    open spec fn view(&self) -> AppStateView {
        AppStateView {
            derived_key_hash: self.derived_key_hash@,
            attestation_report: self.attestation_report@,
            raw_report: match self.raw_report {
                Option::Some(env) => Option::Some(env@),
                Option::None => Option::None,
            },
        }
    }
}

impl AppState {
    /// Well-formedness: both report views always come from the same
    /// report generation. When the JSON envelope is present its details
    /// are exactly the text view and its type is the fixed report type;
    /// when it is absent the text view is the fixed placeholder.
    pub open spec fn wf(&self) -> bool {
        match self.raw_report {
            Option::Some(env) => env.report_type@ == spec_report_type() && env.details@
                == self.attestation_report@,
            Option::None => self.attestation_report@ == spec_default_report(),
        }
    }

    /// The state as it stands before attestation ran: the given
    /// fingerprint, the placeholder report text, no envelope.
    pub fn new(derived_key_hash: String) -> (s: AppState)
        ensures
            s.derived_key_hash@ == derived_key_hash@,
            s.attestation_report@ == spec_default_report(),
            s.raw_report is None,
            s.wf(),
    {
        AppState {
            derived_key_hash,
            attestation_report: String::from_str("No attestation report available."),
            raw_report: None,
        }
    }

    /// Stores both views of a freshly rendered report in one step, so the
    /// text view and the JSON envelope can never disagree.
    pub fn set_report(&mut self, message: String, status: ReportStatus, details: String)
        ensures
            final(self).derived_key_hash@ == old(self).derived_key_hash@,
            final(self).attestation_report@ == details@,
            final(self).raw_report matches Some(env) && env.report_type@ == spec_report_type()
                && env.message@ == message@ && env.status == status && env.details@ == details@,
            final(self).wf(),
    {
        self.attestation_report = details.clone();
        self.raw_report = Some(
            ReportEnvelope {
                report_type: String::from_str("AMD SEV-SNP Attestation"),
                message,
                status,
                details,
            },
        );
    }

    /// A copy of the state: same mathematical value, field for field.
    pub fn snapshot(&self) -> (s: AppState)
        ensures
            s@ == self@,
            self.wf() ==> s.wf(),
    {
        let raw_report = match &self.raw_report {
            Some(env) => Some(
                ReportEnvelope {
                    report_type: env.report_type.clone(),
                    message: env.message.clone(),
                    status: env.status,
                    details: env.details.clone(),
                },
            ),
            None => None,
        };
        let s = AppState {
            derived_key_hash: self.derived_key_hash.clone(),
            attestation_report: self.attestation_report.clone(),
            raw_report,
        };
        proof {
            assert(s@ == self@);
        }
        s
    }
}

/// A well-formed state never shows torn report views: whenever the JSON
/// envelope is present, its details are exactly the text view and its
/// type is the fixed report type; whenever it is absent, the text view
/// is the fixed placeholder. Both views always report the same report
/// generation.
pub proof fn lemma_report_views_consistent(s: AppState)
    requires
        s.wf(),
    ensures
        s.raw_report matches Some(env) ==> (env.details@ == s.attestation_report@
            && env.report_type@ == spec_report_type()),
        s.raw_report is None ==> s.attestation_report@ == spec_default_report(),
{
}

} // verus!
