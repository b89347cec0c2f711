//! The startup orchestration: fingerprint the fetched secret, gate on
//! the enclave key, drive attestation and verification, then serve.
//! The decisions live here as a state machine; the network and provider
//! calls themselves stay with the caller, which performs each call and
//! hands its outcome back in as an event.

use vstd::prelude::*;

use crate::config::Config;
use crate::fingerprint::initial_fingerprint;
use crate::fingerprint::spec_fingerprint;
use crate::fingerprint::spec_sentinel;
use crate::state::AppState;
use crate::state::ReportStatus;
use crate::state::spec_default_report;
use crate::state::spec_report_type;
use crate::store::StateStore;

verus! {

/// Where the startup sequence stands.
#[derive(Clone, Copy, PartialEq, Eq, Structural, Debug)]
pub enum Phase {
    /// Awaiting the enclave provider's key.
    AcquireEnclaveKey,
    /// Awaiting the attestation provider's report.
    Attest,
    /// Awaiting the attestation provider's verification outcome.
    Verify,
    /// Startup is done; the HTTP surface may bind and serve.
    Serve,
    /// The enclave key was unusable: exit without ever binding.
    Fatal,
}

/// The fixed message attested over, chosen by the verify flag.
pub open spec fn spec_attest_message(verify_on_start: bool) -> Seq<char> {
    if verify_on_start {
        "hola"@
    } else {
        "reporteer"@
    }
}

/// The hardware-bound enclave key: exactly 32 bytes, held by the
/// orchestration only and never stored for the HTTP surface.
pub struct EnclaveKey {
    bytes: Vec<u8>,
}

impl EnclaveKey {
    pub closed spec fn spec_bytes(&self) -> Seq<u8> {
        self.bytes@
    }

    /// Accepts exactly a 32-byte key; any other shape is the fatal
    /// malformed-key condition.
    pub fn from_bytes(bytes: Vec<u8>) -> (res: Option<EnclaveKey>)
        ensures
            bytes@.len() == 32 ==> (res matches Some(k) && k.spec_bytes() == bytes@),
            bytes@.len() != 32 ==> res is None,
    {
        if bytes.len() == 32 {
            Some(EnclaveKey { bytes })
        } else {
            None
        }
    }
}

/// Drives startup as an ordered sequence of decisions and owns the
/// application state until serving begins.
pub struct StartupMachine {
    phase: Phase,
    verify_on_start: bool,
    message: String,
    enclave_key: Option<EnclaveKey>,
    state: AppState,
}

impl StartupMachine {
    pub closed spec fn spec_phase(&self) -> Phase {
        self.phase
    }

    pub closed spec fn spec_verify_on_start(&self) -> bool {
        self.verify_on_start
    }

    pub closed spec fn spec_message(&self) -> Seq<char> {
        self.message@
    }

    pub closed spec fn spec_state(&self) -> AppState {
        self.state
    }

    pub closed spec fn spec_enclave_key(&self) -> Option<EnclaveKey> {
        self.enclave_key
    }

    /// The machine never holds a state whose report views disagree.
    pub open spec fn wf(&self) -> bool {
        self.spec_state().wf()
    }

    /// Startup after the secret fetch: the fingerprint (or, after a
    /// failed fetch, the sentinel) is fixed, the report views hold
    /// their defaults, and the machine awaits the enclave key. A failed
    /// fetch is degraded, never fatal.
    pub fn new(config: &Config, fetched_secret: Option<String>) -> (m: StartupMachine)
        ensures
            m.spec_phase() == Phase::AcquireEnclaveKey,
            m.spec_verify_on_start() == config.spec_verify_on_start(),
            fetched_secret matches Some(text) ==> m.spec_state().derived_key_hash@
                == spec_fingerprint(text@),
            fetched_secret is None ==> m.spec_state().derived_key_hash@ == spec_sentinel(),
            m.spec_state().attestation_report@ == spec_default_report(),
            m.spec_state().raw_report is None,
            m.wf(),
    {
        let fingerprint = initial_fingerprint(fetched_secret);
        StartupMachine {
            phase: Phase::AcquireEnclaveKey,
            verify_on_start: config.verify_on_start(),
            message: String::new(),
            enclave_key: None,
            state: AppState::new(fingerprint),
        }
    }

    /// The enclave gate: a 32-byte key moves startup on to attestation,
    /// with the fixed message chosen by the verify flag. A provider
    /// failure or any other key length is fatal: the machine reaches
    /// `Phase::Fatal` and never lets the HTTP surface bind.
    pub fn on_enclave_key(&mut self, key_bytes: Option<Vec<u8>>)
        requires
            old(self).spec_phase() == Phase::AcquireEnclaveKey,
        ensures
            final(self).spec_verify_on_start() == old(self).spec_verify_on_start(),
            final(self).spec_state() == old(self).spec_state(),
            key_bytes matches Some(k) ==> (k@.len() == 32 ==> {
                &&& final(self).spec_phase() == Phase::Attest
                &&& final(self).spec_enclave_key() matches Some(ek) && ek.spec_bytes() == k@
                &&& final(self).spec_message() == spec_attest_message(
                    old(self).spec_verify_on_start(),
                )
            }) && (k@.len() != 32 ==> final(self).spec_phase() == Phase::Fatal),
            key_bytes is None ==> final(self).spec_phase() == Phase::Fatal,
    {
        match key_bytes {
            Some(bytes) => match EnclaveKey::from_bytes(bytes) {
                Some(key) => {
                    self.enclave_key = Some(key);
                    self.message = if self.verify_on_start {
                        String::from_str("hola")
                    } else {
                        String::from_str("reporteer")
                    };
                    self.phase = Phase::Attest;
                },
                None => {
                    self.phase = Phase::Fatal;
                },
            },
            None => {
                self.phase = Phase::Fatal;
            },
        }
    }

    /// The attestation outcome. A report dump is rendered into both
    /// views in one step — status "verified" when verification is about
    /// to run, "generated" when it is skipped — and startup moves to
    /// verification or straight to serving. A provider failure is
    /// recoverable: the views keep their defaults and the service still
    /// serves.
    pub fn on_attest(&mut self, report_dump: Option<String>)
        requires
            old(self).spec_phase() == Phase::Attest,
            old(self).wf(),
        ensures
            final(self).spec_verify_on_start() == old(self).spec_verify_on_start(),
            final(self).spec_message() == old(self).spec_message(),
            final(self).spec_state().derived_key_hash@
                == old(self).spec_state().derived_key_hash@,
            final(self).wf(),
            report_dump matches Some(dump) ==> {
                &&& final(self).spec_state().attestation_report@ == dump@
                &&& final(self).spec_state().raw_report matches Some(env) && env.report_type@
                    == spec_report_type() && env.message@ == old(self).spec_message() && env.status
                    == (if old(self).spec_verify_on_start() {
                    ReportStatus::Verified
                } else {
                    ReportStatus::Generated
                }) && env.details@ == dump@
                &&& final(self).spec_phase() == (if old(self).spec_verify_on_start() {
                    Phase::Verify
                } else {
                    Phase::Serve
                })
            },
            report_dump is None ==> final(self).spec_state() == old(self).spec_state()
                && final(self).spec_phase() == Phase::Serve,
    {
        match report_dump {
            Some(dump) => {
                let status = if self.verify_on_start {
                    ReportStatus::Verified
                } else {
                    ReportStatus::Generated
                };
                let message = self.message.clone();
                self.state.set_report(message, status, dump);
                self.phase = if self.verify_on_start {
                    Phase::Verify
                } else {
                    Phase::Serve
                };
            },
            None => {
                self.phase = Phase::Serve;
            },
        }
    }

    /// The verification outcome: metadata for the caller's log only.
    /// The report already stored stands whatever came back, and startup
    /// moves on to serving.
    pub fn on_verify(&mut self, _outcome: Option<bool>)
        requires
            old(self).spec_phase() == Phase::Verify,
        ensures
            final(self).spec_phase() == Phase::Serve,
            final(self).spec_state() == old(self).spec_state(),
            final(self).spec_verify_on_start() == old(self).spec_verify_on_start(),
            final(self).spec_message() == old(self).spec_message(),
    {
        self.phase = Phase::Serve;
    }

    pub fn phase(&self) -> (p: Phase)
        ensures
            p == self.spec_phase(),
    {
        self.phase
    }

    /// The message the caller must attest — and later verify — over.
    pub fn attest_message(&self) -> (m: &String)
        ensures
            m@ == self.spec_message(),
    {
        &self.message
    }

    /// Whether startup reached the point where the HTTP listener may
    /// bind: true exactly in the serving phase, so never after the
    /// fatal enclave condition.
    pub fn should_bind(&self) -> (b: bool)
        ensures
            b == (self.spec_phase() == Phase::Serve),
    {
        self.phase == Phase::Serve
    }

    /// Hands the finished state over to the store the HTTP surface
    /// reads: the store pins exactly the state startup produced. Only a
    /// startup that may serve gets a store; the enclave key is dropped
    /// here and never exposed.
    pub fn into_store(self) -> (store: StateStore)
        requires
            self.spec_phase() == Phase::Serve,
            self.wf(),
        ensures
            store.spec_state() == self.spec_state()@,
    {
        StateStore::new(self.state)
    }
}

/// The fatal enclave condition bars serving: a fatal machine never
/// satisfies the serving phase, which `should_bind` answers and
/// `into_store` requires — and since every event handler requires an
/// earlier phase, no step accepts a fatal machine, so the phase is
/// final and such a startup can never yield a store to serve from.
pub proof fn lemma_fatal_never_serves(m: StartupMachine)
    requires
        m.spec_phase() == Phase::Fatal,
    ensures
        m.spec_phase() != Phase::Serve,
{
}

} // verus!
