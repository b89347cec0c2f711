use reporteer::config::Config;
use reporteer::http::get_hash;
use reporteer::http::get_report;
use reporteer::http::health;
use reporteer::startup::EnclaveKey;
use reporteer::startup::Phase;
use reporteer::startup::StartupMachine;
use reporteer::state::AppState;
use reporteer::state::ReportStatus;

fn default_config() -> Config {
    Config::from_env(None, None, None, None).unwrap()
}

fn verifying_config() -> Config {
    Config::from_env(None, None, None, Some("true".to_string())).unwrap()
}

#[test]
fn test_unreachable_endpoint_still_starts() {
    // A failed secret fetch degrades to the sentinel; startup goes on
    // and the fingerprint route serves the sentinel, not an error.
    let mut machine = StartupMachine::new(&default_config(), None);
    assert_eq!(machine.phase(), Phase::AcquireEnclaveKey);
    machine.on_enclave_key(Some(vec![7u8; 32]));
    machine.on_attest(None);
    assert!(machine.should_bind());
    let store = machine.into_store();
    let snapshot = store.read();
    assert_eq!(
        get_hash(&snapshot),
        "{\"derived_key_hash\":\"ERROR_FETCHING_KEY\"}"
    );
}

#[test]
fn test_short_enclave_key_is_fatal() {
    let mut machine = StartupMachine::new(&default_config(), Some("secret".to_string()));
    machine.on_enclave_key(Some(vec![0u8; 31]));
    assert_eq!(machine.phase(), Phase::Fatal);
    assert!(!machine.should_bind());
}

#[test]
fn test_enclave_provider_failure_is_fatal() {
    let mut machine = StartupMachine::new(&default_config(), Some("secret".to_string()));
    machine.on_enclave_key(None);
    assert_eq!(machine.phase(), Phase::Fatal);
    assert!(!machine.should_bind());
}

#[test]
fn test_enclave_key_must_be_32_bytes() {
    assert!(EnclaveKey::from_bytes(vec![1u8; 32]).is_some());
    assert!(EnclaveKey::from_bytes(vec![1u8; 33]).is_none());
    assert!(EnclaveKey::from_bytes(Vec::new()).is_none());
}

#[test]
fn test_report_generated_without_verification() {
    // verify_at_start false: the report is still generated and stored,
    // with status "generated", over the fixed message.
    let mut machine = StartupMachine::new(&default_config(), Some("secret".to_string()));
    machine.on_enclave_key(Some(vec![7u8; 32]));
    assert_eq!(machine.phase(), Phase::Attest);
    assert_eq!(machine.attest_message().as_str(), "reporteer");
    machine.on_attest(Some("report dump".to_string()));
    assert!(machine.should_bind());
    let store = machine.into_store();
    let snapshot = store.read();
    let parsed: serde_json::Value = serde_json::from_str(&get_report(&snapshot)).unwrap();
    assert_eq!(parsed["status"], "generated");
    assert_eq!(parsed["message"], "reporteer");
    assert_eq!(parsed["details"], "report dump");
}

#[test]
fn test_report_verified_path() {
    // verify_at_start true: attest over "hola", then verify; the stored
    // report stands whatever verification said.
    let mut machine = StartupMachine::new(&verifying_config(), Some("secret".to_string()));
    machine.on_enclave_key(Some(vec![7u8; 32]));
    assert_eq!(machine.attest_message().as_str(), "hola");
    machine.on_attest(Some("report dump".to_string()));
    assert_eq!(machine.phase(), Phase::Verify);
    machine.on_verify(Some(false));
    assert!(machine.should_bind());
    let store = machine.into_store();
    let snapshot = store.read();
    let parsed: serde_json::Value = serde_json::from_str(&get_report(&snapshot)).unwrap();
    assert_eq!(parsed["status"], "verified");
    assert_eq!(parsed["message"], "hola");
}

#[test]
fn test_attestation_failure_degrades() {
    // A failed attestation leaves the placeholder views; the service
    // still serves, and the liveness probe still answers healthy.
    let mut machine = StartupMachine::new(&default_config(), Some("secret".to_string()));
    machine.on_enclave_key(Some(vec![7u8; 32]));
    machine.on_attest(None);
    assert!(machine.should_bind());
    let store = machine.into_store();
    let snapshot = store.read();
    assert_eq!(
        get_report(&snapshot),
        "{\"attestation_report\":\"No attestation report available.\"}"
    );
    assert_eq!(health(), "{\"status\":\"healthy\"}");
}

#[test]
fn test_report_views_stay_consistent() {
    // Readers never see one report view without the other: the details
    // of the JSON envelope are exactly the text view.
    let mut machine = StartupMachine::new(&default_config(), Some("secret".to_string()));
    machine.on_enclave_key(Some(vec![7u8; 32]));
    machine.on_attest(Some("the one report".to_string()));
    let store = machine.into_store();
    let first = store.read();
    let second = store.read();
    assert_eq!(first.attestation_report, "the one report");
    let env = first.raw_report.as_ref().unwrap();
    assert_eq!(env.details, first.attestation_report);
    let env2 = second.raw_report.as_ref().unwrap();
    assert_eq!(env2.details, second.attestation_report);
}

#[test]
fn test_state_write_keeps_views_consistent() {
    // The single write step replaces both report views at once; they
    // can never disagree afterwards.
    let mut state = AppState::new("h".to_string());
    state.set_report(
        "refreshed".to_string(),
        ReportStatus::Generated,
        "fresh dump".to_string(),
    );
    assert_eq!(state.attestation_report, "fresh dump");
    let env = state.raw_report.as_ref().unwrap();
    assert_eq!(env.details, state.attestation_report);
    assert_eq!(env.message, "refreshed");
}

#[test]
fn test_reads_agree_after_binding() {
    // The store pins the state startup produced: once the listener may
    // bind, every read of every route renders the identical body.
    let mut machine = StartupMachine::new(&default_config(), Some("secret".to_string()));
    machine.on_enclave_key(Some(vec![7u8; 32]));
    machine.on_attest(Some("the one report".to_string()));
    let store = machine.into_store();
    let first = store.read();
    let second = store.read();
    assert_eq!(get_hash(&first), get_hash(&second));
    assert_eq!(get_report(&first), get_report(&second));
}
