use open_accountability::monitor::{sleep_step, SleepStep};
use open_accountability::session::{
    exit_plan, session_step, shutdown_in_progress, verify_tamper_exit_outcome, Device,
    ExitAction, SessionAction, SessionEvent, SessionState, VerifyOutcome,
};
use open_accountability::OpenAccError;

fn restored_device(safe_shutdown_id: &str) -> Device {
    let mut d = Device::new();
    d.apply_pairing("refresh-secret".to_string(), "desk machine".to_string());
    d.apply_refreshed_token("fresh-access-token".to_string());
    let _ = d.apply_registration(200, "uuid-1234".to_string());
    d.apply_safe_exit_id(safe_shutdown_id.to_string());
    d
}

#[test]
fn record_without_tamper_exit_token_is_never_resumed() {
    // Whatever the remote service would answer, a restored record with no
    // stored token forces re-registration.
    let d = restored_device("");
    assert_eq!(verify_tamper_exit_outcome(&d, true), VerifyOutcome::Reregister);
    assert_eq!(verify_tamper_exit_outcome(&d, false), VerifyOutcome::Reregister);
}

#[test]
fn confirmed_token_resumes_the_identity() {
    let d = restored_device("exit-token-1");
    assert_eq!(verify_tamper_exit_outcome(&d, true), VerifyOutcome::Resume);
    assert_eq!(verify_tamper_exit_outcome(&d, false), VerifyOutcome::Reregister);
}

#[test]
fn cancellation_mid_sleep_leads_to_forced_exit_with_token_on_disk() {
    // The flag set mid-sleep stops the sleep at the very next one-second
    // check, and the forced exit persists the record with the tamper-exit
    // token still in it.
    assert_eq!(sleep_step(250, true), SleepStep::Cancelled);

    let d = restored_device("exit-token-9");
    match exit_plan(&d, true) {
        ExitAction::PersistWithToken(rec) => {
            assert_eq!(rec.safe_shutdown_id, "exit-token-9".to_string());
            assert_eq!(rec.uuid, "uuid-1234".to_string());
        }
        ExitAction::NotifyAndDelete(_) => panic!("a forced exit must persist the record"),
    }
}

#[test]
fn graceful_exit_notifies_and_deletes() {
    let d = restored_device("exit-token-2");
    match exit_plan(&d, false) {
        ExitAction::NotifyAndDelete(body) => {
            assert_eq!(body.id_token, "fresh-access-token".to_string());
            assert_eq!(body.device_id, "uuid-1234".to_string());
        }
        ExitAction::PersistWithToken(_) => panic!("a plain exit must sign off"),
    }
}

#[test]
fn record_at_rest_omits_the_tamper_exit_token() {
    let d = restored_device("exit-token-3");
    let at_rest = d.record_for_disk(false);
    assert_eq!(at_rest.safe_shutdown_id, String::new());
    assert_eq!(at_rest.refresh_token, "refresh-secret".to_string());
    let forced = d.record_for_disk(true);
    assert_eq!(forced.safe_shutdown_id, "exit-token-3".to_string());
}

#[test]
fn registration_success_adopts_the_new_identifier() {
    let mut d = restored_device("");
    assert!(d.apply_registration(200, "uuid-next".to_string()).is_ok());
    assert_eq!(d.uuid, "uuid-next".to_string());
}

#[test]
fn registration_failure_is_fatal_and_leaves_the_record_alone() {
    let mut d = restored_device("");
    let r = d.apply_registration(500, "ignored".to_string());
    assert_eq!(r, Err(OpenAccError::Auth));
    assert_eq!(d.uuid, "uuid-1234".to_string());
}

#[test]
fn session_walks_the_restore_path() {
    let (s, a) = session_step(SessionState::Unregistered, SessionEvent::RecordFound);
    assert_eq!(s, SessionState::TamperPending);
    assert_eq!(a, SessionAction::VerifyTamperExit);

    let (s, a) = session_step(s, SessionEvent::TamperExitConfirmed);
    assert_eq!(s, SessionState::Active);
    assert_eq!(a, SessionAction::NegotiateTamperExit);

    let (s, a) = session_step(s, SessionEvent::TamperCheckPassed);
    assert_eq!(s, SessionState::Active);
    assert_eq!(a, SessionAction::StartMonitoring);
}

#[test]
fn session_reregisters_a_rejected_identity() {
    let (s, a) = session_step(SessionState::TamperPending, SessionEvent::TamperExitRejected);
    assert_eq!(s, SessionState::Registering);
    assert_eq!(a, SessionAction::Register);
}

#[test]
fn session_pairs_when_no_record_exists() {
    let (s, a) = session_step(SessionState::Unregistered, SessionEvent::RecordMissing);
    assert_eq!(s, SessionState::Registering);
    assert_eq!(a, SessionAction::RunPairing);

    let (s, a) = session_step(s, SessionEvent::PairingCompleted);
    assert_eq!(s, SessionState::Registering);
    assert_eq!(a, SessionAction::Register);

    let (s, a) = session_step(s, SessionEvent::RegistrationFailed);
    assert_eq!(s, SessionState::Exiting);
    assert_eq!(a, SessionAction::FailStartup);
}

#[test]
fn session_exits_on_cancellation() {
    let (s, a) = session_step(SessionState::Active, SessionEvent::CancellationReceived(false));
    assert_eq!(s, SessionState::Exiting);
    assert_eq!(a, SessionAction::ExitGracefully);

    let (s, a) = session_step(SessionState::Active, SessionEvent::CancellationReceived(true));
    assert_eq!(s, SessionState::Exiting);
    assert_eq!(a, SessionAction::ExitForced);
}

#[test]
fn session_halts_on_a_tampered_descriptor() {
    let (s, a) = session_step(SessionState::Active, SessionEvent::TamperCheckFailed);
    assert_eq!(s, SessionState::Exiting);
    assert_eq!(a, SessionAction::HaltTampered);
}

#[test]
fn runlevel_report_marks_system_shutdown() {
    assert!(shutdown_in_progress("N 0"));
    assert!(shutdown_in_progress("N 0\n"));
    assert!(!shutdown_in_progress("N 5"));
    assert!(!shutdown_in_progress(""));
}
