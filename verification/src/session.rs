//! The device session: the identity record, its persisted form, the
//! registration and tamper-exit handshakes, and the state machine that
//! drives them.
//!
//! An identity may be resumed across restarts only if it proves it shut down
//! through the sanctioned path: a stored tamper-exit token that the remote
//! service confirms. A record without such proof is re-registered under a
//! fresh identity.

use crate::requests::{
    CheckSafeExitIdJson, DeviceRegisterJson, EventBodyJson, GetSafeExitIdJson, TokenReqBody,
};
use crate::text::{chars_match_at, matches_at, str_chars};
use crate::OpenAccError;
use vstd::prelude::*;
verus! {

/// A credential string.
pub type Token = String;

/// The shape of the identity file's essential fields.
pub struct TokenFile {
    pub refresh_token: String,
    pub device_id: String,
}

/// The device's identity record.
pub struct Device {
    /// Long-lived secret exchanged for short-lived access tokens.
    pub refresh_token: Token,
    /// Short-lived access token, refreshed on demand.
    pub id_token: Token,
    /// Identifier the remote service assigned at registration.
    pub uuid: String,
    /// Display name the user supplied during pairing.
    pub name: String,
    /// One-time tamper-exit token proving an orderly shutdown.
    pub safe_shutdown_id: String,
}

impl Device {
    /// A fresh, unpaired identity: every field empty.
    pub fn new() -> (r: Device)
        ensures
            r.refresh_token@.len() == 0,
            r.id_token@.len() == 0,
            r.uuid@.len() == 0,
            r.name@.len() == 0,
            r.safe_shutdown_id@.len() == 0,
    {
        Device {
            refresh_token: String::new(),
            id_token: String::new(),
            uuid: String::new(),
            name: String::new(),
            safe_shutdown_id: String::new(),
        }
    }

    /// The record as persisted on disk: the tamper-exit token is written out
    /// only when explicitly asked for — during a forced exit — and is blank
    /// in the record at rest, so the exit proof cannot be replayed.
    pub fn record_for_disk(&self, with_safe_exit_id: bool) -> (r: Device)
        ensures
            r.refresh_token@ == self.refresh_token@,
            r.id_token@ == self.id_token@,
            r.uuid@ == self.uuid@,
            r.name@ == self.name@,
            with_safe_exit_id ==> r.safe_shutdown_id@ == self.safe_shutdown_id@,
            !with_safe_exit_id ==> r.safe_shutdown_id@.len() == 0,
    {
        Device {
            refresh_token: self.refresh_token.clone(),
            id_token: self.id_token.clone(),
            uuid: self.uuid.clone(),
            name: self.name.clone(),
            safe_shutdown_id: if with_safe_exit_id {
                self.safe_shutdown_id.clone()
            } else {
                String::new()
            },
        }
    }

    /// The body of the device-registration request.
    pub fn register_request(&self) -> (r: DeviceRegisterJson)
        ensures
            r.id_token@ == self.id_token@,
            r.device_name@ == self.name@,
    {
        DeviceRegisterJson { id_token: self.id_token.clone(), device_name: self.name.clone() }
    }

    /// The body of the request negotiating a fresh tamper-exit token.
    pub fn safe_exit_request(&self) -> (r: GetSafeExitIdJson)
        ensures
            r.id_token@ == self.id_token@,
            r.device_uuid@ == self.uuid@,
    {
        GetSafeExitIdJson { id_token: self.id_token.clone(), device_uuid: self.uuid.clone() }
    }

    /// The body of the request asking the remote service to confirm the
    /// stored tamper-exit token.
    pub fn check_request(&self) -> (r: CheckSafeExitIdJson)
        ensures
            r.id_token@ == self.id_token@,
            r.device_uuid@ == self.uuid@,
            r.safe_exit_id@ == self.safe_shutdown_id@,
    {
        CheckSafeExitIdJson {
            id_token: self.id_token.clone(),
            device_uuid: self.uuid.clone(),
            safe_exit_id: self.safe_shutdown_id.clone(),
        }
    }

    /// The body of the event report posted once per cycle.
    pub fn event_request(&self, event: Vec<(String, i32)>) -> (r: EventBodyJson)
        ensures
            r.id_token@ == self.id_token@,
            r.device_uuid@ == self.uuid@,
            r.event@ == event@,
    {
        EventBodyJson {
            id_token: self.id_token.clone(),
            device_uuid: self.uuid.clone(),
            event,
        }
    }

    /// The body of the notify-offline request sent on a graceful exit.
    pub fn offline_request(&self) -> (r: TokenReqBody)
        ensures
            r.id_token@ == self.id_token@,
            r.device_id@ == self.uuid@,
    {
        TokenReqBody { id_token: self.id_token.clone(), device_id: self.uuid.clone() }
    }

    /// Stores a freshly refreshed access token.
    pub fn apply_refreshed_token(&mut self, id_token: String)
        ensures
            final(self).id_token@ == id_token@,
            final(self).refresh_token@ == old(self).refresh_token@,
            final(self).uuid@ == old(self).uuid@,
            final(self).name@ == old(self).name@,
            final(self).safe_shutdown_id@ == old(self).safe_shutdown_id@,
    {
        self.id_token = id_token;
    }

    /// Stores the credentials the pairing flow handed over.
    pub fn apply_pairing(&mut self, refresh_token: String, device_name: String)
        ensures
            final(self).refresh_token@ == refresh_token@,
            final(self).name@ == device_name@,
            final(self).id_token@ == old(self).id_token@,
            final(self).uuid@ == old(self).uuid@,
            final(self).safe_shutdown_id@ == old(self).safe_shutdown_id@,
    {
        self.refresh_token = refresh_token;
        self.name = device_name;
    }

    /// Takes in the registration response: on the success status the body is
    /// the fresh device identifier and the record adopts it; any other
    /// status is a fatal authentication failure and the record is untouched.
    pub fn apply_registration(&mut self, status: u16, body: String) -> (r: Result<
        (),
        OpenAccError,
    >)
        ensures
            (status == 200) == (r is Ok),
            status == 200 ==> final(self).uuid@ == body@,
            status != 200 ==> r == Result::<(), OpenAccError>::Err(OpenAccError::Auth)
                && final(self).uuid@ == old(self).uuid@,
            final(self).refresh_token@ == old(self).refresh_token@,
            final(self).id_token@ == old(self).id_token@,
            final(self).name@ == old(self).name@,
            final(self).safe_shutdown_id@ == old(self).safe_shutdown_id@,
    {
        if status == 200 {
            self.uuid = body;
            Ok(())
        } else {
            Err(OpenAccError::Auth)
        }
    }

    /// Stores the tamper-exit token the remote service negotiated. The token
    /// lives in memory only; the record at rest on disk stays without it.
    pub fn apply_safe_exit_id(&mut self, token: String)
        ensures
            final(self).safe_shutdown_id@ == token@,
            final(self).refresh_token@ == old(self).refresh_token@,
            final(self).id_token@ == old(self).id_token@,
            final(self).uuid@ == old(self).uuid@,
            final(self).name@ == old(self).name@,
    {
        self.safe_shutdown_id = token;
    }
}

/// What becomes of a restored identity after the tamper-exit verification.
#[derive(Clone, Copy, PartialEq, Eq, Structural, Debug)]
pub enum VerifyOutcome {
    /// The identity proved an orderly shutdown and may be resumed.
    Resume,
    /// The identity must be registered anew.
    Reregister,
}

/// The tamper-exit decision: an identity is resumed only when it holds a
/// token and the remote service confirmed it; a missing token or a denial
/// means the device did not shut down cleanly last time.
pub open spec fn verify_outcome_spec(token: Seq<char>, server_confirmed: bool) -> VerifyOutcome {
    if token.len() > 0 && server_confirmed {
        VerifyOutcome::Resume
    } else {
        VerifyOutcome::Reregister
    }
}

/// Decides whether a restored identity may be resumed, from its stored
/// tamper-exit token and the remote service's answer to the verification
/// request.
pub fn verify_tamper_exit_outcome(d: &Device, server_confirmed: bool) -> (r: VerifyOutcome)
    ensures
        r == verify_outcome_spec(d.safe_shutdown_id@, server_confirmed),
{
    if !d.safe_shutdown_id.as_str().is_empty() && server_confirmed {
        VerifyOutcome::Resume
    } else {
        VerifyOutcome::Reregister
    }
}

/// A device record restored from disk without a tamper-exit token is never
/// resumed: whatever the remote service would answer, verification forces
/// re-registration under a fresh identity.
pub proof fn lemma_missing_token_forces_reregistration(token: Seq<char>, server_confirmed: bool)
    requires
        token.len() == 0,
    ensures
        verify_outcome_spec(token, server_confirmed) == VerifyOutcome::Reregister,
{
}

/// What the program must do to end the session.
pub enum ExitAction {
    /// Tell the remote service the device goes offline, then delete the
    /// record on disk.
    NotifyAndDelete(TokenReqBody),
    /// Write the record to disk with the tamper-exit token kept, so the next
    /// startup can prove continuity; tell nobody and delete nothing.
    PersistWithToken(Device),
}

/// Decides the exit path. A plain exit signs the device off and removes the
/// record; an exit while the system itself is shutting down persists the
/// record with the tamper-exit token included.
pub fn exit_plan(d: &Device, system_shutdown: bool) -> (r: ExitAction)
    ensures
        !system_shutdown ==> (r matches ExitAction::NotifyAndDelete(b) && b.id_token@
            == d.id_token@ && b.device_id@ == d.uuid@),
        system_shutdown ==> (r matches ExitAction::PersistWithToken(rec) && rec.refresh_token@
            == d.refresh_token@ && rec.id_token@ == d.id_token@ && rec.uuid@ == d.uuid@
            && rec.name@ == d.name@ && rec.safe_shutdown_id@ == d.safe_shutdown_id@),
{
    if !system_shutdown {
        ExitAction::NotifyAndDelete(d.offline_request())
    } else {
        ExitAction::PersistWithToken(d.record_for_disk(true))
    }
}

/// Whether the runlevel report says the whole system is shutting down.
pub fn shutdown_in_progress(runlevel_output: &str) -> (r: bool)
    ensures
        r == matches_at(runlevel_output@, "N 0"@, 0),
{
    let cs = str_chars(runlevel_output);
    let pat = str_chars("N 0");
    if pat.len() > cs.len() {
        return false;
    }
    chars_match_at(&cs, &pat, 0)
}

/// The states of the device session.
#[derive(Clone, Copy, PartialEq, Eq, Structural, Debug)]
pub enum SessionState {
    /// No usable identity yet.
    Unregistered,
    /// Pairing or registration is under way.
    Registering,
    /// The identity is established and monitoring may run.
    Active,
    /// An identity was restored from disk and awaits tamper-exit
    /// verification.
    TamperPending,
    /// The session is ending.
    Exiting,
}

/// What the session just learned.
#[derive(Clone, Copy, PartialEq, Eq, Structural, Debug)]
pub enum SessionEvent {
    /// A persisted identity record was found on disk.
    RecordFound,
    /// No persisted identity exists.
    RecordMissing,
    /// The remote service confirmed the stored tamper-exit token.
    TamperExitConfirmed,
    /// The token was missing or the remote service denied it.
    TamperExitRejected,
    /// The pairing flow handed over a refresh credential and device name.
    PairingCompleted,
    /// The registration endpoint answered with a fresh device identifier.
    RegistrationSucceeded,
    /// The registration endpoint failed.
    RegistrationFailed,
    /// The service descriptor passed the tamper check.
    TamperCheckPassed,
    /// The service descriptor failed the tamper check.
    TamperCheckFailed,
    /// The cancellation flag was seen set; the field says whether the whole
    /// system is shutting down.
    CancellationReceived(bool),
}

/// What the surrounding program must do next.
#[derive(Clone, Copy, PartialEq, Eq, Structural, Debug)]
pub enum SessionAction {
    /// Ask the remote service to confirm the stored tamper-exit token.
    VerifyTamperExit,
    /// Run the interactive pairing flow.
    RunPairing,
    /// Call the registration endpoint.
    Register,
    /// Negotiate a fresh tamper-exit token, then persist the record without
    /// it.
    NegotiateTamperExit,
    /// Run the tamper check on the service descriptor.
    CheckDescriptor,
    /// Start the monitoring loop.
    StartMonitoring,
    /// Sign off with the remote service and delete the record.
    ExitGracefully,
    /// Persist the record with the tamper-exit token and stop.
    ExitForced,
    /// Startup cannot continue: a fatal authentication failure.
    FailStartup,
    /// The descriptor was tampered with: sign off, then stop with a fatal
    /// error.
    HaltTampered,
    /// The event does not apply to the state; nothing changes.
    Ignore,
}

/// The transition table of the session.
pub open spec fn session_step_spec(s: SessionState, e: SessionEvent) -> (
    SessionState,
    SessionAction,
) {
    match (s, e) {
        (SessionState::Unregistered, SessionEvent::RecordFound) => (
            SessionState::TamperPending,
            SessionAction::VerifyTamperExit,
        ),
        (SessionState::Unregistered, SessionEvent::RecordMissing) => (
            SessionState::Registering,
            SessionAction::RunPairing,
        ),
        (SessionState::TamperPending, SessionEvent::TamperExitConfirmed) => (
            SessionState::Active,
            SessionAction::NegotiateTamperExit,
        ),
        (SessionState::TamperPending, SessionEvent::TamperExitRejected) => (
            SessionState::Registering,
            SessionAction::Register,
        ),
        (SessionState::Registering, SessionEvent::PairingCompleted) => (
            SessionState::Registering,
            SessionAction::Register,
        ),
        (SessionState::Registering, SessionEvent::RegistrationSucceeded) => (
            SessionState::Active,
            SessionAction::NegotiateTamperExit,
        ),
        (SessionState::Registering, SessionEvent::RegistrationFailed) => (
            SessionState::Exiting,
            SessionAction::FailStartup,
        ),
        (SessionState::Active, SessionEvent::TamperCheckPassed) => (
            SessionState::Active,
            SessionAction::StartMonitoring,
        ),
        (SessionState::Active, SessionEvent::TamperCheckFailed) => (
            SessionState::Exiting,
            SessionAction::HaltTampered,
        ),
        (SessionState::Active, SessionEvent::CancellationReceived(forced)) => (
            SessionState::Exiting,
            if forced {
                SessionAction::ExitForced
            } else {
                SessionAction::ExitGracefully
            },
        ),
        _ => (s, SessionAction::Ignore),
    }
}

/// One step of the session: from the current state and what just happened,
/// the next state and what to do.
pub fn session_step(s: SessionState, e: SessionEvent) -> (r: (SessionState, SessionAction))
    ensures
        r == session_step_spec(s, e),
{
    match (s, e) {
        (SessionState::Unregistered, SessionEvent::RecordFound) => (
            SessionState::TamperPending,
            SessionAction::VerifyTamperExit,
        ),
        (SessionState::Unregistered, SessionEvent::RecordMissing) => (
            SessionState::Registering,
            SessionAction::RunPairing,
        ),
        (SessionState::TamperPending, SessionEvent::TamperExitConfirmed) => (
            SessionState::Active,
            SessionAction::NegotiateTamperExit,
        ),
        (SessionState::TamperPending, SessionEvent::TamperExitRejected) => (
            SessionState::Registering,
            SessionAction::Register,
        ),
        (SessionState::Registering, SessionEvent::PairingCompleted) => (
            SessionState::Registering,
            SessionAction::Register,
        ),
        (SessionState::Registering, SessionEvent::RegistrationSucceeded) => (
            SessionState::Active,
            SessionAction::NegotiateTamperExit,
        ),
        (SessionState::Registering, SessionEvent::RegistrationFailed) => (
            SessionState::Exiting,
            SessionAction::FailStartup,
        ),
        (SessionState::Active, SessionEvent::TamperCheckPassed) => (
            SessionState::Active,
            SessionAction::StartMonitoring,
        ),
        (SessionState::Active, SessionEvent::TamperCheckFailed) => (
            SessionState::Exiting,
            SessionAction::HaltTampered,
        ),
        (SessionState::Active, SessionEvent::CancellationReceived(forced)) => (
            SessionState::Exiting,
            if forced {
                SessionAction::ExitForced
            } else {
                SessionAction::ExitGracefully
            },
        ),
        _ => (s, SessionAction::Ignore),
    }
}

} // verus!
