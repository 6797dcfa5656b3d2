//! The request-with-refresh-retry protocol shared by every authenticated
//! network call, and the JSON request bodies it rewrites.
//!
//! A prepared request is sent once. If the response says the access token is
//! stale, the token is refreshed, written into the body, and the request is
//! resent exactly once; that second response is final whatever it says. A
//! response that says the account has no active entitlement fails at once.

use vstd::prelude::*;

verus! {

/// Status code the remote service answers with when the access token is
/// invalid or expired.
pub const STATUS_UNAUTHORIZED: u16 = 401;

/// Status code the remote service answers with when the account has no
/// active entitlement.
pub const STATUS_PAYMENT_REQUIRED: u16 = 402;

/// A request body that carries the current access token, so the retry
/// protocol can rewrite it after a refresh.
pub trait RequestJson: Sized {
    /// The access-token field of the body.
    spec fn token_view(&self) -> Seq<char>;

    /// Every field but the access token agrees between `self` and `other`.
    spec fn rest_unchanged(&self, other: &Self) -> bool;

    /// Writes a fresh access token into the body, leaving the rest alone.
    fn set_token_id(&mut self, id_token: &str)
        ensures
            final(self).token_view() == id_token@,
            old(self).rest_unchanged(final(self)),
    ;
}

/// Body of the device-registration request.
pub struct DeviceRegisterJson {
    pub id_token: String,
    pub device_name: String,
}

impl RequestJson for DeviceRegisterJson {
    open spec fn token_view(&self) -> Seq<char> {
        self.id_token@
    }

    open spec fn rest_unchanged(&self, other: &Self) -> bool {
        self.device_name@ == other.device_name@
    }

    fn set_token_id(&mut self, id_token: &str) {
        self.id_token = id_token.to_owned();
    }
}

/// Body of the event report posted once per cycle: the keywords matched this
/// cycle, each with its positive count.
pub struct EventBodyJson {
    pub id_token: String,
    pub device_uuid: String,
    pub event: Vec<(String, i32)>,
}

impl RequestJson for EventBodyJson {
    open spec fn token_view(&self) -> Seq<char> {
        self.id_token@
    }

    open spec fn rest_unchanged(&self, other: &Self) -> bool {
        self.device_uuid@ == other.device_uuid@ && self.event@ == other.event@
    }

    fn set_token_id(&mut self, id_token: &str) {
        self.id_token = id_token.to_owned();
    }
}

/// Body of the request that negotiates a fresh tamper-exit token.
pub struct GetSafeExitIdJson {
    pub id_token: String,
    pub device_uuid: String,
}

impl RequestJson for GetSafeExitIdJson {
    open spec fn token_view(&self) -> Seq<char> {
        self.id_token@
    }

    open spec fn rest_unchanged(&self, other: &Self) -> bool {
        self.device_uuid@ == other.device_uuid@
    }

    fn set_token_id(&mut self, id_token: &str) {
        self.id_token = id_token.to_owned();
    }
}

/// Body of the request that asks the remote service to confirm a stored
/// tamper-exit token.
pub struct CheckSafeExitIdJson {
    pub id_token: String,
    pub device_uuid: String,
    pub safe_exit_id: String,
}

impl RequestJson for CheckSafeExitIdJson {
    open spec fn token_view(&self) -> Seq<char> {
        self.id_token@
    }

    open spec fn rest_unchanged(&self, other: &Self) -> bool {
        self.device_uuid@ == other.device_uuid@ && self.safe_exit_id@ == other.safe_exit_id@
    }

    fn set_token_id(&mut self, id_token: &str) {
        self.id_token = id_token.to_owned();
    }
}

/// Body of the notify-offline request sent on a graceful exit.
pub struct TokenReqBody {
    pub id_token: String,
    pub device_id: String,
}

impl RequestJson for TokenReqBody {
    open spec fn token_view(&self) -> Seq<char> {
        self.id_token@
    }

    open spec fn rest_unchanged(&self, other: &Self) -> bool {
        self.device_id@ == other.device_id@
    }

    fn set_token_id(&mut self, id_token: &str) {
        self.id_token = id_token.to_owned();
    }
}

/// How far the retry protocol has come: still on the first send, or already
/// resent once after a token refresh.
#[derive(Clone, Copy, PartialEq, Eq, Structural, Debug)]
pub enum RetryState {
    FirstAttempt,
    Resent,
}

/// What the caller must do with the response it just received.
#[derive(Clone, Copy, PartialEq, Eq, Structural, Debug)]
pub enum RetryAction {
    /// Hand this status to the caller as the final outcome.
    Done(u16),
    /// Refresh the access token, rewrite the body, and send once more.
    RefreshAndResend,
    /// The account has no active entitlement; fail without retrying.
    EntitlementFailure,
}

/// The transition table of the retry protocol.
pub open spec fn retry_step_spec(state: RetryState, status: u16) -> (RetryState, RetryAction) {
    match state {
        RetryState::FirstAttempt => {
            if status == STATUS_UNAUTHORIZED {
                (RetryState::Resent, RetryAction::RefreshAndResend)
            } else if status == STATUS_PAYMENT_REQUIRED {
                (RetryState::FirstAttempt, RetryAction::EntitlementFailure)
            } else {
                (RetryState::FirstAttempt, RetryAction::Done(status))
            }
        },
        RetryState::Resent => (RetryState::Resent, RetryAction::Done(status)),
    }
}

/// Decides what to do with one response of an authenticated request.
///
/// On the first attempt, an unauthorized status asks for one refresh-and-
/// resend, a payment-required status fails at once, and anything else is
/// final. Once resent, every status is final, passed through unchanged.
pub fn retry_step(state: RetryState, status: u16) -> (r: (RetryState, RetryAction))
    ensures
        r == retry_step_spec(state, status),
{
    match state {
        RetryState::FirstAttempt => {
            if status == STATUS_UNAUTHORIZED {
                (RetryState::Resent, RetryAction::RefreshAndResend)
            } else if status == STATUS_PAYMENT_REQUIRED {
                (RetryState::FirstAttempt, RetryAction::EntitlementFailure)
            } else {
                (RetryState::FirstAttempt, RetryAction::Done(status))
            }
        },
        RetryState::Resent => (RetryState::Resent, RetryAction::Done(status)),
    }
}

/// A request that is answered with an unauthorized status exactly once is
/// refreshed and resent exactly once, and the second response is returned to
/// the caller unchanged, whatever it says — in particular a second
/// unauthorized answer is final, so there is no retry loop.
pub proof fn lemma_refresh_retry_once(first_status: u16, second_status: u16)
    requires
        first_status == STATUS_UNAUTHORIZED,
    ensures
        retry_step_spec(RetryState::FirstAttempt, first_status) == (
            RetryState::Resent,
            RetryAction::RefreshAndResend,
        ),
        retry_step_spec(RetryState::Resent, second_status) == (
            RetryState::Resent,
            RetryAction::Done(second_status),
        ),
{
}

/// True exactly on the statuses the remote service uses for success.
pub fn status_is_success(status: u16) -> (r: bool)
    ensures
        r == (200 <= status < 300),
{
    200 <= status && status < 300
}

} // verus!
