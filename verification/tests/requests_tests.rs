use open_accountability::requests::{
    retry_step, status_is_success, CheckSafeExitIdJson, DeviceRegisterJson, EventBodyJson,
    GetSafeExitIdJson, RequestJson, RetryAction, RetryState, TokenReqBody,
};

#[test]
fn unauthorized_response_is_retried_exactly_once() {
    // The first unauthorized answer asks for one refresh-and-resend; the
    // second answer is final whatever it says — even unauthorized again.
    let (state, action) = retry_step(RetryState::FirstAttempt, 401);
    assert_eq!(state, RetryState::Resent);
    assert_eq!(action, RetryAction::RefreshAndResend);

    let (state, action) = retry_step(state, 401);
    assert_eq!(state, RetryState::Resent);
    assert_eq!(action, RetryAction::Done(401));
}

#[test]
fn missing_entitlement_fails_at_once() {
    let (_, action) = retry_step(RetryState::FirstAttempt, 402);
    assert_eq!(action, RetryAction::EntitlementFailure);
}

#[test]
fn other_statuses_pass_through_unchanged() {
    let (_, action) = retry_step(RetryState::FirstAttempt, 200);
    assert_eq!(action, RetryAction::Done(200));
    let (_, action) = retry_step(RetryState::FirstAttempt, 503);
    assert_eq!(action, RetryAction::Done(503));
    let (_, action) = retry_step(RetryState::Resent, 402);
    assert_eq!(action, RetryAction::Done(402));
}

#[test]
fn success_statuses_are_the_two_hundreds() {
    assert!(status_is_success(200));
    assert!(status_is_success(299));
    assert!(!status_is_success(300));
    assert!(!status_is_success(199));
    assert!(!status_is_success(401));
}

#[test]
fn bodies_take_a_fresh_token_and_keep_the_rest() {
    let mut b = DeviceRegisterJson {
        id_token: "stale".to_string(),
        device_name: "desk".to_string(),
    };
    b.set_token_id("fresh");
    assert_eq!(b.id_token, "fresh".to_string());
    assert_eq!(b.device_name, "desk".to_string());

    let mut b = GetSafeExitIdJson {
        id_token: "stale".to_string(),
        device_uuid: "u-1".to_string(),
    };
    b.set_token_id("fresh");
    assert_eq!(b.id_token, "fresh".to_string());
    assert_eq!(b.device_uuid, "u-1".to_string());

    let mut b = CheckSafeExitIdJson {
        id_token: "stale".to_string(),
        device_uuid: "u-1".to_string(),
        safe_exit_id: "e-1".to_string(),
    };
    b.set_token_id("fresh");
    assert_eq!(b.id_token, "fresh".to_string());
    assert_eq!(b.safe_exit_id, "e-1".to_string());

    let mut b = EventBodyJson {
        id_token: "stale".to_string(),
        device_uuid: "u-1".to_string(),
        event: vec![("alpha".to_string(), 2)],
    };
    b.set_token_id("fresh");
    assert_eq!(b.id_token, "fresh".to_string());
    assert_eq!(b.event, vec![("alpha".to_string(), 2)]);

    let mut b = TokenReqBody {
        id_token: "stale".to_string(),
        device_id: "u-1".to_string(),
    };
    b.set_token_id("fresh");
    assert_eq!(b.id_token, "fresh".to_string());
    assert_eq!(b.device_id, "u-1".to_string());
}
