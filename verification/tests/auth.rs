use example_seaorm_axum::auth::{
    bearer_token, conclude, expired, identity, receive, step, Claims, GateAction, GateEvent,
    GateState, Verification,
};
use example_seaorm_axum::error::ServiceError;

fn valid(user_id: i64, exp: u64) -> Verification {
    Verification::Valid(Claims { user_id, exp })
}

#[test]
fn bearer_token_is_what_follows_the_word() {
    assert_eq!(bearer_token("Bearer abc.def.ghi"), Some("abc.def.ghi".to_string()));
    assert_eq!(bearer_token("Bearer "), Some(String::new()));
    assert_eq!(bearer_token("Bearer  x"), Some(" x".to_string()));
    assert_eq!(bearer_token("Bearer é✓"), Some("é✓".to_string()));
}

#[test]
fn header_without_the_word_holds_no_token() {
    assert_eq!(bearer_token("bearer abc"), None);
    assert_eq!(bearer_token("Basic abc"), None);
    assert_eq!(bearer_token("Bearer"), None);
    assert_eq!(bearer_token("abc"), None);
    assert_eq!(bearer_token(""), None);
    assert_eq!(bearer_token(" Bearer abc"), None);
}

#[test]
fn request_without_a_token_is_rejected() {
    assert_eq!(receive(None), Err(ServiceError::AuthenticationFailed));
    assert_eq!(receive(Some("Basic abc")), Err(ServiceError::AuthenticationFailed));
    assert_eq!(receive(Some("Bearer t0ken")), Ok("t0ken".to_string()));
}

#[test]
fn token_expires_at_its_second() {
    assert!(!expired(100, 99));
    assert!(expired(100, 100));
    assert!(expired(100, 101));
    assert!(expired(0, 0));
    assert!(!expired(u64::MAX, 0));
}

#[test]
fn malformed_and_badly_signed_tokens_are_rejected() {
    assert_eq!(conclude(Verification::Malformed, 5), Err(ServiceError::AuthenticationFailed));
    assert_eq!(conclude(Verification::BadSignature, 5), Err(ServiceError::AuthenticationFailed));
}

#[test]
fn expired_token_is_rejected() {
    assert_eq!(conclude(valid(7, 100), 100), Err(ServiceError::AuthenticationFailed));
    assert_eq!(conclude(valid(7, 100), 5000), Err(ServiceError::AuthenticationFailed));
}

#[test]
fn valid_token_admits_its_user() {
    assert_eq!(conclude(valid(7, 100), 99), Ok(7));
    assert_eq!(conclude(valid(-3, u64::MAX), 0), Ok(-3));
}

#[test]
fn gate_asks_for_the_token_to_be_checked() {
    let event = GateEvent::Request(Some("Bearer abc".to_string()));
    assert_eq!(
        step(GateState::Unauthenticated, event),
        (GateState::Unauthenticated, GateAction::Verify("abc".to_string()))
    );
}

#[test]
fn gate_rejects_a_request_without_a_token() {
    assert_eq!(
        step(GateState::Unauthenticated, GateEvent::Request(None)),
        (GateState::Unauthenticated, GateAction::Reject)
    );
    assert_eq!(
        step(GateState::Unauthenticated, GateEvent::Request(Some("Token abc".to_string()))),
        (GateState::Unauthenticated, GateAction::Reject)
    );
}

#[test]
fn gate_attaches_the_identity_of_a_valid_token() {
    let (state, action) = step(GateState::Unauthenticated, GateEvent::Checked(valid(42, 200), 100));
    assert_eq!(state, GateState::Authenticated(42));
    assert_eq!(action, GateAction::Proceed(42));
    assert_eq!(identity(state), Some(42));
}

#[test]
fn gate_rejects_what_the_check_refused() {
    for verification in [Verification::BadSignature, Verification::Malformed, valid(42, 100)] {
        let (state, action) =
            step(GateState::Unauthenticated, GateEvent::Checked(verification, 100));
        assert_eq!(state, GateState::Unauthenticated);
        assert_eq!(action, GateAction::Reject);
        assert_eq!(identity(state), None);
    }
}

#[test]
fn gate_stays_authenticated() {
    let state = GateState::Authenticated(42);
    assert_eq!(step(state, GateEvent::Request(None)), (state, GateAction::Proceed(42)));
    assert_eq!(
        step(state, GateEvent::Checked(Verification::BadSignature, 1)),
        (state, GateAction::Proceed(42))
    );
    assert_eq!(step(state, GateEvent::Checked(valid(9, 100), 1)), (state, GateAction::Proceed(42)));
}

#[test]
fn request_passes_the_gate_in_two_steps() {
    let (state, action) =
        step(GateState::Unauthenticated, GateEvent::Request(Some("Bearer tok".to_string())));
    assert_eq!(action, GateAction::Verify("tok".to_string()));
    let (state, action) = step(state, GateEvent::Checked(valid(5, 10), 9));
    assert_eq!((state, action), (GateState::Authenticated(5), GateAction::Proceed(5)));
}
