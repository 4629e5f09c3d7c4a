//! The authorization gate: what stands between a request and a protected
//! operation. A request is admitted by the bearer token that it carries.
//! Checking the signature of a token is the caller's part; what follows
//! from the outcome is decided here.

use vstd::prelude::*;
use vstd::string::*;

use crate::error::ServiceError;
use crate::text::{opt_text, starts_with};

verus! {

/// What a token says: whose it is, and the second after which it is no
/// longer good, counted from the start of 1970.
#[derive(Debug, Clone, Copy, PartialEq, Eq, Structural)]
pub struct Claims {
    pub user_id: i64,
    pub exp: u64,
}

/// What checking a token against the secret gave.
#[derive(Debug, Clone, Copy, PartialEq, Eq, Structural)]
pub enum Verification {
    /// The signature is good and the claims could be read.
    Valid(Claims),
    /// The token was not signed with the secret.
    BadSignature,
    /// The text is no token, or its claims could not be read.
    Malformed,
}

/// Where a request stands at the authorization gate.
#[derive(Debug, Clone, Copy, PartialEq, Eq, Structural)]
pub enum GateState {
    /// Nothing is known of the sender.
    Unauthenticated,
    /// The sender proved to be the user with this id.
    Authenticated(i64),
}

/// What is to be done with a request next.
#[derive(Debug, PartialEq, Eq)]
pub enum GateAction {
    /// Check this token against the secret and come back with the outcome.
    Verify(String),
    /// Hand the request on, with this user id in its context.
    Proceed(i64),
    /// Answer that authentication failed. No operation runs.
    Reject,
}

/// What happens at the authorization gate.
#[derive(Debug, PartialEq, Eq)]
pub enum GateEvent {
    /// A request came, with this `Authorization` header or without one.
    Request(Option<String>),
    /// The token was checked at the second `now`, with this outcome.
    Checked(Verification, u64),
}

/// The word that a bearer token follows in the `Authorization` header.
pub open spec fn bearer_prefix() -> Seq<char> {
    seq!['B', 'e', 'a', 'r', 'e', 'r', ' ']
}

/// The token in an `Authorization` header: what follows `Bearer ` where the
/// header begins with it.
pub open spec fn spec_bearer_token(header: Seq<char>) -> Option<Seq<char>> {
    if bearer_prefix().is_prefix_of(header) {
        Some(header.skip(7))
    } else {
        None
    }
}

/// The token that a request carries, if it carries one.
pub open spec fn spec_token_of(authorization: Option<Seq<char>>) -> Option<Seq<char>> {
    match authorization {
        Some(header) => spec_bearer_token(header),
        None => None,
    }
}

/// Whether a token that is good until `exp` has expired at `now`: it is
/// good before that second and from then on no longer.
pub open spec fn spec_expired(exp: u64, now: u64) -> bool {
    now >= exp
}

/// The user that a checked token admits at `now`: the one that valid,
/// unexpired claims name.
pub open spec fn spec_admitted(verification: Verification, now: u64) -> Option<i64> {
    match verification {
        Verification::Valid(claims) => if spec_expired(claims.exp, now) {
            None
        } else {
            Some(claims.user_id)
        },
        _ => None,
    }
}

/// What a gate in `state` does on `event`. A request without a bearer token
/// is rejected, one with a token has it checked; a checked token admits its
/// user or the request is rejected. Rejection leaves the state as it was,
/// and once a sender is known every event is handed on under that id.
pub open spec fn spec_next_state(state: GateState, event: GateEvent) -> GateState {
    match state {
        GateState::Authenticated(id) => GateState::Authenticated(id),
        GateState::Unauthenticated => match event {
            GateEvent::Request(_) => GateState::Unauthenticated,
            GateEvent::Checked(verification, now) => match spec_admitted(verification, now) {
                Some(id) => GateState::Authenticated(id),
                None => GateState::Unauthenticated,
            },
        },
    }
}

/// Whether `action` is what a gate in `state` asks for on `event`.
pub open spec fn is_action(state: GateState, event: GateEvent, action: GateAction) -> bool {
    match state {
        GateState::Authenticated(id) => action == GateAction::Proceed(id),
        GateState::Unauthenticated => match event {
            GateEvent::Request(authorization) => match spec_token_of(
                crate::text::opt_string(authorization),
            ) {
                Some(token) => action matches GateAction::Verify(t) && t@ == token,
                None => action == GateAction::Reject,
            },
            GateEvent::Checked(verification, now) => match spec_admitted(verification, now) {
                Some(id) => action == GateAction::Proceed(id),
                None => action == GateAction::Reject,
            },
        },
    }
}

/// The token in an `Authorization` header.
pub fn bearer_token(header: &str) -> (token: Option<String>)
    ensures
        crate::text::opt_string(token) == spec_bearer_token(header@),
{
    proof {
        reveal_strlit("Bearer ");
        assert("Bearer "@ =~= bearer_prefix());
    }
    if starts_with(header, "Bearer ") {
        let n = header.unicode_len();
        let rest = header.substring_char(7, n);
        Some(String::from_str(rest))
    } else {
        None
    }
}

/// Whether a token that is good until `exp` has expired at `now`.
pub fn expired(exp: u64, now: u64) -> (gone: bool)
    ensures
        gone == spec_expired(exp, now),
{
    now >= exp
}

/// The user that a checked token admits at `now`, or the failure that the
/// request is answered with: a bad signature, unreadable claims and an
/// expired token all fail authentication.
pub fn conclude(verification: Verification, now: u64) -> (admitted: Result<i64, ServiceError>)
    ensures
        match spec_admitted(verification, now) {
            Some(id) => admitted == Ok::<i64, ServiceError>(id),
            None => admitted == Err::<i64, ServiceError>(ServiceError::AuthenticationFailed),
        },
{
    match verification {
        Verification::Valid(claims) => {
            if expired(claims.exp, now) {
                Err(ServiceError::AuthenticationFailed)
            } else {
                Ok(claims.user_id)
            }
        },
        _ => Err(ServiceError::AuthenticationFailed),
    }
}

/// The token that a request is to be checked by, or the failure that it is
/// answered with: a request without an `Authorization` header, or with one
/// that holds no bearer token, fails authentication.
pub fn receive(authorization: Option<&str>) -> (token: Result<String, ServiceError>)
    ensures
        match spec_token_of(opt_text(authorization)) {
            Some(t) => token matches Ok(found) && found@ == t,
            None => token == Err::<String, ServiceError>(ServiceError::AuthenticationFailed),
        },
{
    match authorization {
        Some(header) => match bearer_token(header) {
            Some(token) => Ok(token),
            None => Err(ServiceError::AuthenticationFailed),
        },
        None => Err(ServiceError::AuthenticationFailed),
    }
}

/// One step of the authorization gate: the state after `event`, and what is
/// to be done next.
pub fn step(state: GateState, event: GateEvent) -> (next: (GateState, GateAction))
    ensures
        next.0 == spec_next_state(state, event),
        is_action(state, event, next.1),
{
    match state {
        GateState::Authenticated(id) => (GateState::Authenticated(id), GateAction::Proceed(id)),
        GateState::Unauthenticated => match event {
            GateEvent::Request(authorization) => {
                let token = match &authorization {
                    Some(header) => bearer_token(header.as_str()),
                    None => None,
                };
                match token {
                    Some(t) => (GateState::Unauthenticated, GateAction::Verify(t)),
                    None => (GateState::Unauthenticated, GateAction::Reject),
                }
            },
            GateEvent::Checked(verification, now) => match conclude(verification, now) {
                Ok(id) => (GateState::Authenticated(id), GateAction::Proceed(id)),
                Err(_) => (GateState::Unauthenticated, GateAction::Reject),
            },
        },
    }
}

/// The user id that a request in `state` carries in its context.
pub fn identity(state: GateState) -> (id: Option<i64>)
    ensures
        id == match state {
            GateState::Authenticated(user) => Some(user),
            GateState::Unauthenticated => None,
        },
{
    match state {
        GateState::Authenticated(user) => Some(user),
        GateState::Unauthenticated => None,
    }
}

/// A request without a header, and one whose header does not begin with
/// `Bearer `, carry no token.
pub proof fn lemma_no_token(header: Seq<char>)
    ensures
        spec_token_of(None) is None,
        !bearer_prefix().is_prefix_of(header) ==> spec_token_of(Some(header)) is None,
        bearer_prefix().is_prefix_of(header) ==> spec_token_of(Some(header)) == Some(
            header.skip(7),
        ),
{
}

/// A token with a bad signature, a malformed one and an expired one admit
/// nobody; a valid token that has not expired admits the user that it
/// names.
pub proof fn lemma_admitted(claims: Claims, now: u64)
    ensures
        spec_admitted(Verification::BadSignature, now) is None,
        spec_admitted(Verification::Malformed, now) is None,
        now >= claims.exp ==> spec_admitted(Verification::Valid(claims), now) is None,
        now < claims.exp ==> spec_admitted(Verification::Valid(claims), now) == Some(
            claims.user_id,
        ),
{
}

/// The authorization gate leaves `Unauthenticated` only for
/// `Authenticated` with the user that a checked token admits, and it hands
/// on only what it has admitted: whenever the action is `Proceed`, the
/// state after it is `Authenticated` with the same user.
pub proof fn lemma_proceeds_only_authenticated(
    state: GateState,
    event: GateEvent,
    action: GateAction,
)
    requires
        is_action(state, event, action),
    ensures
        action matches GateAction::Proceed(id) ==> spec_next_state(state, event)
            == GateState::Authenticated(id),
        state == GateState::Unauthenticated && spec_next_state(state, event)
            != GateState::Unauthenticated ==> (event matches GateEvent::Checked(v, now)
            && spec_admitted(v, now) == Some(spec_next_state(state, event)->0)),
        action == GateAction::Reject ==> spec_next_state(state, event)
            == GateState::Unauthenticated,
{
}

} // verus!
