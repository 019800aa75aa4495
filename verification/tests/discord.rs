use spotnowplay::discord_integration::{
    available_token_step, gateway_step, renew_answer, renewed_token, spotify_credential,
    with_renewed_token, AvailableTokenStep, ConnectedAccount, GatewayEvent, GatewayStep,
    GetCurrentTokenError, Ready, RenewError, Response, SpotifyAccessTokenApiResponse,
    SpotifyCredential,
};

fn cred(id: &str, token: &str) -> SpotifyCredential {
    SpotifyCredential { id: id.to_string(), access_token: token.to_string() }
}

#[test]
fn first_spotify_account_is_taken() {
    let ready = Ready {
        connected_accounts: vec![
            ConnectedAccount::Other,
            ConnectedAccount::Spotify(cred("s1", "t1")),
            ConnectedAccount::Spotify(cred("s2", "t2")),
        ],
    };
    let c = spotify_credential(ready).unwrap();
    assert_eq!(c.id, "s1");
    assert_eq!(c.access_token, "t1");
}

#[test]
fn no_spotify_account_is_an_error() {
    let ready = Ready { connected_accounts: vec![ConnectedAccount::Other, ConnectedAccount::Other] };
    assert!(matches!(
        spotify_credential(ready),
        Err(GetCurrentTokenError::SpotifyAccountIsNotAssociated)
    ));
    let empty = Ready { connected_accounts: vec![] };
    assert!(matches!(
        spotify_credential(empty),
        Err(GetCurrentTokenError::SpotifyAccountIsNotAssociated)
    ));
}

#[test]
fn gateway_ready_ends_the_wait() {
    let ready = Ready { connected_accounts: vec![ConnectedAccount::Spotify(cred("s", "t"))] };
    match gateway_step(GatewayEvent::Text(Some(Response::Ready(ready)))) {
        GatewayStep::Done(Ok(c)) => assert_eq!(c.id, "s"),
        other => panic!("unexpected {:?}", other),
    }
    let ready = Ready { connected_accounts: vec![ConnectedAccount::Other] };
    assert!(matches!(
        gateway_step(GatewayEvent::Text(Some(Response::Ready(ready)))),
        GatewayStep::Done(Err(GetCurrentTokenError::SpotifyAccountIsNotAssociated))
    ));
}

#[test]
fn gateway_skips_other_frames() {
    assert!(matches!(gateway_step(GatewayEvent::Text(None)), GatewayStep::Continue));
    assert!(matches!(gateway_step(GatewayEvent::OtherFrame), GatewayStep::Continue));
}

#[test]
fn gateway_close_timeout_and_failure_end_the_wait() {
    assert!(matches!(
        gateway_step(GatewayEvent::Close),
        GatewayStep::Done(Err(GetCurrentTokenError::UnexpectedWebSocketClose))
    ));
    assert!(matches!(
        gateway_step(GatewayEvent::Timeout),
        GatewayStep::Done(Err(GetCurrentTokenError::Timeout))
    ));
    let e = tokio_tungstenite::tungstenite::Error::ConnectionClosed;
    assert!(matches!(
        gateway_step(GatewayEvent::Failed(e)),
        GatewayStep::Done(Err(GetCurrentTokenError::WebSocketError(
            tokio_tungstenite::tungstenite::Error::ConnectionClosed
        )))
    ));
}

#[test]
fn renewal_status_codes() {
    assert!(renew_answer(200).is_ok());
    assert!(matches!(renew_answer(401), Err(RenewError::UnexpectedStatusCode(401))));
    assert!(matches!(renew_answer(204), Err(RenewError::UnexpectedStatusCode(204))));
}

#[test]
fn working_token_is_kept_and_broken_one_renewed() {
    match available_token_step(cred("s", "t"), true) {
        AvailableTokenStep::Done(c) => assert_eq!(c.access_token, "t"),
        other => panic!("unexpected {:?}", other),
    }
    match available_token_step(cred("s", "t"), false) {
        AvailableTokenStep::Renew(c) => assert_eq!(c.id, "s"),
        other => panic!("unexpected {:?}", other),
    }
}

#[test]
fn renewed_token_replaces_only_the_token() {
    let c = with_renewed_token(cred("s", "old"), "new".to_string());
    assert_eq!(c.id, "s");
    assert_eq!(c.access_token, "new");
    let t = renewed_token(SpotifyAccessTokenApiResponse { access_token: "fresh".to_string() });
    assert_eq!(t, "fresh");
}

#[test]
fn available_token_keeps_the_account() {
    let gateway = cred("acct", "stale");
    let step = available_token_step(gateway.clone(), false);
    let answer = match step {
        AvailableTokenStep::Done(c) => c,
        AvailableTokenStep::Renew(c) => with_renewed_token(c, "fresh".to_string()),
    };
    assert_eq!(answer.id, gateway.id);
    assert_eq!(answer.access_token, "fresh");
}

use spotnowplay::discord_integration::{
    AvailableToken, AvailableTokenAction, AvailableTokenEvent, AvailableTokenPhase,
    GetAvailableTokenError,
};
use spotnowplay::TokenAvailabilityCheckError;

#[test]
fn working_token_is_answered_after_one_check() {
    let mut getting = AvailableToken::new();
    assert_eq!(getting.phase(), AvailableTokenPhase::GettingCredential);
    match getting.step(AvailableTokenEvent::Credential(Ok(cred("s", "t")))) {
        AvailableTokenAction::CheckToken(t) => assert_eq!(t, "t"),
        other => panic!("unexpected {:?}", other),
    }
    assert_eq!(getting.phase(), AvailableTokenPhase::Checking);
    match getting.step(AvailableTokenEvent::Checked(Ok(true))) {
        AvailableTokenAction::Answer(Ok(c)) => {
            assert_eq!(c.id, "s");
            assert_eq!(c.access_token, "t");
        }
        other => panic!("unexpected {:?}", other),
    }
    assert_eq!(getting.phase(), AvailableTokenPhase::Finished);
}

#[test]
fn broken_token_is_renewed_once() {
    let mut getting = AvailableToken::new();
    getting.step(AvailableTokenEvent::Credential(Ok(cred("acct", "old"))));
    match getting.step(AvailableTokenEvent::Checked(Ok(false))) {
        AvailableTokenAction::RenewToken(id) => assert_eq!(id, "acct"),
        other => panic!("unexpected {:?}", other),
    }
    assert_eq!(getting.phase(), AvailableTokenPhase::Renewing);
    match getting.step(AvailableTokenEvent::Renewed(Ok("new".to_string()))) {
        AvailableTokenAction::Answer(Ok(c)) => {
            assert_eq!(c.id, "acct");
            assert_eq!(c.access_token, "new");
        }
        other => panic!("unexpected {:?}", other),
    }
}

#[test]
fn failures_are_the_answer() {
    let mut getting = AvailableToken::new();
    assert!(matches!(
        getting.step(AvailableTokenEvent::Credential(Err(GetCurrentTokenError::Timeout))),
        AvailableTokenAction::Answer(Err(GetAvailableTokenError::GetCurrentTokenError(
            GetCurrentTokenError::Timeout
        )))
    ));
    let mut getting = AvailableToken::new();
    getting.step(AvailableTokenEvent::Credential(Ok(cred("a", "b"))));
    assert!(matches!(
        getting.step(AvailableTokenEvent::Checked(Err(
            TokenAvailabilityCheckError::UnexpectedStatusCode(500)
        ))),
        AvailableTokenAction::Answer(Err(GetAvailableTokenError::TokenAvailabilityCheckError(
            TokenAvailabilityCheckError::UnexpectedStatusCode(500)
        )))
    ));
    let mut getting = AvailableToken::new();
    getting.step(AvailableTokenEvent::Credential(Ok(cred("a", "b"))));
    getting.step(AvailableTokenEvent::Checked(Ok(false)));
    assert!(matches!(
        getting.step(AvailableTokenEvent::Renewed(Err(RenewError::UnexpectedStatusCode(403)))),
        AvailableTokenAction::Answer(Err(GetAvailableTokenError::RenewError(
            RenewError::UnexpectedStatusCode(403)
        )))
    ));
}
