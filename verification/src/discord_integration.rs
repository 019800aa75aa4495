//! Getting a Spotify token through the Spotify connection of a Discord account.
use vstd::prelude::*;

verus! {

/// Why the Discord gateway gave no Spotify credential.
#[derive(Debug)]
pub enum GetCurrentTokenError {
    WebSocketError(tokio_tungstenite::tungstenite::Error),
    SpotifyAccountIsNotAssociated,
    UnexpectedWebSocketClose,
    Timeout,
}

/// The Spotify account connected to a Discord account, with its token.
#[derive(Clone, Debug)]
pub struct SpotifyCredential {
    pub id: String,
    pub access_token: String,
}

/// An account connected to a Discord account, told apart by its `type`.
#[derive(Debug)]
pub enum ConnectedAccount {
    Spotify(SpotifyCredential),
    Other,
}

/// The `READY` event of the Discord gateway.
#[derive(Debug)]
pub struct Ready {
    pub connected_accounts: Vec<ConnectedAccount>,
}

/// A dispatch of the Discord gateway, told apart by its `t`.
#[derive(Debug)]
pub enum Response {
    Ready(Ready),
}

/// The first Spotify account among `accounts`, in order.
pub open spec fn first_spotify(accounts: Seq<ConnectedAccount>) -> Option<SpotifyCredential>
    decreases accounts.len(),
{
    if accounts.len() == 0 {
        None
    } else {
        match accounts[0] {
            ConnectedAccount::Spotify(c) => Some(c),
            ConnectedAccount::Other => first_spotify(accounts.drop_first()),
        }
    }
}

/// The credential of the first Spotify account that the `READY` event lists.
pub fn spotify_credential(ready: Ready) -> (res: Result<SpotifyCredential, GetCurrentTokenError>)
    ensures
        match first_spotify(ready.connected_accounts@) {
            Some(c) => res matches Ok(r) && r == c,
            None => res matches Err(GetCurrentTokenError::SpotifyAccountIsNotAssociated),
        },
{
    let mut accounts = ready.connected_accounts;
    let ghost all = accounts@;
    let n = accounts.len();
    let mut i: usize = 0;
    assert(all.skip(0) =~= all);
    while i < n
        invariant
            accounts@ == all,
            all == ready.connected_accounts@,
            n == all.len(),
            i <= n,
            first_spotify(all) == first_spotify(all.skip(i as int)),
        decreases n - i,
    {
        assert(all.skip(i as int)[0] == all[i as int]);
        let is_spotify = match &accounts[i] {
            ConnectedAccount::Spotify(_) => true,
            ConnectedAccount::Other => false,
        };
        if is_spotify {
            assert(all[i as int] is Spotify);
            let found = accounts.remove(i);
            assert(found == all[i as int]);
            return match found {
                ConnectedAccount::Spotify(c) => {
                    assert(first_spotify(all.skip(i as int)) == Some(c));
                    Ok(c)
                },
                ConnectedAccount::Other => Err(GetCurrentTokenError::SpotifyAccountIsNotAssociated),
            };
        }
        assert(all.skip(i as int).drop_first() =~= all.skip(i + 1));
        i = i + 1;
    }
    Err(GetCurrentTokenError::SpotifyAccountIsNotAssociated)
}

/// What the Discord gateway gave while the credential is awaited.
#[derive(Debug)]
pub enum GatewayEvent {
    /// The WebSocket failed.
    Failed(tokio_tungstenite::tungstenite::Error),
    /// A text frame, parsed as a dispatch where it is one.
    Text(Option<Response>),
    /// A close frame.
    Close,
    /// A binary, ping, pong or raw frame.
    OtherFrame,
    /// The time allowed for the `READY` event is up.
    Timeout,
}

/// What the wait for the credential does next.
#[derive(Debug)]
pub enum GatewayStep {
    /// Wait for the next frame.
    Continue,
    /// Stop with this result.
    Done(Result<SpotifyCredential, GetCurrentTokenError>),
}

/// Decides the wait for the credential: a `READY` dispatch ends it with its
/// first Spotify account, any other text or frame is skipped, and a failure,
/// a close frame or the timeout ends it with an error.
pub fn gateway_step(event: GatewayEvent) -> (step: GatewayStep)
    ensures
        match event {
            GatewayEvent::Failed(e) => step matches GatewayStep::Done(
                Err(GetCurrentTokenError::WebSocketError(e2)),
            ) && e2 == e,
            GatewayEvent::Text(Some(Response::Ready(r))) => match first_spotify(
                r.connected_accounts@,
            ) {
                Some(c) => step matches GatewayStep::Done(Ok(c2)) && c2 == c,
                None => step matches GatewayStep::Done(
                    Err(GetCurrentTokenError::SpotifyAccountIsNotAssociated),
                ),
            },
            GatewayEvent::Text(None) => step is Continue,
            GatewayEvent::Close => step matches GatewayStep::Done(
                Err(GetCurrentTokenError::UnexpectedWebSocketClose),
            ),
            GatewayEvent::OtherFrame => step is Continue,
            GatewayEvent::Timeout => step matches GatewayStep::Done(
                Err(GetCurrentTokenError::Timeout),
            ),
        },
{
    match event {
        GatewayEvent::Failed(e) => GatewayStep::Done(Err(GetCurrentTokenError::WebSocketError(e))),
        GatewayEvent::Text(Some(Response::Ready(r))) => GatewayStep::Done(spotify_credential(r)),
        GatewayEvent::Text(None) => GatewayStep::Continue,
        GatewayEvent::Close => GatewayStep::Done(Err(GetCurrentTokenError::UnexpectedWebSocketClose)),
        GatewayEvent::OtherFrame => GatewayStep::Continue,
        GatewayEvent::Timeout => GatewayStep::Done(Err(GetCurrentTokenError::Timeout)),
    }
}

/// Why a Spotify token could not be renewed.
#[derive(Debug)]
pub enum RenewError {
    RequestError(reqwest::Error),
    UnexpectedStatusCode(u16),
    JsonParse(serde_json::Error),
}

/// The answer of Discord to a request for a new Spotify token.
#[derive(Debug)]
pub struct SpotifyAccessTokenApiResponse {
    pub access_token: String,
}

/// What the status code of the renewal request says: only `200` brings a
/// token; any other code is an error.
pub fn renew_answer(code: u16) -> (res: Result<(), RenewError>)
    ensures
        code == 200 <==> res is Ok,
        code != 200 <==> (res matches Err(RenewError::UnexpectedStatusCode(c)) && c == code),
{
    if code == 200 {
        Ok(())
    } else {
        Err(RenewError::UnexpectedStatusCode(code))
    }
}

/// Why no usable Spotify token could be had.
#[derive(Debug)]
pub enum GetAvailableTokenError {
    GetCurrentTokenError(GetCurrentTokenError),
    TokenAvailabilityCheckError(crate::TokenAvailabilityCheckError),
    RenewError(RenewError),
}

/// What to do with the credential that the gateway gave, once its token has
/// been checked.
#[derive(Debug)]
pub enum AvailableTokenStep {
    /// The token works: this is the answer.
    Done(SpotifyCredential),
    /// The token does not work: renew the token of this Spotify account.
    Renew(SpotifyCredential),
}

/// What [`available_token_step`] decides for `cred` and `available`.
pub open spec fn available_token_post(cred: SpotifyCredential, available: bool, step: AvailableTokenStep) -> bool {
    &&& available ==> (step matches AvailableTokenStep::Done(c) && c == cred)
    &&& !available ==> (step matches AvailableTokenStep::Renew(c) && c == cred)
}

/// Decides, from whether the token works, between answering with the
/// credential and renewing its token.
pub fn available_token_step(cred: SpotifyCredential, available: bool) -> (step: AvailableTokenStep)
    ensures
        available_token_post(cred, available, step),
{
    if available {
        AvailableTokenStep::Done(cred)
    } else {
        AvailableTokenStep::Renew(cred)
    }
}

/// What [`with_renewed_token`] gives for `cred` and `access_token`.
pub open spec fn renewed_post(cred: SpotifyCredential, access_token: String, res: SpotifyCredential) -> bool {
    res.id == cred.id && res.access_token == access_token
}

/// The credential with its token replaced by a renewed one.
pub fn with_renewed_token(cred: SpotifyCredential, access_token: String) -> (res: SpotifyCredential)
    ensures
        renewed_post(cred, access_token, res),
{
    let mut cred = cred;
    cred.access_token = access_token;
    cred
}

/// The token that the renewal answer carries.
pub fn renewed_token(resp: SpotifyAccessTokenApiResponse) -> (token: String)
    ensures
        token == resp.access_token,
{
    resp.access_token
}

/// The credential that getting an available token answers with, from the
/// decision `step` on the gateway's credential and, where its token is
/// renewed, the credential `renewed` with the new token.
pub open spec fn available_outcome(step: AvailableTokenStep, renewed: SpotifyCredential) -> SpotifyCredential {
    match step {
        AvailableTokenStep::Done(c) => c,
        AvailableTokenStep::Renew(_) => renewed,
    }
}

/// Getting an available token answers with the gateway's Spotify account:
/// with its own token where that token works, with the renewed token where
/// it does not.
pub proof fn law_available_token_keeps_the_account(
    cred: SpotifyCredential,
    available: bool,
    step: AvailableTokenStep,
    renewed_token: String,
    renewed: SpotifyCredential,
)
    requires
        available_token_post(cred, available, step),
        step matches AvailableTokenStep::Renew(c) ==> renewed_post(c, renewed_token, renewed),
    ensures
        available_outcome(step, renewed).id == cred.id,
        available ==> available_outcome(step, renewed) == cred,
        !available ==> available_outcome(step, renewed).access_token == renewed_token,
{
}

/// Where getting an available token stands.
#[derive(Debug, PartialEq, Eq, Structural, Clone, Copy)]
pub enum AvailableTokenPhase {
    /// The credential is asked of the Discord gateway.
    GettingCredential,
    /// The credential's token is being checked.
    Checking,
    /// The token of the Spotify account is being renewed.
    Renewing,
    /// The answer has been given.
    Finished,
}

/// What the caller reports of the step it was asked to take.
#[derive(Debug)]
pub enum AvailableTokenEvent {
    /// What the gateway gave.
    Credential(Result<SpotifyCredential, GetCurrentTokenError>),
    /// Whether the token works.
    Checked(Result<bool, crate::TokenAvailabilityCheckError>),
    /// The renewed token.
    Renewed(Result<String, RenewError>),
}

/// The next step of getting an available token.
#[derive(Debug)]
pub enum AvailableTokenAction {
    /// Check this token.
    CheckToken(String),
    /// Renew the token of the Spotify account with this id.
    RenewToken(String),
    /// This is the answer.
    Answer(Result<SpotifyCredential, GetAvailableTokenError>),
}

/// Whether `event` is what the caller reports in `phase`.
pub open spec fn token_event_fits(phase: AvailableTokenPhase, event: AvailableTokenEvent) -> bool {
    match phase {
        AvailableTokenPhase::GettingCredential => event is Credential,
        AvailableTokenPhase::Checking => event is Checked,
        AvailableTokenPhase::Renewing => event is Renewed,
        AvailableTokenPhase::Finished => false,
    }
}

/// The place of a phase in the order of getting a token.
pub open spec fn token_phase_rank(phase: AvailableTokenPhase) -> int {
    match phase {
        AvailableTokenPhase::GettingCredential => 0,
        AvailableTokenPhase::Checking => 1,
        AvailableTokenPhase::Renewing => 2,
        AvailableTokenPhase::Finished => 3,
    }
}

/// Getting an available token: ask the gateway for the credential, check its
/// token, and renew the token where it does not work. Each of the three
/// requests is made at most once, in this order.
pub struct AvailableToken {
    phase: AvailableTokenPhase,
    credential: Option<SpotifyCredential>,
}

impl AvailableToken {
    /// Where it stands.
    pub closed spec fn spec_phase(&self) -> AvailableTokenPhase {
        self.phase
    }

    /// The credential that the gateway gave, once it has.
    pub closed spec fn spec_credential(&self) -> Option<SpotifyCredential> {
        self.credential
    }

    #[verifier::type_invariant]
    closed spec fn inv(&self) -> bool {
        (self.phase == AvailableTokenPhase::Checking || self.phase == AvailableTokenPhase::Renewing)
            ==> self.credential is Some
    }

    /// A start: the credential is to be asked of the gateway.
    pub fn new() -> (r: AvailableToken)
        ensures
            r.spec_phase() == AvailableTokenPhase::GettingCredential,
            r.spec_credential() is None,
    {
        AvailableToken { phase: AvailableTokenPhase::GettingCredential, credential: None }
    }

    /// Where it stands.
    pub fn phase(&self) -> (p: AvailableTokenPhase)
        ensures
            p == self.spec_phase(),
    {
        self.phase
    }

    /// Decides the next step from what the last step gave: a credential's
    /// token is checked; a working token is the answer; a token that does
    /// not work is renewed, and the credential with the renewed token is the
    /// answer; any failure is the answer.
    pub fn step(&mut self, event: AvailableTokenEvent) -> (action: AvailableTokenAction)
        requires
            token_event_fits(old(self).spec_phase(), event),
        ensures
            token_phase_rank(final(self).spec_phase()) > token_phase_rank(old(self).spec_phase()),
            match event {
                AvailableTokenEvent::Credential(Ok(c)) => {
                    &&& final(self).spec_phase() == AvailableTokenPhase::Checking
                    &&& final(self).spec_credential() == Some(c)
                    &&& action matches AvailableTokenAction::CheckToken(t) && t == c.access_token
                },
                AvailableTokenEvent::Credential(Err(e)) => {
                    &&& final(self).spec_phase() == AvailableTokenPhase::Finished
                    &&& action matches AvailableTokenAction::Answer(
                        Err(GetAvailableTokenError::GetCurrentTokenError(e2)),
                    ) && e2 == e
                },
                AvailableTokenEvent::Checked(Ok(true)) => {
                    &&& final(self).spec_phase() == AvailableTokenPhase::Finished
                    &&& action matches AvailableTokenAction::Answer(Ok(c)) && Some(c)
                        == old(self).spec_credential()
                },
                AvailableTokenEvent::Checked(Ok(false)) => {
                    &&& final(self).spec_phase() == AvailableTokenPhase::Renewing
                    &&& final(self).spec_credential() == old(self).spec_credential()
                    &&& action matches AvailableTokenAction::RenewToken(id) && id
                        == old(self).spec_credential()->0.id
                },
                AvailableTokenEvent::Checked(Err(e)) => {
                    &&& final(self).spec_phase() == AvailableTokenPhase::Finished
                    &&& action matches AvailableTokenAction::Answer(
                        Err(GetAvailableTokenError::TokenAvailabilityCheckError(e2)),
                    ) && e2 == e
                },
                AvailableTokenEvent::Renewed(Ok(t)) => {
                    &&& final(self).spec_phase() == AvailableTokenPhase::Finished
                    &&& action matches AvailableTokenAction::Answer(Ok(c)) && c.id
                        == old(self).spec_credential()->0.id && c.access_token == t
                },
                AvailableTokenEvent::Renewed(Err(e)) => {
                    &&& final(self).spec_phase() == AvailableTokenPhase::Finished
                    &&& action matches AvailableTokenAction::Answer(
                        Err(GetAvailableTokenError::RenewError(e2)),
                    ) && e2 == e
                },
            },
    {
        proof {
            use_type_invariant(&*self);
        }
        match event {
            AvailableTokenEvent::Credential(Ok(c)) => {
                let token = c.access_token.clone();
                *self = AvailableToken { phase: AvailableTokenPhase::Checking, credential: Some(c) };
                AvailableTokenAction::CheckToken(token)
            },
            AvailableTokenEvent::Credential(Err(e)) => {
                *self = AvailableToken { phase: AvailableTokenPhase::Finished, credential: None };
                AvailableTokenAction::Answer(Err(GetAvailableTokenError::GetCurrentTokenError(e)))
            },
            AvailableTokenEvent::Checked(Ok(available)) => {
                let kept = match &self.credential {
                    Some(c) => Some(
                        SpotifyCredential { id: c.id.clone(), access_token: c.access_token.clone() },
                    ),
                    None => None,
                };
                match kept {
                    Some(c) => {
                        match available_token_step(c, available) {
                            AvailableTokenStep::Done(c) => {
                                *self = AvailableToken {
                                    phase: AvailableTokenPhase::Finished,
                                    credential: None,
                                };
                                AvailableTokenAction::Answer(Ok(c))
                            },
                            AvailableTokenStep::Renew(c) => {
                                let id = c.id.clone();
                                *self = AvailableToken {
                                    phase: AvailableTokenPhase::Renewing,
                                    credential: Some(c),
                                };
                                AvailableTokenAction::RenewToken(id)
                            },
                        }
                    },
                    None => vstd::pervasive::unreached(),
                }
            },
            AvailableTokenEvent::Checked(Err(e)) => {
                *self = AvailableToken { phase: AvailableTokenPhase::Finished, credential: None };
                AvailableTokenAction::Answer(Err(GetAvailableTokenError::TokenAvailabilityCheckError(e)))
            },
            AvailableTokenEvent::Renewed(Ok(t)) => {
                let kept = match &self.credential {
                    Some(c) => Some(
                        SpotifyCredential { id: c.id.clone(), access_token: c.access_token.clone() },
                    ),
                    None => None,
                };
                *self = AvailableToken { phase: AvailableTokenPhase::Finished, credential: None };
                match kept {
                    Some(c) => AvailableTokenAction::Answer(Ok(with_renewed_token(c, t))),
                    None => vstd::pervasive::unreached(),
                }
            },
            AvailableTokenEvent::Renewed(Err(e)) => {
                *self = AvailableToken { phase: AvailableTokenPhase::Finished, credential: None };
                AvailableTokenAction::Answer(Err(GetAvailableTokenError::RenewError(e)))
            },
        }
    }
}

} // verus!
