//! A client of the Spotify dealer WebSocket that reports what the user's
//! account is playing.
//!
//! This crate holds the decisions of the client: what a status code of the
//! Web API means, which dealer messages need a reply, what a `wss://event`
//! message asks of the event handlers, and how the device that is playing is
//! tracked. Sending requests, reading the WebSocket and calling the handlers
//! is left to the caller, which hands the results back as plain values.
use vstd::prelude::*;

pub mod api;
pub mod discord_integration;
pub mod string_map;
pub mod text;
pub mod wss;

pub use wss::{handle_wss_event, ParsedEvent, ParsedPayload, WssAction, WssWarning};

use crate::wss::{handled, latest, payloads_match, reported_ids, wss_outcome};

use crate::api::{Message, PlaybackState, Response};
use crate::text::{has_prefix, opt_str_eq, opt_view, starts_with};

verus! {

/// An error of reqwest: a request that could not be sent or read.
#[verifier::external_type_specification]
#[verifier::external_body]
pub struct ExRequestError(reqwest::Error);

/// An error of the WebSocket connection.
#[verifier::external_type_specification]
#[verifier::external_body]
pub struct ExWebSocketError(tokio_tungstenite::tungstenite::Error);

/// Why the check of a token failed. A status code is kept as its number.
#[derive(Debug)]
pub enum TokenAvailabilityCheckError {
    RequestError(reqwest::Error),
    UnexpectedStatusCode(u16),
}

/// What the status code of `GET /v1/me/player/devices`, sent with the token,
/// says: `200` means the token is good, `401` that it is not; any other code
/// is an error.
pub fn token_availability(code: u16) -> (res: Result<bool, TokenAvailabilityCheckError>)
    ensures
        code == 200 <==> res == Ok::<bool, TokenAvailabilityCheckError>(true),
        code == 401 <==> res == Ok::<bool, TokenAvailabilityCheckError>(false),
        code != 200 && code != 401 <==> (res matches Err(
            TokenAvailabilityCheckError::UnexpectedStatusCode(c),
        ) && c == code),
{
    if code == 200 {
        Ok(true)
    } else if code == 401 {
        Ok(false)
    } else {
        Err(TokenAvailabilityCheckError::UnexpectedStatusCode(code))
    }
}

/// Why the reply to a `PUT` request of the dealer failed.
#[derive(Debug)]
pub enum PutReplyError {
    RequestError(reqwest::Error),
    UnexpectedStatusCode(u16),
    ConnectionIdIsNotFound,
}

/// What a dealer message asks in the way of a reply.
#[derive(Debug, PartialEq, Eq)]
pub enum PutReply {
    /// The message is no `PUT` request: nothing to do.
    NotNeeded,
    /// A `PUT` request to a URI that is not a connection: warn, nothing to do.
    UnknownUri,
    /// Activate the connection with this id
    /// (`PUT /v1/me/notifications/player?connection_id=..`).
    Activate(String),
}

/// The header of a connection request that names the connection.
pub open spec fn connection_id_header() -> Seq<char> {
    "Spotify-Connection-Id"@
}

/// What [`put_reply`] answers for `msg`: no reply where the message is no
/// `PUT`, a warning where it is a `PUT` to another URI, an error where the
/// connection request names no connection, and the connection's activation
/// otherwise.
pub open spec fn put_reply_post(msg: Message, res: Result<PutReply, PutReplyError>) -> bool {
    let put = opt_view(msg.method) == Some("PUT"@);
    let connection = has_prefix(msg.uri@, "hm://pusher/v1/connections/"@);
    let named = msg.headers@.contains_key(connection_id_header());
    &&& !put ==> res == Ok::<PutReply, PutReplyError>(PutReply::NotNeeded)
    &&& put && !connection ==> res == Ok::<PutReply, PutReplyError>(PutReply::UnknownUri)
    &&& put && connection && !named ==> (res matches Err(PutReplyError::ConnectionIdIsNotFound))
    &&& put && connection && named ==> activates(res, msg.headers@[connection_id_header()])
}

/// Whether `res` activates the connection with the id `id`.
pub open spec fn activates(res: Result<PutReply, PutReplyError>, id: Seq<char>) -> bool {
    match res {
        Ok(PutReply::Activate(c)) => c@ == id,
        _ => false,
    }
}

/// Decides the reply to a dealer message: only a `PUT` to
/// `hm://pusher/v1/connections/..` needs one, and it names the connection in
/// its `Spotify-Connection-Id` header.
pub fn put_reply(msg: &Message) -> (res: Result<PutReply, PutReplyError>)
    ensures
        put_reply_post(*msg, res),
{
    if !opt_str_eq(&msg.method, "PUT") {
        return Ok(PutReply::NotNeeded);
    }
    if !starts_with(msg.uri.as_str(), "hm://pusher/v1/connections/") {
        return Ok(PutReply::UnknownUri);
    }
    match msg.headers.get("Spotify-Connection-Id") {
        Some(id) => Ok(PutReply::Activate(id.clone())),
        None => Err(PutReplyError::ConnectionIdIsNotFound),
    }
}

/// What [`put_reply_result`] answers for the status code `code`.
pub open spec fn put_reply_result_post(code: u16, res: Result<bool, PutReplyError>) -> bool {
    &&& (code == 200 <==> res == Ok::<bool, PutReplyError>(true))
    &&& (code != 200 <==> (res matches Err(PutReplyError::UnexpectedStatusCode(c)) && c == code))
}

/// Whether `msg` asks for its connection to be activated: a `PUT` to
/// `hm://pusher/v1/connections/..` that names the connection.
pub open spec fn needs_activation(msg: Message) -> bool {
    &&& opt_view(msg.method) == Some("PUT"@)
    &&& has_prefix(msg.uri@, "hm://pusher/v1/connections/"@)
    &&& msg.headers@.contains_key(connection_id_header())
}

/// The answer to a dealer message, from the decision `plan` of
/// [`put_reply`] and, where the connection is activated, the `answer` of
/// [`put_reply_result`] to the activation request: no reply is `Ok(false)`.
pub open spec fn reply_outcome(
    plan: Result<PutReply, PutReplyError>,
    answer: Result<bool, PutReplyError>,
) -> Result<bool, PutReplyError> {
    match plan {
        Ok(PutReply::Activate(_)) => answer,
        Ok(_) => Ok(false),
        Err(e) => Err(e),
    }
}

/// The answer to a dealer message is `Ok(true)` exactly where the message
/// is a `PUT` to `hm://pusher/v1/connections/..` that names its connection
/// and the activation request is answered with `200`.
pub proof fn law_reply_is_ok_exactly_when_activated(
    msg: Message,
    plan: Result<PutReply, PutReplyError>,
    code: u16,
    answer: Result<bool, PutReplyError>,
)
    requires
        put_reply_post(msg, plan),
        put_reply_result_post(code, answer),
    ensures
        (reply_outcome(plan, answer) == Ok::<bool, PutReplyError>(true)) <==> (needs_activation(
            msg,
        ) && code == 200),
{
}

/// What the status code of the activation request says: `200` means the
/// connection is active; any other code is an error.
pub fn put_reply_result(code: u16) -> (res: Result<bool, PutReplyError>)
    ensures
        put_reply_result_post(code, res),
{
    if code == 200 {
        Ok(true)
    } else {
        Err(PutReplyError::UnexpectedStatusCode(code))
    }
}

/// Why the playback state could not be fetched.
#[derive(Debug)]
pub enum FetchPlaybackStateError {
    RequestError(reqwest::Error),
    UnexpectedStatusCode(u16),
    DeserializeError(serde_json::Error),
}

/// What to do with the answer to `GET /v1/me/player`.
#[derive(Debug, PartialEq, Eq, Structural)]
pub enum PlaybackStateAnswer {
    /// The body holds the playback state.
    ReadBody,
    /// Nothing is playing.
    NoContent,
}

/// What the status code of `GET /v1/me/player` says: `200` means the body
/// holds the state, `204` that nothing is playing; any other code is an error.
pub fn playback_state_answer(code: u16) -> (res: Result<PlaybackStateAnswer, FetchPlaybackStateError>)
    ensures
        code == 200 <==> res == Ok::<PlaybackStateAnswer, FetchPlaybackStateError>(
            PlaybackStateAnswer::ReadBody,
        ),
        code == 204 <==> res == Ok::<PlaybackStateAnswer, FetchPlaybackStateError>(
            PlaybackStateAnswer::NoContent,
        ),
        code != 200 && code != 204 <==> (res matches Err(
            FetchPlaybackStateError::UnexpectedStatusCode(c),
        ) && c == code),
{
    if code == 200 {
        Ok(PlaybackStateAnswer::ReadBody)
    } else if code == 204 {
        Ok(PlaybackStateAnswer::NoContent)
    } else {
        Err(FetchPlaybackStateError::UnexpectedStatusCode(code))
    }
}

/// Why the client stopped.
#[derive(Debug)]
pub enum RunError {
    WebSocketError(tokio_tungstenite::tungstenite::Error),
    UnexpectedClose,
    UnknownMessageType(serde_json::Error),
    PutReplyError(PutReplyError),
    FetchInitialPlaybackStateError(FetchPlaybackStateError),
}

/// The kind of a frame read from the dealer WebSocket.
#[derive(Debug, PartialEq, Eq, Structural, Clone, Copy)]
pub enum FrameKind {
    Text,
    Close,
    /// Binary, ping, pong or a raw frame.
    Other,
}

/// What the client does with a frame.
#[derive(Debug)]
pub enum FrameStep {
    /// Parse the text as a dealer message.
    Parse,
    /// Wait for the next frame.
    Skip,
    /// Stop with this error.
    Stop(RunError),
}

/// Decides what the client does with a frame: text is parsed, a close frame
/// ends the run with `UnexpectedClose`, and any other frame is skipped.
pub fn frame_step(kind: FrameKind) -> (step: FrameStep)
    ensures
        kind == FrameKind::Text <==> step is Parse,
        kind == FrameKind::Close <==> step matches FrameStep::Stop(RunError::UnexpectedClose),
        kind == FrameKind::Other <==> step is Skip,
{
    match kind {
        FrameKind::Text => FrameStep::Parse,
        FrameKind::Close => FrameStep::Stop(RunError::UnexpectedClose),
        FrameKind::Other => FrameStep::Skip,
    }
}

/// The message that a parsed dealer frame carries; a pong carries none.
pub fn response_message(resp: Response) -> (msg: Option<Message>)
    ensures
        match resp {
            Response::Message(m) => msg == Some(m),
            Response::Pong => msg is None,
        },
{
    match resp {
        Response::Message(m) => Some(m),
        Response::Pong => None,
    }
}

/// The device tracked once the playback state at the start of a connection
/// is known: the device of that state where it has an id, the device tracked
/// before otherwise.
pub open spec fn tracked_after_initial_state(
    state: Option<PlaybackState>,
    last: Option<Seq<char>>,
) -> Option<Seq<char>> {
    match state {
        Some(s) => match s.device.id {
            Some(id) => Some(id@),
            None => last,
        },
        None => last,
    }
}

/// The id of the device of a playback state, where there is a state and its
/// device has an id.
pub open spec fn state_device_id(state: Option<PlaybackState>) -> Option<String> {
    match state {
        Some(s) => s.device.id,
        None => None,
    }
}

/// Whatever else a fetched playback state holds (what plays, whether it
/// plays, its context), the device tracked after it is its device where that
/// device has an id; where there is no state or its device has no id, the
/// device tracked before stays.
pub proof fn law_initial_state_tracks_its_device(
    state: Option<PlaybackState>,
    before: Option<String>,
    after: Option<String>,
)
    requires
        opt_view(after) == tracked_after_initial_state(state, opt_view(before)),
    ensures
        state_device_id(state) matches Some(id) ==> opt_view(after) == Some(id@),
        state_device_id(state) is None ==> opt_view(after) == opt_view(before),
{
}

/// Tracks the device of the playback state at the start of a connection.
pub fn track_initial_state(state: &Option<PlaybackState>, last_active_device_id: &mut Option<String>)
    ensures
        opt_view(*final(last_active_device_id)) == tracked_after_initial_state(
            *state,
            opt_view(*old(last_active_device_id)),
        ),
        state_device_id(*state) is Some ==> *final(last_active_device_id) == state_device_id(*state),
        state_device_id(*state) is None ==> *final(last_active_device_id) == *old(last_active_device_id),
{
    match state {
        Some(s) => match &s.device.id {
            Some(id) => {
                *last_active_device_id = Some(id.clone());
            },
            None => {},
        },
        None => {},
    }
}

/// What a run of the client has been told, in order: the playback state
/// fetched when the connection was activated, and the dealer messages with
/// their payloads parsed.
pub enum DealerInput {
    InitialState(Option<PlaybackState>),
    Message(Message, Option<Vec<ParsedPayload>>),
}

/// The device ids that an input reports, in order: the device of the initial
/// playback state where it has an id, and the devices of the player states
/// among the handled events of a message.
pub open spec fn input_reports(input: DealerInput) -> Seq<Seq<char>> {
    match input {
        DealerInput::InitialState(state) => match tracked_after_initial_state(state, None) {
            Some(id) => seq![id],
            None => Seq::empty(),
        },
        DealerInput::Message(msg, payloads) => reported_ids(handled(msg, payloads).1),
    }
}

/// The device ids that the inputs report, in order.
pub open spec fn history_reports(history: Seq<DealerInput>) -> Seq<Seq<char>>
    decreases history.len(),
{
    if history.len() == 0 {
        Seq::empty()
    } else {
        history_reports(history.drop_last()) + input_reports(history.last())
    }
}

/// The device tracked across the messages of a run, starting with none.
pub struct Session {
    last_active_device_id: Option<String>,
    history: Ghost<Seq<DealerInput>>,
}

impl Session {
    /// The inputs so far.
    pub closed spec fn history(&self) -> Seq<DealerInput> {
        self.history@
    }

    /// The device tracked now.
    pub closed spec fn active_device(&self) -> Option<Seq<char>> {
        opt_view(self.last_active_device_id)
    }

    #[verifier::type_invariant]
    closed spec fn inv(&self) -> bool {
        opt_view(self.last_active_device_id) == latest(history_reports(self.history@), None)
    }

    /// A run that has been told nothing and tracks no device.
    pub fn new() -> (s: Session)
        ensures
            s.history() == Seq::<DealerInput>::empty(),
            s.active_device() is None,
    {
        Session { last_active_device_id: None, history: Ghost(Seq::empty()) }
    }

    /// The device tracked now: the last one that an input so far reported,
    /// none where no input reported one.
    pub fn tracked_device(&self) -> (r: &Option<String>)
        ensures
            opt_view(*r) == self.active_device(),
            self.active_device() == latest(history_reports(self.history()), None),
    {
        proof {
            use_type_invariant(self);
        }
        &self.last_active_device_id
    }

    fn current(&self) -> (r: Option<String>)
        ensures
            opt_view(r) == self.active_device(),
    {
        match &self.last_active_device_id {
            Some(id) => Some(id.clone()),
            None => None,
        }
    }

    proof fn lemma_step(history: Seq<DealerInput>, input: DealerInput)
        ensures
            latest(history_reports(history.push(input)), None) == latest(
                input_reports(input),
                latest(history_reports(history), None),
            ),
    {
        assert(history.push(input).drop_last() =~= history);
        assert(history.push(input).last() == input);
        let a = history_reports(history);
        let b = input_reports(input);
        if b.len() > 0 {
            assert((a + b).last() == b.last());
        } else {
            assert(a + b =~= a);
        }
    }

    /// Tracks the device of the playback state fetched when the connection
    /// was activated.
    pub fn initial_state(&mut self, state: &Option<PlaybackState>)
        ensures
            final(self).history() == old(self).history().push(DealerInput::InitialState(*state)),
            final(self).active_device() == tracked_after_initial_state(*state, old(self).active_device()),
            state_device_id(*state) is Some ==> final(self).active_device() == opt_view(
                state_device_id(*state),
            ),
            state_device_id(*state) is None ==> final(self).active_device() == old(self).active_device(),
            final(self).active_device() == latest(history_reports(final(self).history()), None),
    {
        proof {
            use_type_invariant(&*self);
            Self::lemma_step(self.history@, DealerInput::InitialState(*state));
        }
        let mut last = self.current();
        track_initial_state(state, &mut last);
        let ghost h = self.history@.push(DealerInput::InitialState(*state));
        *self = Session { last_active_device_id: last, history: Ghost(h) };
    }

    /// Handles a dealer message with its payloads parsed as `payloads`, as
    /// [`handle_wss_event`] does, with the device tracked so far.
    pub fn handle_wss_event(&mut self, msg: &Message, payloads: &Option<Vec<ParsedPayload>>) -> (actions: Vec<WssAction>)
        requires
            payloads_match(*msg, *payloads),
        ensures
            wss_outcome(*msg, *payloads, old(self).active_device(), actions@, final(self).active_device()),
            final(self).history() == old(self).history().push(
                DealerInput::Message(*msg, *payloads),
            ),
            final(self).active_device() == latest(history_reports(final(self).history()), None),
    {
        proof {
            use_type_invariant(&*self);
            Self::lemma_step(self.history@, DealerInput::Message(*msg, *payloads));
        }
        let mut last = self.current();
        let actions = handle_wss_event(msg, payloads, &mut last);
        proof {
            crate::wss::law_tracked_device_is_the_last_reported(
                *msg,
                *payloads,
                old(self).active_device(),
                actions@,
                opt_view(last),
            );
        }
        let ghost h = self.history@.push(DealerInput::Message(*msg, *payloads));
        *self = Session { last_active_device_id: last, history: Ghost(h) };
        actions
    }
}

/// Where the handling of one dealer message stands. The handling goes
/// through these phases in this order, skipping some.
#[derive(Debug, PartialEq, Eq, Structural, Clone, Copy)]
pub enum MessagePhase {
    /// The message has been parsed; nothing has been done with it.
    Arrived,
    /// The handlers have been given the raw message.
    Announced,
    /// The connection's activation has been requested.
    Activating,
    /// The playback state has been requested.
    Fetching,
    /// The handlers are being given the fetched playback state.
    AnnouncingInitialState,
    /// The message is being handled as a `wss://event`.
    Handling,
    /// Nothing is left to do with the message.
    Finished,
}

/// What the caller reports of the step it was asked to take.
#[derive(Debug)]
pub enum MessageEvent {
    /// The message has been parsed (in phase `Arrived`).
    Begin,
    /// Every handler has been given the raw message.
    RawMessageAnnounced,
    /// The activation request was answered with this status code.
    ActivationAnswered(u16),
    /// The activation request could not be sent or read.
    ActivationFailed(reqwest::Error),
    /// The playback state was fetched, or fetching it failed.
    InitialStateFetched(Result<Option<PlaybackState>, FetchPlaybackStateError>),
    /// Every handler has been given the fetched playback state.
    InitialStateAnnounced,
    /// The message has been handled as a `wss://event`.
    WssEventHandled,
}

/// The next step of the handling of a dealer message.
#[derive(Debug)]
pub enum MessageAction {
    /// Give every handler the raw message (`raw_message`).
    AnnounceRawMessage,
    /// Request the activation of the connection with this id.
    Activate(String),
    /// Request the playback state (`GET /v1/me/player`).
    FetchInitialState,
    /// Give every handler the fetched state: `initial_playback_state` and then
    /// `on_playback_state_update`, both for one handler before the next.
    AnnounceInitialState,
    /// Handle the message with [`Session::handle_wss_event`], after a
    /// warning that a `PUT` went to an unknown URI where asked.
    HandleWssEvent { unknown_put_uri: bool },
    /// The message is done with; read the next frame.
    Finish,
    /// End the run with this error.
    Stop(RunError),
}

/// Whether `event` is what the caller reports in `phase`.
pub open spec fn event_fits(phase: MessagePhase, event: MessageEvent) -> bool {
    match phase {
        MessagePhase::Arrived => event is Begin,
        MessagePhase::Announced => event is RawMessageAnnounced,
        MessagePhase::Activating => event is ActivationAnswered || event is ActivationFailed,
        MessagePhase::Fetching => event is InitialStateFetched,
        MessagePhase::AnnouncingInitialState => event is InitialStateAnnounced,
        MessagePhase::Handling => event is WssEventHandled,
        MessagePhase::Finished => false,
    }
}

/// The place of a phase in the order of the handling.
pub open spec fn phase_rank(phase: MessagePhase) -> int {
    match phase {
        MessagePhase::Arrived => 0,
        MessagePhase::Announced => 1,
        MessagePhase::Activating => 2,
        MessagePhase::Fetching => 3,
        MessagePhase::AnnouncingInitialState => 4,
        MessagePhase::Handling => 5,
        MessagePhase::Finished => 6,
    }
}

/// The phase that the handling of `msg` goes to from `phase` on `event`.
pub open spec fn next_phase(phase: MessagePhase, msg: Message, event: MessageEvent) -> MessagePhase {
    match phase {
        MessagePhase::Arrived => MessagePhase::Announced,
        MessagePhase::Announced => {
            let put = opt_view(msg.method) == Some("PUT"@);
            let connection = has_prefix(msg.uri@, "hm://pusher/v1/connections/"@);
            if !put || !connection {
                MessagePhase::Handling
            } else if needs_activation(msg) {
                MessagePhase::Activating
            } else {
                MessagePhase::Finished
            }
        },
        MessagePhase::Activating => match event {
            MessageEvent::ActivationAnswered(code) => if code == 200 {
                MessagePhase::Fetching
            } else {
                MessagePhase::Finished
            },
            _ => MessagePhase::Finished,
        },
        MessagePhase::Fetching => match event {
            MessageEvent::InitialStateFetched(Ok(_)) => MessagePhase::AnnouncingInitialState,
            _ => MessagePhase::Finished,
        },
        MessagePhase::AnnouncingInitialState => MessagePhase::Handling,
        _ => MessagePhase::Finished,
    }
}

impl Session {
    /// Decides the next step of the handling of a dealer message, in the
    /// order: give the handlers the raw message; where the message asks for
    /// it, activate the connection, fetch the playback state, track its
    /// device and give it to the handlers; then handle the message as a
    /// `wss://event`. A failed reply or fetch ends the run.
    pub fn message_step(&mut self, msg: &Message, phase: MessagePhase, event: MessageEvent) -> (res: (
        MessagePhase,
        MessageAction,
    ))
        requires
            event_fits(phase, event),
        ensures
            res.0 == next_phase(phase, *msg, event),
            phase_rank(res.0) > phase_rank(phase),
            phase == MessagePhase::Arrived ==> res.1 is AnnounceRawMessage,
            phase == MessagePhase::Announced ==> {
                let put = opt_view(msg.method) == Some("PUT"@);
                let connection = has_prefix(msg.uri@, "hm://pusher/v1/connections/"@);
                &&& !put ==> (res.1 matches MessageAction::HandleWssEvent { unknown_put_uri } && !unknown_put_uri)
                &&& put && !connection ==> (res.1 matches MessageAction::HandleWssEvent { unknown_put_uri } && unknown_put_uri)
                &&& put && connection && !needs_activation(*msg) ==> (res.1 matches MessageAction::Stop(
                    RunError::PutReplyError(PutReplyError::ConnectionIdIsNotFound),
                ))
                &&& needs_activation(*msg) ==> (res.1 matches MessageAction::Activate(id) && id@
                    == msg.headers@[connection_id_header()])
            },
            phase == MessagePhase::Activating ==> match event {
                MessageEvent::ActivationAnswered(code) => if code == 200 {
                    res.1 is FetchInitialState
                } else {
                    res.1 matches MessageAction::Stop(
                        RunError::PutReplyError(PutReplyError::UnexpectedStatusCode(c)),
                    ) && c == code
                },
                MessageEvent::ActivationFailed(e) => res.1 matches MessageAction::Stop(
                    RunError::PutReplyError(PutReplyError::RequestError(e2)),
                ) && e2 == e,
                _ => true,
            },
            phase == MessagePhase::Fetching ==> match event {
                MessageEvent::InitialStateFetched(Ok(state)) => {
                    &&& res.1 is AnnounceInitialState
                    &&& final(self).history() == old(self).history().push(
                        DealerInput::InitialState(state),
                    )
                    &&& final(self).active_device() == tracked_after_initial_state(
                        state,
                        old(self).active_device(),
                    )
                },
                MessageEvent::InitialStateFetched(Err(e)) => res.1 matches MessageAction::Stop(
                    RunError::FetchInitialPlaybackStateError(e2),
                ) && e2 == e,
                _ => true,
            },
            phase == MessagePhase::AnnouncingInitialState ==> (res.1 matches MessageAction::HandleWssEvent { unknown_put_uri } && !unknown_put_uri),
            phase == MessagePhase::Handling ==> res.1 is Finish,
            !(phase == MessagePhase::Fetching && event matches MessageEvent::InitialStateFetched(Ok(_)))
                ==> final(self).history() == old(self).history() && final(self).active_device()
                == old(self).active_device(),
            final(self).active_device() == latest(history_reports(final(self).history()), None),
    {
        proof {
            use_type_invariant(&*self);
        }
        match phase {
            MessagePhase::Arrived => (MessagePhase::Announced, MessageAction::AnnounceRawMessage),
            MessagePhase::Announced => match put_reply(msg) {
                Ok(PutReply::NotNeeded) => (
                    MessagePhase::Handling,
                    MessageAction::HandleWssEvent { unknown_put_uri: false },
                ),
                Ok(PutReply::UnknownUri) => (
                    MessagePhase::Handling,
                    MessageAction::HandleWssEvent { unknown_put_uri: true },
                ),
                Ok(PutReply::Activate(id)) => (MessagePhase::Activating, MessageAction::Activate(id)),
                Err(e) => (MessagePhase::Finished, MessageAction::Stop(RunError::PutReplyError(e))),
            },
            MessagePhase::Activating => match event {
                MessageEvent::ActivationAnswered(code) => match put_reply_result(code) {
                    Ok(_) => (MessagePhase::Fetching, MessageAction::FetchInitialState),
                    Err(e) => (MessagePhase::Finished, MessageAction::Stop(RunError::PutReplyError(e))),
                },
                MessageEvent::ActivationFailed(e) => (
                    MessagePhase::Finished,
                    MessageAction::Stop(RunError::PutReplyError(PutReplyError::RequestError(e))),
                ),
                _ => (MessagePhase::Finished, MessageAction::Finish),
            },
            MessagePhase::Fetching => match event {
                MessageEvent::InitialStateFetched(Ok(state)) => {
                    self.initial_state(&state);
                    (MessagePhase::AnnouncingInitialState, MessageAction::AnnounceInitialState)
                },
                MessageEvent::InitialStateFetched(Err(e)) => (
                    MessagePhase::Finished,
                    MessageAction::Stop(RunError::FetchInitialPlaybackStateError(e)),
                ),
                _ => (MessagePhase::Finished, MessageAction::Finish),
            },
            MessagePhase::AnnouncingInitialState => (
                MessagePhase::Handling,
                MessageAction::HandleWssEvent { unknown_put_uri: false },
            ),
            _ => (MessagePhase::Finished, MessageAction::Finish),
        }
    }
}

/// The handling of a dealer message only moves forward through its phases,
/// so each step is taken at most once for a message: the raw message, the
/// activation, the fetch, the announcement of the fetched state and the
/// `wss://event` handling come in this order.
pub proof fn law_message_phases_move_forward(phase: MessagePhase, msg: Message, event: MessageEvent)
    requires
        event_fits(phase, event),
    ensures
        phase_rank(next_phase(phase, msg, event)) > phase_rank(phase),
{
}

/// Across a run, the device handed to the handling of each message is the
/// last one reported so far, by the initial playback states and by the
/// handled player states of earlier messages; none before any is reported.
/// Each input moves it on to the last one that the input reports, if any.
pub proof fn law_tracked_device_across_messages(history: Seq<DealerInput>, input: DealerInput)
    ensures
        latest(history_reports(Seq::empty()), None) is None,
        latest(history_reports(history.push(input)), None) == latest(
            input_reports(input),
            latest(history_reports(history), None),
        ),
{
    Session::lemma_step(history, input);
}

/// The shared part of a [`Client`]: the token and the event handlers.
pub struct ClientInner<H> {
    token: String,
    handlers: Vec<H>,
}

/// `Arc::clone`: a new handle to the same shared value, so the value seen
/// through it is the one seen through `a`.
#[verifier::external_body]
fn arc_clone<T>(a: &std::sync::Arc<T>) -> (res: std::sync::Arc<T>)
    ensures
        res == *a,
{
    std::sync::Arc::clone(a)
}

/// A client of the dealer WebSocket, with its token and its event handlers.
/// Clones share the same token and handlers.
pub struct Client<H> {
    inner: std::sync::Arc<ClientInner<H>>,
}

impl<H> Clone for Client<H> {
    /// Another handle to the same client: same token, same handlers in the
    /// same order.
    fn clone(&self) -> (res: Self)
        ensures
            res.spec_token() == self.spec_token(),
            res.spec_handlers() == self.spec_handlers(),
    {
        Client { inner: arc_clone(&self.inner) }
    }
}

impl<H> Client<H> {
    /// The token of the client.
    pub closed spec fn spec_token(&self) -> Seq<char> {
        self.inner.token@
    }

    /// The event handlers, in the order in which they were added.
    pub closed spec fn spec_handlers(&self) -> Seq<H> {
        self.inner.handlers@
    }

    /// The token of the client.
    pub fn token(&self) -> (t: &str)
        ensures
            t@ == self.spec_token(),
    {
        self.inner.token.as_str()
    }

    /// The event handlers, in the order in which they were added.
    pub fn handlers(&self) -> (h: &Vec<H>)
        ensures
            h@ == self.spec_handlers(),
    {
        &self.inner.handlers
    }
}

/// Gathers a token and event handlers into a [`Client`].
pub struct ClientBuilder<H> {
    token: String,
    handlers: Vec<H>,
}

impl<H: Clone> Clone for ClientBuilder<H> {
    /// A builder with the same token and a clone of each handler, in the same
    /// order.
    fn clone(&self) -> (res: Self)
        ensures
            res.spec_token() == self.spec_token(),
            res.spec_handlers().len() == self.spec_handlers().len(),
            forall|i: int|
                0 <= i < self.spec_handlers().len() ==> cloned::<H>(
                    self.spec_handlers()[i],
                    #[trigger] res.spec_handlers()[i],
                ),
    {
        ClientBuilder { token: self.token.clone(), handlers: self.handlers.clone() }
    }
}

impl<H> ClientBuilder<H> {
    /// The token that the client will use.
    pub closed spec fn spec_token(&self) -> Seq<char> {
        self.token@
    }

    /// The handlers added so far, in order.
    pub closed spec fn spec_handlers(&self) -> Seq<H> {
        self.handlers@
    }

    /// A builder with this token and no handlers.
    pub fn new(token: &str) -> (b: Self)
        ensures
            b.spec_token() == token@,
            b.spec_handlers() == Seq::<H>::empty(),
    {
        ClientBuilder { token: token.to_owned(), handlers: Vec::new() }
    }

    /// Adds a handler after those added before.
    pub fn handler(self, handler: H) -> (b: Self)
        ensures
            b.spec_token() == self.spec_token(),
            b.spec_handlers() == self.spec_handlers().push(handler),
    {
        let mut b = self;
        b.handlers.push(handler);
        b
    }

    /// The client with this token and these handlers, in the order added.
    pub fn build(self) -> (c: Client<H>)
        ensures
            c.spec_token() == self.spec_token(),
            c.spec_handlers() == self.spec_handlers(),
    {
        Client {
            inner: std::sync::Arc::new(ClientInner { handlers: self.handlers, token: self.token }),
        }
    }
}

} // verus!
