use spotnowplay::api::{
    Device, DeviceType, Message, PlaybackState, PlaybackStateActionDisalllows,
    PlaybackStateActions, RepeatState, CurrentlyPlayingType, Response, StringMap,
};
use spotnowplay::{
    MessageAction, MessageEvent, MessagePhase, Session,
    frame_step, playback_state_answer, put_reply, put_reply_result, response_message,
    token_availability, track_initial_state, FetchPlaybackStateError, FrameKind, FrameStep,
    PlaybackStateAnswer, PutReply, PutReplyError, RunError, TokenAvailabilityCheckError,
};

fn message(method: Option<&str>, uri: &str, headers: &[(&str, &str)]) -> Message {
    let mut map = StringMap::new();
    for (k, v) in headers {
        map.insert(k.to_string(), v.to_string());
    }
    Message {
        headers: map,
        payloads: None,
        method: method.map(|m| m.to_string()),
        uri: uri.to_string(),
    }
}

fn device(id: Option<&str>) -> Device {
    Device {
        id: id.map(|s| s.to_string()),
        is_active: true,
        is_private_session: false,
        is_restricted: false,
        name: "desk".to_string(),
        kind: DeviceType::Computer,
        volume_percent: Some(50),
        supports_volume: true,
    }
}

fn playback_state(id: Option<&str>) -> PlaybackState {
    let disallows = PlaybackStateActionDisalllows {
        interrupting_playback: None,
        pausing: None,
        resuming: Some(true),
        seeking: None,
        skipping_next: None,
        skipping_prev: None,
        toggling_repeat_context: None,
        toggling_shuffle: None,
        toggling_repeat_track: None,
        transferring_playback: None,
    };
    PlaybackState {
        device: device(id),
        repeat_state: RepeatState::Off,
        shuffle_state: false,
        context: None,
        timestamp: 1,
        progress_ms: Some(0),
        is_playing: true,
        item: None,
        currently_playing_type: CurrentlyPlayingType::Track,
        actions: PlaybackStateActions {
            interrupting_playback: None,
            pausing: None,
            resuming: None,
            seeking: None,
            skipping_next: None,
            skipping_prev: None,
            toggling_repeat_context: None,
            toggling_shuffle: None,
            toggling_repeat_track: None,
            transferring_playback: None,
            disallows,
        },
    }
}

#[test]
fn token_is_available_on_ok() {
    assert!(matches!(token_availability(200), Ok(true)));
}

#[test]
fn token_is_not_available_on_unauthorized() {
    assert!(matches!(token_availability(401), Ok(false)));
}

#[test]
fn token_check_fails_on_other_codes() {
    assert!(matches!(
        token_availability(500),
        Err(TokenAvailabilityCheckError::UnexpectedStatusCode(500))
    ));
    assert!(matches!(
        token_availability(204),
        Err(TokenAvailabilityCheckError::UnexpectedStatusCode(204))
    ));
}

#[test]
fn non_put_messages_need_no_reply() {
    let msg = message(None, "hm://pusher/v1/connections/abc", &[("Spotify-Connection-Id", "abc")]);
    assert_eq!(put_reply(&msg).unwrap(), PutReply::NotNeeded);
    let msg = message(Some("GET"), "hm://pusher/v1/connections/abc", &[]);
    assert_eq!(put_reply(&msg).unwrap(), PutReply::NotNeeded);
    let msg = message(Some("put"), "hm://pusher/v1/connections/abc", &[]);
    assert_eq!(put_reply(&msg).unwrap(), PutReply::NotNeeded);
}

#[test]
fn put_to_unknown_uri_is_only_warned() {
    let msg = message(Some("PUT"), "hm://pusher/v1/other", &[("Spotify-Connection-Id", "abc")]);
    assert_eq!(put_reply(&msg).unwrap(), PutReply::UnknownUri);
    let msg = message(Some("PUT"), "hm://pusher/v1/connections", &[]);
    assert_eq!(put_reply(&msg).unwrap(), PutReply::UnknownUri);
}

#[test]
fn put_without_connection_id_is_an_error() {
    let msg = message(Some("PUT"), "hm://pusher/v1/connections/abc", &[("spotify-connection-id", "x")]);
    assert!(matches!(put_reply(&msg), Err(PutReplyError::ConnectionIdIsNotFound)));
}

#[test]
fn put_to_a_connection_activates_it() {
    let msg = message(
        Some("PUT"),
        "hm://pusher/v1/connections/abc",
        &[("Other", "1"), ("Spotify-Connection-Id", "Y29ubmVjdGlvbg==")],
    );
    assert_eq!(put_reply(&msg).unwrap(), PutReply::Activate("Y29ubmVjdGlvbg==".to_string()));
}

#[test]
fn activation_status_codes() {
    assert!(matches!(put_reply_result(200), Ok(true)));
    assert!(matches!(put_reply_result(202), Err(PutReplyError::UnexpectedStatusCode(202))));
    assert!(matches!(put_reply_result(404), Err(PutReplyError::UnexpectedStatusCode(404))));
}

#[test]
fn playback_state_status_codes() {
    assert_eq!(playback_state_answer(200).unwrap(), PlaybackStateAnswer::ReadBody);
    assert_eq!(playback_state_answer(204).unwrap(), PlaybackStateAnswer::NoContent);
    assert!(matches!(
        playback_state_answer(429),
        Err(FetchPlaybackStateError::UnexpectedStatusCode(429))
    ));
}

#[test]
fn frames_are_parsed_skipped_or_end_the_run() {
    assert!(matches!(frame_step(FrameKind::Text), FrameStep::Parse));
    assert!(matches!(frame_step(FrameKind::Other), FrameStep::Skip));
    assert!(matches!(frame_step(FrameKind::Close), FrameStep::Stop(RunError::UnexpectedClose)));
}

#[test]
fn pong_carries_no_message() {
    assert!(response_message(Response::Pong).is_none());
    let msg = message(None, "wss://event", &[]);
    let got = response_message(Response::Message(msg)).unwrap();
    assert_eq!(got.uri, "wss://event");
}

#[test]
fn initial_state_with_device_id_is_tracked() {
    let mut last = Some("old".to_string());
    track_initial_state(&Some(playback_state(Some("new"))), &mut last);
    assert_eq!(last.as_deref(), Some("new"));
}

#[test]
fn initial_state_without_device_id_keeps_tracking() {
    let mut last = Some("old".to_string());
    track_initial_state(&Some(playback_state(None)), &mut last);
    assert_eq!(last.as_deref(), Some("old"));
    track_initial_state(&None, &mut last);
    assert_eq!(last.as_deref(), Some("old"));
    let mut none: Option<String> = None;
    track_initial_state(&None, &mut none);
    assert_eq!(none, None);
}

#[test]
fn reply_is_ok_only_for_an_answered_activation() {
    let activate = message(Some("PUT"), "hm://pusher/v1/connections/abc", &[("Spotify-Connection-Id", "c")]);
    assert!(matches!(put_reply(&activate), Ok(PutReply::Activate(_))));
    assert!(matches!(put_reply_result(200), Ok(true)));
    let other = message(Some("PUT"), "hm://other", &[("Spotify-Connection-Id", "c")]);
    assert_eq!(put_reply(&other).unwrap(), PutReply::UnknownUri);
}

#[test]
fn message_steps_for_an_activation() {
    let msg = message(Some("PUT"), "hm://pusher/v1/connections/abc", &[("Spotify-Connection-Id", "cid")]);
    let mut session = Session::new();
    let (phase, action) = session.message_step(&msg, MessagePhase::Arrived, MessageEvent::Begin);
    assert_eq!(phase, MessagePhase::Announced);
    assert!(matches!(action, MessageAction::AnnounceRawMessage));
    let (phase, action) = session.message_step(&msg, phase, MessageEvent::RawMessageAnnounced);
    assert_eq!(phase, MessagePhase::Activating);
    match action {
        MessageAction::Activate(id) => assert_eq!(id, "cid"),
        other => panic!("unexpected {:?}", other),
    }
    let (phase, action) = session.message_step(&msg, phase, MessageEvent::ActivationAnswered(200));
    assert_eq!(phase, MessagePhase::Fetching);
    assert!(matches!(action, MessageAction::FetchInitialState));
    let state = Some(playback_state(Some("dev")));
    let (phase, action) = session.message_step(&msg, phase, MessageEvent::InitialStateFetched(Ok(state)));
    assert_eq!(phase, MessagePhase::AnnouncingInitialState);
    assert!(matches!(action, MessageAction::AnnounceInitialState));
    assert_eq!(session.tracked_device().as_deref(), Some("dev"));
    let (phase, action) = session.message_step(&msg, phase, MessageEvent::InitialStateAnnounced);
    assert_eq!(phase, MessagePhase::Handling);
    assert!(matches!(action, MessageAction::HandleWssEvent { unknown_put_uri: false }));
    let (phase, action) = session.message_step(&msg, phase, MessageEvent::WssEventHandled);
    assert_eq!(phase, MessagePhase::Finished);
    assert!(matches!(action, MessageAction::Finish));
}

#[test]
fn message_steps_without_reply() {
    let mut session = Session::new();
    let msg = message(None, "wss://event", &[]);
    let (phase, _) = session.message_step(&msg, MessagePhase::Arrived, MessageEvent::Begin);
    let (phase, action) = session.message_step(&msg, phase, MessageEvent::RawMessageAnnounced);
    assert_eq!(phase, MessagePhase::Handling);
    assert!(matches!(action, MessageAction::HandleWssEvent { unknown_put_uri: false }));
    let put = message(Some("PUT"), "hm://elsewhere", &[]);
    let (phase, action) = session.message_step(&put, MessagePhase::Announced, MessageEvent::RawMessageAnnounced);
    assert_eq!(phase, MessagePhase::Handling);
    assert!(matches!(action, MessageAction::HandleWssEvent { unknown_put_uri: true }));
}

#[test]
fn message_steps_stop_the_run_on_failures() {
    let mut session = Session::new();
    let unnamed = message(Some("PUT"), "hm://pusher/v1/connections/abc", &[]);
    let (phase, action) = session.message_step(&unnamed, MessagePhase::Announced, MessageEvent::RawMessageAnnounced);
    assert_eq!(phase, MessagePhase::Finished);
    assert!(matches!(action, MessageAction::Stop(RunError::PutReplyError(PutReplyError::ConnectionIdIsNotFound))));
    let named = message(Some("PUT"), "hm://pusher/v1/connections/abc", &[("Spotify-Connection-Id", "c")]);
    let (phase, action) = session.message_step(&named, MessagePhase::Activating, MessageEvent::ActivationAnswered(500));
    assert_eq!(phase, MessagePhase::Finished);
    assert!(matches!(
        action,
        MessageAction::Stop(RunError::PutReplyError(PutReplyError::UnexpectedStatusCode(500)))
    ));
    let err = serde_json::from_str::<serde_json::Value>("[").unwrap_err();
    let (phase, action) = session.message_step(
        &named,
        MessagePhase::Fetching,
        MessageEvent::InitialStateFetched(Err(FetchPlaybackStateError::DeserializeError(err))),
    );
    assert_eq!(phase, MessagePhase::Finished);
    assert!(matches!(
        action,
        MessageAction::Stop(RunError::FetchInitialPlaybackStateError(FetchPlaybackStateError::DeserializeError(_)))
    ));
    assert_eq!(session.tracked_device(), &None);
}
