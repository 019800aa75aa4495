use spotnowplay::api::{
    CurrentlyPlayingType, Device, DeviceStateChanged, DeviceType, Event, InnerEvent, Message,
    PlaybackState, PlaybackStateActionDisalllows, PlaybackStateActions, PlayerStateChanged,
    RepeatState, StringMap, User,
};
use spotnowplay::{handle_wss_event, ParsedEvent, ParsedPayload, Session, WssAction, WssWarning};

fn json_error() -> serde_json::Error {
    serde_json::from_str::<serde_json::Value>("{").unwrap_err()
}

fn message(uri: &str, headers: &[(&str, &str)], payloads: usize) -> Message {
    let mut map = StringMap::new();
    for (k, v) in headers {
        map.insert(k.to_string(), v.to_string());
    }
    Message {
        headers: map,
        payloads: if payloads == 0 { None } else { Some(vec![serde_json::Value::Null; payloads]) },
        method: None,
        uri: uri.to_string(),
    }
}

fn event_msg() -> Message {
    message("wss://event", &[("Content-Type", "application/json")], 1)
}

fn device(id: Option<&str>) -> Device {
    Device {
        id: id.map(|s| s.to_string()),
        is_active: false,
        is_private_session: false,
        is_restricted: false,
        name: "speaker".to_string(),
        kind: DeviceType::Speaker,
        volume_percent: None,
        supports_volume: false,
    }
}

fn playback_state(id: Option<&str>) -> PlaybackState {
    let disallows = PlaybackStateActionDisalllows {
        interrupting_playback: None,
        pausing: None,
        resuming: None,
        seeking: None,
        skipping_next: None,
        skipping_prev: None,
        toggling_repeat_context: None,
        toggling_shuffle: None,
        toggling_repeat_track: None,
        transferring_playback: None,
    };
    PlaybackState {
        device: device(id),
        repeat_state: RepeatState::Context,
        shuffle_state: true,
        context: None,
        timestamp: 10,
        progress_ms: None,
        is_playing: false,
        item: None,
        currently_playing_type: CurrentlyPlayingType::Unknown,
        actions: PlaybackStateActions {
            interrupting_playback: None,
            pausing: None,
            resuming: None,
            seeking: None,
            skipping_next: None,
            skipping_prev: None,
            toggling_repeat_context: None,
            toggling_shuffle: None,
            toggling_repeat_track: None,
            transferring_playback: None,
            disallows,
        },
    }
}

fn event(kind: &str) -> Event {
    Event {
        event: InnerEvent { event_id: 1, event_body: serde_json::Value::Null },
        href: "https://api.spotify.com".to_string(),
        source: "player".to_string(),
        kind: kind.to_string(),
        uri: None,
        user: User { id: "user".to_string() },
    }
}

fn devices_event(ids: &[Option<&str>]) -> ParsedEvent {
    ParsedEvent {
        event: event("DEVICE_STATE_CHANGED"),
        device_state_changed: Ok(DeviceStateChanged {
            devices: ids.iter().map(|id| device(*id)).collect(),
        }),
        player_state_changed: Err(json_error()),
    }
}

fn player_event(id: Option<&str>) -> ParsedEvent {
    ParsedEvent {
        event: event("PLAYER_STATE_CHANGED"),
        device_state_changed: Err(json_error()),
        player_state_changed: Ok(PlayerStateChanged { state: playback_state(id) }),
    }
}

fn broken_event(kind: &str) -> ParsedEvent {
    ParsedEvent {
        event: event(kind),
        device_state_changed: Err(json_error()),
        player_state_changed: Err(json_error()),
    }
}

fn payload(events: Vec<ParsedEvent>) -> ParsedPayload {
    ParsedPayload { events: Ok(events) }
}

#[test]
fn other_uris_are_ignored() {
    let msg = message("hm://pusher/v1/connections/x", &[("content-type", "application/json")], 1);
    let mut last = Some("a".to_string());
    let actions = handle_wss_event(&msg, &Some(vec![payload(vec![player_event(Some("b"))])]), &mut last);
    assert!(actions.is_empty());
    assert_eq!(last.as_deref(), Some("a"));
}

#[test]
fn missing_content_type_is_warned() {
    let msg = message("wss://event", &[("accept", "application/json")], 1);
    let mut last = None;
    let actions = handle_wss_event(&msg, &Some(vec![payload(vec![])]), &mut last);
    assert_eq!(actions.len(), 1);
    assert!(matches!(actions[0], WssAction::Warn(WssWarning::MissingContentType)));
}

#[test]
fn other_content_type_is_warned() {
    let msg = message("wss://event", &[("CONTENT-TYPE", "text/plain")], 1);
    let mut last = None;
    let actions = handle_wss_event(&msg, &Some(vec![payload(vec![])]), &mut last);
    assert_eq!(actions.len(), 1);
    match &actions[0] {
        WssAction::Warn(WssWarning::UnknownContentType(v)) => assert_eq!(v, "text/plain"),
        other => panic!("unexpected {:?}", other),
    }
}

#[test]
fn content_type_value_is_compared_exactly() {
    let msg = message("wss://event", &[("content-type", "Application/JSON")], 1);
    let mut last = None;
    let actions = handle_wss_event(&msg, &Some(vec![payload(vec![])]), &mut last);
    assert!(matches!(&actions[0], WssAction::Warn(WssWarning::UnknownContentType(_))));
}

#[test]
fn missing_payloads_are_warned() {
    let msg = message("wss://event", &[("content-type", "application/json")], 0);
    let mut last = None;
    let actions = handle_wss_event(&msg, &None, &mut last);
    assert_eq!(actions.len(), 1);
    assert!(matches!(actions[0], WssAction::Warn(WssWarning::MissingPayloads)));
}

#[test]
fn player_state_is_announced_and_tracked() {
    let mut last = Some("old".to_string());
    let actions = handle_wss_event(
        &event_msg(),
        &Some(vec![payload(vec![player_event(Some("dev1"))])]),
        &mut last,
    );
    assert_eq!(last.as_deref(), Some("dev1"));
    assert_eq!(actions.len(), 3);
    assert!(matches!(actions[0], WssAction::RawWssEvent { payload: 0 }));
    assert!(matches!(actions[1], WssAction::RawEvent { payload: 0, event: 0 }));
    assert!(matches!(actions[2], WssAction::PlayerStateChanged { payload: 0, event: 0 }));
}

#[test]
fn player_state_without_device_id_keeps_tracking() {
    let mut last = Some("old".to_string());
    let actions = handle_wss_event(&event_msg(), &Some(vec![payload(vec![player_event(None)])]), &mut last);
    assert_eq!(last.as_deref(), Some("old"));
    assert!(matches!(actions[2], WssAction::PlayerStateChanged { payload: 0, event: 0 }));
}

#[test]
fn tracked_device_gone_clears_playback() {
    let mut last = Some("dev1".to_string());
    let actions = handle_wss_event(
        &event_msg(),
        &Some(vec![payload(vec![devices_event(&[Some("dev2"), None])])]),
        &mut last,
    );
    assert_eq!(actions.len(), 4);
    assert!(matches!(actions[2], WssAction::PlaybackStateCleared));
    assert!(matches!(actions[3], WssAction::DeviceStateChanged { payload: 0, event: 0 }));
    assert_eq!(last.as_deref(), Some("dev1"));
}

#[test]
fn tracked_device_present_keeps_playback() {
    let mut last = Some("dev2".to_string());
    let actions = handle_wss_event(
        &event_msg(),
        &Some(vec![payload(vec![devices_event(&[Some("dev1"), Some("dev2")])])]),
        &mut last,
    );
    assert_eq!(actions.len(), 3);
    assert!(matches!(actions[2], WssAction::DeviceStateChanged { payload: 0, event: 0 }));
}

#[test]
fn no_tracked_device_never_clears() {
    let mut last = None;
    let actions = handle_wss_event(&event_msg(), &Some(vec![payload(vec![devices_event(&[])])]), &mut last);
    assert_eq!(actions.len(), 3);
    assert!(matches!(actions[2], WssAction::DeviceStateChanged { payload: 0, event: 0 }));
}

#[test]
fn player_state_earlier_in_the_message_is_tracked_for_later_device_lists() {
    let mut last = None;
    let actions = handle_wss_event(
        &event_msg(),
        &Some(vec![payload(vec![player_event(Some("dev9")), devices_event(&[Some("dev1")])])]),
        &mut last,
    );
    assert_eq!(last.as_deref(), Some("dev9"));
    assert_eq!(actions.len(), 6);
    assert!(matches!(actions[3], WssAction::RawEvent { payload: 0, event: 1 }));
    assert!(matches!(actions[4], WssAction::PlaybackStateCleared));
    assert!(matches!(actions[5], WssAction::DeviceStateChanged { payload: 0, event: 1 }));
}

#[test]
fn unknown_event_type_is_warned_and_handling_goes_on() {
    let mut last = None;
    let actions = handle_wss_event(
        &event_msg(),
        &Some(vec![payload(vec![broken_event("SOMETHING_ELSE"), player_event(Some("d"))])]),
        &mut last,
    );
    assert_eq!(actions.len(), 5);
    assert!(matches!(actions[2], WssAction::Warn(WssWarning::UnknownEventType { payload: 0, event: 0 })));
    assert!(matches!(actions[4], WssAction::PlayerStateChanged { payload: 0, event: 1 }));
    assert_eq!(last.as_deref(), Some("d"));
}

#[test]
fn bad_payload_ends_handling() {
    let msg = message("wss://event", &[("content-type", "application/json")], 2);
    let mut last = None;
    let payloads = Some(vec![
        ParsedPayload { events: Err(json_error()) },
        payload(vec![player_event(Some("d"))]),
    ]);
    let actions = handle_wss_event(&msg, &payloads, &mut last);
    assert_eq!(actions.len(), 2);
    assert!(matches!(actions[0], WssAction::RawWssEvent { payload: 0 }));
    assert!(matches!(actions[1], WssAction::Warn(WssWarning::EventsParseFailed { payload: 0 })));
    assert_eq!(last, None);
}

#[test]
fn bad_event_body_ends_handling() {
    let msg = message("wss://event", &[("content-type", "application/json")], 2);
    let mut last = None;
    let payloads = Some(vec![
        payload(vec![player_event(Some("a")), broken_event("DEVICE_STATE_CHANGED"), player_event(Some("b"))]),
        payload(vec![player_event(Some("c"))]),
    ]);
    let actions = handle_wss_event(&msg, &payloads, &mut last);
    assert_eq!(actions.len(), 5);
    assert!(matches!(
        actions[4],
        WssAction::Warn(WssWarning::DeviceStateChangedParseFailed { payload: 0, event: 1 })
    ));
    assert_eq!(last.as_deref(), Some("a"));
}

#[test]
fn bad_player_state_body_ends_handling() {
    let mut last = Some("x".to_string());
    let actions = handle_wss_event(
        &event_msg(),
        &Some(vec![payload(vec![broken_event("PLAYER_STATE_CHANGED"), devices_event(&[])])]),
        &mut last,
    );
    assert_eq!(actions.len(), 3);
    assert!(matches!(
        actions[2],
        WssAction::Warn(WssWarning::PlayerStateChangedParseFailed { payload: 0, event: 0 })
    ));
    assert_eq!(last.as_deref(), Some("x"));
}

#[test]
fn every_payload_is_announced_in_order() {
    let msg = message("wss://event", &[("content-type", "application/json")], 2);
    let mut last = None;
    let payloads = Some(vec![payload(vec![]), payload(vec![devices_event(&[])])]);
    let actions = handle_wss_event(&msg, &payloads, &mut last);
    assert_eq!(actions.len(), 4);
    assert!(matches!(actions[0], WssAction::RawWssEvent { payload: 0 }));
    assert!(matches!(actions[1], WssAction::RawWssEvent { payload: 1 }));
    assert!(matches!(actions[2], WssAction::RawEvent { payload: 1, event: 0 }));
    assert!(matches!(actions[3], WssAction::DeviceStateChanged { payload: 1, event: 0 }));
}

#[test]
fn tracked_device_is_the_last_player_state_of_the_message() {
    let msg = message("wss://event", &[("content-type", "application/json")], 2);
    let mut last = Some("old".to_string());
    let payloads = Some(vec![
        payload(vec![player_event(Some("a")), player_event(Some("b"))]),
        payload(vec![player_event(None), devices_event(&[Some("b")])]),
    ]);
    let actions = handle_wss_event(&msg, &payloads, &mut last);
    assert_eq!(last.as_deref(), Some("b"));
    assert_eq!(actions.len(), 10);
    assert!(matches!(actions[7], WssAction::PlayerStateChanged { payload: 1, event: 0 }));
    assert!(matches!(actions[9], WssAction::DeviceStateChanged { payload: 1, event: 1 }));
}

#[test]
fn session_tracks_the_device_across_messages() {
    let mut session = Session::new();
    assert_eq!(session.tracked_device(), &None);

    let mut first = Some(playback_state(Some("initial")));
    session.initial_state(&first);
    assert_eq!(session.tracked_device().as_deref(), Some("initial"));

    let actions = session.handle_wss_event(&event_msg(), &Some(vec![payload(vec![devices_event(&[Some("other")])])]));
    assert!(matches!(actions[2], WssAction::PlaybackStateCleared));
    assert_eq!(session.tracked_device().as_deref(), Some("initial"));

    let actions = session.handle_wss_event(&event_msg(), &Some(vec![payload(vec![player_event(Some("next"))])]));
    assert!(matches!(actions[2], WssAction::PlayerStateChanged { payload: 0, event: 0 }));
    assert_eq!(session.tracked_device().as_deref(), Some("next"));

    let ignored = message("hm://pusher/v1/connections/x", &[], 0);
    let actions = session.handle_wss_event(&ignored, &None);
    assert!(actions.is_empty());
    assert_eq!(session.tracked_device().as_deref(), Some("next"));

    first = None;
    session.initial_state(&first);
    assert_eq!(session.tracked_device().as_deref(), Some("next"));
}
