//! What a `wss://event` message asks of the event handlers.
//!
//! The handling of a dealer message is split in two: the caller parses the
//! payloads and runs the handlers; [`handle_wss_event`] decides, from the
//! message, the parse results and the device that was last seen playing,
//! which handler calls are made, in which order, and which device is tracked
//! afterwards.
use vstd::prelude::*;

use crate::api::{DeviceStateChanged, Device, Event, Message, PlayerStateChanged};
use crate::string_map::first_lowercase_match;
use crate::text::{opt_str_eq, opt_view, str_eq};

verus! {

/// A parse error of serde_json.
#[verifier::external_type_specification]
#[verifier::external_body]
pub struct ExJsonError(serde_json::Error);

/// One event of a payload, with its body parsed both as a
/// `DEVICE_STATE_CHANGED` body and as a `PLAYER_STATE_CHANGED` body.
#[derive(Debug)]
pub struct ParsedEvent {
    pub event: Event,
    pub device_state_changed: Result<DeviceStateChanged, serde_json::Error>,
    pub player_state_changed: Result<PlayerStateChanged, serde_json::Error>,
}

/// One payload of a `wss://event` message, parsed as a list of events.
#[derive(Debug)]
pub struct ParsedPayload {
    pub events: Result<Vec<ParsedEvent>, serde_json::Error>,
}

/// A condition worth a warning in the log.
#[derive(Debug)]
pub enum WssWarning {
    /// The message has no `content-type` header.
    MissingContentType,
    /// The `content-type` header is not `application/json`; it holds this.
    UnknownContentType(String),
    /// The message has no payloads.
    MissingPayloads,
    /// The payload at this index is not a list of events.
    EventsParseFailed { payload: usize },
    /// The body of this `DEVICE_STATE_CHANGED` event did not parse.
    DeviceStateChangedParseFailed { payload: usize, event: usize },
    /// The body of this `PLAYER_STATE_CHANGED` event did not parse.
    PlayerStateChangedParseFailed { payload: usize, event: usize },
    /// This event has a type that is not handled.
    UnknownEventType { payload: usize, event: usize },
}

/// One step of the handling, in the order in which the steps are taken.
/// Each step that calls handlers calls every handler, in the order in which
/// they were added.
#[derive(Debug)]
pub enum WssAction {
    /// `raw_wss_event` with the payload at this index.
    RawWssEvent { payload: usize },
    /// `raw_event` with this event.
    RawEvent { payload: usize, event: usize },
    /// `on_playback_state_update(None)`: the tracked device is gone.
    PlaybackStateCleared,
    /// `device_state_changed` with the devices of this event.
    DeviceStateChanged { payload: usize, event: usize },
    /// `player_state_changed` and then `on_playback_state_update` with the
    /// state of this event, both for one handler before the next handler.
    PlayerStateChanged { payload: usize, event: usize },
    /// A warning for the log.
    Warn(WssWarning),
}

/// Whether one of `devices` has the id `id`.
pub open spec fn device_listed(devices: Seq<Device>, id: Seq<char>) -> bool {
    exists|i: int| 0 <= i < devices.len() && opt_view(#[trigger] devices[i].id) == Some(id)
}

/// The steps for the event at index `e` of payload `p`, the device tracked
/// afterwards, and whether the handling stops there.
pub open spec fn event_step(pe: ParsedEvent, p: usize, e: usize, last: Option<Seq<char>>) -> (
    Seq<WssAction>,
    Option<Seq<char>>,
    bool,
) {
    let raw = seq![WssAction::RawEvent { payload: p, event: e }];
    if pe.event.kind@ == "DEVICE_STATE_CHANGED"@ {
        match pe.device_state_changed {
            Ok(dsc) => {
                let cleared = match last {
                    Some(id) => !device_listed(dsc.devices@, id),
                    None => false,
                };
                let mid = if cleared {
                    raw.push(WssAction::PlaybackStateCleared)
                } else {
                    raw
                };
                (mid.push(WssAction::DeviceStateChanged { payload: p, event: e }), last, false)
            },
            Err(_) => (
                raw.push(
                    WssAction::Warn(
                        WssWarning::DeviceStateChangedParseFailed { payload: p, event: e },
                    ),
                ),
                last,
                true,
            ),
        }
    } else if pe.event.kind@ == "PLAYER_STATE_CHANGED"@ {
        match pe.player_state_changed {
            Ok(psc) => (
                raw.push(WssAction::PlayerStateChanged { payload: p, event: e }),
                match psc.state.device.id {
                    Some(d) => Some(d@),
                    None => last,
                },
                false,
            ),
            Err(_) => (
                raw.push(
                    WssAction::Warn(
                        WssWarning::PlayerStateChangedParseFailed { payload: p, event: e },
                    ),
                ),
                last,
                true,
            ),
        }
    } else {
        (
            raw.push(WssAction::Warn(WssWarning::UnknownEventType { payload: p, event: e })),
            last,
            false,
        )
    }
}

/// The events of payload `p` taken one after the other, until one stops the
/// handling.
pub open spec fn events_plan(evs: Seq<ParsedEvent>, p: usize, last: Option<Seq<char>>) -> (
    Seq<WssAction>,
    Option<Seq<char>>,
    bool,
)
    decreases evs.len(),
{
    if evs.len() == 0 {
        (Seq::empty(), last, false)
    } else {
        let prev = events_plan(evs.drop_last(), p, last);
        if prev.2 {
            prev
        } else {
            let st = event_step(evs.last(), p, (evs.len() - 1) as usize, prev.1);
            (prev.0 + st.0, st.1, st.2)
        }
    }
}

/// The steps for the payload at index `p`.
pub open spec fn payload_step(pp: ParsedPayload, p: usize, last: Option<Seq<char>>) -> (
    Seq<WssAction>,
    Option<Seq<char>>,
    bool,
) {
    let raw = seq![WssAction::RawWssEvent { payload: p }];
    match pp.events {
        Ok(evs) => {
            let r = events_plan(evs@, p, last);
            (raw + r.0, r.1, r.2)
        },
        Err(_) => (
            raw.push(WssAction::Warn(WssWarning::EventsParseFailed { payload: p })),
            last,
            true,
        ),
    }
}

/// The payloads taken one after the other, until one stops the handling.
pub open spec fn payloads_plan(ps: Seq<ParsedPayload>, last: Option<Seq<char>>) -> (
    Seq<WssAction>,
    Option<Seq<char>>,
    bool,
)
    decreases ps.len(),
{
    if ps.len() == 0 {
        (Seq::empty(), last, false)
    } else {
        let prev = payloads_plan(ps.drop_last(), last);
        if prev.2 {
            prev
        } else {
            let st = payload_step(ps.last(), (ps.len() - 1) as usize, prev.1);
            (prev.0 + st.0, st.1, st.2)
        }
    }
}

/// Whether `payloads` are the parse results of the payloads of `msg`: there
/// is one for each payload, and none where the message has no payloads.
pub open spec fn payloads_match(msg: Message, payloads: Option<Vec<ParsedPayload>>) -> bool {
    match (msg.payloads, payloads) {
        (Some(raw), Some(parsed)) => raw@.len() == parsed@.len(),
        (None, None) => true,
        _ => false,
    }
}

/// What handling `msg` does, with the payloads parsed as `payloads` (`None`
/// where the message has none) and `last` the device tracked before: the
/// steps `actions`, and `next`, the device tracked after.
pub open spec fn wss_outcome(
    msg: Message,
    payloads: Option<Vec<ParsedPayload>>,
    last: Option<Seq<char>>,
    actions: Seq<WssAction>,
    next: Option<Seq<char>>,
) -> bool {
    if msg.uri@ != "wss://event"@ {
        actions == Seq::<WssAction>::empty() && next == last
    } else {
        match first_lowercase_match(msg.headers.pairs(), "content-type"@) {
            None => actions == seq![WssAction::Warn(WssWarning::MissingContentType)] && next
                == last,
            Some(ct) => if ct != "application/json"@ {
                &&& actions.len() == 1
                &&& actions[0] matches WssAction::Warn(WssWarning::UnknownContentType(v))
                &&& v@ == ct
                &&& next == last
            } else {
                match payloads {
                    None => actions == seq![WssAction::Warn(WssWarning::MissingPayloads)] && next
                        == last,
                    Some(ps) => {
                        let r = payloads_plan(ps@, last);
                        actions == r.0 && next == r.1
                    },
                }
            },
        }
    }
}

proof fn lemma_events_stop(evs: Seq<ParsedEvent>, p: usize, last: Option<Seq<char>>, j: int)
    requires
        0 <= j <= evs.len(),
        events_plan(evs.take(j), p, last).2,
    ensures
        events_plan(evs, p, last) == events_plan(evs.take(j), p, last),
    decreases evs.len(),
{
    if evs.len() == j {
        assert(evs.take(j) =~= evs);
    } else {
        assert(evs.drop_last().take(j) =~= evs.take(j));
        lemma_events_stop(evs.drop_last(), p, last, j);
    }
}

proof fn lemma_payloads_stop(ps: Seq<ParsedPayload>, last: Option<Seq<char>>, i: int)
    requires
        0 <= i <= ps.len(),
        payloads_plan(ps.take(i), last).2,
    ensures
        payloads_plan(ps, last) == payloads_plan(ps.take(i), last),
    decreases ps.len(),
{
    if ps.len() == i {
        assert(ps.take(i) =~= ps);
    } else {
        assert(ps.drop_last().take(i) =~= ps.take(i));
        lemma_payloads_stop(ps.drop_last(), last, i);
    }
}

/// Whether one of `devices` has the id `id`.
fn devices_contain(devices: &Vec<Device>, id: &str) -> (r: bool)
    ensures
        r == device_listed(devices@, id@),
{
    let n = devices.len();
    let mut i: usize = 0;
    while i < n
        invariant
            n == devices@.len(),
            i <= n,
            forall|j: int| 0 <= j < i ==> opt_view(#[trigger] devices@[j].id) != Some(id@),
        decreases n - i,
    {
        if opt_str_eq(&devices[i].id, id) {
            return true;
        }
        i = i + 1;
    }
    false
}

/// Decides the handling of a dealer message: only `wss://event` messages
/// with a JSON content type and payloads go further; then each payload is
/// announced raw, and each of its events is announced raw and dispatched on
/// its type. A `DEVICE_STATE_CHANGED` event that no longer lists the tracked
/// device clears the playback state first; a `PLAYER_STATE_CHANGED` event
/// whose device has an id makes that device the tracked one. A payload or
/// event body that does not parse ends the handling of the message.
pub fn handle_wss_event(
    msg: &Message,
    payloads: &Option<Vec<ParsedPayload>>,
    last_active_device_id: &mut Option<String>,
) -> (actions: Vec<WssAction>)
    requires
        payloads_match(*msg, *payloads),
    ensures
        wss_outcome(
            *msg,
            *payloads,
            opt_view(*old(last_active_device_id)),
            actions@,
            opt_view(*final(last_active_device_id)),
        ),
{
    if !str_eq(msg.uri.as_str(), "wss://event") {
        return Vec::new();
    }
    let content_type = match msg.headers.find_lowercase_key("content-type") {
        Some(v) => v,
        None => {
            let r = vec![WssAction::Warn(WssWarning::MissingContentType)];
            assert(r@ =~= seq![WssAction::Warn(WssWarning::MissingContentType)]);
            return r;
        },
    };
    if !str_eq(content_type.as_str(), "application/json") {
        let v = content_type.clone();
        let r = vec![WssAction::Warn(WssWarning::UnknownContentType(v))];
        assert(r@.len() == 1 && r@[0] == WssAction::Warn(WssWarning::UnknownContentType(v)));
        return r;
    }
    let ps = match payloads {
        Some(ps) => ps,
        None => {
            let r = vec![WssAction::Warn(WssWarning::MissingPayloads)];
            assert(r@ =~= seq![WssAction::Warn(WssWarning::MissingPayloads)]);
            return r;
        },
    };
    let ghost last0 = opt_view(*last_active_device_id);
    let mut actions: Vec<WssAction> = Vec::new();
    let n = ps.len();
    let mut i: usize = 0;
    assert(ps@.take(0) =~= Seq::<ParsedPayload>::empty());
    while i < n
        invariant
            n == ps@.len(),
            i <= n,
            msg.uri@ == "wss://event"@,
            first_lowercase_match(msg.headers.pairs(), "content-type"@) == Some("application/json"@),
            *payloads == Some(*ps),
            last0 == opt_view(*old(last_active_device_id)),
            payloads_plan(ps@.take(i as int), last0) == (
                actions@,
                opt_view(*last_active_device_id),
                false,
            ),
        decreases n - i,
    {
        assert(ps@.take(i + 1).drop_last() =~= ps@.take(i as int));
        assert(ps@.take(i + 1).last() == ps@[i as int]);
        let ghost before = actions@;
        let ghost last_i = opt_view(*last_active_device_id);
        actions.push(WssAction::RawWssEvent { payload: i });
        match &ps[i].events {
            Err(_) => {
                actions.push(WssAction::Warn(WssWarning::EventsParseFailed { payload: i }));
                proof {
                    assert(actions@ =~= before + payload_step(ps@[i as int], i, last_i).0);
                    assert(payloads_plan(ps@.take(i + 1), last0) == (
                        actions@,
                        opt_view(*last_active_device_id),
                        true,
                    ));
                    lemma_payloads_stop(ps@, last0, i + 1);
                }
                return actions;
            },
            Ok(evs) => {
                let m = evs.len();
                let mut j: usize = 0;
                assert(evs@.take(0) =~= Seq::<ParsedEvent>::empty());
                while j < m
                    invariant
                        n == ps@.len(),
                        i < n,
                        msg.uri@ == "wss://event"@,
                        first_lowercase_match(msg.headers.pairs(), "content-type"@) == Some(
                            "application/json"@,
                        ),
                        *payloads == Some(*ps),
                        ps@.take(i + 1).drop_last() == ps@.take(i as int),
                        ps@.take(i + 1).last() == ps@[i as int],
                        m == evs@.len(),
                        ps@[i as int].events == Ok::<Vec<ParsedEvent>, serde_json::Error>(*evs),
                        j <= m,
                        last0 == opt_view(*old(last_active_device_id)),
                        payloads_plan(ps@.take(i as int), last0) == (before, last_i, false),
                        events_plan(evs@.take(j as int), i, last_i).2 == false,
                        actions@ == before + seq![WssAction::RawWssEvent { payload: i }]
                            + events_plan(evs@.take(j as int), i, last_i).0,
                        opt_view(*last_active_device_id) == events_plan(
                            evs@.take(j as int),
                            i,
                            last_i,
                        ).1,
                    decreases m - j,
                {
                    assert(evs@.take(j + 1).drop_last() =~= evs@.take(j as int));
                    assert(evs@.take(j + 1).last() == evs@[j as int]);
                    let ghost acts_j = actions@;
                    let ghost last_j = opt_view(*last_active_device_id);
                    let pe = &evs[j];
                    actions.push(WssAction::RawEvent { payload: i, event: j });
                    let mut stop = false;
                    if str_eq(pe.event.kind.as_str(), "DEVICE_STATE_CHANGED") {
                        match &pe.device_state_changed {
                            Ok(dsc) => {
                                let cleared = match last_active_device_id {
                                    Some(id) => !devices_contain(&dsc.devices, id.as_str()),
                                    None => false,
                                };
                                if cleared {
                                    actions.push(WssAction::PlaybackStateCleared);
                                }
                                actions.push(WssAction::DeviceStateChanged { payload: i, event: j });
                            },
                            Err(_) => {
                                actions.push(
                                    WssAction::Warn(
                                        WssWarning::DeviceStateChangedParseFailed {
                                            payload: i,
                                            event: j,
                                        },
                                    ),
                                );
                                stop = true;
                            },
                        }
                    } else if str_eq(pe.event.kind.as_str(), "PLAYER_STATE_CHANGED") {
                        match &pe.player_state_changed {
                            Ok(psc) => {
                                match &psc.state.device.id {
                                    Some(d) => {
                                        *last_active_device_id = Some(d.clone());
                                    },
                                    None => {},
                                }
                                actions.push(WssAction::PlayerStateChanged { payload: i, event: j });
                            },
                            Err(_) => {
                                actions.push(
                                    WssAction::Warn(
                                        WssWarning::PlayerStateChangedParseFailed {
                                            payload: i,
                                            event: j,
                                        },
                                    ),
                                );
                                stop = true;
                            },
                        }
                    } else {
                        actions.push(
                            WssAction::Warn(WssWarning::UnknownEventType { payload: i, event: j }),
                        );
                    }
                    proof {
                        let st = event_step(evs@[j as int], i, j, last_j);
                        assert(actions@ =~= acts_j + st.0);
                        assert(opt_view(*last_active_device_id) == st.1);
                        assert(stop == st.2);
                    }
                    if stop {
                        proof {
                            lemma_events_stop(evs@, i, last_i, j + 1);
                            assert(evs@.take(m as int) =~= evs@);
                            assert(actions@ =~= before + payload_step(ps@[i as int], i, last_i).0);
                            assert(payload_step(ps@[i as int], i, last_i).2);
                            assert(payloads_plan(ps@.take(i + 1), last0) == (
                                actions@,
                                opt_view(*last_active_device_id),
                                true,
                            ));
                            lemma_payloads_stop(ps@, last0, i + 1);
                        }
                        return actions;
                    }
                    j = j + 1;
                }
                proof {
                    assert(evs@.take(m as int) =~= evs@);
                    assert(actions@ =~= before + payload_step(ps@[i as int], i, last_i).0);
                }
            },
        }
        i = i + 1;
    }
    assert(ps@.take(n as int) =~= ps@);
    actions
}

} // verus!

verus! {

/// Whether a step is the warning that a payload or an event body did not parse.
pub open spec fn is_parse_failure(a: WssAction) -> bool {
    match a {
        WssAction::Warn(WssWarning::EventsParseFailed { .. }) => true,
        WssAction::Warn(WssWarning::DeviceStateChangedParseFailed { .. }) => true,
        WssAction::Warn(WssWarning::PlayerStateChangedParseFailed { .. }) => true,
        _ => false,
    }
}

/// Whether a step clears the playback state.
pub open spec fn is_cleared(a: WssAction) -> bool {
    a is PlaybackStateCleared
}

/// Whether the event at index `e` of a payload is a parsed
/// `PLAYER_STATE_CHANGED` event whose device has the id `d`.
pub open spec fn reports_device(pp: ParsedPayload, e: int, d: Seq<char>) -> bool {
    match pp.events {
        Ok(evs) => 0 <= e < evs@.len() && evs@[e].event.kind@ == "PLAYER_STATE_CHANGED"@ && match evs@[e].player_state_changed {
            Ok(psc) => opt_view(psc.state.device.id) == Some(d),
            Err(_) => false,
        },
        Err(_) => false,
    }
}

/// Whether some payload reports a player state whose device has the id `d`.
pub open spec fn reported_device(ps: Seq<ParsedPayload>, d: Seq<char>) -> bool {
    exists|p: int, e: int| 0 <= p < ps.len() && #[trigger] reports_device(ps[p], e, d)
}

/// Whether the event at index `e` of a payload exists.
pub open spec fn has_event(pp: ParsedPayload, e: int) -> bool {
    match pp.events {
        Ok(evs) => 0 <= e < evs@.len(),
        Err(_) => false,
    }
}

/// Whether a step names only payloads and events that exist, and only parse
/// results of the kind that the step needs.
pub open spec fn refers_to(a: WssAction, ps: Seq<ParsedPayload>) -> bool {
    match a {
        WssAction::RawWssEvent { payload } => payload < ps.len(),
        WssAction::RawEvent { payload, event } => payload < ps.len() && has_event(
            ps[payload as int],
            event as int,
        ),
        WssAction::PlaybackStateCleared => true,
        WssAction::DeviceStateChanged { payload, event } => payload < ps.len() && match ps[payload as int].events {
            Ok(evs) => event < evs@.len() && evs@[event as int].device_state_changed is Ok,
            Err(_) => false,
        },
        WssAction::PlayerStateChanged { payload, event } => payload < ps.len() && match ps[payload as int].events {
            Ok(evs) => event < evs@.len() && evs@[event as int].player_state_changed is Ok,
            Err(_) => false,
        },
        WssAction::Warn(w) => match w {
            WssWarning::EventsParseFailed { payload } => payload < ps.len() && ps[payload as int].events is Err,
            WssWarning::DeviceStateChangedParseFailed { payload, event } => payload < ps.len() && match ps[payload as int].events {
                Ok(evs) => event < evs@.len() && evs@[event as int].device_state_changed is Err,
                Err(_) => false,
            },
            WssWarning::PlayerStateChangedParseFailed { payload, event } => payload < ps.len() && match ps[payload as int].events {
                Ok(evs) => event < evs@.len() && evs@[event as int].player_state_changed is Err,
                Err(_) => false,
            },
            WssWarning::UnknownEventType { payload, event } => payload < ps.len() && has_event(
                ps[payload as int],
                event as int,
            ),
            _ => true,
        },
    }
}

/// Whether the steps right after index `k` are those that the type of the
/// event `pe` (index `e` of payload `p`) asks for: the device list, cleared
/// first or not, for `DEVICE_STATE_CHANGED`; the player state for
/// `PLAYER_STATE_CHANGED`; a warning for a body that did not parse or for any
/// other type.
pub open spec fn dispatch_follows(s: Seq<WssAction>, k: int, pe: ParsedEvent, p: usize, e: usize) -> bool {
    if pe.event.kind@ == "DEVICE_STATE_CHANGED"@ {
        match pe.device_state_changed {
            Ok(_) => (k + 1 < s.len() && s[k + 1] == WssAction::DeviceStateChanged {
                payload: p,
                event: e,
            }) || (k + 2 < s.len() && s[k + 1] == WssAction::PlaybackStateCleared && s[k + 2]
                == WssAction::DeviceStateChanged { payload: p, event: e }),
            Err(_) => k + 1 < s.len() && s[k + 1] == WssAction::Warn(
                WssWarning::DeviceStateChangedParseFailed { payload: p, event: e },
            ),
        }
    } else if pe.event.kind@ == "PLAYER_STATE_CHANGED"@ {
        match pe.player_state_changed {
            Ok(_) => k + 1 < s.len() && s[k + 1] == WssAction::PlayerStateChanged {
                payload: p,
                event: e,
            },
            Err(_) => k + 1 < s.len() && s[k + 1] == WssAction::Warn(
                WssWarning::PlayerStateChangedParseFailed { payload: p, event: e },
            ),
        }
    } else {
        k + 1 < s.len() && s[k + 1] == WssAction::Warn(
            WssWarning::UnknownEventType { payload: p, event: e },
        )
    }
}

/// Whether, where the step at index `k` announces an event, the steps after
/// it are those that the event's type asks for.
pub open spec fn dispatched_at(s: Seq<WssAction>, k: int, ps: Seq<ParsedPayload>) -> bool {
    match s[k] {
        WssAction::RawEvent { payload, event } => payload < ps.len() && match ps[payload as int].events {
            Ok(evs) => event < evs@.len() && dispatch_follows(
                s,
                k,
                evs@[event as int],
                payload,
                event,
            ),
            Err(_) => false,
        },
        _ => true,
    }
}

/// What holds of the steps, the tracked device and the stop flag of a
/// handling that started with `last` tracked.
pub open spec fn plan_props(
    r: (Seq<WssAction>, Option<Seq<char>>, bool),
    ps: Seq<ParsedPayload>,
    last: Option<Seq<char>>,
) -> bool {
    &&& forall|k: int| 0 <= k < r.0.len() ==> refers_to(#[trigger] r.0[k], ps)
    &&& forall|k: int|
        0 <= k < r.0.len() && #[trigger] is_parse_failure(r.0[k]) ==> r.2 && k == r.0.len() - 1
    &&& r.2 ==> r.0.len() > 0 && is_parse_failure(r.0.last())
    &&& forall|k: int|
        0 <= k < r.0.len() && #[trigger] is_cleared(r.0[k]) ==> k + 1 < r.0.len() && r.0[k
            + 1] is DeviceStateChanged
    &&& (r.1 == last || (r.1 matches Some(d) && reported_device(ps, d)))
    &&& (exists|k: int| 0 <= k < r.0.len() && #[trigger] is_cleared(r.0[k])) ==> (last is Some
        || exists|d: Seq<char>| #[trigger] reported_device(ps, d))
    &&& forall|k: int| 0 <= k < r.0.len() ==> #[trigger] dispatched_at(r.0, k, ps)
}

proof fn lemma_concat(
    a: (Seq<WssAction>, Option<Seq<char>>, bool),
    b: (Seq<WssAction>, Option<Seq<char>>, bool),
    ps: Seq<ParsedPayload>,
    last: Option<Seq<char>>,
)
    requires
        plan_props(a, ps, last),
        !a.2,
        plan_props(b, ps, a.1),
    ensures
        plan_props((a.0 + b.0, b.1, b.2), ps, last),
{
    let s = a.0 + b.0;
    let n = a.0.len() as int;
    assert forall|k: int| 0 <= k < s.len() implies refers_to(#[trigger] s[k], ps) by {
        if k < n {
            assert(s[k] == a.0[k]);
        } else {
            assert(s[k] == b.0[k - n]);
        }
    }
    assert forall|k: int| 0 <= k < s.len() && #[trigger] is_parse_failure(s[k]) implies b.2 && k
        == s.len() - 1 by {
        if k < n {
            assert(s[k] == a.0[k]);
        } else {
            assert(s[k] == b.0[k - n]);
        }
    }
    if b.2 {
        assert(s.last() == b.0.last());
    }
    assert forall|k: int| 0 <= k < s.len() && #[trigger] is_cleared(s[k]) implies k + 1 < s.len()
        && s[k + 1] is DeviceStateChanged by {
        if k < n {
            assert(s[k] == a.0[k]);
            assert(s[k + 1] == a.0[k + 1]);
        } else {
            assert(s[k] == b.0[k - n]);
            assert(s[k + 1] == b.0[k + 1 - n]);
        }
    }
    assert forall|k: int| 0 <= k < s.len() implies #[trigger] dispatched_at(s, k, ps) by {
        if k < n {
            assert(dispatched_at(a.0, k, ps));
            assert(s[k] == a.0[k]);
            if k + 1 < n {
                assert(s[k + 1] == a.0[k + 1]);
            }
            if k + 2 < n {
                assert(s[k + 2] == a.0[k + 2]);
            }
        } else {
            assert(dispatched_at(b.0, k - n, ps));
            assert(s[k] == b.0[k - n]);
            if k + 1 < s.len() {
                assert(s[k + 1] == b.0[k + 1 - n]);
            }
            if k + 2 < s.len() {
                assert(s[k + 2] == b.0[k + 2 - n]);
            }
        }
    }
    if exists|k: int| 0 <= k < s.len() && #[trigger] is_cleared(s[k]) {
        let k = choose|k: int| 0 <= k < s.len() && #[trigger] is_cleared(s[k]);
        if k < n {
            assert(s[k] == a.0[k]);
            assert(is_cleared(a.0[k]));
        } else {
            assert(s[k] == b.0[k - n]);
            assert(is_cleared(b.0[k - n]));
            if a.1 != last {
                let d = a.1->0;
                assert(reported_device(ps, d));
            }
        }
    }
}

proof fn lemma_event_step(ps: Seq<ParsedPayload>, p: usize, evs: Vec<ParsedEvent>, e: usize, last: Option<Seq<char>>)
    requires
        p < ps.len(),
        ps[p as int].events == Ok::<Vec<ParsedEvent>, serde_json::Error>(evs),
        e < evs@.len(),
    ensures
        plan_props(event_step(evs@[e as int], p, e, last), ps, last),
{
    let pe = evs@[e as int];
    let st = event_step(pe, p, e, last);
    assert(has_event(ps[p as int], e as int));
    if pe.event.kind@ != "DEVICE_STATE_CHANGED"@ && pe.event.kind@ == "PLAYER_STATE_CHANGED"@ {
        if let Ok(psc) = pe.player_state_changed {
            if let Some(d) = psc.state.device.id {
                assert(reports_device(ps[p as int], e as int, d@));
            }
        }
    }
    assert forall|k: int| 0 <= k < st.0.len() implies refers_to(#[trigger] st.0[k], ps) by {}
    assert forall|k: int| 0 <= k < st.0.len() && #[trigger] is_parse_failure(st.0[k]) implies st.2
        && k == st.0.len() - 1 by {}
    assert forall|k: int| 0 <= k < st.0.len() && #[trigger] is_cleared(st.0[k]) implies k + 1
        < st.0.len() && st.0[k + 1] is DeviceStateChanged by {}
    assert forall|k: int| 0 <= k < st.0.len() && #[trigger] is_cleared(st.0[k]) implies last is Some by {}
    assert forall|k: int| 0 <= k < st.0.len() implies #[trigger] dispatched_at(st.0, k, ps) by {}
}

proof fn lemma_events_plan(
    ps: Seq<ParsedPayload>,
    p: usize,
    evs: Vec<ParsedEvent>,
    last: Option<Seq<char>>,
    j: int,
)
    requires
        p < ps.len(),
        ps[p as int].events == Ok::<Vec<ParsedEvent>, serde_json::Error>(evs),
        0 <= j <= evs@.len(),
    ensures
        plan_props(events_plan(evs@.take(j), p, last), ps, last),
    decreases j,
{
    if j == 0 {
        assert(evs@.take(0) =~= Seq::<ParsedEvent>::empty());
    } else {
        assert(evs@.len() == evs.len());
        lemma_events_plan(ps, p, evs, last, j - 1);
        assert(evs@.take(j).drop_last() =~= evs@.take(j - 1));
        let prev = events_plan(evs@.take(j - 1), p, last);
        if !prev.2 {
            assert(evs@.take(j).last() == evs@[j - 1]);
            lemma_event_step(ps, p, evs, (j - 1) as usize, prev.1);
            lemma_concat(prev, event_step(evs@[j - 1], p, (j - 1) as usize, prev.1), ps, last);
        }
    }
}

proof fn lemma_payload_step(ps: Seq<ParsedPayload>, p: usize, last: Option<Seq<char>>)
    requires
        p < ps.len(),
    ensures
        plan_props(payload_step(ps[p as int], p, last), ps, last),
{
    let raw = seq![WssAction::RawWssEvent { payload: p }];
    let first: (Seq<WssAction>, Option<Seq<char>>, bool) = (raw, last, false);
    assert(plan_props(first, ps, last)) by {
        assert forall|k: int| 0 <= k < raw.len() && #[trigger] is_parse_failure(raw[k]) implies false by {}
        assert forall|k: int| 0 <= k < raw.len() && #[trigger] is_cleared(raw[k]) implies false by {}
        assert forall|k: int| 0 <= k < raw.len() implies #[trigger] dispatched_at(raw, k, ps) by {}
    }
    match ps[p as int].events {
        Ok(evs) => {
            lemma_events_plan(ps, p, evs, last, evs@.len() as int);
            assert(evs@.take(evs@.len() as int) =~= evs@);
            lemma_concat(first, events_plan(evs@, p, last), ps, last);
        },
        Err(_) => {
            let st = payload_step(ps[p as int], p, last);
            assert forall|k: int| 0 <= k < st.0.len() implies refers_to(#[trigger] st.0[k], ps) by {}
            assert forall|k: int| 0 <= k < st.0.len() && #[trigger] is_parse_failure(st.0[k]) implies st.2
                && k == st.0.len() - 1 by {}
            assert forall|k: int| 0 <= k < st.0.len() && #[trigger] is_cleared(st.0[k]) implies false by {}
            assert forall|k: int| 0 <= k < st.0.len() implies #[trigger] dispatched_at(st.0, k, ps) by {}
        },
    }
}

proof fn lemma_payloads_plan(ps: Seq<ParsedPayload>, last: Option<Seq<char>>, i: int)
    requires
        0 <= i <= ps.len(),
        ps.len() <= usize::MAX,
    ensures
        plan_props(payloads_plan(ps.take(i), last), ps, last),
    decreases i,
{
    if i == 0 {
        assert(ps.take(0) =~= Seq::<ParsedPayload>::empty());
    } else {
        lemma_payloads_plan(ps, last, i - 1);
        assert(ps.take(i).drop_last() =~= ps.take(i - 1));
        let prev = payloads_plan(ps.take(i - 1), last);
        if !prev.2 {
            assert(ps.take(i).last() == ps[i - 1]);
            lemma_payload_step(ps, (i - 1) as usize, prev.1);
            lemma_concat(prev, payload_step(ps[i - 1], (i - 1) as usize, prev.1), ps, last);
        }
    }
}

/// Handling a message whose URI is not `wss://event` calls no handler and
/// keeps the tracked device.
pub proof fn law_other_messages_are_ignored(
    msg: Message,
    payloads: Option<Vec<ParsedPayload>>,
    last: Option<Seq<char>>,
    actions: Seq<WssAction>,
    next: Option<Seq<char>>,
)
    requires
        wss_outcome(msg, payloads, last, actions, next),
        msg.uri@ != "wss://event"@,
    ensures
        actions.len() == 0,
        next == last,
{
}

/// Every step of a handling names only payloads and events that exist, with
/// the parse result that the step needs: a step that hands a device list or
/// a player state to the handlers names a body that parsed, and a parse
/// warning names a payload or body that did not.
pub proof fn law_steps_refer_to_parsed_input(
    msg: Message,
    payloads: Option<Vec<ParsedPayload>>,
    last: Option<Seq<char>>,
    actions: Seq<WssAction>,
    next: Option<Seq<char>>,
)
    requires
        wss_outcome(msg, payloads, last, actions, next),
    ensures
        forall|k: int|
            0 <= k < actions.len() ==> refers_to(
                #[trigger] actions[k],
                match payloads {
                    Some(ps) => ps@,
                    None => Seq::empty(),
                },
            ),
{
    if let Some(ps) = payloads {
        assert(ps@.len() == ps.len());
        lemma_payloads_plan(ps@, last, ps@.len() as int);
        assert(ps@.take(ps@.len() as int) =~= ps@);
    }
}

/// A payload or an event body that does not parse ends the handling of the
/// message: its warning is the last step.
pub proof fn law_parse_failure_ends_handling(
    msg: Message,
    payloads: Option<Vec<ParsedPayload>>,
    last: Option<Seq<char>>,
    actions: Seq<WssAction>,
    next: Option<Seq<char>>,
)
    requires
        wss_outcome(msg, payloads, last, actions, next),
    ensures
        forall|k: int|
            0 <= k < actions.len() && #[trigger] is_parse_failure(actions[k]) ==> k == actions.len()
                - 1,
{
    if let Some(ps) = payloads {
        assert(ps@.len() == ps.len());
        lemma_payloads_plan(ps@, last, ps@.len() as int);
        assert(ps@.take(ps@.len() as int) =~= ps@);
    }
}

/// The playback state is only ever cleared right before the handlers are
/// given the device list that no longer holds the tracked device.
pub proof fn law_clear_precedes_device_list(
    msg: Message,
    payloads: Option<Vec<ParsedPayload>>,
    last: Option<Seq<char>>,
    actions: Seq<WssAction>,
    next: Option<Seq<char>>,
)
    requires
        wss_outcome(msg, payloads, last, actions, next),
    ensures
        forall|k: int|
            0 <= k < actions.len() && #[trigger] is_cleared(actions[k]) ==> k + 1 < actions.len()
                && actions[k + 1] is DeviceStateChanged,
{
    if let Some(ps) = payloads {
        assert(ps@.len() == ps.len());
        lemma_payloads_plan(ps@, last, ps@.len() as int);
        assert(ps@.take(ps@.len() as int) =~= ps@);
    }
}

/// The playback state is only cleared where a device is tracked: one tracked
/// before the message, or one that the message reports in a player state.
pub proof fn law_clear_needs_a_tracked_device(
    msg: Message,
    payloads: Option<Vec<ParsedPayload>>,
    last: Option<Seq<char>>,
    actions: Seq<WssAction>,
    next: Option<Seq<char>>,
    k: int,
)
    requires
        wss_outcome(msg, payloads, last, actions, next),
        0 <= k < actions.len(),
        is_cleared(actions[k]),
    ensures
        last is Some || (payloads matches Some(ps) && exists|d: Seq<char>| #[trigger] reported_device(
            ps@,
            d,
        )),
{
    if let Some(ps) = payloads {
        assert(ps@.len() == ps.len());
        lemma_payloads_plan(ps@, last, ps@.len() as int);
        assert(ps@.take(ps@.len() as int) =~= ps@);
    }
}

/// The device tracked after a handling is the one tracked before, or the
/// device of a player state that the message reports.
pub proof fn law_tracked_device_comes_from_a_player_state(
    msg: Message,
    payloads: Option<Vec<ParsedPayload>>,
    last: Option<Seq<char>>,
    actions: Seq<WssAction>,
    next: Option<Seq<char>>,
)
    requires
        wss_outcome(msg, payloads, last, actions, next),
    ensures
        next == last || (next matches Some(d) && payloads matches Some(ps) && reported_device(
            ps@,
            d,
        )),
{
    if let Some(ps) = payloads {
        assert(ps@.len() == ps.len());
        lemma_payloads_plan(ps@, last, ps@.len() as int);
        assert(ps@.take(ps@.len() as int) =~= ps@);
    }
}

/// Each announced event is followed at once by the steps that its type asks
/// for: for `DEVICE_STATE_CHANGED` the device list (cleared first or not),
/// for `PLAYER_STATE_CHANGED` the player state, and for a body that did not
/// parse or any other type a warning.
pub proof fn law_events_are_dispatched_by_type(
    msg: Message,
    payloads: Option<Vec<ParsedPayload>>,
    last: Option<Seq<char>>,
    actions: Seq<WssAction>,
    next: Option<Seq<char>>,
)
    requires
        wss_outcome(msg, payloads, last, actions, next),
    ensures
        forall|k: int|
            0 <= k < actions.len() ==> #[trigger] dispatched_at(actions, k, payload_seq(payloads)),
{
    if let Some(ps) = payloads {
        assert(ps@.len() == ps.len());
        lemma_payloads_plan(ps@, last, ps@.len() as int);
        assert(ps@.take(ps@.len() as int) =~= ps@);
    }
}

/// The parsed payloads, none where there are none.
pub open spec fn payload_seq(payloads: Option<Vec<ParsedPayload>>) -> Seq<ParsedPayload> {
    match payloads {
        Some(ps) => ps@,
        None => Seq::empty(),
    }
}

/// Whether a step announces a payload or an event.
pub open spec fn is_announcement(a: WssAction) -> bool {
    a is RawWssEvent || a is RawEvent
}

/// The steps that announce payloads and events, in order.
pub open spec fn announcements(s: Seq<WssAction>) -> Seq<WssAction>
    decreases s.len(),
{
    if s.len() == 0 {
        Seq::empty()
    } else {
        let rest = announcements(s.drop_last());
        if is_announcement(s.last()) {
            rest.push(s.last())
        } else {
            rest
        }
    }
}

/// Whether the handling stops at this event: its body did not parse as the
/// body its type asks for.
pub open spec fn stops_at(pe: ParsedEvent) -> bool {
    if pe.event.kind@ == "DEVICE_STATE_CHANGED"@ {
        pe.device_state_changed is Err
    } else if pe.event.kind@ == "PLAYER_STATE_CHANGED"@ {
        pe.player_state_changed is Err
    } else {
        false
    }
}

/// The device id that an event reports: that of the state of a parsed
/// `PLAYER_STATE_CHANGED` event, where the device has one.
pub open spec fn event_report(pe: ParsedEvent) -> Option<Seq<char>> {
    if pe.event.kind@ == "DEVICE_STATE_CHANGED"@ {
        None
    } else if pe.event.kind@ == "PLAYER_STATE_CHANGED"@ {
        match pe.player_state_changed {
            Ok(psc) => opt_view(psc.state.device.id),
            Err(_) => None,
        }
    } else {
        None
    }
}

/// The device ids that `evs` report, in order.
pub open spec fn reported_ids(evs: Seq<ParsedEvent>) -> Seq<Seq<char>>
    decreases evs.len(),
{
    if evs.len() == 0 {
        Seq::empty()
    } else {
        let prev = reported_ids(evs.drop_last());
        match event_report(evs.last()) {
            Some(d) => prev.push(d),
            None => prev,
        }
    }
}

/// The last of `ids`, or `last` where there is none.
pub open spec fn latest(ids: Seq<Seq<char>>, last: Option<Seq<char>>) -> Option<Seq<char>> {
    if ids.len() > 0 {
        Some(ids.last())
    } else {
        last
    }
}

/// For the events of payload `p`, in order and up to the one that stops the
/// handling: their announcements, the events themselves, and whether one
/// stops it.
pub open spec fn events_schedule(evs: Seq<ParsedEvent>, p: usize) -> (
    Seq<WssAction>,
    Seq<ParsedEvent>,
    bool,
)
    decreases evs.len(),
{
    if evs.len() == 0 {
        (Seq::empty(), Seq::empty(), false)
    } else {
        let prev = events_schedule(evs.drop_last(), p);
        if prev.2 {
            prev
        } else {
            (
                prev.0.push(WssAction::RawEvent { payload: p, event: (evs.len() - 1) as usize }),
                prev.1.push(evs.last()),
                stops_at(evs.last()),
            )
        }
    }
}

/// For the payloads, in order and up to the point where the handling stops:
/// each payload's announcement followed by those of its events, the events,
/// and whether the handling stops.
pub open spec fn payloads_schedule(ps: Seq<ParsedPayload>) -> (
    Seq<WssAction>,
    Seq<ParsedEvent>,
    bool,
)
    decreases ps.len(),
{
    if ps.len() == 0 {
        (Seq::empty(), Seq::empty(), false)
    } else {
        let prev = payloads_schedule(ps.drop_last());
        let i = (ps.len() - 1) as usize;
        if prev.2 {
            prev
        } else {
            match ps.last().events {
                Ok(evs) => {
                    let r = events_schedule(evs@, i);
                    (prev.0 + seq![WssAction::RawWssEvent { payload: i }] + r.0, prev.1 + r.1, r.2)
                },
                Err(_) => (prev.0.push(WssAction::RawWssEvent { payload: i }), prev.1, true),
            }
        }
    }
}

/// Whether a message goes past the checks of its URI and content type.
pub open spec fn passes_guard(msg: Message) -> bool {
    msg.uri@ == "wss://event"@ && first_lowercase_match(msg.headers.pairs(), "content-type"@)
        == Some("application/json"@)
}

/// The announcements, the handled events and the stop flag of handling `msg`
/// with its payloads parsed as `payloads`.
pub open spec fn handled(msg: Message, payloads: Option<Vec<ParsedPayload>>) -> (
    Seq<WssAction>,
    Seq<ParsedEvent>,
    bool,
) {
    if passes_guard(msg) {
        match payloads {
            Some(ps) => payloads_schedule(ps@),
            None => (Seq::empty(), Seq::empty(), false),
        }
    } else {
        (Seq::empty(), Seq::empty(), false)
    }
}

proof fn lemma_announcements_concat(a: Seq<WssAction>, b: Seq<WssAction>)
    ensures
        announcements(a + b) == announcements(a) + announcements(b),
    decreases b.len(),
{
    if b.len() == 0 {
        assert(a + b =~= a);
        assert(announcements(a) + announcements(b) =~= announcements(a));
    } else {
        lemma_announcements_concat(a, b.drop_last());
        assert((a + b).drop_last() =~= a + b.drop_last());
        assert((a + b).last() == b.last());
        if is_announcement(b.last()) {
            assert(announcements(a) + announcements(b) =~= (announcements(a) + announcements(
                b.drop_last(),
            )).push(b.last()));
        } else {
            assert(announcements(a) + announcements(b) =~= announcements(a) + announcements(
                b.drop_last(),
            ));
        }
    }
}

proof fn lemma_announcements_single(a: WssAction)
    ensures
        announcements(seq![a]) == (if is_announcement(a) {
            seq![a]
        } else {
            Seq::<WssAction>::empty()
        }),
{
    assert(seq![a].drop_last() =~= Seq::<WssAction>::empty());
    assert(seq![a].last() == a);
    assert(announcements(Seq::<WssAction>::empty()) == Seq::<WssAction>::empty());
    assert(Seq::<WssAction>::empty().push(a) =~= seq![a]);
}

proof fn lemma_no_announcements(s: Seq<WssAction>)
    requires
        forall|k: int| 0 <= k < s.len() ==> !is_announcement(#[trigger] s[k]),
    ensures
        announcements(s) == Seq::<WssAction>::empty(),
    decreases s.len(),
{
    if s.len() > 0 {
        lemma_no_announcements(s.drop_last());
        assert(!is_announcement(s[s.len() - 1]));
    }
}

proof fn lemma_reported_concat(x: Seq<ParsedEvent>, y: Seq<ParsedEvent>)
    ensures
        reported_ids(x + y) == reported_ids(x) + reported_ids(y),
    decreases y.len(),
{
    if y.len() == 0 {
        assert(x + y =~= x);
        assert(reported_ids(x) + reported_ids(y) =~= reported_ids(x));
    } else {
        lemma_reported_concat(x, y.drop_last());
        assert((x + y).drop_last() =~= x + y.drop_last());
        assert((x + y).last() == y.last());
        match event_report(y.last()) {
            Some(d) => {
                assert(reported_ids(x) + reported_ids(y) =~= (reported_ids(x) + reported_ids(
                    y.drop_last(),
                )).push(d));
            },
            None => {},
        }
    }
}

proof fn lemma_latest_concat(i: Seq<Seq<char>>, j: Seq<Seq<char>>, last: Option<Seq<char>>)
    ensures
        latest(i + j, last) == latest(j, latest(i, last)),
{
    if j.len() > 0 {
        assert((i + j).last() == j.last());
    } else {
        assert(i + j =~= i);
    }
}

proof fn lemma_event_track(
    ps: Seq<ParsedPayload>,
    p: usize,
    evs: Vec<ParsedEvent>,
    e: usize,
    last: Option<Seq<char>>,
)
    requires
        p < ps.len(),
        ps[p as int].events == Ok::<Vec<ParsedEvent>, serde_json::Error>(evs),
        e < evs@.len(),
    ensures
        ({
            let pe = evs@[e as int];
            let st = event_step(pe, p, e, last);
            &&& announcements(st.0) == seq![WssAction::RawEvent { payload: p, event: e }]
            &&& st.1 == latest(reported_ids(seq![pe]), last)
            &&& st.2 == stops_at(pe)
        }),
{
    let pe = evs@[e as int];
    let st = event_step(pe, p, e, last);
    let head = seq![WssAction::RawEvent { payload: p, event: e }];
    let tail = st.0.subrange(1, st.0.len() as int);
    assert(st.0 =~= head + tail);
    assert forall|k: int| 0 <= k < tail.len() implies !is_announcement(#[trigger] tail[k]) by {
        assert(tail[k] == st.0[k + 1]);
    }
    lemma_no_announcements(tail);
    lemma_announcements_single(WssAction::RawEvent { payload: p, event: e });
    lemma_announcements_concat(head, tail);
    assert(head + Seq::<WssAction>::empty() =~= head);
    assert(seq![pe].drop_last() =~= Seq::<ParsedEvent>::empty());
    assert(seq![pe].last() == pe);
    assert(reported_ids(Seq::<ParsedEvent>::empty()) == Seq::<Seq<char>>::empty());
    match event_report(pe) {
        Some(d) => {
            assert(reported_ids(seq![pe]) =~= seq![d]);
        },
        None => {
            assert(reported_ids(seq![pe]) =~= Seq::<Seq<char>>::empty());
        },
    }
}

proof fn lemma_events_track(
    ps: Seq<ParsedPayload>,
    p: usize,
    evs: Vec<ParsedEvent>,
    last: Option<Seq<char>>,
    j: int,
)
    requires
        p < ps.len(),
        ps[p as int].events == Ok::<Vec<ParsedEvent>, serde_json::Error>(evs),
        0 <= j <= evs@.len(),
    ensures
        ({
            let r = events_plan(evs@.take(j), p, last);
            let u = events_schedule(evs@.take(j), p);
            &&& announcements(r.0) == u.0
            &&& r.1 == latest(reported_ids(u.1), last)
            &&& r.2 == u.2
        }),
    decreases j,
{
    if j == 0 {
        assert(evs@.take(0) =~= Seq::<ParsedEvent>::empty());
        assert(announcements(Seq::<WssAction>::empty()) == Seq::<WssAction>::empty());
        assert(reported_ids(Seq::<ParsedEvent>::empty()) == Seq::<Seq<char>>::empty());
    } else {
        assert(evs@.len() == evs.len());
        lemma_events_track(ps, p, evs, last, j - 1);
        assert(evs@.take(j).drop_last() =~= evs@.take(j - 1));
        assert(evs@.take(j).last() == evs@[j - 1]);
        let r0 = events_plan(evs@.take(j - 1), p, last);
        let u0 = events_schedule(evs@.take(j - 1), p);
        if !r0.2 {
            let e = (j - 1) as usize;
            let pe = evs@[j - 1];
            let st = event_step(pe, p, e, r0.1);
            lemma_event_track(ps, p, evs, e, r0.1);
            lemma_announcements_concat(r0.0, st.0);
            assert(u0.0 + seq![WssAction::RawEvent { payload: p, event: e }] =~= u0.0.push(
                WssAction::RawEvent { payload: p, event: e },
            ));
            lemma_reported_concat(u0.1, seq![pe]);
            assert(u0.1 + seq![pe] =~= u0.1.push(pe));
            lemma_latest_concat(reported_ids(u0.1), reported_ids(seq![pe]), last);
        }
    }
}

proof fn lemma_payloads_track(ps: Seq<ParsedPayload>, last: Option<Seq<char>>, i: int)
    requires
        0 <= i <= ps.len(),
        ps.len() <= usize::MAX,
    ensures
        ({
            let r = payloads_plan(ps.take(i), last);
            let u = payloads_schedule(ps.take(i));
            &&& announcements(r.0) == u.0
            &&& r.1 == latest(reported_ids(u.1), last)
            &&& r.2 == u.2
        }),
    decreases i,
{
    if i == 0 {
        assert(ps.take(0) =~= Seq::<ParsedPayload>::empty());
        assert(announcements(Seq::<WssAction>::empty()) == Seq::<WssAction>::empty());
        assert(reported_ids(Seq::<ParsedEvent>::empty()) == Seq::<Seq<char>>::empty());
    } else {
        lemma_payloads_track(ps, last, i - 1);
        assert(ps.take(i).drop_last() =~= ps.take(i - 1));
        assert(ps.take(i).last() == ps[i - 1]);
        let r0 = payloads_plan(ps.take(i - 1), last);
        let u0 = payloads_schedule(ps.take(i - 1));
        if !r0.2 {
            let p = (i - 1) as usize;
            let head = seq![WssAction::RawWssEvent { payload: p }];
            lemma_announcements_single(WssAction::RawWssEvent { payload: p });
            let st = payload_step(ps[i - 1], p, r0.1);
            match ps[i - 1].events {
                Ok(evs) => {
                    lemma_events_track(ps, p, evs, r0.1, evs@.len() as int);
                    assert(evs@.take(evs@.len() as int) =~= evs@);
                    let re = events_plan(evs@, p, r0.1);
                    let ue = events_schedule(evs@, p);
                    lemma_announcements_concat(head, re.0);
                    lemma_announcements_concat(r0.0, st.0);
                    assert(u0.0 + head + ue.0 =~= u0.0 + (head + ue.0));
                    lemma_reported_concat(u0.1, ue.1);
                    lemma_latest_concat(reported_ids(u0.1), reported_ids(ue.1), last);
                },
                Err(_) => {
                    let warn = WssAction::Warn(WssWarning::EventsParseFailed { payload: p });
                    assert(st.0 =~= head + seq![warn]);
                    lemma_announcements_single(warn);
                    lemma_announcements_concat(head, seq![warn]);
                    assert(head + Seq::<WssAction>::empty() =~= head);
                    lemma_announcements_concat(r0.0, st.0);
                    assert(u0.0 + head =~= u0.0.push(WssAction::RawWssEvent { payload: p }));
                },
            }
        }
    }
}

/// The handlers are told of the payloads and events in order: each payload in
/// turn, and after it each of its events in turn, up to the point where the
/// handling stops; every payload and event before that point is announced.
pub proof fn law_announcements_follow_payload_and_event_order(
    msg: Message,
    payloads: Option<Vec<ParsedPayload>>,
    last: Option<Seq<char>>,
    actions: Seq<WssAction>,
    next: Option<Seq<char>>,
)
    requires
        wss_outcome(msg, payloads, last, actions, next),
    ensures
        announcements(actions) == handled(msg, payloads).0,
{
    lemma_handled(msg, payloads, last, actions, next);
}

/// The device tracked after a handling is the one reported by the last
/// handled event that reports one (a parsed `PLAYER_STATE_CHANGED` event whose
/// device has an id); where no handled event reports one, it is the device
/// tracked before.
pub proof fn law_tracked_device_is_the_last_reported(
    msg: Message,
    payloads: Option<Vec<ParsedPayload>>,
    last: Option<Seq<char>>,
    actions: Seq<WssAction>,
    next: Option<Seq<char>>,
)
    requires
        wss_outcome(msg, payloads, last, actions, next),
    ensures
        next == latest(reported_ids(handled(msg, payloads).1), last),
{
    lemma_handled(msg, payloads, last, actions, next);
}

proof fn lemma_handled(
    msg: Message,
    payloads: Option<Vec<ParsedPayload>>,
    last: Option<Seq<char>>,
    actions: Seq<WssAction>,
    next: Option<Seq<char>>,
)
    requires
        wss_outcome(msg, payloads, last, actions, next),
    ensures
        announcements(actions) == handled(msg, payloads).0,
        next == latest(reported_ids(handled(msg, payloads).1), last),
{
    assert(reported_ids(Seq::<ParsedEvent>::empty()) == Seq::<Seq<char>>::empty());
    assert(announcements(Seq::<WssAction>::empty()) == Seq::<WssAction>::empty());
    if actions.len() == 1 {
        assert(actions =~= seq![actions[0]]);
        lemma_announcements_single(actions[0]);
    }
    if passes_guard(msg) {
        if let Some(ps) = payloads {
            assert(ps@.len() == ps.len());
            lemma_payloads_track(ps@, last, ps@.len() as int);
            assert(ps@.take(ps@.len() as int) =~= ps@);
        }
    }
}

/// The events that the steps `s` announce, in order.
pub open spec fn named_events(s: Seq<WssAction>, ps: Seq<ParsedPayload>) -> Seq<ParsedEvent>
    decreases s.len(),
{
    if s.len() == 0 {
        Seq::empty()
    } else {
        let rest = named_events(s.drop_last(), ps);
        match s.last() {
            WssAction::RawEvent { payload, event } => match ps[payload as int].events {
                Ok(evs) => rest.push(evs@[event as int]),
                Err(_) => rest,
            },
            _ => rest,
        }
    }
}

/// The device tracked when the step at index `k` is taken: the last device
/// reported by the events announced before it, or `last` where none was.
pub open spec fn tracked_before(
    s: Seq<WssAction>,
    k: int,
    ps: Seq<ParsedPayload>,
    last: Option<Seq<char>>,
) -> Option<Seq<char>> {
    latest(reported_ids(named_events(s.take(k), ps)), last)
}

/// Where the step at index `k` announces a `DEVICE_STATE_CHANGED` event whose
/// device list parsed, the next step clears the playback state exactly when
/// a device is tracked at that point and none of the listed devices has its
/// id.
pub open spec fn clear_rule_at(
    s: Seq<WssAction>,
    k: int,
    ps: Seq<ParsedPayload>,
    last: Option<Seq<char>>,
) -> bool {
    match s[k] {
        WssAction::RawEvent { payload, event } => payload < ps.len() && match ps[payload as int].events {
            Ok(evs) => event < evs@.len() && match evs@[event as int].device_state_changed {
                Ok(dsc) => evs@[event as int].event.kind@ == "DEVICE_STATE_CHANGED"@ ==> (k + 1
                    < s.len() && ((s[k + 1] == WssAction::PlaybackStateCleared) <==> (
                tracked_before(s, k, ps, last) matches Some(id) && !device_listed(
                    dsc.devices@,
                    id,
                )))),
                Err(_) => true,
            },
            Err(_) => false,
        },
        _ => true,
    }
}

/// What holds of the steps and the tracked device of a handling that started
/// with `last` tracked: the device after it is the last one reported by the
/// announced events, and every parsed device list is preceded by a clear
/// exactly where the tracked device is missing from it.
pub open spec fn track_props(
    r: (Seq<WssAction>, Option<Seq<char>>, bool),
    ps: Seq<ParsedPayload>,
    last: Option<Seq<char>>,
) -> bool {
    &&& r.1 == latest(reported_ids(named_events(r.0, ps)), last)
    &&& forall|k: int| 0 <= k < r.0.len() ==> #[trigger] clear_rule_at(r.0, k, ps, last)
}

proof fn lemma_named_concat(a: Seq<WssAction>, b: Seq<WssAction>, ps: Seq<ParsedPayload>)
    ensures
        named_events(a + b, ps) == named_events(a, ps) + named_events(b, ps),
    decreases b.len(),
{
    if b.len() == 0 {
        assert(a + b =~= a);
        assert(named_events(a, ps) + named_events(b, ps) =~= named_events(a, ps));
    } else {
        lemma_named_concat(a, b.drop_last(), ps);
        assert((a + b).drop_last() =~= a + b.drop_last());
        assert((a + b).last() == b.last());
        match b.last() {
            WssAction::RawEvent { payload, event } => match ps[payload as int].events {
                Ok(evs) => {
                    assert(named_events(a, ps) + named_events(b, ps) =~= (named_events(a, ps)
                        + named_events(b.drop_last(), ps)).push(evs@[event as int]));
                },
                Err(_) => {},
            },
            _ => {},
        }
    }
}

proof fn lemma_named_none(s: Seq<WssAction>, ps: Seq<ParsedPayload>)
    requires
        forall|k: int| 0 <= k < s.len() ==> !(#[trigger] s[k] is RawEvent),
    ensures
        named_events(s, ps) == Seq::<ParsedEvent>::empty(),
    decreases s.len(),
{
    if s.len() > 0 {
        lemma_named_none(s.drop_last(), ps);
        assert(!(s[s.len() - 1] is RawEvent));
    }
}

proof fn lemma_track_concat(
    a: (Seq<WssAction>, Option<Seq<char>>, bool),
    b: (Seq<WssAction>, Option<Seq<char>>, bool),
    ps: Seq<ParsedPayload>,
    last: Option<Seq<char>>,
)
    requires
        track_props(a, ps, last),
        track_props(b, ps, a.1),
    ensures
        track_props((a.0 + b.0, b.1, b.2), ps, last),
{
    let s = a.0 + b.0;
    let n = a.0.len() as int;
    lemma_named_concat(a.0, b.0, ps);
    lemma_reported_concat(named_events(a.0, ps), named_events(b.0, ps));
    lemma_latest_concat(
        reported_ids(named_events(a.0, ps)),
        reported_ids(named_events(b.0, ps)),
        last,
    );
    assert forall|k: int| 0 <= k < s.len() implies #[trigger] clear_rule_at(s, k, ps, last) by {
        if k < n {
            assert(clear_rule_at(a.0, k, ps, last));
            assert(s[k] == a.0[k]);
            assert(s.take(k) =~= a.0.take(k));
            if k + 1 < n {
                assert(s[k + 1] == a.0[k + 1]);
            }
        } else {
            let j = k - n;
            assert(clear_rule_at(b.0, j, ps, a.1));
            assert(s[k] == b.0[j]);
            if k + 1 < s.len() {
                assert(s[k + 1] == b.0[j + 1]);
            }
            assert(s.take(k) =~= a.0 + b.0.take(j));
            lemma_named_concat(a.0, b.0.take(j), ps);
            lemma_reported_concat(named_events(a.0, ps), named_events(b.0.take(j), ps));
            lemma_latest_concat(
                reported_ids(named_events(a.0, ps)),
                reported_ids(named_events(b.0.take(j), ps)),
                last,
            );
        }
    }
}

proof fn lemma_track_no_events(r: (Seq<WssAction>, Option<Seq<char>>, bool), ps: Seq<ParsedPayload>, last: Option<Seq<char>>)
    requires
        r.1 == last,
        forall|k: int| 0 <= k < r.0.len() ==> !(#[trigger] r.0[k] is RawEvent),
    ensures
        track_props(r, ps, last),
{
    lemma_named_none(r.0, ps);
    assert(reported_ids(Seq::<ParsedEvent>::empty()) == Seq::<Seq<char>>::empty());
    assert forall|k: int| 0 <= k < r.0.len() implies #[trigger] clear_rule_at(r.0, k, ps, last) by {
        assert(!(r.0[k] is RawEvent));
    }
}

proof fn lemma_event_track_props(
    ps: Seq<ParsedPayload>,
    p: usize,
    evs: Vec<ParsedEvent>,
    e: usize,
    last: Option<Seq<char>>,
)
    requires
        p < ps.len(),
        ps[p as int].events == Ok::<Vec<ParsedEvent>, serde_json::Error>(evs),
        e < evs@.len(),
    ensures
        track_props(event_step(evs@[e as int], p, e, last), ps, last),
{
    let pe = evs@[e as int];
    let st = event_step(pe, p, e, last);
    let raw = WssAction::RawEvent { payload: p, event: e };
    let head = seq![raw];
    let tail = st.0.subrange(1, st.0.len() as int);
    assert(st.0 =~= head + tail);
    assert forall|k: int| 0 <= k < tail.len() implies !(#[trigger] tail[k] is RawEvent) by {
        assert(tail[k] == st.0[k + 1]);
    }
    lemma_named_none(tail, ps);
    assert(head.drop_last() =~= Seq::<WssAction>::empty());
    assert(head.last() == raw);
    assert(named_events(Seq::<WssAction>::empty(), ps) == Seq::<ParsedEvent>::empty());
    assert(Seq::<ParsedEvent>::empty().push(pe) =~= seq![pe]);
    lemma_named_concat(head, tail, ps);
    assert(seq![pe] + Seq::<ParsedEvent>::empty() =~= seq![pe]);
    assert(named_events(st.0, ps) == seq![pe]);
    lemma_event_track(ps, p, evs, e, last);
    assert(st.0.take(0) =~= Seq::<WssAction>::empty());
    assert(reported_ids(Seq::<ParsedEvent>::empty()) == Seq::<Seq<char>>::empty());
    assert(tracked_before(st.0, 0, ps, last) == last);
    assert forall|k: int| 0 <= k < st.0.len() implies #[trigger] clear_rule_at(st.0, k, ps, last) by {
        if k > 0 {
            assert(st.0[k] == tail[k - 1]);
        }
    }
}

proof fn lemma_events_track_props(
    ps: Seq<ParsedPayload>,
    p: usize,
    evs: Vec<ParsedEvent>,
    last: Option<Seq<char>>,
    j: int,
)
    requires
        p < ps.len(),
        ps[p as int].events == Ok::<Vec<ParsedEvent>, serde_json::Error>(evs),
        0 <= j <= evs@.len(),
    ensures
        track_props(events_plan(evs@.take(j), p, last), ps, last),
    decreases j,
{
    if j == 0 {
        assert(evs@.take(0) =~= Seq::<ParsedEvent>::empty());
        lemma_track_no_events(events_plan(evs@.take(0), p, last), ps, last);
    } else {
        assert(evs@.len() == evs.len());
        lemma_events_track_props(ps, p, evs, last, j - 1);
        assert(evs@.take(j).drop_last() =~= evs@.take(j - 1));
        assert(evs@.take(j).last() == evs@[j - 1]);
        let prev = events_plan(evs@.take(j - 1), p, last);
        if !prev.2 {
            lemma_event_track_props(ps, p, evs, (j - 1) as usize, prev.1);
            lemma_track_concat(prev, event_step(evs@[j - 1], p, (j - 1) as usize, prev.1), ps, last);
        }
    }
}

proof fn lemma_payload_track_props(ps: Seq<ParsedPayload>, p: usize, last: Option<Seq<char>>)
    requires
        p < ps.len(),
    ensures
        track_props(payload_step(ps[p as int], p, last), ps, last),
{
    let raw = seq![WssAction::RawWssEvent { payload: p }];
    let first: (Seq<WssAction>, Option<Seq<char>>, bool) = (raw, last, false);
    lemma_track_no_events(first, ps, last);
    match ps[p as int].events {
        Ok(evs) => {
            lemma_events_track_props(ps, p, evs, last, evs@.len() as int);
            assert(evs@.take(evs@.len() as int) =~= evs@);
            lemma_track_concat(first, events_plan(evs@, p, last), ps, last);
        },
        Err(_) => {
            lemma_track_no_events(payload_step(ps[p as int], p, last), ps, last);
        },
    }
}

proof fn lemma_payloads_track_props(ps: Seq<ParsedPayload>, last: Option<Seq<char>>, i: int)
    requires
        0 <= i <= ps.len(),
        ps.len() <= usize::MAX,
    ensures
        track_props(payloads_plan(ps.take(i), last), ps, last),
    decreases i,
{
    if i == 0 {
        assert(ps.take(0) =~= Seq::<ParsedPayload>::empty());
        lemma_track_no_events(payloads_plan(ps.take(0), last), ps, last);
    } else {
        lemma_payloads_track_props(ps, last, i - 1);
        assert(ps.take(i).drop_last() =~= ps.take(i - 1));
        assert(ps.take(i).last() == ps[i - 1]);
        let prev = payloads_plan(ps.take(i - 1), last);
        if !prev.2 {
            lemma_payload_track_props(ps, (i - 1) as usize, prev.1);
            lemma_track_concat(prev, payload_step(ps[i - 1], (i - 1) as usize, prev.1), ps, last);
        }
    }
}

/// The playback state is cleared right before the device list of a
/// `DEVICE_STATE_CHANGED` event exactly when, at that point, a device is
/// tracked (the last one reported by the events handled before, or the one
/// tracked before the message) and no device of that list has its id; where
/// the tracked device is listed, or none is tracked, no clear comes before
/// the list. The device tracked after the message is the last one reported
/// by the announced events, or the one tracked before.
pub proof fn law_playback_cleared_exactly_when_tracked_device_unlisted(
    msg: Message,
    payloads: Option<Vec<ParsedPayload>>,
    last: Option<Seq<char>>,
    actions: Seq<WssAction>,
    next: Option<Seq<char>>,
)
    requires
        wss_outcome(msg, payloads, last, actions, next),
    ensures
        forall|k: int|
            0 <= k < actions.len() ==> #[trigger] clear_rule_at(
                actions,
                k,
                payload_seq(payloads),
                last,
            ),
        next == latest(reported_ids(named_events(actions, payload_seq(payloads))), last),
{
    let ps = payload_seq(payloads);
    if passes_guard(msg) && payloads is Some {
        let v = payloads->0;
        assert(v@.len() == v.len());
        lemma_payloads_track_props(v@, last, v@.len() as int);
        assert(v@.take(v@.len() as int) =~= v@);
    } else {
        assert forall|k: int| 0 <= k < actions.len() implies !(#[trigger] actions[k] is RawEvent) by {}
        lemma_track_no_events((actions, next, false), ps, last);
    }
}

} // verus!
