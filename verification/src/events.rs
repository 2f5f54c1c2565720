//! Engine events turned into the daemon's own events.
use vstd::prelude::*;

use crate::digest::{random_uuid_text, unix_now_secs, uuid_text};
use crate::model::InstanceState;
use crate::text::{append_chars, append_str, decimal, decimal_chars, string_from_chars};

verus! {

/// Kind of a daemon event.
#[derive(Debug, Clone, Copy, PartialEq, Eq, Structural)]
pub enum EventType {
    /// Peers changed.
    PeerChanged,
    /// Instance state changed.
    InstanceState,
    /// An error or notice of the control plane.
    ControlError,
    /// Configuration changed.
    ConfigChanged,
}

/// What an event carries.
#[derive(Debug, Clone)]
pub enum EventPayload {
    /// Peers changed (the list is left empty; subscribers fetch it).
    PeerChanged {
        /// Instance id.
        instance_id: String,
    },
    /// Instance state changed.
    InstanceState {
        /// Instance id.
        instance_id: String,
        /// New state.
        state: InstanceState,
        /// Running.
        running: bool,
        /// Error text.
        error_message: String,
        /// Device name.
        dev_name: String,
    },
    /// An error or notice.
    ControlError {
        /// Code such as `ENGINE_ERROR`.
        code: String,
        /// Text.
        message: String,
        /// Instance id.
        instance_id: String,
    },
    /// Configuration changed.
    ConfigChanged {
        /// Instance id.
        instance_id: String,
        /// Revision (empty).
        revision: String,
    },
}

/// A daemon event.
#[derive(Debug, Clone)]
pub struct Event {
    /// Event id (a UUID).
    pub event_id: String,
    /// Unix seconds.
    pub timestamp: i64,
    /// Node id.
    pub node_id: String,
    /// Instance id.
    pub instance_id: String,
    /// Kind.
    pub event_type: EventType,
    /// What it carries.
    pub payload: Option<EventPayload>,
}

/// An engine event, as far as the mapping reads it.
#[derive(Debug, Clone)]
pub enum EngineEvent {
    /// A peer was added.
    PeerAdded,
    /// A peer was removed.
    PeerRemoved,
    /// A peer connection was added.
    PeerConnAdded,
    /// A peer connection was removed.
    PeerConnRemoved,
    /// The TUN device is ready (its name).
    TunDeviceReady(String),
    /// The TUN device failed (the error).
    TunDeviceError(String),
    /// A listener could not be added (the error).
    ListenerAddFailed(String),
    /// A listener could not accept (the error).
    ListenerAcceptFailed(String),
    /// A connection could not be made (the error).
    ConnectError(String),
    /// A connection failed (the error).
    ConnectionError(String),
    /// The configuration was patched.
    ConfigPatched,
    /// Any other notice, with its debug text.
    Notice(String),
}

/// The event's header fields.
pub open spec fn header_is(
    e: Event,
    node_id: Seq<char>,
    instance_id: Seq<char>,
    ty: EventType,
    event_id: Seq<char>,
    now: i64,
) -> bool {
    &&& e.event_id@ == event_id
    &&& e.timestamp == now
    &&& e.node_id@ == node_id
    &&& e.instance_id@ == instance_id
    &&& e.event_type == ty
}

/// A control error event with `code` and `message`.
pub open spec fn control_error_is(
    e: Event,
    node_id: Seq<char>,
    instance_id: Seq<char>,
    code: Seq<char>,
    message: Seq<char>,
    event_id: Seq<char>,
    now: i64,
) -> bool {
    &&& header_is(e, node_id, instance_id, EventType::ControlError, event_id, now)
    &&& e.payload matches Some(EventPayload::ControlError { code: c, message: m, instance_id: i })
    &&& c@ == code && m@ == message && i@ == instance_id
}

/// The event an engine event maps to.
pub open spec fn mapped_event(
    node_id: Seq<char>,
    instance_id: Seq<char>,
    ev: EngineEvent,
    event_id: Seq<char>,
    now: i64,
    e: Event,
) -> bool {
    match ev {
        EngineEvent::PeerAdded | EngineEvent::PeerRemoved | EngineEvent::PeerConnAdded
        | EngineEvent::PeerConnRemoved => {
            &&& header_is(e, node_id, instance_id, EventType::PeerChanged, event_id, now)
            &&& e.payload matches Some(EventPayload::PeerChanged { instance_id: i })
            &&& i@ == instance_id
        },
        EngineEvent::TunDeviceReady(dev) => {
            &&& header_is(e, node_id, instance_id, EventType::InstanceState, event_id, now)
            &&& e.payload matches Some(
                EventPayload::InstanceState { instance_id: i, state, running, error_message, dev_name },
            )
            &&& i@ == instance_id && state == InstanceState::Running && running
                && error_message@.len() == 0 && dev_name == dev
        },
        EngineEvent::TunDeviceError(err) => {
            &&& header_is(e, node_id, instance_id, EventType::InstanceState, event_id, now)
            &&& e.payload matches Some(
                EventPayload::InstanceState { instance_id: i, state, running, error_message, dev_name },
            )
            &&& i@ == instance_id && state == InstanceState::Error && !running && error_message
                == err && dev_name@.len() == 0
        },
        EngineEvent::ListenerAddFailed(m) | EngineEvent::ListenerAcceptFailed(m)
        | EngineEvent::ConnectError(m) | EngineEvent::ConnectionError(m) => control_error_is(
            e,
            node_id,
            instance_id,
            "ENGINE_ERROR"@,
            m@,
            event_id,
            now,
        ),
        EngineEvent::ConfigPatched => {
            &&& header_is(e, node_id, instance_id, EventType::ConfigChanged, event_id, now)
            &&& e.payload matches Some(EventPayload::ConfigChanged { instance_id: i, revision })
            &&& i@ == instance_id && revision@.len() == 0
        },
        EngineEvent::Notice(text) => control_error_is(
            e,
            node_id,
            instance_id,
            "ENGINE_EVENT"@,
            text@,
            event_id,
            now,
        ),
    }
}

fn base_event(node_id: &str, instance_id: &str, ty: EventType, event_id: String, now: i64) -> (e:
    Event)
    ensures
        header_is(e, node_id@, instance_id@, ty, event_id@, now),
        e.payload is None,
{
    Event {
        event_id,
        timestamp: now,
        node_id: node_id.to_string(),
        instance_id: instance_id.to_string(),
        event_type: ty,
        payload: None,
    }
}

/// A control error event.
pub fn make_control_error(
    node_id: &str,
    instance_id: &str,
    code: &str,
    message: String,
    event_id: String,
    now: i64,
) -> (e: Event)
    ensures
        control_error_is(e, node_id@, instance_id@, code@, message@, event_id@, now),
{
    let mut e = base_event(node_id, instance_id, EventType::ControlError, event_id, now);
    e.payload = Some(
        EventPayload::ControlError {
            code: code.to_string(),
            message,
            instance_id: instance_id.to_string(),
        },
    );
    e
}

/// The event for an engine event, with the given id and time stamp.
pub fn map_engine_event(
    node_id: &str,
    instance_id: &str,
    ev: EngineEvent,
    event_id: String,
    now: i64,
) -> (r: Option<Event>)
    ensures
        r matches Some(e) && mapped_event(node_id@, instance_id@, ev, event_id@, now, e),
{
    match ev {
        EngineEvent::PeerAdded | EngineEvent::PeerRemoved | EngineEvent::PeerConnAdded
        | EngineEvent::PeerConnRemoved => {
            let mut e = base_event(node_id, instance_id, EventType::PeerChanged, event_id, now);
            e.payload = Some(EventPayload::PeerChanged { instance_id: instance_id.to_string() });
            Some(e)
        },
        EngineEvent::TunDeviceReady(dev) => {
            let mut e = base_event(node_id, instance_id, EventType::InstanceState, event_id, now);
            e.payload = Some(
                EventPayload::InstanceState {
                    instance_id: instance_id.to_string(),
                    state: InstanceState::Running,
                    running: true,
                    error_message: String::new(),
                    dev_name: dev,
                },
            );
            Some(e)
        },
        EngineEvent::TunDeviceError(err) => {
            let mut e = base_event(node_id, instance_id, EventType::InstanceState, event_id, now);
            e.payload = Some(
                EventPayload::InstanceState {
                    instance_id: instance_id.to_string(),
                    state: InstanceState::Error,
                    running: false,
                    error_message: err,
                    dev_name: String::new(),
                },
            );
            Some(e)
        },
        EngineEvent::ListenerAddFailed(m) | EngineEvent::ListenerAcceptFailed(m)
        | EngineEvent::ConnectError(m) | EngineEvent::ConnectionError(m) => {
            Some(make_control_error(node_id, instance_id, "ENGINE_ERROR", m, event_id, now))
        },
        EngineEvent::ConfigPatched => {
            let mut e = base_event(node_id, instance_id, EventType::ConfigChanged, event_id, now);
            e.payload = Some(
                EventPayload::ConfigChanged {
                    instance_id: instance_id.to_string(),
                    revision: String::new(),
                },
            );
            Some(e)
        },
        EngineEvent::Notice(text) => {
            Some(make_control_error(node_id, instance_id, "ENGINE_EVENT", text, event_id, now))
        },
    }
}

/// The event for an engine event, stamped with a fresh UUID and the
/// current time.
pub fn map_et_event(node_id: &str, instance_id: &str, ev: EngineEvent) -> (r: Option<Event>)
    ensures
        r matches Some(e) && mapped_event(node_id@, instance_id@, ev, e.event_id@, e.timestamp, e)
            && exists|u: u128| e.event_id@ == uuid_text(u),
{
    let id = random_uuid_text();
    let now = unix_now_secs();
    map_engine_event(node_id, instance_id, ev, id, now)
}

/// The notice that `dropped` engine events were lost.
pub fn lagged_event(node_id: &str, instance_id: &str, dropped: u64, event_id: String, now: i64) -> (e:
    Event)
    ensures
        control_error_is(
            e,
            node_id@,
            instance_id@,
            "EVENT_LAGGED"@,
            "丢弃 "@ + decimal(dropped as nat) + " 条引擎事件"@,
            event_id@,
            now,
        ),
{
    let mut m: Vec<char> = Vec::new();
    append_str(&mut m, "丢弃 ");
    append_chars(&mut m, &decimal_chars(dropped));
    append_str(&mut m, " 条引擎事件");
    make_control_error(
        node_id,
        instance_id,
        "EVENT_LAGGED",
        string_from_chars(m.as_slice()),
        event_id,
        now,
    )
}

} // verus!
