//! The backend's dispatch rules: the registry of open connections, the life
//! of one connection, what an update leaves behind and where a reply goes.

use vstd::prelude::*;
use vstd::hash_map::StringHashMap;
use crate::model::{Model, ModelStore};

verus! {

/// Number of messages the delivery channel holds before a sender has to wait.
pub const CHANNEL_CAPACITY: usize = 20;

/// A message bound for one client.
#[derive(Clone, Debug, PartialEq, Eq)]
pub struct MessageInfo {
    pub client_id: String,
    pub msg_bytes: String,
}

/// The reply of an update: the client it is addressed to and its text.
#[derive(Clone, Debug, PartialEq, Eq)]
pub struct ToFrontend {
    pub client_id: String,
    pub message: String,
}

/// What the backend's update entry point returned: the new model, taken
/// over by the host, and, if the guest produced one, a reply.
#[derive(Debug, PartialEq, Eq)]
pub struct BackendUpdateReturn {
    pub model: Model,
    pub to_frontend: Result<ToFrontend, ()>,
}

/// The open connections: the handle of the outbound sink of each client, by
/// client id.
pub struct ConnectionRegistry {
    clients: StringHashMap<u64>,
}

impl ConnectionRegistry {
    /// The registry as a map from client id to sink handle.
    pub closed spec fn view(self) -> Map<Seq<char>, u64> {
        self.clients@
    }

    /// A registry without connections.
    pub fn new() -> (r: Self)
        ensures
            r@ == Map::<Seq<char>, u64>::empty(),
    {
        ConnectionRegistry { clients: StringHashMap::new() }
    }

    /// The sink registered for `client_id`, if there is one.
    pub fn get(&self, client_id: &String) -> (r: Option<u64>)
        ensures
            r == if self@.contains_key(client_id@) {
                Some(self@[client_id@])
            } else {
                None
            },
    {
        match self.clients.get(client_id.as_str()) {
            Some(sink) => Some(*sink),
            None => None,
        }
    }

    /// Registers `sink` for `client_id`, in place of any sink registered for
    /// it before, which is returned.
    pub fn insert(&mut self, client_id: String, sink: u64) -> (r: Option<u64>)
        ensures
            final(self)@ == old(self)@.insert(client_id@, sink),
            r == if old(self)@.contains_key(client_id@) {
                Some(old(self)@[client_id@])
            } else {
                None
            },
    {
        let previous = self.get(&client_id);
        self.clients.insert(client_id, sink);
        previous
    }

    /// Removes the registration of `client_id` and returns its sink, if it
    /// was registered.
    pub fn remove(&mut self, client_id: &String) -> (r: Option<u64>)
        ensures
            final(self)@ == old(self)@.remove(client_id@),
            r == if old(self)@.contains_key(client_id@) {
                Some(old(self)@[client_id@])
            } else {
                None
            },
    {
        let previous = self.get(client_id);
        self.clients.remove(client_id.as_str());
        previous
    }
}

/// What becomes of a message bound for a client.
#[derive(Clone, Debug, PartialEq, Eq)]
pub enum Delivery {
    /// Send the text on this sink.
    Send { sink: u64, text: String },
    /// The client is not connected: the message is dropped and logged.
    Dropped { client_id: String },
}

/// Where a message goes: to the sink registered for its client id and to no
/// other; it is dropped if the client is not registered. Nothing is queued
/// and nothing is tried again.
pub open spec fn spec_route(registry: Map<Seq<char>, u64>, info: MessageInfo) -> Delivery {
    if registry.contains_key(info.client_id@) {
        Delivery::Send { sink: registry[info.client_id@], text: info.msg_bytes }
    } else {
        Delivery::Dropped { client_id: info.client_id }
    }
}

/// Routes one message from the delivery channel.
pub fn route(registry: &ConnectionRegistry, info: MessageInfo) -> (r: Delivery)
    ensures
        r == spec_route(registry@, info),
{
    match registry.get(&info.client_id) {
        Some(sink) => Delivery::Send { sink, text: info.msg_bytes },
        None => Delivery::Dropped { client_id: info.client_id },
    }
}

/// The model an update starts from: a copy of the handle of the current one,
/// or nothing when the read lock could not be had. Without it the update is
/// abandoned: the guest is not called and the store keeps its model.
pub fn snapshot_for_update(store: &ModelStore, read_lock_held: bool) -> (r: Option<Model>)
    ensures
        r == if read_lock_held {
            Some(store.spec_snapshot())
        } else {
            None::<Model>
        },
{
    if read_lock_held {
        Some(store.snapshot())
    } else {
        None
    }
}

/// What an update leaves behind. The new model replaces the current one
/// unless the write lock could not be had, in which case the update is
/// abandoned and the store keeps its model. A reply of the guest becomes a
/// message for the delivery channel either way.
pub fn handle_ws_message(
    store: &mut ModelStore,
    write_lock_held: bool,
    returned: BackendUpdateReturn,
) -> (r: Option<MessageInfo>)
    ensures
        *final(store) == if write_lock_held {
            old(store).spec_replace(returned.model)
        } else {
            *old(store)
        },
        r == match returned.to_frontend {
            Ok(reply) => Some(MessageInfo { client_id: reply.client_id, msg_bytes: reply.message }),
            Err(_) => None,
        },
{
    let BackendUpdateReturn { model: updated_model, to_frontend } = returned;

    if write_lock_held {
        store.replace(updated_model);
    }

    match to_frontend {
        Ok(reply) => Some(MessageInfo { client_id: reply.client_id, msg_bytes: reply.message }),
        Err(_) => None,
    }
}

/// The message that the guest's send effect puts on the delivery channel.
/// Before the channel and the runtime are set up the effect does nothing.
pub fn roc_fx_send_to_frontend_impl(
    channel_ready: bool,
    runtime_ready: bool,
    client_id: &str,
    msg: &str,
) -> (r: Option<MessageInfo>)
    ensures
        r is Some <==> channel_ready && runtime_ready,
        r matches Some(info) ==> info.client_id@ == client_id@ && info.msg_bytes@ == msg@,
{
    if !channel_ready {
        return None;
    }
    if !runtime_ready {
        return None;
    }
    let client_id = client_id.to_owned();
    let msg_bytes = msg.to_owned();
    Some(MessageInfo { client_id, msg_bytes })
}

/// Where a connection stands.
#[derive(Clone, Debug, PartialEq, Eq)]
pub enum ConnectionState {
    /// The upgrade request has arrived.
    Connecting,
    /// Session and client are known; the sink is not registered yet.
    Identified { session_id: String, client_id: String },
    /// The sink is registered and frames are read.
    Streaming { session_id: String, client_id: String },
    /// The stream has ended.
    Closed,
}

/// What the socket of a connection yields.
#[derive(Clone, Debug, PartialEq, Eq)]
pub enum Frame {
    /// A text frame.
    Text(String),
    /// A frame that is not text.
    Other,
    /// A stream error.
    Failed,
}

/// What happens to a connection.
#[derive(Clone, Debug, PartialEq, Eq)]
pub enum ConnectionEvent {
    /// The connection was identified.
    Identified { session_id: String, client_id: String },
    /// The socket was split and its sink is at hand.
    SinkReady { sink: u64 },
    /// The stream yielded a frame or an error.
    Received(Frame),
    /// The stream has ended.
    StreamEnded,
}

/// What the host does for a connection after an event.
#[derive(Clone, Debug, PartialEq, Eq)]
pub enum ConnectionAction {
    /// Nothing.
    Nothing,
    /// Register the sink under the client id.
    Register { client_id: String, sink: u64 },
    /// Run an update for this message in a task of its own.
    Dispatch { client_id: String, session_id: String, message: String },
    /// Log what was received and go on reading.
    LogUnhandled,
    /// Remove the client's registration.
    Deregister { client_id: String },
}

/// The next state of a connection and the action the event calls for. A
/// text frame is dispatched; other frames and errors are logged and leave
/// the connection streaming; the end of the stream closes it and removes its
/// registration; an event that does not belong to the state changes nothing.
pub open spec fn spec_step(state: ConnectionState, event: ConnectionEvent) -> (
    ConnectionState,
    ConnectionAction,
) {
    match (state, event) {
        (ConnectionState::Connecting, ConnectionEvent::Identified { session_id, client_id }) => (
            ConnectionState::Identified { session_id, client_id },
            ConnectionAction::Nothing,
        ),
        (
            ConnectionState::Identified { session_id, client_id },
            ConnectionEvent::SinkReady { sink },
        ) => (
            ConnectionState::Streaming { session_id, client_id },
            ConnectionAction::Register { client_id, sink },
        ),
        (
            ConnectionState::Streaming { session_id, client_id },
            ConnectionEvent::Received(Frame::Text(message)),
        ) => (
            ConnectionState::Streaming { session_id, client_id },
            ConnectionAction::Dispatch { client_id, session_id, message },
        ),
        (
            ConnectionState::Streaming { session_id, client_id },
            ConnectionEvent::Received(_),
        ) => (ConnectionState::Streaming { session_id, client_id }, ConnectionAction::LogUnhandled),
        (ConnectionState::Streaming { session_id, client_id }, ConnectionEvent::StreamEnded) => (
            ConnectionState::Closed,
            ConnectionAction::Deregister { client_id },
        ),
        (state, _) => (state, ConnectionAction::Nothing),
    }
}

/// Advances a connection by one event.
pub fn handle_websocket_connection(state: ConnectionState, event: ConnectionEvent) -> (r: (
    ConnectionState,
    ConnectionAction,
))
    ensures
        r == spec_step(state, event),
{
    match (state, event) {
        (ConnectionState::Connecting, ConnectionEvent::Identified { session_id, client_id }) => (
            ConnectionState::Identified { session_id, client_id },
            ConnectionAction::Nothing,
        ),
        (
            ConnectionState::Identified { session_id, client_id },
            ConnectionEvent::SinkReady { sink },
        ) => {
            let registered_id = client_id.clone();
            (
                ConnectionState::Streaming { session_id, client_id },
                ConnectionAction::Register { client_id: registered_id, sink },
            )
        },
        (
            ConnectionState::Streaming { session_id, client_id },
            ConnectionEvent::Received(Frame::Text(message)),
        ) => {
            let action = ConnectionAction::Dispatch {
                client_id: client_id.clone(),
                session_id: session_id.clone(),
                message,
            };
            (ConnectionState::Streaming { session_id, client_id }, action)
        },
        (
            ConnectionState::Streaming { session_id, client_id },
            ConnectionEvent::Received(_),
        ) => (ConnectionState::Streaming { session_id, client_id }, ConnectionAction::LogUnhandled),
        (ConnectionState::Streaming { session_id, client_id }, ConnectionEvent::StreamEnded) => (
            ConnectionState::Closed,
            ConnectionAction::Deregister { client_id },
        ),
        (state, _) => (state, ConnectionAction::Nothing),
    }
}

/// Carries out a registry action: registers or removes a client, and leaves
/// the registry alone for any other action.
pub fn apply_to_registry(registry: &mut ConnectionRegistry, action: &ConnectionAction)
    ensures
        final(registry)@ == match *action {
            ConnectionAction::Register { client_id, sink } => old(registry)@.insert(client_id@, sink),
            ConnectionAction::Deregister { client_id } => old(registry)@.remove(client_id@),
            _ => old(registry)@,
        },
{
    match action {
        ConnectionAction::Register { client_id, sink } => {
            registry.insert(client_id.clone(), *sink);
        },
        ConnectionAction::Deregister { client_id } => {
            registry.remove(client_id);
        },
        _ => {},
    }
}

/// A connection that has closed is not in the registry: once a streaming
/// connection sees its stream end and the action is carried out, no message
/// is routed to its client id.
pub proof fn lemma_closed_connection_is_dropped(
    registry: Map<Seq<char>, u64>,
    session_id: String,
    client_id: String,
    info: MessageInfo,
)
    requires
        info.client_id@ == client_id@,
    ensures
        spec_step(
            ConnectionState::Streaming { session_id, client_id },
            ConnectionEvent::StreamEnded,
        ) == (ConnectionState::Closed, ConnectionAction::Deregister { client_id }),
        spec_route(registry.remove(client_id@), info) == (Delivery::Dropped {
            client_id: info.client_id,
        }),
{
}

/// A reply reaches the sink of the client it is addressed to, whatever other
/// clients are registered: registering another client does not change where
/// the reply goes.
pub proof fn lemma_route_ignores_other_clients(
    registry: Map<Seq<char>, u64>,
    other: Seq<char>,
    other_sink: u64,
    info: MessageInfo,
)
    requires
        other != info.client_id@,
    ensures
        spec_route(registry.insert(other, other_sink), info) == spec_route(registry, info),
        spec_route(registry.remove(other), info) == spec_route(registry, info),
{
}

} // verus!
