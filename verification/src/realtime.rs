//! The state of the realtime connection to the backend's Reverb server, which
//! speaks the Pusher protocol: after the handshake
//! (`pusher:connection_established`) the connection has a socket id, with
//! which each private channel (`private-ride.7`, `private-driver.3`) is
//! subscribed once the backend signed the subscription.
//!
//! The socket itself belongs to the caller, which hands each event of the
//! socket to `RealtimeClient::poll_events` and performs the subscriptions that
//! `RealtimeClient::prepare_subscription` asks for.
use vstd::prelude::*;

use crate::api::errors::BroadcastAuthError;
use crate::json::{json_string, json_string_literal};
use crate::models::BroadcastAuthResponse;

verus! {

/// The prefix that the Pusher protocol puts on the name of a private channel.
pub open spec fn private_prefix() -> Seq<char> {
    "private-"@
}

/// Where the Reverb server lives (`wss://host/app/{key}`); `None` when the
/// environment did not configure one, and realtime screens say so.
#[derive(Debug, Clone, PartialEq, Eq, Default)]
pub struct RealtimeConfig {
    pub ws_url: Option<String>,
}

/// The state of the connection.
#[derive(Debug, Clone, Copy, PartialEq, Eq, Structural)]
pub enum ConnectionState {
    /// The socket is open, the handshake has not arrived yet.
    Connecting,
    /// The handshake arrived: there is a socket id, and channels can be
    /// subscribed.
    Connected,
    /// The socket closed or failed; `attempt` counts how many times in a row
    /// this happened without the connection coming back in between.
    Reconnecting { attempt: u32 },
}

/// An event of a channel, taken out of its Pusher frame; `data` is the raw
/// JSON that the backend published, empty when the frame had none.
#[derive(Debug, Clone, PartialEq)]
pub struct ChannelEvent {
    /// The full channel name, with its `private-` prefix.
    pub channel: String,
    pub event: String,
    pub data: String,
}

/// Failures of a subscription.
#[derive(Debug, Clone, PartialEq)]
pub enum SubscribeError {
    /// The handshake has not arrived, so there is no socket id to sign the
    /// subscription with.
    NotConnected,
    Auth(BroadcastAuthError),
}

impl SubscribeError {
    /// The text shown to the user for this error.
    pub open spec fn spec_message(&self) -> Seq<char> {
        match self {
            SubscribeError::NotConnected => "Todavia no se establecio la conexion en tiempo real."@,
            SubscribeError::Auth(e) => e.spec_message(),
        }
    }

    pub fn message(&self) -> (r: String)
        ensures
            r@ == self.spec_message(),
    {
        match self {
            SubscribeError::NotConnected => String::from_str(
                "Todavia no se establecio la conexion en tiempo real.",
            ),
            SubscribeError::Auth(e) => e.message(),
        }
    }
}

/// A Pusher frame as the caller decoded it from a text message: its event,
/// its channel and its data, and, where the data decodes as the handshake's
/// payload, the socket id in it.
#[derive(Debug, Clone, PartialEq)]
pub struct PusherFrame {
    pub event: String,
    pub channel: Option<String>,
    pub data: Option<String>,
    pub socket_id: Option<String>,
}

/// An event of the socket.
#[derive(Debug, Clone, PartialEq)]
pub enum TransportEvent {
    Opened,
    /// A text message: the frame it decoded to, or `None` when it is not a
    /// Pusher frame (malformed, or from a protocol version not understood).
    Text(Option<PusherFrame>),
    Binary,
    Closed,
    Error(String),
}

/// The connection, and the socket id it holds where it has one.
#[derive(Debug, Clone, PartialEq)]
enum Connection {
    Connecting(Option<String>),
    Connected(String),
    Reconnecting(u32),
}

/// The protocol state of the realtime connection: its state, its socket id,
/// and the channels that were subscribed, to subscribe them again after a
/// reconnection.
///
/// There is no automatic reconnection: when the connection drops, the caller
/// reconnects (`reset_for_reconnect`) and subscribes `pending_subscriptions`
/// again once the state is `Connected`.
#[derive(Debug)]
pub struct RealtimeClient {
    connection: Connection,
    subscriptions: Vec<String>,
}

/// Whether every name in `names` is a private channel, each at most once.
pub open spec fn distinct_private_channels(names: Seq<String>) -> bool {
    &&& forall|i: int| 0 <= i < names.len() ==> (#[trigger] names[i])@.len() >= private_prefix().len()
        && names[i]@.subrange(0, private_prefix().len() as int) == private_prefix()
    &&& forall|i: int, j: int|
        0 <= i < names.len() && 0 <= j < names.len() && i != j ==> (#[trigger] names[i])@
            != (#[trigger] names[j])@
}

/// The count of failures in a row that a state carries.
pub open spec fn attempt_of(state: ConnectionState) -> nat {
    match state {
        ConnectionState::Reconnecting { attempt } => attempt as nat,
        _ => 0,
    }
}

/// The event of the Pusher handshake.
pub open spec fn handshake_event() -> Seq<char> {
    "pusher:connection_established"@
}

/// A state of the connection with its socket id, if any.
pub type ConnectionView = (ConnectionState, Option<Seq<char>>);

/// The connection after one event of the socket: opening waits for a new
/// handshake, keeping the socket id until it arrives; a close or an error
/// drops the socket id and counts one more failure in a row; a handshake with
/// a socket id connects; anything else changes nothing.
pub open spec fn next_connection(c: ConnectionView, event: TransportEvent) -> ConnectionView {
    match event {
        TransportEvent::Opened => (
            ConnectionState::Connecting,
            if c.0 is Reconnecting {
                None
            } else {
                c.1
            },
        ),
        TransportEvent::Closed | TransportEvent::Error(_) => (
            ConnectionState::Reconnecting { attempt: (attempt_of(c.0) + 1) as u32 },
            None,
        ),
        TransportEvent::Text(Some(frame)) => if frame.event@ == handshake_event() {
            match frame.socket_id {
                Some(id) => (ConnectionState::Connected, Some(id@)),
                None => c,
            }
        } else {
            c
        },
        _ => c,
    }
}

/// The connection after a sequence of events of the socket.
pub open spec fn after_events(c: ConnectionView, events: Seq<TransportEvent>) -> ConnectionView
    decreases events.len(),
{
    if events.len() == 0 {
        c
    } else {
        next_connection(after_events(c, events.drop_last()), events.last())
    }
}

/// The channel event that a frame carries, as the views of its channel, event
/// and data: none for the handshake or for a frame of no channel.
pub open spec fn channel_event_of_frame(frame: PusherFrame) -> Option<(Seq<char>, Seq<char>, Seq<char>)> {
    if frame.event@ == handshake_event() {
        None
    } else {
        match frame.channel {
            Some(channel) => Some(
                (
                    channel@,
                    frame.event@,
                    match frame.data {
                        Some(data) => data@,
                        None => Seq::<char>::empty(),
                    },
                ),
            ),
            None => None,
        }
    }
}

/// The channel event that an event of the socket carries.
pub open spec fn channel_event_of(event: TransportEvent) -> Option<(Seq<char>, Seq<char>, Seq<char>)> {
    match event {
        TransportEvent::Text(Some(frame)) => channel_event_of_frame(frame),
        _ => None,
    }
}

/// Whether `r` is the channel event whose views are `expected`.
pub open spec fn surfaces(r: Option<ChannelEvent>, expected: Option<(Seq<char>, Seq<char>, Seq<char>)>) -> bool {
    match r {
        Some(e) => expected == Some((e.channel@, e.event@, e.data@)),
        None => expected is None,
    }
}

/// The names of the channels in `names`.
pub open spec fn names_of(names: Seq<String>) -> Seq<Seq<char>> {
    names.map_values(|name: String| name@)
}

/// The `pusher:subscribe` frame that subscribes `channel_name` with the
/// backend's signature `auth`, its keys in order as serde_json writes them.
pub open spec fn subscribe_frame_text(channel_name: Seq<char>, auth: Seq<char>) -> Seq<char> {
    "{\"data\":{\"auth\":"@ + json_string(auth) + ",\"channel\":"@ + json_string(channel_name)
        + "},\"event\":\"pusher:subscribe\"}"@
}

/// The names subscribed after `name` was subscribed: unchanged if it already
/// was, else with `name` last.
pub open spec fn subscribed_after(names: Seq<Seq<char>>, name: Seq<char>) -> Seq<Seq<char>> {
    if names.contains(name) {
        names
    } else {
        names.push(name)
    }
}

/// Whether handling `events` one by one from the connection `c` never counts
/// a failure past `u32::MAX`: before each close or error, fewer than
/// `u32::MAX` failures in a row were counted.
pub open spec fn failures_fit(c: ConnectionView, events: Seq<TransportEvent>) -> bool {
    forall|i: int|
        0 <= i < events.len() && ((#[trigger] events[i]) is Closed || events[i] is Error) ==> attempt_of(
            after_events(c, events.take(i)).0,
        ) < u32::MAX
}

/// The channel events that `events` carry, in order, as the views of their
/// channel, event and data.
pub open spec fn channel_events_of(events: Seq<TransportEvent>) -> Seq<(Seq<char>, Seq<char>, Seq<char>)>
    decreases events.len(),
{
    if events.len() == 0 {
        Seq::empty()
    } else {
        match channel_event_of(events.last()) {
            Some(e) => channel_events_of(events.drop_last()).push(e),
            None => channel_events_of(events.drop_last()),
        }
    }
}

/// The views of the channel, event and data of each of `events`.
pub open spec fn event_views(events: Seq<ChannelEvent>) -> Seq<(Seq<char>, Seq<char>, Seq<char>)> {
    events.map_values(|e: ChannelEvent| (e.channel@, e.event@, e.data@))
}

impl RealtimeClient {
    #[verifier::type_invariant]
    spec fn subscriptions_are_distinct_private_channels(self) -> bool {
        distinct_private_channels(self.subscriptions@)
    }

    /// The state of the connection.
    pub closed spec fn spec_state(&self) -> ConnectionState {
        match self.connection {
            Connection::Connecting(_) => ConnectionState::Connecting,
            Connection::Connected(_) => ConnectionState::Connected,
            Connection::Reconnecting(attempt) => ConnectionState::Reconnecting { attempt },
        }
    }

    /// The socket id of the connection, if it has one.
    pub closed spec fn spec_socket_id(&self) -> Option<Seq<char>> {
        match self.connection {
            Connection::Connecting(Some(id)) => Some(id@),
            Connection::Connecting(None) => None,
            Connection::Connected(id) => Some(id@),
            Connection::Reconnecting(_) => None,
        }
    }

    /// The connection's state with its socket id.
    pub open spec fn connection(&self) -> ConnectionView {
        (self.spec_state(), self.spec_socket_id())
    }

    /// The names of the channels subscribed so far.
    pub closed spec fn spec_subscriptions(&self) -> Seq<Seq<char>> {
        names_of(self.subscriptions@)
    }

    /// A connection that was just opened: no handshake, no subscription.
    pub fn new() -> (r: Self)
        ensures
            r.connection() == (ConnectionState::Connecting, None::<Seq<char>>),
            r.spec_subscriptions().len() == 0,
    {
        RealtimeClient { connection: Connection::Connecting(None), subscriptions: Vec::new() }
    }

    pub fn state(&self) -> (r: ConnectionState)
        ensures
            r == self.spec_state(),
    {
        match &self.connection {
            Connection::Connecting(_) => ConnectionState::Connecting,
            Connection::Connected(_) => ConnectionState::Connected,
            Connection::Reconnecting(attempt) => ConnectionState::Reconnecting { attempt: *attempt },
        }
    }

    pub fn socket_id(&self) -> (r: Option<&str>)
        ensures
            match r {
                Some(id) => self.spec_socket_id() == Some(id@),
                None => self.spec_socket_id() is None,
            },
    {
        match &self.connection {
            Connection::Connecting(Some(id)) => Some(id.as_str()),
            Connection::Connecting(None) => None,
            Connection::Connected(id) => Some(id.as_str()),
            Connection::Reconnecting(_) => None,
        }
    }

    /// The channels that were subscribed, to subscribe again after a
    /// reconnection: private channels, each at most once.
    pub fn pending_subscriptions(&self) -> (r: &[String])
        ensures
            names_of(r@) == self.spec_subscriptions(),
            distinct_private_channels(r@),
    {
        proof {
            use_type_invariant(self);
        }
        self.subscriptions.as_slice()
    }

    /// A Connected state always has a socket id, and a Reconnecting one never.
    pub proof fn connected_means_a_socket_id(&self)
        ensures
            self.spec_state() == ConnectionState::Connected ==> self.spec_socket_id() is Some,
            self.spec_state() is Reconnecting ==> self.spec_socket_id() is None,
    {
    }

    /// Handles a frame: the handshake stores the socket id and connects; a
    /// frame of a channel is surfaced as a channel event; any other frame is
    /// ignored.
    pub fn handle_frame(&mut self, frame: PusherFrame) -> (r: Option<ChannelEvent>)
        ensures
            final(self).connection() == next_connection(
                old(self).connection(),
                TransportEvent::Text(Some(frame)),
            ),
            final(self).spec_subscriptions() == old(self).spec_subscriptions(),
            surfaces(r, channel_event_of_frame(frame)),
    {
        proof {
            use_type_invariant(&*self);
        }
        if crate::text::str_eq(frame.event.as_str(), "pusher:connection_established") {
            if let Some(id) = frame.socket_id {
                self.connection = Connection::Connected(id);
            }
            return None;
        }
        match frame.channel {
            Some(channel) => {
                let data = match frame.data {
                    Some(data) => data,
                    None => String::new(),
                };
                Some(ChannelEvent { channel, event: frame.event, data })
            },
            None => None,
        }
    }

    /// Handles one event of the socket (see `next_connection`), and gives the
    /// channel event it carries, if any. A failure is not handled when
    /// `u32::MAX` failures in a row were already counted.
    pub fn handle_event(&mut self, event: TransportEvent) -> (r: Option<ChannelEvent>)
        requires
            event is Closed || event is Error ==> attempt_of(old(self).spec_state()) < u32::MAX,
        ensures
            final(self).connection() == next_connection(old(self).connection(), event),
            final(self).spec_subscriptions() == old(self).spec_subscriptions(),
            surfaces(r, channel_event_of(event)),
    {
        proof {
            use_type_invariant(&*self);
        }
        match event {
            TransportEvent::Opened => {
                let socket_id = match &self.connection {
                    Connection::Connecting(id) => id.clone(),
                    Connection::Connected(id) => Some(id.clone()),
                    Connection::Reconnecting(_) => None,
                };
                self.connection = Connection::Connecting(socket_id);
                None
            },
            TransportEvent::Closed | TransportEvent::Error(_) => {
                let attempt = match &self.connection {
                    Connection::Reconnecting(attempt) => *attempt + 1,
                    _ => 1,
                };
                self.connection = Connection::Reconnecting(attempt);
                None
            },
            TransportEvent::Text(Some(frame)) => self.handle_frame(frame),
            TransportEvent::Text(None) | TransportEvent::Binary => None,
        }
    }

    /// Handles the events that the socket delivered, in order (see
    /// `handle_event`), and gives the channel events they carried, in order.
    /// A frame that is not a Pusher frame, a frame of no channel and a binary
    /// message give nothing.
    pub fn poll_events(&mut self, events: Vec<TransportEvent>) -> (r: Vec<ChannelEvent>)
        requires
            failures_fit(old(self).connection(), events@),
        ensures
            final(self).connection() == after_events(old(self).connection(), events@),
            final(self).spec_subscriptions() == old(self).spec_subscriptions(),
            event_views(r@) == channel_events_of(events@),
    {
        let ghost all = events@;
        let ghost start = self.connection();
        let ghost subscriptions = self.spec_subscriptions();
        assert(all.len() == events.len());
        let mut rest = events;
        let mut out: Vec<ChannelEvent> = Vec::new();
        let mut k: usize = 0;
        assert(all.take(0) =~= Seq::<TransportEvent>::empty());
        assert(event_views(out@) =~= Seq::<(Seq<char>, Seq<char>, Seq<char>)>::empty());
        while rest.len() > 0
            invariant
                k <= all.len(),
                all.len() <= usize::MAX,
                rest@ == all.subrange(k as int, all.len() as int),
                self.connection() == after_events(start, all.take(k as int)),
                self.spec_subscriptions() == subscriptions,
                event_views(out@) == channel_events_of(all.take(k as int)),
                failures_fit(start, all),
            decreases rest@.len(),
        {
            let event = rest.remove(0);
            assert(event == all[k as int]);
            let ghost before = out@;
            let ghost next = all.take(k as int + 1);
            assert(next.drop_last() =~= all.take(k as int));
            assert(next.last() == all[k as int]);
            if let Some(channel_event) = self.handle_event(event) {
                out.push(channel_event);
                assert(event_views(out@) =~= event_views(before).push(
                    (channel_event.channel@, channel_event.event@, channel_event.data@),
                ));
            }
            k = k + 1;
            assert(rest@ =~= all.subrange(k as int, all.len() as int));
        }
        assert(all.take(k as int) =~= all);
        out
    }

    /// Prepares the subscription of `channel` (`"ride.7"`, say, without the
    /// `private-` prefix): the socket id to sign it with and the full channel
    /// name; `NotConnected` while the handshake has not arrived.
    pub fn prepare_subscription(&self, channel: &str) -> (r: Result<(String, String), SubscribeError>)
        ensures
            match r {
                Ok((socket_id, channel_name)) => self.spec_socket_id() == Some(socket_id@)
                    && channel_name@ == private_prefix() + channel@,
                Err(e) => self.spec_socket_id() is None && e == SubscribeError::NotConnected,
            },
    {
        let socket_id = match self.socket_id() {
            Some(id) => id.to_owned(),
            None => {
                return Err(SubscribeError::NotConnected);
            },
        };
        let mut channel_name = String::from_str("private-");
        channel_name.append(channel);
        Ok((socket_id, channel_name))
    }

    /// Records that `channel` was subscribed, unless it already was.
    pub fn mark_subscribed(&mut self, channel: &str)
        ensures
            final(self).connection() == old(self).connection(),
            final(self).spec_subscriptions() == subscribed_after(
                old(self).spec_subscriptions(),
                private_prefix() + channel@,
            ),
    {
        proof {
            use_type_invariant(&*self);
        }
        let mut channel_name = String::from_str("private-");
        channel_name.append(channel);
        let ghost name = channel_name@;
        let mut i: usize = 0;
        while i < self.subscriptions.len()
            invariant
                i <= self.subscriptions@.len(),
                channel_name@ == name,
                name == private_prefix() + channel@,
                *self == *old(self),
                forall|j: int| 0 <= j < i ==> (#[trigger] self.subscriptions@[j])@ != name,
            decreases self.subscriptions@.len() - i,
        {
            if crate::text::str_eq(self.subscriptions[i].as_str(), channel_name.as_str()) {
                assert(names_of(self.subscriptions@)[i as int] == name);
                assert(old(self).spec_subscriptions().contains(name));
                return;
            }
            i = i + 1;
        }
        assert(!names_of(self.subscriptions@).contains(name));
        assert(name.subrange(0, private_prefix().len() as int) =~= private_prefix());
        let mut subscriptions = self.subscriptions.clone();
        assert(subscriptions@ =~= self.subscriptions@);
        subscriptions.push(channel_name);
        assert(names_of(subscriptions@) =~= names_of(old(self).subscriptions@).push(name));
        assert(distinct_private_channels(subscriptions@)) by {
            assert(subscriptions@[subscriptions@.len() - 1]@ == name);
            assert forall|j: int| 0 <= j < subscriptions@.len() - 1 implies (
            #[trigger] subscriptions@[j])@ != name by {
                assert(subscriptions@[j] == old(self).subscriptions@[j]);
            }
        }
        self.subscriptions = subscriptions;
    }

    /// Ends the subscription of `channel` (`"ride.7"`, say) with what the
    /// backend answered to the request to sign it: a signature gives the
    /// frame to send, and the channel is recorded once; a refusal is returned
    /// as `Auth`, with nothing recorded. The connection is left as it was.
    pub fn finish_subscription(
        &mut self,
        channel: &str,
        signed: Result<BroadcastAuthResponse, BroadcastAuthError>,
    ) -> (r: Result<String, SubscribeError>)
        ensures
            final(self).connection() == old(self).connection(),
            match signed {
                Ok(response) => {
                    &&& r is Ok
                    &&& r->Ok_0@ == subscribe_frame_text(private_prefix() + channel@, response.auth@)
                    &&& final(self).spec_subscriptions() == subscribed_after(
                        old(self).spec_subscriptions(),
                        private_prefix() + channel@,
                    )
                },
                Err(e) => {
                    &&& r == Err::<String, SubscribeError>(SubscribeError::Auth(e))
                    &&& final(self).spec_subscriptions() == old(self).spec_subscriptions()
                },
            },
    {
        match signed {
            Ok(response) => {
                let mut channel_name = String::from_str("private-");
                channel_name.append(channel);
                let mut frame = String::from_str("{\"data\":{\"auth\":");
                let auth_literal = json_string_literal(response.auth.as_str());
                frame.append(auth_literal.as_str());
                frame.append(",\"channel\":");
                let name_literal = json_string_literal(channel_name.as_str());
                frame.append(name_literal.as_str());
                frame.append("},\"event\":\"pusher:subscribe\"}");
                self.mark_subscribed(channel);
                Ok(frame)
            },
            Err(e) => Err(SubscribeError::Auth(e)),
        }
    }

    /// Forgets the socket id and waits for a new handshake, after the caller
    /// opened a new socket. The subscriptions are kept, to be made again.
    pub fn reset_for_reconnect(&mut self)
        ensures
            final(self).connection() == (ConnectionState::Connecting, None::<Seq<char>>),
            final(self).spec_subscriptions() == old(self).spec_subscriptions(),
    {
        proof {
            use_type_invariant(&*self);
        }
        self.connection = Connection::Connecting(None);
    }
}

/// What a realtime screen does on one turn of its polling loop.
#[derive(Debug, Clone, Copy, PartialEq, Eq, Structural)]
pub enum PollAction {
    /// Nothing to do this turn.
    Wait,
    /// Subscribe the screen's channel.
    Subscribe,
    /// Open a new socket (`reset_for_reconnect` on the protocol state).
    Reconnect,
}

/// The decision for one turn: the action, and whether the screen's channel
/// counts as subscribed on the current connection before the action runs.
#[derive(Debug, Clone, Copy, PartialEq, Eq, Structural)]
pub struct PollDecision {
    pub action: PollAction,
    pub subscribed: bool,
}

/// The decision for a turn that finds the connection in `state`, the
/// screen's channel subscribed or not: a connected socket subscribes the
/// channel once; a dropped socket is opened again; a subscription does not
/// outlive the connection it was made on, so outside `Connected` the channel
/// no longer counts as subscribed.
pub open spec fn poll_decision(state: ConnectionState, subscribed: bool) -> PollDecision {
    match state {
        ConnectionState::Connected => if subscribed {
            PollDecision { action: PollAction::Wait, subscribed: true }
        } else {
            PollDecision { action: PollAction::Subscribe, subscribed: false }
        },
        ConnectionState::Connecting => PollDecision { action: PollAction::Wait, subscribed: false },
        ConnectionState::Reconnecting { .. } => PollDecision {
            action: PollAction::Reconnect,
            subscribed: false,
        },
    }
}

/// Decides one turn of a realtime screen's polling loop (see
/// `poll_decision`). The screen performs the action and, when a subscription
/// succeeds, counts its channel as subscribed.
pub fn decide_poll_action(state: &ConnectionState, subscribed: bool) -> (r: PollDecision)
    ensures
        r == poll_decision(*state, subscribed),
{
    match state {
        ConnectionState::Connected => if subscribed {
            PollDecision { action: PollAction::Wait, subscribed: true }
        } else {
            PollDecision { action: PollAction::Subscribe, subscribed: false }
        },
        ConnectionState::Connecting => PollDecision { action: PollAction::Wait, subscribed: false },
        ConnectionState::Reconnecting { .. } => PollDecision {
            action: PollAction::Reconnect,
            subscribed: false,
        },
    }
}

/// What a realtime screen does after a subscription failed.
#[derive(Debug, Clone, Copy, PartialEq, Eq, Structural)]
pub enum SubscribeFailureAction {
    /// Try again on a later turn.
    Retry,
    /// The session expired: log out, and stop the loop.
    LogoutAndStop,
    /// Trying again cannot succeed: stop the loop.
    Stop,
}

/// What a subscription failure calls for: a missing handshake, a network
/// failure or an unexpected reply may pass, so the screen tries again; a
/// refused session logs out; a channel that the user may not follow is
/// given up.
pub open spec fn subscribe_failure_action(err: SubscribeError) -> SubscribeFailureAction {
    match err {
        SubscribeError::NotConnected => SubscribeFailureAction::Retry,
        SubscribeError::Auth(BroadcastAuthError::Unauthorized) => SubscribeFailureAction::LogoutAndStop,
        SubscribeError::Auth(BroadcastAuthError::Forbidden) => SubscribeFailureAction::Stop,
        SubscribeError::Auth(BroadcastAuthError::Network(_)) => SubscribeFailureAction::Retry,
        SubscribeError::Auth(BroadcastAuthError::Unexpected(_)) => SubscribeFailureAction::Retry,
    }
}

/// Decides what a subscription failure calls for (see
/// `subscribe_failure_action`).
pub fn decide_subscribe_failure(err: &SubscribeError) -> (r: SubscribeFailureAction)
    ensures
        r == subscribe_failure_action(*err),
{
    match err {
        SubscribeError::NotConnected => SubscribeFailureAction::Retry,
        SubscribeError::Auth(BroadcastAuthError::Unauthorized) => SubscribeFailureAction::LogoutAndStop,
        SubscribeError::Auth(BroadcastAuthError::Forbidden) => SubscribeFailureAction::Stop,
        SubscribeError::Auth(BroadcastAuthError::Network(_)) => SubscribeFailureAction::Retry,
        SubscribeError::Auth(BroadcastAuthError::Unexpected(_)) => SubscribeFailureAction::Retry,
    }
}

/// A channel is subscribed again after the connection drops: whatever a turn
/// outside `Connected` decided, the next turn that finds the connection
/// `Connected` subscribes the channel.
pub proof fn a_lost_connection_is_subscribed_again(state: ConnectionState, subscribed: bool)
    requires
        !(state is Connected),
    ensures
        poll_decision(
            ConnectionState::Connected,
            poll_decision(state, subscribed).subscribed,
        ).action == PollAction::Subscribe,
{
}

/// A channel is subscribed once per connection: after a turn that subscribed
/// it (the screen then counts it as subscribed), later turns on the same
/// connection wait.
pub proof fn a_connection_subscribes_once(subscribed: bool)
    ensures
        poll_decision(ConnectionState::Connected, true) == (PollDecision {
            action: PollAction::Wait,
            subscribed: true,
        }),
        poll_decision(ConnectionState::Connected, subscribed).action == PollAction::Subscribe
            <==> !subscribed,
{
}

/// Failures in a row are counted: from a state that was not reconnecting,
/// `k` closes or errors in a row leave the connection reconnecting with
/// attempt `k`, and without a socket id.
pub proof fn failures_in_a_row_are_counted(c: ConnectionView, events: Seq<TransportEvent>)
    requires
        !(c.0 is Reconnecting),
        events.len() > 0,
        events.len() <= u32::MAX,
        forall|i: int| 0 <= i < events.len() ==> (#[trigger] events[i]) is Closed || events[i] is Error,
    ensures
        after_events(c, events) == (
            ConnectionState::Reconnecting { attempt: events.len() as u32 },
            None::<Seq<char>>,
        ),
    decreases events.len(),
{
    if events.len() > 1 {
        let rest = events.drop_last();
        assert forall|i: int| 0 <= i < rest.len() implies (#[trigger] rest[i]) is Closed
            || rest[i] is Error by {
            assert(rest[i] == events[i]);
        }
        failures_in_a_row_are_counted(c, rest);
    } else {
        assert(events.drop_last().len() == 0);
        assert(after_events(c, events.drop_last()) == c);
    }
    let last = events[events.len() - 1];
    assert(last is Closed || last is Error);
    assert(events.last() == last);
}

/// How the connection follows its socket: opening waits for a new handshake
/// (forgetting the socket id after a failure); the handshake with a socket
/// id connects with that id; a close or an error counts one more failure in
/// a row and forgets the socket id; a binary message, a text that is not a
/// Pusher frame and a frame of a channel change nothing.
pub proof fn the_connection_follows_its_socket(c: ConnectionView, frame: PusherFrame, message: String)
    ensures
        next_connection(c, TransportEvent::Opened) == (
            ConnectionState::Connecting,
            if c.0 is Reconnecting {
                None
            } else {
                c.1
            },
        ),
        frame.event@ == "pusher:connection_established"@ && frame.socket_id is Some ==> next_connection(
            c,
            TransportEvent::Text(Some(frame)),
        ) == (ConnectionState::Connected, Some(frame.socket_id->0@)),
        frame.event@ != "pusher:connection_established"@ ==> next_connection(
            c,
            TransportEvent::Text(Some(frame)),
        ) == c,
        attempt_of(c.0) < u32::MAX ==> next_connection(c, TransportEvent::Closed) == (
            ConnectionState::Reconnecting { attempt: (attempt_of(c.0) + 1) as u32 },
            None::<Seq<char>>,
        ) && next_connection(c, TransportEvent::Error(message)) == next_connection(
            c,
            TransportEvent::Closed,
        ),
        next_connection(c, TransportEvent::Binary) == c,
        next_connection(c, TransportEvent::Text(None)) == c,
{
}

/// What a frame surfaces: a frame of a channel, other than the handshake,
/// surfaces as that channel's event with its data (empty when it has none);
/// the handshake and a frame of no channel surface nothing.
pub proof fn a_channel_frame_surfaces_as_its_event(frame: PusherFrame)
    ensures
        frame.event@ != "pusher:connection_established"@ && frame.channel is Some ==> channel_event_of_frame(
            frame,
        ) == Some(
            (
                frame.channel->0@,
                frame.event@,
                if frame.data is Some {
                    frame.data->0@
                } else {
                    Seq::<char>::empty()
                },
            ),
        ),
        frame.event@ == "pusher:connection_established"@ ==> channel_event_of_frame(frame) is None,
        frame.channel is None ==> channel_event_of_frame(frame) is None,
{
}

/// A turn of a realtime screen reopens a dropped socket, waits for the
/// handshake of a socket being opened, and subscribes a connected socket's
/// channel only while it is not subscribed.
pub proof fn each_state_has_its_turn(attempt: u32, subscribed: bool)
    ensures
        poll_decision(ConnectionState::Reconnecting { attempt }, subscribed).action == PollAction::Reconnect,
        poll_decision(ConnectionState::Connecting, subscribed).action == PollAction::Wait,
        poll_decision(ConnectionState::Connected, subscribed).action == if subscribed {
            PollAction::Wait
        } else {
            PollAction::Subscribe
        },
{
}

/// A refused session ends the screen's loop with a logout, a channel the
/// user may not follow ends it, and every other subscription failure (no
/// handshake yet, no network, an unexpected reply) is tried again.
pub proof fn subscription_failures_by_kind(message: String, status: u16)
    ensures
        subscribe_failure_action(SubscribeError::Auth(BroadcastAuthError::Unauthorized))
            == SubscribeFailureAction::LogoutAndStop,
        subscribe_failure_action(SubscribeError::Auth(BroadcastAuthError::Forbidden))
            == SubscribeFailureAction::Stop,
        subscribe_failure_action(SubscribeError::NotConnected) == SubscribeFailureAction::Retry,
        subscribe_failure_action(SubscribeError::Auth(BroadcastAuthError::Network(message)))
            == SubscribeFailureAction::Retry,
        subscribe_failure_action(SubscribeError::Auth(BroadcastAuthError::Unexpected(status)))
            == SubscribeFailureAction::Retry,
{
}

} // verus!
