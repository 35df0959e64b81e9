//! WebSocket sessions and client-frame dispatch.
//!
//! A session tracks the channels a client is subscribed to. Each client
//! frame is answered here; a command is turned into a bus event, which the
//! caller publishes, and the publish status is then turned into the
//! acknowledgement.

use vstd::prelude::*;
use crate::api::bus::{
    AckPayload, BusCommand, BusEvent, BusMessage, BusMessageType, Channel, EventStatus,
    EVENT_AI_CHAT_COMPLETED, EVENT_AI_CHAT_STARTED, EVENT_APP_LAUNCHED, EVENT_APP_RESUMED,
    EVENT_APP_STOPPED, EVENT_APP_SUSPENDED, EVENT_FILE_CREATED, EVENT_FILE_DELETED,
    EVENT_FILE_MODIFIED, EVENT_NOTIFICATION_CREATED, EVENT_NOTIFICATION_DISMISSED,
    EVENT_SETTINGS_CHANGED, EVENT_WINDOW_CLOSED, EVENT_WINDOW_CREATED, EVENT_WINDOW_FOCUSED,
    EVENT_WINDOW_UPDATED, EVENT_WM_WORKSPACE_CHANGED,
};
use crate::base::error::{build_cortex_error, canonical_error, ErrorCode};
use crate::base::ids::{new_uuid_v7, uuid_text, is_hyphenated_uuid, lemma_uuid_hyphenated_shape, UserId};
use crate::base::time::{is_instant_text, now_rfc3339};
use crate::text::{equals, has_prefix, starts_with};

verus! {

/// The event a command resolves to (`unknown` for an unknown command).
pub open spec fn event_name_of(command: Seq<char>) -> Seq<char> {
    if command == "app.launch"@ {
        EVENT_APP_LAUNCHED@
    } else if command == "app.stop"@ {
        EVENT_APP_STOPPED@
    } else if command == "app.suspend"@ {
        EVENT_APP_SUSPENDED@
    } else if command == "app.resume"@ {
        EVENT_APP_RESUMED@
    } else if command == "file.create"@ {
        EVENT_FILE_CREATED@
    } else if command == "file.modify"@ {
        EVENT_FILE_MODIFIED@
    } else if command == "file.delete"@ {
        EVENT_FILE_DELETED@
    } else if command == "notification.create"@ {
        EVENT_NOTIFICATION_CREATED@
    } else if command == "notification.dismiss"@ {
        EVENT_NOTIFICATION_DISMISSED@
    } else if command == "settings.change"@ {
        EVENT_SETTINGS_CHANGED@
    } else if command == "ai.chat_start"@ {
        EVENT_AI_CHAT_STARTED@
    } else if command == "ai.chat_complete"@ {
        EVENT_AI_CHAT_COMPLETED@
    } else if command == "window.open"@ {
        EVENT_WINDOW_CREATED@
    } else if command == "window.close"@ {
        EVENT_WINDOW_CLOSED@
    } else if command == "window.focus"@ {
        EVENT_WINDOW_FOCUSED@
    } else if command == "window.move"@ {
        EVENT_WINDOW_UPDATED@
    } else if command == "window.resize"@ {
        EVENT_WINDOW_UPDATED@
    } else if command == "workspace.switch"@ {
        EVENT_WM_WORKSPACE_CHANGED@
    } else if command == "wm.workspace.activate"@ {
        EVENT_WM_WORKSPACE_CHANGED@
    } else {
        "unknown"@
    }
}

/// The past-tense event of a window-manager command (`unknown` for any
/// other command).
pub open spec fn wm_event_of(command: Seq<char>) -> Seq<char> {
    if command == "window.move"@ || command == "window.resize"@ {
        EVENT_WINDOW_UPDATED@
    } else if command == "window.focus"@ {
        EVENT_WINDOW_FOCUSED@
    } else if command == "workspace.switch"@ {
        EVENT_WM_WORKSPACE_CHANGED@
    } else {
        "unknown"@
    }
}

/// Whether a command is one of the window-manager commands.
pub open spec fn is_wm_command(command: Seq<char>) -> bool {
    command == "window.move"@ || command == "window.resize"@ || command == "window.focus"@
        || command == "workspace.switch"@
}

/// The channel a command belongs to, by its prefix; window and workspace
/// commands, like any unrecognised prefix, belong to `System`.
pub open spec fn channel_of(command: Seq<char>) -> Channel {
    if has_prefix(command, "app."@) {
        Channel::Apps
    } else if has_prefix(command, "file."@) {
        Channel::Files
    } else if has_prefix(command, "ai."@) {
        Channel::Ai
    } else if has_prefix(command, "notification."@) {
        Channel::Notifications
    } else if has_prefix(command, "settings."@) {
        Channel::Settings
    } else {
        Channel::System
    }
}

/// Distinct commands announce distinct events. The only commands that share
/// an event are the two synonym pairs: moving and resizing a window both
/// update it, and switching and activating a workspace both change it.
pub proof fn lemma_distinct_commands_distinct_events(c1: Seq<char>, c2: Seq<char>)
    requires
        event_name_of(c1) != "unknown"@,
        event_name_of(c1) == event_name_of(c2),
        c1 != c2,
    ensures
        (c1 == "window.move"@ || c1 == "window.resize"@) && (c2 == "window.move"@ || c2 == "window.resize"@)
            || (c1 == "workspace.switch"@ || c1 == "wm.workspace.activate"@) && (c2 == "workspace.switch"@
            || c2 == "wm.workspace.activate"@),
{
    reveal_strlit("app.launch");
    reveal_strlit("app.stop");
    reveal_strlit("app.suspend");
    reveal_strlit("app.resume");
    reveal_strlit("file.create");
    reveal_strlit("file.modify");
    reveal_strlit("file.delete");
    reveal_strlit("notification.create");
    reveal_strlit("notification.dismiss");
    reveal_strlit("settings.change");
    reveal_strlit("ai.chat_start");
    reveal_strlit("ai.chat_complete");
    reveal_strlit("window.open");
    reveal_strlit("window.close");
    reveal_strlit("window.focus");
    reveal_strlit("window.move");
    reveal_strlit("window.resize");
    reveal_strlit("workspace.switch");
    reveal_strlit("wm.workspace.activate");
    reveal_strlit("app.launched");
    reveal_strlit("app.stopped");
    reveal_strlit("app.suspended");
    reveal_strlit("app.resumed");
    reveal_strlit("file.created");
    reveal_strlit("file.modified");
    reveal_strlit("file.deleted");
    reveal_strlit("notification.created");
    reveal_strlit("notification.dismissed");
    reveal_strlit("settings.changed");
    reveal_strlit("ai.chat_started");
    reveal_strlit("ai.chat_completed");
    reveal_strlit("window.created");
    reveal_strlit("window.closed");
    reveal_strlit("window.focused");
    reveal_strlit("window.updated");
    reveal_strlit("wm.workspace.changed");
    reveal_strlit("unknown");
    let t = event_name_of(c1);
    let u = event_name_of(c2);
    assert(t.len() == u.len());
    assert(t[0] == u[0]);
    assert(t[4] == u[4]);
    assert(t[5] == u[5]);
    assert(t[7] == u[7]);
}

/// The event a command resolves to.
pub fn command_to_event_name(command: &str) -> (r: &'static str)
    ensures
        r@ == event_name_of(command@),
{
    if equals(command, "app.launch") {
        EVENT_APP_LAUNCHED
    } else if equals(command, "app.stop") {
        EVENT_APP_STOPPED
    } else if equals(command, "app.suspend") {
        EVENT_APP_SUSPENDED
    } else if equals(command, "app.resume") {
        EVENT_APP_RESUMED
    } else if equals(command, "file.create") {
        EVENT_FILE_CREATED
    } else if equals(command, "file.modify") {
        EVENT_FILE_MODIFIED
    } else if equals(command, "file.delete") {
        EVENT_FILE_DELETED
    } else if equals(command, "notification.create") {
        EVENT_NOTIFICATION_CREATED
    } else if equals(command, "notification.dismiss") {
        EVENT_NOTIFICATION_DISMISSED
    } else if equals(command, "settings.change") {
        EVENT_SETTINGS_CHANGED
    } else if equals(command, "ai.chat_start") {
        EVENT_AI_CHAT_STARTED
    } else if equals(command, "ai.chat_complete") {
        EVENT_AI_CHAT_COMPLETED
    } else if equals(command, "window.open") {
        EVENT_WINDOW_CREATED
    } else if equals(command, "window.close") {
        EVENT_WINDOW_CLOSED
    } else if equals(command, "window.focus") {
        EVENT_WINDOW_FOCUSED
    } else if equals(command, "window.move") {
        EVENT_WINDOW_UPDATED
    } else if equals(command, "window.resize") {
        EVENT_WINDOW_UPDATED
    } else if equals(command, "workspace.switch") {
        EVENT_WM_WORKSPACE_CHANGED
    } else if equals(command, "wm.workspace.activate") {
        EVENT_WM_WORKSPACE_CHANGED
    } else {
        "unknown"
    }
}

/// The past-tense event of a window-manager command.
pub fn wm_command_to_event(command: &str) -> (r: &'static str)
    ensures
        r@ == wm_event_of(command@),
{
    if equals(command, "window.move") || equals(command, "window.resize") {
        EVENT_WINDOW_UPDATED
    } else if equals(command, "window.focus") {
        EVENT_WINDOW_FOCUSED
    } else if equals(command, "workspace.switch") {
        EVENT_WM_WORKSPACE_CHANGED
    } else {
        "unknown"
    }
}

/// The channel a command belongs to.
pub fn command_to_channel(command: &str) -> (r: Channel)
    ensures
        r == channel_of(command@),
{
    if starts_with(command, "app.") {
        Channel::Apps
    } else if starts_with(command, "file.") {
        Channel::Files
    } else if starts_with(command, "ai.") {
        Channel::Ai
    } else if starts_with(command, "notification.") {
        Channel::Notifications
    } else if starts_with(command, "settings.") {
        Channel::Settings
    } else {
        Channel::System
    }
}

/// The identifier of a connected WebSocket session.
#[derive(Debug, Clone, PartialEq, Eq, Hash)]
pub struct WsSessionId(pub String);

/// The state tracked per connected WebSocket client.
#[derive(Debug)]
pub struct WsSession {
    /// Unique session identifier.
    pub id: WsSessionId,
    /// Authenticated user id, once known.
    pub user_id: Option<UserId>,
    /// The channels this session is subscribed to, each once.
    pub subscriptions: Vec<Channel>,
}

impl WsSession {
    /// No channel is listed twice.
    pub open spec fn wf(&self) -> bool {
        self.subscriptions@.no_duplicates()
    }

    /// The set of subscribed channels.
    pub open spec fn channels(&self) -> Set<Channel> {
        self.subscriptions@.to_set()
    }

    /// A new unauthenticated session with a fresh id and no subscriptions.
    pub fn new() -> (r: Self)
        ensures
            r.wf(),
            r.user_id is None,
            r.subscriptions@.len() == 0,
            is_hyphenated_uuid(r.id.0@),
    {
        let v = new_uuid_v7();
        let id = uuid_text(v);
        proof {
            lemma_uuid_hyphenated_shape(v);
        }
        WsSession { id: WsSessionId(id), user_id: None, subscriptions: Vec::new() }
    }

    /// A new session for a user, with a fresh id and no subscriptions.
    pub fn for_user(user_id: UserId) -> (r: Self)
        ensures
            r.wf(),
            r.user_id == Some(user_id),
            r.subscriptions@.len() == 0,
            is_hyphenated_uuid(r.id.0@),
    {
        let v = new_uuid_v7();
        let id = uuid_text(v);
        proof {
            lemma_uuid_hyphenated_shape(v);
        }
        WsSession { id: WsSessionId(id), user_id: Some(user_id), subscriptions: Vec::new() }
    }

    fn position(&self, channel: &Channel) -> (r: Option<usize>)
        ensures
            r matches Some(i) ==> i < self.subscriptions@.len() && self.subscriptions@[i as int]
                == *channel,
            r is None ==> !self.subscriptions@.contains(*channel),
    {
        let mut i: usize = 0;
        while i < self.subscriptions.len()
            invariant
                i <= self.subscriptions@.len(),
                forall|j: int| 0 <= j < i ==> self.subscriptions@[j] != *channel,
            decreases self.subscriptions.len() - i,
        {
            if self.subscriptions[i] == *channel {
                return Some(i);
            }
            i = i + 1;
        }
        None
    }

    /// Subscribe to a channel. Returns whether it was newly added.
    pub fn subscribe(&mut self, channel: Channel) -> (r: bool)
        requires
            old(self).wf(),
        ensures
            final(self).wf(),
            final(self).channels() == old(self).channels().insert(channel),
            r == !old(self).channels().contains(channel),
            final(self).id == old(self).id,
            final(self).user_id == old(self).user_id,
    {
        match self.position(&channel) {
            Some(_) => {
                proof {
                    assert(self.channels() =~= self.channels().insert(channel));
                }
                false
            },
            None => {
                let ghost before = self.subscriptions@;
                self.subscriptions.push(channel);
                proof {
                    assert(self.subscriptions@ == before.push(channel));
                    assert forall|c: Channel|
                        #[trigger] self.channels().contains(c) == before.to_set().insert(
                            channel,
                        ).contains(c) by {
                        if before.contains(c) {
                            let k = choose|k: int| 0 <= k < before.len() && before[k] == c;
                            assert(self.subscriptions@[k] == c);
                        }
                        if c == channel {
                            assert(self.subscriptions@[before.len() as int] == c);
                        }
                        if self.subscriptions@.contains(c) {
                            let k = choose|k: int|
                                0 <= k < self.subscriptions@.len() && self.subscriptions@[k] == c;
                            if k < before.len() {
                                assert(before[k] == c);
                            }
                        }
                    }
                    assert(self.channels() =~= before.to_set().insert(channel));
                    assert forall|a: int, b: int|
                        0 <= a < b < self.subscriptions@.len() implies self.subscriptions@[a]
                        != self.subscriptions@[b] by {
                        if b == before.len() {
                            assert(before.contains(before[a]));
                        }
                    }
                }
                true
            },
        }
    }

    /// List each subscribed channel once, keeping the set of channels.
    pub fn dedup_subscriptions(&mut self)
        ensures
            final(self).wf(),
            final(self).channels() == old(self).channels(),
            final(self).id == old(self).id,
            final(self).user_id == old(self).user_id,
    {
        let mut listed: Vec<Channel> = Vec::new();
        core::mem::swap(&mut self.subscriptions, &mut listed);
        let ghost orig = listed@;
        proof {
            assert(self.channels() =~= orig.take(0).to_set());
        }
        let mut i: usize = 0;
        while i < listed.len()
            invariant
                i <= listed@.len(),
                listed@ == orig,
                self.wf(),
                self.channels() == orig.take(i as int).to_set(),
                self.id == old(self).id,
                self.user_id == old(self).user_id,
            decreases listed.len() - i,
        {
            let c = listed[i];
            self.subscribe(c);
            proof {
                assert(orig.take(i + 1) =~= orig.take(i as int).push(c));
                orig.take(i as int).lemma_push_to_set_commute(c);
            }
            i = i + 1;
        }
        proof {
            assert(orig.take(i as int) =~= orig);
        }
    }

    /// Unsubscribe from a channel. Returns whether it was subscribed.
    pub fn unsubscribe(&mut self, channel: &Channel) -> (r: bool)
        requires
            old(self).wf(),
        ensures
            final(self).wf(),
            final(self).channels() == old(self).channels().remove(*channel),
            r == old(self).channels().contains(*channel),
            final(self).id == old(self).id,
            final(self).user_id == old(self).user_id,
    {
        match self.position(channel) {
            None => {
                proof {
                    assert(self.channels() =~= self.channels().remove(*channel));
                }
                false
            },
            Some(i) => {
                let ghost before = self.subscriptions@;
                let _ = self.subscriptions.remove(i);
                proof {
                    assert(self.subscriptions@ =~= before.remove(i as int));
                    assert forall|c: Channel| #[trigger] self.channels().contains(c) <==> before.to_set().remove(*channel).contains(c) by {
                        if self.subscriptions@.contains(c) {
                            let k = choose|k: int| 0 <= k < self.subscriptions@.len() && self.subscriptions@[k] == c;
                            if k < i {
                                assert(before[k] == c);
                                assert(c != *channel);
                            } else {
                                assert(before[k + 1] == c);
                                assert(c != *channel);
                            }
                        }
                        if before.contains(c) && c != *channel {
                            let k = choose|k: int| 0 <= k < before.len() && before[k] == c;
                            if k < i {
                                assert(self.subscriptions@[k] == c);
                            } else {
                                assert(k != i);
                                assert(self.subscriptions@[k - 1] == c);
                            }
                        }
                    }
                    assert(self.channels() =~= before.to_set().remove(*channel));
                    assert forall|a: int, b: int|
                        0 <= a < b < self.subscriptions@.len() implies self.subscriptions@[a]
                        != self.subscriptions@[b] by {
                        let a2 = if a < i { a } else { a + 1 };
                        let b2 = if b < i { b } else { b + 1 };
                        assert(self.subscriptions@[a] == before[a2]);
                        assert(self.subscriptions@[b] == before[b2]);
                    }
                }
                true
            },
        }
    }

    /// Whether this session is subscribed to a channel.
    pub fn is_subscribed(&self, channel: &Channel) -> (r: bool)
        ensures
            r == self.channels().contains(*channel),
    {
        self.position(channel).is_some()
    }
}

impl Default for WsSession {
    /// A new unauthenticated session.
    fn default() -> (r: Self)
        ensures
            r.wf(),
            r.user_id is None,
            r.subscriptions@.len() == 0,
    {
        Self::new()
    }
}

/// Whether a session is other than the one with id `id`.
pub open spec fn other_session(id: Seq<char>) -> spec_fn(WsSession) -> bool {
    |s: WsSession| s.id.0@ != id
}

/// Remove from a list of connected sessions every session with id `id`,
/// keeping the others in order.
pub fn remove_session_from(sessions: &mut Vec<WsSession>, id: &WsSessionId)
    ensures
        final(sessions)@ == old(sessions)@.filter(other_session(id.0@)),
        forall|i: int| 0 <= i < final(sessions)@.len() ==> (#[trigger] final(sessions)@[i]).id.0@ != id.0@,
{
    let ghost orig = sessions@;
    let mut rest: Vec<WsSession> = Vec::new();
    core::mem::swap(sessions, &mut rest);
    let total: usize = rest.len();
    let mut k: usize = 0;
    while rest.len() > 0
        invariant
            orig.len() == total,
            k <= orig.len(),
            rest@ == orig.skip(k as int),
            sessions@ == orig.take(k as int).filter(other_session(id.0@)),
        decreases rest.len(),
    {
        assert(orig.skip(k as int).len() > 0);
        let s = rest.remove(0);
        proof {
            assert(s == orig[k as int]);
            reveal(Seq::filter);
            assert(orig.take(k + 1).drop_last() =~= orig.take(k as int));
            assert(orig.take(k + 1).last() == s);
            assert(orig.skip(k + 1) =~= orig.skip(k as int).subrange(1, orig.skip(k as int).len() as int));
        }
        if !equals(s.id.0.as_str(), id.0.as_str()) {
            sessions.push(s);
        }
        k = k + 1;
    }
    proof {
        assert(orig.take(k as int) =~= orig);
        assert forall|i: int| 0 <= i < sessions@.len() implies (#[trigger] sessions@[i]).id.0@ != id.0@ by {
            orig.lemma_filter_pred(other_session(id.0@), i);
        }
    }
}

/// Subscribing to a channel one was not subscribed to and then
/// unsubscribing from it gives back the original subscriptions; and
/// subscribing twice is the same as subscribing once.
pub proof fn lemma_subscribe_unsubscribe(s: Set<Channel>, c: Channel)
    ensures
        !s.contains(c) ==> s.insert(c).remove(c) == s,
        s.insert(c).insert(c) == s.insert(c),
        s.insert(c).contains(c),
        !s.remove(c).contains(c),
{
    assert(s.insert(c).insert(c) =~= s.insert(c));
    if !s.contains(c) {
        assert(s.insert(c).remove(c) =~= s);
    }
}

/// A client-to-server control message.
#[derive(Debug, Clone)]
pub enum WsClientFrame {
    /// A typed command from the client.
    Command(BusCommand),
    /// Subscribe to a channel.
    Subscribe { channel: Channel },
    /// Unsubscribe from a channel.
    Unsubscribe { channel: Channel },
    /// Keep-alive ping.
    Ping,
}

/// A server-to-client frame.
#[derive(Debug, Clone)]
pub enum WsServerFrame {
    /// A bus event forwarded to the client.
    Event(BusEvent),
    /// A response to a client command.
    Message(BusMessage),
    /// Keep-alive pong.
    Pong,
    /// A server-initiated error.
    Error { message: String },
}

/// What the acknowledgement of a dispatched command needs.
#[derive(Debug, Clone)]
pub struct CommandAck {
    /// The command id the acknowledgement echoes.
    pub response_id: String,
    /// The event the command was dispatched as.
    pub event_name: &'static str,
    /// The command's channel.
    pub channel: Channel,
}

/// A command's event, waiting to be published on the bus.
#[derive(Debug, Clone)]
pub struct PendingPublish {
    /// The event to publish.
    pub event: BusEvent,
    /// The command id, for idempotency.
    pub command_id: String,
    /// What the acknowledgement needs once the publish status is known.
    pub ack: CommandAck,
}

/// The outcome of handling a client frame.
#[derive(Debug, Clone)]
pub enum FrameOutcome {
    /// Send these frames back.
    Reply(Vec<WsServerFrame>),
    /// Publish this event, then answer with [`acknowledge`].
    Publish(PendingPublish),
}

/// `m` acknowledges a (un)subscription of `channel`.
pub open spec fn is_subscription_ack(m: BusMessage, prefix: Seq<char>, channel: Channel, subscribed: bool) -> bool {
    &&& m.id@.len() == prefix.len() + 36
    &&& m.id@.subrange(0, prefix.len() as int) == prefix
    &&& m.message_type == BusMessageType::CommandResponse
    &&& m.channel == Some(channel)
    &&& m.payload matches Some(AckPayload::Subscription { subscribed: s }) && s == subscribed
    &&& m.error is None
}

fn subscription_ack(prefix: &str, channel: Channel, subscribed: bool) -> (r: BusMessage)
    ensures
        is_subscription_ack(r, prefix@, channel, subscribed),
{
    let v = new_uuid_v7();
    let text = uuid_text(v);
    proof {
        lemma_uuid_hyphenated_shape(v);
    }
    let id = String::from_str(prefix).concat(text.as_str());
    assert(id@.subrange(0, prefix@.len() as int) =~= prefix@);
    BusMessage {
        id,
        message_type: BusMessageType::CommandResponse,
        channel: Some(channel),
        payload: Some(AckPayload::Subscription { subscribed }),
        error: None,
    }
}

/// The single message of a reply, if the outcome is a reply of exactly one
/// message frame.
pub open spec fn single_message(r: FrameOutcome) -> Option<BusMessage> {
    match r {
        FrameOutcome::Reply(v) => if v@.len() == 1 {
            match v@[0] {
                WsServerFrame::Message(m) => Some(m),
                _ => None,
            }
        } else {
            None
        },
        _ => None,
    }
}

/// The outcome is a reply of exactly one pong.
pub open spec fn is_pong_reply(r: FrameOutcome) -> bool {
    match r {
        FrameOutcome::Reply(v) => v@.len() == 1 && v@[0] is Pong,
        _ => false,
    }
}

/// `m` rejects the unknown command `cmd` with a validation error.
pub open spec fn rejects_unknown(cmd: BusCommand, m: BusMessage) -> bool {
    &&& m.id@ == cmd.id@
    &&& m.message_type == BusMessageType::Error
    &&& m.channel == Some(channel_of(cmd.command@))
    &&& m.payload is None
    &&& match m.error {
        Some(e) => canonical_error(ErrorCode::Val001, "unknown command: "@ + cmd.command@, e),
        None => false,
    }
}

/// The event a recognised command is dispatched as.
pub open spec fn dispatched_event_of(command: Seq<char>) -> Seq<char> {
    if is_wm_command(command) {
        wm_event_of(command)
    } else {
        event_name_of(command)
    }
}

/// `r` publishes the event of the recognised command `cmd`: on the
/// command's channel, with its payload, correlated with its id.
pub open spec fn publishes(cmd: BusCommand, r: FrameOutcome) -> bool {
    match r {
        FrameOutcome::Publish(p) => {
            &&& p.event.event@ == dispatched_event_of(cmd.command@)
            &&& p.event.channel == channel_of(cmd.command@)
            &&& p.event.payload == cmd.payload
            &&& p.event.correlation_id == Some(cmd.id)
            &&& is_instant_text(p.event.timestamp@)
            &&& p.command_id == cmd.id
            &&& p.ack.response_id == cmd.id
            &&& p.ack.event_name@ == p.event.event@
            &&& p.ack.channel == channel_of(cmd.command@)
        },
        _ => false,
    }
}

/// Handle one client frame.
///
/// A ping is answered with a pong; a (un)subscription updates the session
/// and is acknowledged with a fresh `sub-`/`unsub-` id; an unknown command
/// is answered with a validation error; any other command becomes a bus
/// event on the command's channel, correlated with the command id and
/// stamped with the current time, to be published before it is
/// acknowledged.
pub fn handle_client_frame(session: &mut WsSession, frame: WsClientFrame) -> (r: FrameOutcome)
    requires
        old(session).wf(),
    ensures
        final(session).wf(),
        final(session).id == old(session).id,
        final(session).user_id == old(session).user_id,
        match frame {
            WsClientFrame::Ping => {
                &&& final(session).channels() == old(session).channels()
                &&& is_pong_reply(r)
            },
            WsClientFrame::Subscribe { channel } => {
                &&& final(session).channels() == old(session).channels().insert(channel)
                &&& match single_message(r) {
                    Some(m) => is_subscription_ack(m, "sub-"@, channel, true),
                    None => false,
                }
            },
            WsClientFrame::Unsubscribe { channel } => {
                &&& final(session).channels() == old(session).channels().remove(channel)
                &&& match single_message(r) {
                    Some(m) => is_subscription_ack(m, "unsub-"@, channel, false),
                    None => false,
                }
            },
            WsClientFrame::Command(cmd) => {
                &&& final(session).channels() == old(session).channels()
                &&& event_name_of(cmd.command@) == "unknown"@ ==> match single_message(r) {
                    Some(m) => rejects_unknown(cmd, m),
                    None => false,
                }
                &&& event_name_of(cmd.command@) != "unknown"@ ==> publishes(cmd, r)
            },
        },
{
    match frame {
        WsClientFrame::Ping => {
            let mut v: Vec<WsServerFrame> = Vec::new();
            v.push(WsServerFrame::Pong);
            FrameOutcome::Reply(v)
        },
        WsClientFrame::Subscribe { channel } => {
            session.subscribe(channel);
            let mut v: Vec<WsServerFrame> = Vec::new();
            v.push(WsServerFrame::Message(subscription_ack("sub-", channel, true)));
            FrameOutcome::Reply(v)
        },
        WsClientFrame::Unsubscribe { channel } => {
            session.unsubscribe(&channel);
            let mut v: Vec<WsServerFrame> = Vec::new();
            v.push(WsServerFrame::Message(subscription_ack("unsub-", channel, false)));
            FrameOutcome::Reply(v)
        },
        WsClientFrame::Command(cmd) => {
            let BusCommand { id, command, payload } = cmd;
            let event_name = command_to_event_name(command.as_str());
            let channel = command_to_channel(command.as_str());
            if equals(event_name, "unknown") {
                let message = String::from_str("unknown command: ").concat(command.as_str());
                let err = BusMessage {
                    id,
                    message_type: BusMessageType::Error,
                    channel: Some(channel),
                    payload: None,
                    error: Some(build_cortex_error(ErrorCode::Val001, message)),
                };
                let mut v: Vec<WsServerFrame> = Vec::new();
                v.push(WsServerFrame::Message(err));
                return FrameOutcome::Reply(v);
            }
            let c = command.as_str();
            let resolved: &'static str = if equals(c, "window.move") || equals(c, "window.resize")
                || equals(c, "window.focus") || equals(c, "workspace.switch") {
                wm_command_to_event(c)
            } else {
                event_name
            };
            let event = BusEvent {
                event: String::from_str(resolved),
                channel,
                payload,
                timestamp: now_rfc3339(),
                correlation_id: Some(id.clone()),
            };
            let ack = CommandAck { response_id: id.clone(), event_name: resolved, channel };
            FrameOutcome::Publish(PendingPublish { event, command_id: id, ack })
        },
    }
}

/// The acknowledgement of a dispatched command, given the status its
/// event was published with: dispatched exactly when published, flagged
/// when dead-lettered.
pub fn acknowledge(ack: CommandAck, status: EventStatus) -> (r: Vec<WsServerFrame>)
    ensures
        match single_message(FrameOutcome::Reply(r)) {
            Some(m) => {
                &&& m.id == ack.response_id
                &&& m.message_type == BusMessageType::CommandResponse
                &&& m.channel == Some(ack.channel)
                &&& m.error is None
                &&& match m.payload {
                    Some(AckPayload::Dispatch { dispatched, event, dead_lettered }) => {
                        &&& dispatched == (status == EventStatus::Published)
                        &&& event@ == ack.event_name@
                        &&& dead_lettered == (status == EventStatus::DeadLetter)
                    },
                    _ => false,
                }
            },
            None => false,
        },
{
    let payload = AckPayload::Dispatch {
        dispatched: status == EventStatus::Published,
        event: String::from_str(ack.event_name),
        dead_lettered: status == EventStatus::DeadLetter,
    };
    let msg = BusMessage {
        id: ack.response_id,
        message_type: BusMessageType::CommandResponse,
        channel: Some(ack.channel),
        payload: Some(payload),
        error: None,
    };
    let mut v: Vec<WsServerFrame> = Vec::new();
    v.push(WsServerFrame::Message(msg));
    v
}

} // verus!
