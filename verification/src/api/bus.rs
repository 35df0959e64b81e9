//! The command/event bus vocabulary: canonical event names, channels,
//! envelopes, and the decisions of publishing (duplicates, dead letters).

use vstd::prelude::*;
use crate::base::error::CortexError;
use crate::base::ids::Timestamp;
use crate::db::error::DbError;
use crate::text::{contains, contains_seq};

verus! {

pub const EVENT_APP_LAUNCHED: &'static str = "app.launched";
pub const EVENT_APP_STOPPED: &'static str = "app.stopped";
pub const EVENT_APP_CRASHED: &'static str = "app.crashed";
pub const EVENT_APP_SUSPENDED: &'static str = "app.suspended";
pub const EVENT_APP_RESUMED: &'static str = "app.resumed";
pub const EVENT_FILE_CREATED: &'static str = "file.created";
pub const EVENT_FILE_MODIFIED: &'static str = "file.modified";
pub const EVENT_FILE_DELETED: &'static str = "file.deleted";
pub const EVENT_SETTINGS_CHANGED: &'static str = "settings.changed";
pub const EVENT_NOTIFICATION_CREATED: &'static str = "notification.created";
pub const EVENT_NOTIFICATION_DISMISSED: &'static str = "notification.dismissed";
pub const EVENT_NOTIFICATION_READ: &'static str = "notification.read";
pub const EVENT_NOTIFICATION_ALL_READ: &'static str = "notification.all_read";
pub const EVENT_WINDOW_CREATED: &'static str = "window.created";
pub const EVENT_WINDOW_UPDATED: &'static str = "window.updated";
pub const EVENT_WINDOW_CLOSED: &'static str = "window.closed";
pub const EVENT_WINDOW_FOCUSED: &'static str = "window.focused";
pub const EVENT_WM_WORKSPACE_CHANGED: &'static str = "wm.workspace.changed";
pub const EVENT_WM_FOCUS_CHANGED: &'static str = "wm.focus.changed";
pub const EVENT_AI_CHAT_STARTED: &'static str = "ai.chat_started";
pub const EVENT_AI_CHAT_COMPLETED: &'static str = "ai.chat_completed";
pub const EVENT_AI_CHAT_STREAMING: &'static str = "ai.chat_streaming";
pub const EVENT_SYSTEM_HEALTH: &'static str = "system.health";
pub const EVENT_SESSION_CREATED: &'static str = "session.created";
pub const EVENT_SESSION_DESTROYED: &'static str = "session.destroyed";

/// JSON values are carried through the bus as opaque payloads.
#[verifier::external_type_specification]
#[verifier::external_body]
pub struct ExJsonValue(serde_json::Value);

/// `serde_json::Value`'s `Clone` is derived: the clone is an equal value.
pub assume_specification[ <serde_json::Value as Clone>::clone ](v: &serde_json::Value) -> (r: serde_json::Value)
    ensures
        r == *v,
;

/// The WebSocket channels.
#[derive(Debug, Clone, Copy, PartialEq, Eq, Structural, Hash)]
pub enum Channel {
    System,
    Apps,
    Files,
    Ai,
    Notifications,
    Settings,
}

impl Channel {
    /// The wire name of each channel.
    pub open spec fn wire_name_of(self) -> Seq<char> {
        match self {
            Channel::System => "system"@,
            Channel::Apps => "apps"@,
            Channel::Files => "files"@,
            Channel::Ai => "ai"@,
            Channel::Notifications => "notifications"@,
            Channel::Settings => "settings"@,
        }
    }

    /// The wire name of the channel (snake case).
    pub fn wire_name(&self) -> (r: &'static str)
        ensures
            r@ == self.wire_name_of(),
    {
        match self {
            Channel::System => "system",
            Channel::Apps => "apps",
            Channel::Files => "files",
            Channel::Ai => "ai",
            Channel::Notifications => "notifications",
            Channel::Settings => "settings",
        }
    }
}

/// A bus event envelope.
#[derive(Debug, Clone)]
pub struct BusEvent {
    /// Canonical event name.
    pub event: String,
    /// Channel this event belongs to.
    pub channel: Channel,
    /// Event-specific payload.
    pub payload: serde_json::Value,
    /// ISO 8601 timestamp.
    pub timestamp: Timestamp,
    /// Correlation id for tracing, if any.
    pub correlation_id: Option<String>,
}

/// A client-to-server command envelope.
#[derive(Debug, Clone)]
pub struct BusCommand {
    /// Client-generated message id for correlation.
    pub id: String,
    /// Command type name.
    pub command: String,
    /// Command payload.
    pub payload: serde_json::Value,
}

/// The payload of a server acknowledgement.
#[derive(Debug, Clone)]
pub enum AckPayload {
    /// The answer to a (un)subscription: whether the client is now
    /// subscribed.
    Subscription { subscribed: bool },
    /// The answer to a command: whether its event was dispatched, which
    /// event, and whether it went to the dead-letter store.
    Dispatch { dispatched: bool, event: String, dead_lettered: bool },
}

/// A server-to-client message envelope.
#[derive(Debug, Clone)]
pub struct BusMessage {
    /// Message id (echoes the client command id or is server-generated).
    pub id: String,
    /// Message type.
    pub message_type: BusMessageType,
    /// Channel, for events.
    pub channel: Option<Channel>,
    /// Payload.
    pub payload: Option<AckPayload>,
    /// Error, for error messages.
    pub error: Option<CortexError>,
}

/// Message type discriminator.
#[derive(Debug, Clone, Copy, PartialEq, Eq, Structural)]
pub enum BusMessageType {
    Event,
    CommandResponse,
    Error,
    Pong,
}

/// A durable idempotency record.
#[derive(Debug, Clone)]
pub struct IdempotencyRecord {
    /// The command id that was processed.
    pub command_id: String,
    /// When this record was created.
    pub processed_at: Timestamp,
}

/// The status of a persisted event.
#[derive(Debug, Clone, Copy, PartialEq, Eq, Structural)]
pub enum EventStatus {
    Published,
    Failed,
    DeadLetter,
}

impl EventStatus {
    /// The stored text of each status.
    pub open spec fn text_of(self) -> Seq<char> {
        match self {
            EventStatus::Published => "published"@,
            EventStatus::Failed => "failed"@,
            EventStatus::DeadLetter => "dead_letter"@,
        }
    }

    /// The stored text of the status.
    pub fn as_str(&self) -> (r: &'static str)
        ensures
            r@ == self.text_of(),
    {
        match self {
            EventStatus::Published => "published",
            EventStatus::Failed => "failed",
            EventStatus::DeadLetter => "dead_letter",
        }
    }
}

/// A dead-lettered event that failed processing.
#[derive(Debug, Clone)]
pub struct DeadLetterEvent {
    /// Database row id.
    pub id: i64,
    /// Original command id.
    pub command_id: String,
    /// Event name.
    pub event_name: String,
    /// Channel.
    pub channel: String,
    /// Payload JSON.
    pub payload: String,
    /// Correlation id, if any.
    pub correlation_id: Option<String>,
    /// Original timestamp.
    pub timestamp: String,
    /// Error message.
    pub error_message: String,
    /// When it was processed.
    pub processed_at: String,
}

/// Errors produced by the command bus.
#[derive(Debug)]
pub enum BusError {
    /// The command was already processed.
    Duplicate(String),
    /// A database error.
    Db(DbError),
    /// Publishing failed.
    PublishFailed(String),
}

impl BusError {
    /// The human-readable message of each variant.
    pub open spec fn message_of(&self) -> Seq<char> {
        match self {
            BusError::Duplicate(m) => "duplicate command: "@ + m@,
            BusError::Db(e) => "database error: "@ + e.message_of(),
            BusError::PublishFailed(m) => "publish failed: "@ + m@,
        }
    }

    /// The human-readable message of the error.
    pub fn to_message(&self) -> (r: String)
        ensures
            r@ == self.message_of(),
    {
        match self {
            BusError::Duplicate(m) => String::from_str("duplicate command: ").concat(m.as_str()),
            BusError::Db(e) => {
                let text = e.to_message();
                String::from_str("database error: ").concat(text.as_str())
            },
            BusError::PublishFailed(m) => String::from_str("publish failed: ").concat(m.as_str()),
        }
    }
}

/// The error a publishing transaction fails with when the command id was
/// already processed.
pub fn duplicate_command_error(command_id: &str) -> (r: DbError)
    ensures
        r matches DbError::Query(m) && m@ == "duplicate command: "@ + command_id@,
{
    DbError::Query(String::from_str("duplicate command: ").concat(command_id))
}

/// The error `publish` reports for a failed publishing transaction: a
/// failure whose message mentions a duplicate command is reported as
/// `Duplicate(command_id)`, any other as a database error.
pub fn publish_failure(command_id: &str, e: DbError) -> (r: BusError)
    ensures
        contains_seq(e.message_of(), "duplicate command"@) ==> (r matches BusError::Duplicate(m)
            && m@ == command_id@),
        !contains_seq(e.message_of(), "duplicate command"@) ==> r == BusError::Db(e),
{
    let text = e.to_message();
    if contains(text.as_str(), "duplicate command") {
        BusError::Duplicate(String::from_str(command_id))
    } else {
        BusError::Db(e)
    }
}

/// The status `publish_or_dead_letter` reports for a publish outcome: a
/// success or an already-processed command counts as published; any other
/// failure sends the event to the dead-letter store.
pub fn publish_status(outcome: &Result<(), BusError>) -> (r: EventStatus)
    ensures
        (outcome is Ok || outcome matches Err(BusError::Duplicate(_))) ==> r == EventStatus::Published,
        !(outcome is Ok || outcome matches Err(BusError::Duplicate(_))) ==> r == EventStatus::DeadLetter,
{
    match outcome {
        Ok(()) => EventStatus::Published,
        Err(BusError::Duplicate(_)) => EventStatus::Published,
        Err(_) => EventStatus::DeadLetter,
    }
}

/// The failure raised when a command id was already processed is always
/// recognised as a duplicate: its message (as a query error) mentions a
/// duplicate command, so `publish` reports `Duplicate` and
/// `publish_or_dead_letter` reports the event as published.
pub proof fn lemma_duplicate_failure_is_recognised(command_id: Seq<char>)
    ensures
        contains_seq("query error: "@ + ("duplicate command: "@ + command_id), "duplicate command"@),
{
    let msg = "query error: "@ + ("duplicate command: "@ + command_id);
    reveal_strlit("query error: ");
    reveal_strlit("duplicate command: ");
    reveal_strlit("duplicate command");
    assert(msg.subrange(13int, 30int) =~= "duplicate command"@);
    assert(crate::text::occurs_at(msg, "duplicate command"@, 13));
}

} // verus!
