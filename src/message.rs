//! Broker events, client messages, and the per-connection translation between them.

use vstd::prelude::*;

use crate::anonymize::{pseudonym, user_pseudonym};

verus! {

/// An event as published on the broker.
#[derive(Debug, PartialEq, Eq)]
pub enum LiveActivityMessage {
    Received { event_id: u64, irc_user_name: String },
    Sent { event_id: u64, irc_user_name: String, ping: Option<i32> },
    ReceivedDetails { event_id: u64, text: String },
}

/// A message as delivered to one client; user names are replaced by
/// pseudonyms that are specific to the receiving connection.
#[derive(Debug, PartialEq, Eq)]
pub enum FrontendMessage {
    Received { event_id: u64, user: i32 },
    Sent { event_id: u64, user: i32, ping: Option<i32> },
    MessageDetails { event_id: u64, message: String },
}

/// A live client connection: its output channel and its private salt.
pub struct Conn<C> {
    pub web: C,
    pub salt: u64,
}

/// What a connection with salt `salt` is sent for the event `msg`.
pub open spec fn translate(msg: LiveActivityMessage, salt: u64) -> FrontendMessage {
    match msg {
        LiveActivityMessage::Received { event_id, irc_user_name } => FrontendMessage::Received {
            event_id,
            user: pseudonym(irc_user_name@, salt) as i32,
        },
        LiveActivityMessage::Sent { event_id, irc_user_name, ping } => FrontendMessage::Sent {
            event_id,
            user: pseudonym(irc_user_name@, salt) as i32,
            ping,
        },
        LiveActivityMessage::ReceivedDetails { event_id, text } => FrontendMessage::MessageDetails {
            event_id,
            message: text,
        },
    }
}

/// The event id carried by a broker event.
pub open spec fn event_id_of(msg: LiveActivityMessage) -> u64 {
    match msg {
        LiveActivityMessage::Received { event_id, .. } => event_id,
        LiveActivityMessage::Sent { event_id, .. } => event_id,
        LiveActivityMessage::ReceivedDetails { event_id, .. } => event_id,
    }
}

/// The event id carried by a client message.
pub open spec fn frontend_event_id(msg: FrontendMessage) -> u64 {
    match msg {
        FrontendMessage::Received { event_id, .. } => event_id,
        FrontendMessage::Sent { event_id, .. } => event_id,
        FrontendMessage::MessageDetails { event_id, .. } => event_id,
    }
}

/// Translation is defined on every event and keeps what is not a user name:
/// the event id always, the ping of a sent message, and the text of a
/// details message, which becomes the client message's `message`; each
/// variant maps to its counterpart.
pub proof fn lemma_translate_preserves(msg: LiveActivityMessage, salt: u64)
    ensures
        frontend_event_id(translate(msg, salt)) == event_id_of(msg),
        msg is Received <==> translate(msg, salt) is Received,
        msg is Sent <==> translate(msg, salt) is Sent,
        msg is ReceivedDetails <==> translate(msg, salt) is MessageDetails,
        msg is Sent ==> translate(msg, salt)->Sent_ping == msg->Sent_ping,
        msg is ReceivedDetails ==> translate(msg, salt)->message == msg->text,
{
}

/// The pseudonym under which `name` appears on `conn`.
pub fn user_id<C>(conn: &Conn<C>, name: &String) -> (r: i32)
    ensures
        r as int == pseudonym(name@, conn.salt),
{
    user_pseudonym(name.as_str(), conn.salt)
}

/// The message that `conn` receives for the event `msg`.
pub fn convert_message<C>(conn: &Conn<C>, msg: &LiveActivityMessage) -> (r: FrontendMessage)
    ensures
        r == translate(*msg, conn.salt),
{
    match msg {
        LiveActivityMessage::Received { event_id, irc_user_name } => FrontendMessage::Received {
            event_id: *event_id,
            user: user_id(conn, irc_user_name),
        },
        LiveActivityMessage::Sent { event_id, irc_user_name, ping } => FrontendMessage::Sent {
            event_id: *event_id,
            user: user_id(conn, irc_user_name),
            ping: *ping,
        },
        LiveActivityMessage::ReceivedDetails { event_id, text } => FrontendMessage::MessageDetails {
            event_id: *event_id,
            message: text.clone(),
        },
    }
}

} // verus!
