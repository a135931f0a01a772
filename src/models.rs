//! The decoded chat event and the bot's own profile.

use vstd::prelude::*;

verus! {

/// Whether an event came from a private chat or a group.
#[derive(Debug, Clone, Copy, PartialEq, Eq, Structural)]
pub enum MessageType {
    Private,
    Group,
}

/// Who sent an event.
#[derive(Debug, Clone, PartialEq, Eq)]
pub struct Sender {
    pub user_id: i64,
    pub nickname: String,
    /// Group display name; empty when the sender has none.
    pub card: String,
}

#[derive(Debug, Clone, PartialEq, Eq)]
pub struct PlainTextMessage {
    pub text: String,
}

#[derive(Debug, Clone, Copy, PartialEq, Eq, Structural)]
pub struct AtTargetMessage {
    pub target: Option<i64>,
}

#[derive(Debug, Clone, Copy, PartialEq, Eq, Structural)]
pub struct ReplyMessage {
    pub id: i64,
}

/// One segment of a chat message; the set of forms is closed.
#[derive(Debug, Clone, PartialEq, Eq)]
pub enum Message {
    PlainText(PlainTextMessage),
    At(AtTargetMessage),
    Reply(ReplyMessage),
}

/// A decoded chat event.
#[derive(Debug, Clone, PartialEq, Eq)]
pub struct MessageEvent {
    pub message_id: i64,
    pub message_type: MessageType,
    pub sender: Sender,
    /// Segments in the order the gateway sent them.
    pub message_list: Vec<Message>,
    pub group_id: Option<i64>,
    pub group_name: Option<String>,
    pub is_group_message: bool,
}

impl MessageEvent {
    /// A group event carries its group; a private one carries none.
    pub open spec fn wf(&self) -> bool {
        &&& self.is_group_message == (self.message_type == MessageType::Group)
        &&& self.group_id is Some <==> self.is_group_message
        &&& !self.is_group_message ==> self.group_name is None
    }
}

/// The bot's own identity.
#[derive(Debug, Clone, PartialEq, Eq)]
pub struct Profile {
    pub qq_id: String,
    pub nickname: String,
}

} // verus!
