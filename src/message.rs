use vstd::prelude::*;

verus! {

/// The name under which device output enters the chat, as room and as user.
pub open spec fn device_identity() -> Seq<char> {
    "Micro:bit"@
}

/// What a message holds, as plain sequences of characters.
pub struct MessageView {
    pub room: Seq<char>,
    pub username: Seq<char>,
    pub message: Seq<char>,
}

/// One chat message. It carries no identifier or timestamp: its place in the
/// stream is the order in which it reached the hub.
#[derive(Debug, PartialEq, Eq)]
pub struct Message {
    pub room: String,
    pub username: String,
    pub message: String,
}

impl View for Message {
    type V = MessageView;

    open spec fn view(&self) -> MessageView {
        MessageView { room: self.room@, username: self.username@, message: self.message@ }
    }
}

/// The message that device output `text` becomes.
pub open spec fn device_message_view(text: Seq<char>) -> MessageView {
    MessageView { room: device_identity(), username: device_identity(), message: text }
}

impl Clone for Message {
    fn clone(&self) -> (r: Message)
        ensures
            r@ == self@,
    {
        Message {
            room: self.room.clone(),
            username: self.username.clone(),
            message: self.message.clone(),
        }
    }
}

impl Message {
    pub fn new(room: String, username: String, message: String) -> (r: Message)
        ensures
            r@ == (MessageView { room: room@, username: username@, message: message@ }),
    {
        Message { room, username, message }
    }

    /// A message from the device, with `text` as its payload.
    pub fn from_device(text: String) -> (r: Message)
        ensures
            r@ == device_message_view(text@),
    {
        Message { room: "Micro:bit".to_owned(), username: "Micro:bit".to_owned(), message: text }
    }
}

} // verus!
