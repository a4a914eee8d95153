use vstd::prelude::*;

verus! {

/// A key press, as far as the client tells keys apart.
#[derive(Clone, Copy, Debug, PartialEq, Eq, Structural)]
pub enum Key {
    /// A printable character; Enter arrives as `'\n'`.
    Char(char),
    Backspace,
    Esc,
    /// Any other key (arrows, function keys, ...), which the client ignores.
    Other,
}

/// A chat message: the ids are the service's textual identifiers.
#[derive(Clone, Debug)]
pub struct Message {
    pub id: String,
    pub channel: String,
    pub author: String,
    pub content: String,
}

/// A server (a community) and the ids of its channels, in listing order.
#[derive(Clone, Debug)]
pub struct Server {
    pub id: String,
    pub name: String,
    pub description: Option<String>,
    pub channels: Vec<String>,
}

/// A channel; `server` is `None` for direct and group conversations.
#[derive(Clone, Debug)]
pub struct Channel {
    pub id: String,
    pub name: Option<String>,
    pub description: Option<String>,
    pub server: Option<String>,
}

/// The server events the client reacts to.
#[derive(Clone, Debug)]
pub enum ServerEvent {
    /// A message was posted in some channel.
    Message { message: Message },
    /// The session is ready: the servers the user belongs to.
    Ready { servers: Vec<Server> },
    /// Any other event, which the client ignores.
    Other,
}

/// One event out of the merged stream, tagged by its source.
pub enum Event<I> {
    Input(I),
    RobespierreEvent(ServerEvent),
    Tick,
}

} // verus!
