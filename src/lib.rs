//! View model and input state machine of a terminal chat client.
//!
//! The library holds the data the client shows (servers, channels, the message
//! log and the input line) and the rules by which key presses and server events
//! change it. Network, cache and terminal work happen around it: the state
//! machine hands out an `Effect` for each outbound request it wants made.
pub mod array;
pub mod laws;
pub mod opening;
pub mod state;
pub mod text;
pub mod util;

pub use array::ToArray;
pub use opening::{Fetched, Opening, Progress, Request};
pub use state::{update, Action, AppState, AppView, Effect, EffectView, InputMode, LogEntry, OpenAt, OpenError};
pub use util::event::{Channel, Event, Key, Message, Server, ServerEvent};
