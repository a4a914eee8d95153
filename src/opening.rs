use vstd::prelude::*;
use crate::state::{opened_view, AppState, OpenAt, OpenError};
use crate::util::event::{Channel, Server};

verus! {

/// How far opening the client has got. Opening looks up the channel to open,
/// then its server, then each channel of that server in listing order, one
/// lookup at a time; the caller makes each lookup and hands the answer back.
pub enum Opening {
    /// Waiting for the channel to open.
    Channel { id: String },
    /// Waiting for the server of `current`.
    Server { current: Channel, server_id: String },
    /// Waiting for the next channel of `server`; `fetched` holds those so far.
    Channels { current: Channel, server: Server, fetched: Vec<Channel> },
}

/// A lookup the caller is asked to make, by id.
pub enum Request {
    Channel(String),
    Server(String),
}

/// The answer to a lookup.
pub enum Fetched {
    Channel(Channel),
    Server(Server),
}

/// Where opening stands after an answer.
pub enum Progress {
    /// Make `Request` and hand its answer to `Opening::advance`.
    Pending(Opening, Request),
    /// All lookups are done.
    Ready(AppState),
}

impl Opening {
    /// The channel being opened belongs to a server, and the channels fetched
    /// so far are fewer than the server lists.
    pub open spec fn wf(&self) -> bool {
        match self {
            Opening::Channel { .. } => true,
            Opening::Server { current, .. } => current.server is Some,
            Opening::Channels { current, server, fetched } => {
                &&& current.server is Some
                &&& fetched@.len() < server.channels@.len()
            },
        }
    }

    /// Starts opening at `at`: the first lookup is the channel itself.
    pub fn start(at: OpenAt) -> (r: (Opening, Request))
        ensures
            r.0.wf(),
            at matches OpenAt::Channel(id) && r.0 == (Opening::Channel { id }) && r.1 == Request::Channel(
                id,
            ),
    {
        match at {
            OpenAt::Channel(id) => {
                let req = id.clone();
                (Opening::Channel { id }, Request::Channel(req))
            },
        }
    }

    /// Takes the answer to the pending lookup. A channel outside any server is
    /// refused, and so is an answer of the wrong kind; otherwise the next
    /// lookup is asked for, until the last channel of the server has come in.
    pub fn advance(self, got: Fetched) -> (r: Result<Progress, OpenError>)
        requires
            self.wf(),
        ensures
            r matches Ok(Progress::Pending(next, _)) ==> next.wf(),
            advanced(self, got, r),
    {
        match self {
            Opening::Channel { id: _ } => match got {
                Fetched::Channel(current) => match current.server.clone() {
                    None => Err(OpenError::Unsupported),
                    Some(server_id) => {
                        let req = server_id.clone();
                        Ok(Progress::Pending(Opening::Server { current, server_id }, Request::Server(req)))
                    },
                },
                Fetched::Server(_) => Err(OpenError::Unexpected),
            },
            Opening::Server { current, server_id: _ } => match got {
                Fetched::Server(server) => {
                    if server.channels.len() == 0 {
                        match AppState::new(current, server, Vec::new()) {
                            Ok(app) => Ok(Progress::Ready(app)),
                            Err(e) => Err(e),
                        }
                    } else {
                        let req = server.channels[0].clone();
                        Ok(
                            Progress::Pending(
                                Opening::Channels { current, server, fetched: Vec::new() },
                                Request::Channel(req),
                            ),
                        )
                    }
                },
                Fetched::Channel(_) => Err(OpenError::Unexpected),
            },
            Opening::Channels { current, server, fetched } => match got {
                Fetched::Channel(ch) => {
                    let mut fetched = fetched;
                    fetched.push(ch);
                    if fetched.len() == server.channels.len() {
                        match AppState::new(current, server, fetched) {
                            Ok(app) => Ok(Progress::Ready(app)),
                            Err(e) => Err(e),
                        }
                    } else {
                        let req = server.channels[fetched.len()].clone();
                        Ok(Progress::Pending(Opening::Channels { current, server, fetched }, Request::Channel(req)))
                    }
                },
                Fetched::Server(_) => Err(OpenError::Unexpected),
            },
        }
    }
}

/// What one answer does to the opening, case by case.
pub open spec fn advanced(s: Opening, got: Fetched, r: Result<Progress, OpenError>) -> bool {
    match s {
        Opening::Channel { .. } => match got {
            Fetched::Channel(current) => match current.server {
                None => r == Err::<Progress, OpenError>(OpenError::Unsupported),
                Some(sid) => r matches Ok(Progress::Pending(next, req)) && next == (Opening::Server {
                    current,
                    server_id: sid,
                }) && req == Request::Server(sid),
            },
            Fetched::Server(_) => r == Err::<Progress, OpenError>(OpenError::Unexpected),
        },
        Opening::Server { current, .. } => match got {
            Fetched::Server(server) => if server.channels@.len() == 0 {
                r matches Ok(Progress::Ready(app)) && app@ == opened_view(current, server, Seq::empty())
            } else {
                r matches Ok(Progress::Pending(Opening::Channels { current: c, server: sv, fetched }, req))
                    && c == current && sv == server && fetched@ == Seq::<Channel>::empty() && req
                    == Request::Channel(server.channels@[0])
            },
            Fetched::Channel(_) => r == Err::<Progress, OpenError>(OpenError::Unexpected),
        },
        Opening::Channels { current, server, fetched } => match got {
            Fetched::Channel(ch) => if fetched@.len() + 1 == server.channels@.len() {
                r matches Ok(Progress::Ready(app)) && app@ == opened_view(current, server, fetched@.push(ch))
            } else {
                r matches Ok(Progress::Pending(Opening::Channels { current: c, server: sv, fetched: f }, req))
                    && c == current && sv == server && f@ == fetched@.push(ch) && req == Request::Channel(
                    server.channels@[fetched@.len() + 1 as int],
                )
            },
            Fetched::Server(_) => r == Err::<Progress, OpenError>(OpenError::Unexpected),
        },
    }
}

} // verus!
