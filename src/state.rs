use vstd::prelude::*;
use crate::util::event::{Channel, Event, Key, Message, Server, ServerEvent};
use crate::text::{cursor_past_text, cursor_spec, display_width};

verus! {

/// Whether key presses are commands (`Normal`) or text for the input line.
#[derive(Clone, Copy, Debug, PartialEq, Eq, Structural)]
pub enum InputMode {
    Normal,
    Editing,
}

/// What the caller's loop does after an event.
#[derive(Clone, Copy, Debug, PartialEq, Eq, Structural)]
pub enum Action {
    /// Leave the loop and shut the event sources down.
    Break,
    /// Keep going.
    Continue,
}

/// An outbound request the state machine asks its caller to make.
#[derive(Clone, Debug)]
pub enum Effect {
    Nothing,
    /// Send `content` to the channel `channel`; the outcome is not awaited.
    SendMessage { channel: String, content: String },
    /// Look up the display identity of `message`'s author, then hand it to
    /// `AppState::record_message`.
    ResolveAuthor { message: Message },
}

/// `Effect` with its strings seen as character sequences.
pub enum EffectView {
    Nothing,
    SendMessage { channel: Seq<char>, content: Seq<char> },
    ResolveAuthor { message: Message },
}

impl View for Effect {
    type V = EffectView;

    open spec fn view(&self) -> EffectView {
        match self {
            Effect::Nothing => EffectView::Nothing,
            Effect::SendMessage { channel, content } => EffectView::SendMessage {
                channel: channel@,
                content: content@,
            },
            Effect::ResolveAuthor { message } => EffectView::ResolveAuthor { message: *message },
        }
    }
}

/// A message of the log with its author's display name; `None` where the name
/// could not be resolved.
#[derive(Clone, Debug)]
pub struct LogEntry {
    pub message: Message,
    pub author: Option<String>,
}

/// Where the client opens.
pub enum OpenAt {
    Channel(String),
}

impl OpenAt {
    /// The id of the channel to open.
    pub fn channel_id(&self) -> (r: &String)
        ensures
            *self == OpenAt::Channel(*r),
    {
        match self {
            OpenAt::Channel(id) => id,
        }
    }
}

/// Why a view could not be opened.
#[derive(Clone, Copy, Debug, PartialEq, Eq, Structural)]
pub enum OpenError {
    /// The channel belongs to no server (a direct or group conversation),
    /// which this client does not show.
    Unsupported,
    /// A lookup answered with another kind of entity than was asked for.
    Unexpected,
}

/// The state of the client: the input line, the log of the open channel, the
/// open server with its channels, and the user's servers once known.
pub struct AppState {
    /// Current value of the input box.
    pub input: String,
    pub input_mode: InputMode,
    /// Messages of the current channel, oldest first.
    pub messages: Vec<LogEntry>,
    pub server: Server,
    pub server_channels: Vec<Channel>,
    pub current_channel: Channel,
    /// `None` until the session is ready.
    pub server_list: Option<Vec<Server>>,
    /// A notice for the user, such as a message that could not be sent.
    pub notice: Option<String>,
}

/// The model of `AppState`.
pub struct AppView {
    pub input: Seq<char>,
    pub input_mode: InputMode,
    pub messages: Seq<LogEntry>,
    pub server: Server,
    pub server_channels: Seq<Channel>,
    pub current_channel: Channel,
    pub server_list: Option<Seq<Server>>,
    pub notice: Option<Seq<char>>,
}

impl View for AppState {
    type V = AppView;

    open spec fn view(&self) -> AppView {
        AppView {
            input: self.input@,
            input_mode: self.input_mode,
            messages: self.messages@,
            server: self.server,
            server_channels: self.server_channels@,
            current_channel: self.current_channel,
            server_list: match self.server_list {
                Some(v) => Some(v@),
                None => None,
            },
            notice: match self.notice {
                Some(n) => Some(n@),
                None => None,
            },
        }
    }
}

/// One key press against the state: the new state, the action, the effect.
pub open spec fn key_step(s: AppView, k: Key) -> (AppView, Action, EffectView) {
    match s.input_mode {
        InputMode::Normal => if k == Key::Char('e') {
            (AppView { input_mode: InputMode::Editing, ..s }, Action::Continue, EffectView::Nothing)
        } else if k == Key::Char('q') {
            (s, Action::Break, EffectView::Nothing)
        } else {
            (s, Action::Continue, EffectView::Nothing)
        },
        InputMode::Editing => match k {
            Key::Char(c) => if c == '\n' {
                (
                    AppView { input: Seq::empty(), ..s },
                    Action::Continue,
                    EffectView::SendMessage { channel: s.current_channel.id@, content: s.input },
                )
            } else {
                (AppView { input: s.input.push(c), ..s }, Action::Continue, EffectView::Nothing)
            },
            Key::Backspace => if s.input.len() > 0 {
                (AppView { input: s.input.drop_last(), ..s }, Action::Continue, EffectView::Nothing)
            } else {
                (s, Action::Continue, EffectView::Nothing)
            },
            Key::Esc => (AppView { input_mode: InputMode::Normal, ..s }, Action::Continue, EffectView::Nothing),
            Key::Other => (s, Action::Continue, EffectView::Nothing),
        },
    }
}

/// One server event against the state.
pub open spec fn server_step(s: AppView, e: ServerEvent) -> (AppView, Action, EffectView) {
    match e {
        ServerEvent::Message { message } => if message.channel@ == s.current_channel.id@ {
            (s, Action::Continue, EffectView::ResolveAuthor { message })
        } else {
            (s, Action::Continue, EffectView::Nothing)
        },
        ServerEvent::Ready { servers } => (
            AppView { server_list: Some(servers@), ..s },
            Action::Continue,
            EffectView::Nothing,
        ),
        ServerEvent::Other => (s, Action::Continue, EffectView::Nothing),
    }
}

/// One event of the merged stream against the state.
pub open spec fn step(s: AppView, ev: Event<Key>) -> (AppView, Action, EffectView) {
    match ev {
        Event::Input(k) => key_step(s, k),
        Event::RobespierreEvent(e) => server_step(s, e),
        Event::Tick => (s, Action::Continue, EffectView::Nothing),
    }
}

/// The log after a resolved message: appended when it belongs to the current
/// channel, unchanged otherwise.
pub open spec fn record_spec(s: AppView, message: Message, author: Option<String>) -> AppView {
    if message.channel@ == s.current_channel.id@ {
        AppView { messages: s.messages.push(LogEntry { message, author }), ..s }
    } else {
        s
    }
}

/// The state just opened on `current` of `server`, with `channels` listed.
pub open spec fn opened_view(current: Channel, server: Server, channels: Seq<Channel>) -> AppView {
    AppView {
        input: Seq::empty(),
        input_mode: InputMode::Normal,
        messages: Seq::empty(),
        server,
        server_channels: channels,
        current_channel: current,
        server_list: None,
        notice: None,
    }
}

impl AppState {
    /// The view opened on `current_channel` of `server`, whose channels are
    /// `server_channels`: empty input in `Normal` mode, an empty log, and no
    /// server list yet. A channel outside any server is refused.
    pub fn new(current_channel: Channel, server: Server, server_channels: Vec<Channel>) -> (r:
        Result<AppState, OpenError>)
        ensures
            current_channel.server is None <==> r is Err,
            r is Err ==> r == Err::<AppState, OpenError>(OpenError::Unsupported),
            r matches Ok(app) ==> app@ == opened_view(current_channel, server, server_channels@),
    {
        if current_channel.server.is_none() {
            return Err(OpenError::Unsupported);
        }
        Ok(AppState {
            input: String::new(),
            input_mode: InputMode::Normal,
            messages: Vec::new(),
            server,
            server_channels,
            current_channel,
            server_list: None,
            notice: None,
        })
    }

    /// Appends `message` to the log with its author's display name, if it
    /// belongs to the current channel; otherwise the log is left alone.
    pub fn record_message(&mut self, message: Message, author: Option<String>)
        ensures
            final(self)@ == record_spec(old(self)@, message, author),
    {
        if message.channel == self.current_channel.id {
            self.messages.push(LogEntry { message, author });
        }
    }

    /// Shows `text` to the user in place of any earlier notice; for outbound
    /// requests that failed, which change nothing else.
    pub fn report(&mut self, text: String)
        ensures
            final(self)@ == (AppView { notice: Some(text@), ..old(self)@ }),
    {
        self.notice = Some(text);
    }

    /// Where the terminal cursor goes for an input box whose top-left corner is
    /// at (`x`, `y`): past the text in `Editing` mode, hidden (`None`) in
    /// `Normal` mode or where the position does not fit the grid.
    pub fn cursor(&self, x: u16, y: u16) -> (r: Option<(u16, u16)>)
        ensures
            self.input_mode == InputMode::Normal ==> r is None,
            self.input_mode == InputMode::Editing ==> r == cursor_spec(x, y, display_width(self.input@)),
    {
        match self.input_mode {
            InputMode::Normal => None,
            InputMode::Editing => cursor_past_text(x, y, self.input.as_str()),
        }
    }
}

/// Applies one event of the merged stream to `app`: changes the state, says
/// whether to go on, and names the request to make, as `step` states.
pub fn update(app: &mut AppState, event: Event<Key>) -> (r: (Action, Effect))
    ensures
        (final(app)@, r.0, r.1@) == step(old(app)@, event),
{
    match event {
        Event::Input(key) => match app.input_mode {
            InputMode::Normal => match key {
                Key::Char('e') => {
                    app.input_mode = InputMode::Editing;
                    (Action::Continue, Effect::Nothing)
                },
                Key::Char('q') => (Action::Break, Effect::Nothing),
                _ => (Action::Continue, Effect::Nothing),
            },
            InputMode::Editing => match key {
                Key::Char('\n') => {
                    let content = app.input.clone();
                    app.input = String::new();
                    let channel = app.current_channel.id.clone();
                    (Action::Continue, Effect::SendMessage { channel, content })
                },
                Key::Char(c) => {
                    app.input.push(c);
                    (Action::Continue, Effect::Nothing)
                },
                Key::Backspace => {
                    app.input.pop();
                    (Action::Continue, Effect::Nothing)
                },
                Key::Esc => {
                    app.input_mode = InputMode::Normal;
                    (Action::Continue, Effect::Nothing)
                },
                Key::Other => (Action::Continue, Effect::Nothing),
            },
        },
        Event::RobespierreEvent(ev) => match ev {
            ServerEvent::Message { message } => {
                if message.channel == app.current_channel.id {
                    (Action::Continue, Effect::ResolveAuthor { message })
                } else {
                    (Action::Continue, Effect::Nothing)
                }
            },
            ServerEvent::Ready { servers } => {
                app.server_list = Some(servers);
                (Action::Continue, Effect::Nothing)
            },
            ServerEvent::Other => (Action::Continue, Effect::Nothing),
        },
        Event::Tick => (Action::Continue, Effect::Nothing),
    }
}

} // verus!
