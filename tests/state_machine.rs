use tui_revolt::{
    update, Action, AppState, Channel, Effect, Event, InputMode, Key, Message, OpenAt, OpenError,
    Server, ServerEvent, ToArray,
};

fn channel(id: &str, server: Option<&str>) -> Channel {
    Channel {
        id: id.to_string(),
        name: Some(format!("name-{}", id)),
        description: None,
        server: server.map(|s| s.to_string()),
    }
}

fn server(id: &str, name: &str, channels: &[&str]) -> Server {
    Server {
        id: id.to_string(),
        name: name.to_string(),
        description: None,
        channels: channels.iter().map(|c| c.to_string()).collect(),
    }
}

fn message(channel: &str, content: &str) -> Message {
    Message {
        id: "m1".to_string(),
        channel: channel.to_string(),
        author: "u1".to_string(),
        content: content.to_string(),
    }
}

fn open() -> AppState {
    let srv = server("s1", "home", &["c1", "c2"]);
    let chans = vec![channel("c1", Some("s1")), channel("c2", Some("s1"))];
    match AppState::new(channel("c1", Some("s1")), srv, chans) {
        Ok(app) => app,
        Err(_) => panic!("a server channel opens"),
    }
}

fn key(app: &mut AppState, k: Key) -> (Action, Effect) {
    update(app, Event::Input(k))
}

#[test]
fn opens_in_normal_mode_with_empty_state() {
    let app = open();
    assert_eq!(app.input_mode, InputMode::Normal);
    assert_eq!(app.input, "");
    assert!(app.messages.is_empty());
    assert!(app.server_list.is_none());
    assert!(app.notice.is_none());
    assert_eq!(app.server_channels.len(), 2);
    assert_eq!(app.current_channel.id, "c1");
}

#[test]
fn channel_without_server_is_unsupported() {
    let srv = server("s1", "home", &[]);
    let r = AppState::new(channel("dm", None), srv, vec![]);
    assert!(matches!(r, Err(OpenError::Unsupported)));
}

#[test]
fn edit_type_backspace_enter_scenario() {
    let mut app = open();
    let (a, e) = key(&mut app, Key::Char('e'));
    assert_eq!(a, Action::Continue);
    assert!(matches!(e, Effect::Nothing));
    assert_eq!(app.input_mode, InputMode::Editing);
    key(&mut app, Key::Char('h'));
    key(&mut app, Key::Char('i'));
    assert_eq!(app.input, "hi");
    key(&mut app, Key::Backspace);
    assert_eq!(app.input, "h");
    let (a, e) = key(&mut app, Key::Char('\n'));
    assert_eq!(a, Action::Continue);
    assert_eq!(app.input, "");
    assert_eq!(app.input_mode, InputMode::Editing);
    match e {
        Effect::SendMessage { channel, content } => {
            assert_eq!(channel, "c1");
            assert_eq!(content, "h");
        }
        _ => panic!("Enter sends the line"),
    }
}

#[test]
fn message_for_current_channel_is_logged() {
    let mut app = open();
    let (a, e) = update(&mut app, Event::RobespierreEvent(ServerEvent::Message { message: message("c1", "hello") }));
    assert_eq!(a, Action::Continue);
    let msg = match e {
        Effect::ResolveAuthor { message } => message,
        _ => panic!("a message of the open channel asks for its author"),
    };
    assert_eq!(app.messages.len(), 0);
    app.record_message(msg, Some("alice".to_string()));
    assert_eq!(app.messages.len(), 1);
    assert_eq!(app.messages[0].message.content, "hello");
    assert_eq!(app.messages[0].author.as_deref(), Some("alice"));
}

#[test]
fn message_for_other_channel_is_dropped() {
    let mut app = open();
    let (a, e) = update(&mut app, Event::RobespierreEvent(ServerEvent::Message { message: message("c2", "elsewhere") }));
    assert_eq!(a, Action::Continue);
    assert!(matches!(e, Effect::Nothing));
    app.record_message(message("c2", "elsewhere"), None);
    assert_eq!(app.messages.len(), 0);
}

#[test]
fn unresolved_author_keeps_message() {
    let mut app = open();
    app.record_message(message("c1", "anon"), None);
    assert_eq!(app.messages.len(), 1);
    assert!(app.messages[0].author.is_none());
}

#[test]
fn ready_sets_and_overwrites_server_list() {
    let mut app = open();
    update(&mut app, Event::RobespierreEvent(ServerEvent::Ready { servers: vec![server("s1", "home", &[]), server("s2", "work", &[])] }));
    assert_eq!(app.server_list.as_ref().map(|l| l.len()), Some(2));
    update(&mut app, Event::RobespierreEvent(ServerEvent::Ready { servers: vec![] }));
    assert_eq!(app.server_list.as_ref().map(|l| l.len()), Some(0));
    update(&mut app, Event::Tick);
    update(&mut app, Event::RobespierreEvent(ServerEvent::Other));
    assert!(app.server_list.is_some());
}

#[test]
fn normal_mode_ignores_other_keys() {
    let mut app = open();
    for k in [Key::Char('x'), Key::Char('\n'), Key::Backspace, Key::Esc, Key::Other, Key::Char('E')] {
        let (a, e) = key(&mut app, k);
        assert_eq!(a, Action::Continue);
        assert!(matches!(e, Effect::Nothing));
    }
    assert_eq!(app.input_mode, InputMode::Normal);
    assert_eq!(app.input, "");
    assert_eq!(key(&mut app, Key::Char('q')).0, Action::Break);
}

#[test]
fn q_in_editing_mode_is_text() {
    let mut app = open();
    key(&mut app, Key::Char('e'));
    let (a, _) = key(&mut app, Key::Char('q'));
    assert_eq!(a, Action::Continue);
    assert_eq!(app.input, "q");
}

#[test]
fn escape_keeps_buffer_and_backspace_on_empty_is_noop() {
    let mut app = open();
    key(&mut app, Key::Char('e'));
    key(&mut app, Key::Backspace);
    assert_eq!(app.input, "");
    key(&mut app, Key::Char('a'));
    key(&mut app, Key::Esc);
    assert_eq!(app.input_mode, InputMode::Normal);
    assert_eq!(app.input, "a");
}

#[test]
fn enter_on_empty_line_sends_empty_content() {
    let mut app = open();
    key(&mut app, Key::Char('e'));
    match key(&mut app, Key::Char('\n')).1 {
        Effect::SendMessage { content, .. } => assert_eq!(content, ""),
        _ => panic!("Enter sends the line"),
    }
}

#[test]
fn report_sets_notice() {
    let mut app = open();
    app.report("could not send".to_string());
    assert_eq!(app.notice.as_deref(), Some("could not send"));
}

#[test]
fn cursor_hidden_in_normal_mode() {
    let app = open();
    assert_eq!(app.cursor(3, 4), None);
}

#[test]
fn cursor_past_text_in_editing_mode() {
    let mut app = open();
    key(&mut app, Key::Char('e'));
    assert_eq!(app.cursor(3, 4), Some((4, 5)));
    key(&mut app, Key::Char('h'));
    key(&mut app, Key::Char('i'));
    assert_eq!(app.cursor(3, 4), Some((6, 5)));
}

#[test]
fn cursor_counts_wide_characters_twice() {
    let mut app = open();
    key(&mut app, Key::Char('e'));
    key(&mut app, Key::Char('日'));
    key(&mut app, Key::Char('本'));
    assert_eq!(app.cursor(0, 0), Some((5, 1)));
}

#[test]
fn cursor_off_grid_is_hidden() {
    let mut app = open();
    key(&mut app, Key::Char('e'));
    key(&mut app, Key::Char('x'));
    assert_eq!(app.cursor(u16::MAX - 1, 0), None);
    assert_eq!(app.cursor(u16::MAX - 2, 0), Some((u16::MAX, 1)));
    assert_eq!(app.cursor(0, u16::MAX), None);
}

#[test]
fn open_at_channel_id() {
    let at = OpenAt::Channel("c9".to_string());
    assert_eq!(at.channel_id(), "c9");
}

#[test]
fn to_array_keeps_order() {
    let [a, b, c] = vec![1, 2, 3].to_array();
    assert_eq!((a, b, c), (1, 2, 3));
}
