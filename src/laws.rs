use vstd::prelude::*;
use crate::state::{step, record_spec, Action, AppView, EffectView, InputMode, OpenError};
use crate::opening::{advanced, Fetched, Opening, Progress};
use crate::util::event::{Event, Key, Message, Server, ServerEvent};

verus! {

/// The state after each event of `evs` in turn, with the action and the effect
/// of each event, in order.
pub open spec fn run(s: AppView, evs: Seq<Event<Key>>) -> (AppView, Seq<Action>, Seq<EffectView>)
    decreases evs.len(),
{
    if evs.len() == 0 {
        (s, Seq::empty(), Seq::empty())
    } else {
        let prev = run(s, evs.drop_last());
        let next = step(prev.0, evs.last());
        (next.0, prev.1.push(next.1), prev.2.push(next.2))
    }
}

/// The key presses `keys` as events.
pub open spec fn presses(keys: Seq<Key>) -> Seq<Event<Key>> {
    Seq::new(keys.len(), |i: int| Event::Input(keys[i]))
}

/// `keys` are the presses that type `text`, one character each.
pub open spec fn types_text(keys: Seq<Key>, text: Seq<char>) -> bool {
    keys.len() == text.len() && forall|i: int| 0 <= i < keys.len() ==> keys[i] == Key::Char(text[i])
}

proof fn lemma_run_len(s: AppView, evs: Seq<Event<Key>>)
    ensures
        run(s, evs).1.len() == evs.len(),
        run(s, evs).2.len() == evs.len(),
    decreases evs.len(),
{
    if evs.len() > 0 {
        lemma_run_len(s, evs.drop_last());
    }
}

/// In `Normal` mode, any run of key presses other than `'e'` and `'q'` leaves
/// the state as it was, never stops the loop and requests nothing.
pub proof fn lemma_normal_mode_ignores_other_keys(s: AppView, keys: Seq<Key>)
    requires
        s.input_mode == InputMode::Normal,
        forall|i: int| 0 <= i < keys.len() ==> keys[i] != Key::Char('e') && keys[i] != Key::Char('q'),
    ensures
        run(s, presses(keys)).0 == s,
        run(s, presses(keys)).1.len() == keys.len(),
        run(s, presses(keys)).2.len() == keys.len(),
        forall|i: int| 0 <= i < keys.len() ==> run(s, presses(keys)).1[i] == Action::Continue,
        forall|i: int| 0 <= i < keys.len() ==> run(s, presses(keys)).2[i] == EffectView::Nothing,
    decreases keys.len(),
{
    lemma_run_len(s, presses(keys));
    if keys.len() > 0 {
        let front = keys.drop_last();
        assert(presses(keys).drop_last() =~= presses(front));
        lemma_normal_mode_ignores_other_keys(s, front);
    }
}

/// In `Editing` mode, typing `text` (no Enter in it) appends it to the input
/// line and requests nothing.
pub proof fn lemma_typing_appends(s: AppView, keys: Seq<Key>, text: Seq<char>)
    requires
        s.input_mode == InputMode::Editing,
        types_text(keys, text),
        !text.contains('\n'),
    ensures
        run(s, presses(keys)).0 == (AppView { input: s.input + text, ..s }),
        run(s, presses(keys)).1.len() == keys.len(),
        run(s, presses(keys)).2.len() == keys.len(),
        forall|i: int| 0 <= i < keys.len() ==> run(s, presses(keys)).1[i] == Action::Continue,
        forall|i: int| 0 <= i < keys.len() ==> run(s, presses(keys)).2[i] == EffectView::Nothing,
    decreases keys.len(),
{
    lemma_run_len(s, presses(keys));
    if keys.len() == 0 {
        assert(s.input + text =~= s.input);
    } else {
        let n = keys.len() - 1;
        let front = keys.drop_last();
        let front_text = text.drop_last();
        assert(presses(keys).drop_last() =~= presses(front));
        assert(!front_text.contains('\n')) by {
            if front_text.contains('\n') {
                let j = choose|j: int| 0 <= j < front_text.len() && front_text[j] == '\n';
                assert(text[j] == '\n');
            }
        }
        assert(text[n] != '\n');
        assert(presses(keys).last() == Event::Input(Key::Char(text[n])));
        lemma_typing_appends(s, front, front_text);
        assert((s.input + front_text).push(text[n]) =~= s.input + text);
    }
}

/// In `Editing` mode, typing `text` and pressing Enter empties the input line,
/// stays in `Editing` mode, and requests exactly one send: of everything on
/// the line before Enter, to the current channel.
pub proof fn lemma_enter_sends_line_once(s: AppView, keys: Seq<Key>, text: Seq<char>)
    requires
        s.input_mode == InputMode::Editing,
        types_text(keys, text),
        !text.contains('\n'),
    ensures
        ({
            let r = run(s, presses(keys.push(Key::Char('\n'))));
            &&& r.0 == (AppView { input: Seq::empty(), ..s })
            &&& r.2.len() == text.len() + 1
            &&& forall|i: int| 0 <= i < text.len() ==> r.2[i] == EffectView::Nothing
            &&& r.2[text.len() as int] == (EffectView::SendMessage {
                channel: s.current_channel.id@,
                content: s.input + text,
            })
            &&& forall|i: int| 0 <= i <= text.len() ==> r.1[i] == Action::Continue
        }),
{
    let all = keys.push(Key::Char('\n'));
    assert(presses(all).drop_last() =~= presses(keys));
    lemma_typing_appends(s, keys, text);
    lemma_run_len(s, presses(all));
}

/// A server message for another channel than the open one changes nothing:
/// the event requests no lookup, and recording it leaves the log as it was.
pub proof fn lemma_other_channel_message_dropped(s: AppView, message: Message, author: Option<String>)
    requires
        message.channel@ != s.current_channel.id@,
    ensures
        step(s, Event::RobespierreEvent(ServerEvent::Message { message })) == (s, Action::Continue, EffectView::Nothing),
        record_spec(s, message, author) == s,
        record_spec(s, message, author).messages.len() == s.messages.len(),
{
}

/// A `Ready` event always sets the server list, and of two `Ready` events the
/// later one wins, even when its list is empty.
pub proof fn lemma_ready_last_write_wins(s: AppView, first: Vec<Server>, second: Vec<Server>)
    ensures
        step(s, Event::RobespierreEvent(ServerEvent::Ready { servers: first })).0.server_list
            == Some(first@),
        run(
            s,
            seq![
                Event::RobespierreEvent(ServerEvent::Ready { servers: first }),
                Event::RobespierreEvent(ServerEvent::Ready { servers: second }),
            ],
        ).0.server_list == Some(second@),
{
    let evs = seq![
        Event::RobespierreEvent(ServerEvent::Ready { servers: first }),
        Event::RobespierreEvent(ServerEvent::Ready { servers: second }),
    ];
    assert(evs.drop_last().drop_last() =~= Seq::<Event<Key>>::empty());
}

/// Once the server list is known it stays known, whatever events follow.
pub proof fn lemma_server_list_never_reverts(s: AppView, evs: Seq<Event<Key>>)
    requires
        s.server_list is Some,
    ensures
        run(s, evs).0.server_list is Some,
    decreases evs.len(),
{
    if evs.len() > 0 {
        lemma_server_list_never_reverts(s, evs.drop_last());
    }
}

/// Opening finishes only with the whole channel list of the server: the
/// opened state lists as many channels as the server does, and shows the
/// server that was looked up.
pub proof fn lemma_opening_fetches_every_channel(s: Opening, got: Fetched, r: Result<Progress, OpenError>)
    requires
        s.wf(),
        advanced(s, got, r),
        r matches Ok(Progress::Ready(_)),
    ensures
        r matches Ok(Progress::Ready(app)) && app@.server_channels.len() == app@.server.channels@.len(),
{
}

} // verus!
