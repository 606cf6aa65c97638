use kannaka_tui::chat::{Chat, ChatEvent, ChatWho, ChildEnd, Pending};
use kannaka_tui::effect::{Effect, Plugin, Task};
use kannaka_tui::reply::ChatReply;

fn reply(kind: &str, text: &str) -> ChatEvent {
    ChatEvent::Response(ChatReply { kind: kind.to_string(), text: text.to_string() })
}

fn shown(chat: &Chat) -> Vec<(ChatWho, &str)> {
    chat.lines.iter().skip(1).map(|l| (l.who, l.text.as_str())).collect()
}

fn done(effects: &[Effect]) -> Vec<(Task, Vec<&str>)> {
    effects
        .iter()
        .map(|e| (e.task, e.args.iter().map(String::as_str).collect()))
        .collect()
}

fn attached() -> Chat {
    let mut chat = Chat::new();
    chat.ensure_chat_child();
    chat.poll_chat(vec![ChatEvent::Attached, ChatEvent::Ready], false, None);
    chat
}

#[test]
fn a_conversation_opens_with_a_greeting() {
    let chat = Chat::new();
    assert_eq!(chat.lines.len(), 1);
    assert_eq!(chat.lines[0].who, ChatWho::System);
    assert_eq!(
        chat.lines[0].text,
        "Chat with Kannaka. Memories surface via wave resonance each turn. Enter to send."
    );
    assert_eq!(chat.pending, Pending::Idle);
}

#[test]
fn the_first_turn_starts_the_child_and_waits_for_it() {
    let mut chat = Chat::new();
    let work = chat.spawn_chat_turn("hi".to_string());
    assert_eq!(done(&work), vec![(Task::Chat, vec!["chat", "--json"])]);
    assert_eq!(chat.pending, Pending::Turn);
    assert_eq!(chat.waiting, Some("hi".to_string()));
    let sent = chat.poll_chat(vec![ChatEvent::Attached], false, None);
    assert_eq!(done(&sent), vec![(Task::Send, vec!["hi"])]);
    assert_eq!(chat.waiting, None);
    assert_eq!(chat.pending, Pending::Turn);
    let again = chat.poll_chat(vec![ChatEvent::Attached], false, None);
    assert!(again.is_empty());
}

#[test]
fn later_turns_reuse_the_child() {
    let mut chat = attached();
    assert!(chat.child.unwrap().ready);
    let work = chat.spawn_chat_turn("again".to_string());
    assert_eq!(done(&work), vec![(Task::Send, vec!["again"])]);
}

#[test]
fn without_a_child_a_message_is_a_one_shot_question() {
    let mut chat = Chat::new();
    let work = chat.route_turn("hi".to_string());
    assert_eq!(
        done(&work),
        vec![(Task::Ask, vec!["ask", "--session", "kannaka-tui", "--quiet-tools", "hi"])]
    );
    assert_eq!(chat.pending, Pending::Ask);
    chat.poll_chat(vec![], false, None);
    assert_eq!(chat.pending, Pending::Ask);
    chat.poll_chat(vec![], false, Some(Ok("hello".to_string())));
    assert_eq!(chat.pending, Pending::Idle);
    chat.route_turn("hi".to_string());
    chat.poll_chat(vec![], false, Some(Err("no".to_string())));
    assert_eq!(
        shown(&chat),
        vec![(ChatWho::Kannaka, "hello"), (ChatWho::System, "error: no")]
    );
}

#[test]
fn an_answer_that_nobody_asked_for_is_dropped() {
    let mut chat = attached();
    chat.spawn_chat_turn("hi".to_string());
    chat.poll_chat(vec![], false, Some(Ok("hello".to_string())));
    assert_eq!(chat.pending, Pending::Turn);
    assert!(shown(&chat).is_empty());
}

#[test]
fn a_streamed_answer_is_one_line() {
    let mut chat = attached();
    chat.say(ChatWho::User, "hi");
    chat.spawn_chat_turn("hi".to_string());
    chat.poll_chat(vec![reply("chunk", "he"), reply("chunk", "l")], false, None);
    assert_eq!(chat.pending, Pending::Turn);
    chat.poll_chat(vec![reply("chunk", "lo"), reply("chat", "hello!")], false, None);
    assert_eq!(chat.pending, Pending::Idle);
    assert_eq!(shown(&chat), vec![(ChatWho::User, "hi"), (ChatWho::Kannaka, "hello")]);
}

#[test]
fn a_whole_answer_is_shown_at_its_end() {
    let mut chat = attached();
    chat.say(ChatWho::User, "hi");
    chat.poll_chat(vec![reply("chat", "hello")], false, None);
    assert_eq!(shown(&chat), vec![(ChatWho::User, "hi"), (ChatWho::Kannaka, "hello")]);
}

#[test]
fn other_responses_are_messages_of_the_system() {
    let mut chat = attached();
    chat.spawn_chat_turn("hi".to_string());
    chat.poll_chat(vec![reply("error", "overloaded")], false, None);
    assert_eq!(chat.pending, Pending::Idle);
    chat.spawn_chat_turn("hi".to_string());
    chat.poll_chat(vec![reply("slash", "done")], false, None);
    assert_eq!(chat.pending, Pending::Idle);
    assert_eq!(
        shown(&chat),
        vec![(ChatWho::System, "overloaded"), (ChatWho::System, "done")]
    );
}

#[test]
fn a_closed_child_is_replaced_by_the_next_turn() {
    let mut chat = attached();
    chat.spawn_chat_turn("hi".to_string());
    let work = chat.poll_chat(
        vec![ChatEvent::closed(ChildEnd::Silent), reply("chat", "late")],
        false,
        None,
    );
    assert!(work.is_empty());
    assert!(chat.child.is_none());
    assert_eq!(chat.pending, Pending::Idle);
    assert_eq!(
        shown(&chat),
        vec![(
            ChatWho::System,
            "[chat child closed \u{2014} next turn will respawn: child stdout EOF]"
        )]
    );
    let next = chat.spawn_chat_turn("again".to_string());
    assert_eq!(next[0].task, Task::Chat);
}

#[test]
fn a_lost_stream_closes_the_child() {
    let mut chat = attached();
    chat.poll_chat(vec![ChatEvent::Ready], true, None);
    assert!(chat.child.is_none());
    assert_eq!(
        shown(&chat),
        vec![(
            ChatWho::System,
            "[chat child closed \u{2014} next turn will respawn: disconnected]"
        )]
    );
}

#[test]
fn a_plugin_runs_when_it_is_found() {
    let mut chat = Chat::new();
    let work = chat.spawn_plugin_turn(Plugin::Code, "fix it");
    assert_eq!(done(&work), vec![(Task::Plugin(Plugin::Code), vec!["fix it"])]);
    assert_eq!(chat.pending, Pending::Idle);
    chat.take_plugin_probe(Plugin::Code, true);
    assert_eq!(chat.pending, Pending::Turn);
    chat.poll_plugin(vec!["one".to_string(), "  ".to_string(), " two".to_string()], false);
    assert_eq!(chat.pending, Pending::Turn);
    chat.poll_plugin(vec!["three".to_string()], true);
    assert_eq!(chat.pending, Pending::Idle);
    chat.poll_plugin(vec!["late".to_string()], false);
    assert_eq!(
        shown(&chat),
        vec![
            (ChatWho::User, "/code fix it"),
            (ChatWho::System, "one"),
            (ChatWho::System, " two"),
            (ChatWho::System, "three")
        ]
    );
}

#[test]
fn a_missing_plugin_is_reported() {
    let mut chat = Chat::new();
    chat.spawn_plugin_turn(Plugin::Topus, "x");
    chat.take_plugin_probe(Plugin::Topus, false);
    assert_eq!(chat.pending, Pending::Idle);
    assert_eq!(
        shown(&chat),
        vec![
            (ChatWho::User, "/topus x"),
            (
                ChatWho::System,
                "[plugin 'kannaktopus' not found on PATH \u{2014} install it and try again. \
                 For kannaka-code: cargo install --git https://github.com/NickFlach/kannaka-code]"
            )
        ]
    );
}

#[test]
fn the_spinner_turns_only_while_an_answer_is_awaited() {
    let mut chat = Chat::new();
    chat.spin();
    assert_eq!(chat.tick, 0);
    chat.spawn_chat_turn("hi".to_string());
    chat.spin();
    assert_eq!(chat.tick, 1);
    chat.tick = usize::MAX;
    chat.spin();
    assert_eq!(chat.tick, 0);
}

#[test]
fn the_end_of_the_child_has_a_reason() {
    for (end, reason) in [
        (ChildEnd::NotStarted("gone".to_string()), "spawn failed: gone"),
        (ChildEnd::NoPipe, "no stdin pipe"),
        (ChildEnd::Silent, "child stdout EOF"),
    ] {
        assert!(matches!(ChatEvent::closed(end), ChatEvent::Closed(r) if r == reason));
    }
}
