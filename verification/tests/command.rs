use kannaka_tui::command::{parse_command, strip_slash, Command};

fn pass(line: &str) -> (String, Vec<String>, u64) {
    match parse_command(line) {
        Command::Passthrough { label, args, timeout_secs } => (label, args, timeout_secs),
        _ => panic!("{} is no passthrough", line),
    }
}

fn words(line: &str) -> Vec<String> {
    line.split(' ').map(str::to_string).collect()
}

#[test]
fn memories_are_named_without_quotation_marks() {
    assert!(matches!(parse_command("remember  \"a b\" "), Command::Remember(t) if t == "a b"));
    assert!(matches!(parse_command("remember x"), Command::Remember(t) if t == "x"));
    assert!(matches!(parse_command("recall \"\"q\"\""), Command::Recall(t) if t == "q"));
    assert!(matches!(parse_command("recall \" q \""), Command::Recall(t) if t == " q "));
    assert!(matches!(parse_command("forget \"id\" "), Command::Forget(t) if t == "\"id\""));
}

#[test]
fn a_verb_needs_its_blank() {
    assert!(matches!(parse_command("remember"), Command::Chat));
    assert!(matches!(parse_command("recall"), Command::Chat));
    assert!(matches!(parse_command("Recall x"), Command::Chat));
    assert!(matches!(parse_command("dreams"), Command::Chat));
    assert!(matches!(parse_command("hearing"), Command::Chat));
    assert!(matches!(parse_command("swarming"), Command::Chat));
    assert!(matches!(parse_command("invariants"), Command::Chat));
}

#[test]
fn dreams_and_readings_are_asked_for() {
    for (line, expected) in [
        ("dream", "deep"),
        ("dream lite", "lite"),
        ("dream   lite", "lite"),
        ("dream deep", "deep"),
        ("dream light", "deep"),
        ("dream lite please", "deep"),
        ("dream ", "deep"),
    ] {
        assert!(matches!(parse_command(line), Command::Dream(mode) if mode == expected));
    }
    assert!(matches!(parse_command("status"), Command::Refresh));
    assert!(matches!(parse_command("observe"), Command::Refresh));
    assert!(matches!(parse_command("status now"), Command::Chat));
}

#[test]
fn hear_needs_something_to_hear() {
    assert!(matches!(parse_command("hear"), Command::HearUsage));
    assert!(matches!(parse_command("hear   "), Command::HearUsage));
    assert_eq!(
        pass("hear  a.mp3  --secs 5"),
        ("hear a.mp3  --secs 5".to_string(), words("hear a.mp3 --secs 5"), 300)
    );
}

#[test]
fn questions_are_passed_on() {
    assert_eq!(
        pass("ask \"why me\""),
        (
            "ask \"why me\"".to_string(),
            vec![
                "ask".to_string(),
                "--no-tools".to_string(),
                "--quiet-tools".to_string(),
                "why me".to_string()
            ],
            600
        )
    );
    assert_eq!(
        pass("search \"a b\""),
        ("search \"a b\"".to_string(), vec!["search".to_string(), "a b".to_string()], 30)
    );
    assert_eq!(
        pass("boost  \"7\" "),
        ("boost \"7\"".to_string(), vec!["boost".to_string(), "\"7\"".to_string()], 30)
    );
}

#[test]
fn subcommands_are_passed_on_with_their_time() {
    for (line, secs) in [("assess", 60), ("stats", 30), ("cmf", 60), ("swarm", 60)] {
        assert_eq!(pass(line), (line.to_string(), vec![line.to_string()], secs));
    }
    assert_eq!(pass("invariant"), ("invariant".to_string(), words("invariant"), 60));
    assert_eq!(
        pass("invariant  check all"),
        ("invariant  check all".to_string(), words("invariant check all"), 60)
    );
    assert_eq!(
        pass("voice --mode dream-journal"),
        ("voice --mode dream-journal".to_string(), words("voice --mode dream-journal"), 300)
    );
    assert_eq!(pass("voices"), ("voices".to_string(), words("voices"), 300));
    assert_eq!(
        pass("swarm join hive"),
        ("swarm join hive".to_string(), words("swarm join hive"), 60)
    );
}

#[test]
fn help_and_quit_have_several_names() {
    for line in ["help", "?"] {
        assert!(matches!(parse_command(line), Command::Help));
    }
    for line in ["quit", "exit", "q"] {
        assert!(matches!(parse_command(line), Command::Quit));
    }
    assert!(matches!(parse_command("how are you"), Command::Chat));
    assert!(matches!(parse_command(""), Command::Chat));
}

#[test]
fn one_slash_before_a_command_is_dropped() {
    assert_eq!(strip_slash("/recall x"), "recall x");
    assert_eq!(strip_slash("recall x"), "recall x");
    assert_eq!(strip_slash("//recall x"), "/recall x");
    assert_eq!(strip_slash("/"), "");
}
