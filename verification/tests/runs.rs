use kannaka_tui::app::App;
use kannaka_tui::effect::Task;
use kannaka_tui::json::{Json, JsonNumber};
use kannaka_tui::model::Role;
use kannaka_tui::reply::Outcome;
use kannaka_tui::runs::{next_wait, plugin_failure_line, PassEnd, Probe, Wait};

fn fresh() -> App {
    App::new("nova".to_string(), "kannaka".to_string(), 60_000_000_000)
}

fn log(app: &App) -> Vec<(Role, &str)> {
    app.messages.iter().skip(1).map(|m| (m.role, m.content.as_str())).collect()
}

fn success(text: &str) -> Outcome {
    Outcome::Success(text.to_string())
}

fn failure(stderr: &str) -> Outcome {
    Outcome::Failure { code: Some(1), stderr: stderr.to_string() }
}

fn not_run(e: &str) -> Outcome {
    Outcome::NotRun(e.to_string())
}

#[test]
fn a_stored_memory_is_told_and_observed() {
    let mut app = fresh();
    let work = app.finish_remember(success(" abc\n"));
    assert_eq!(work.len(), 1);
    assert_eq!(work[0].task, Task::Observe);
    assert!(app.finish_remember(failure(" full \n")).is_empty());
    assert!(app.finish_remember(not_run("gone")).is_empty());
    assert_eq!(
        log(&app),
        vec![
            (Role::Result, "Stored (id: abc)"),
            (Role::Error, "Error: full"),
            (Role::Error, "Failed to run kannaka: gone")
        ]
    );
}

#[test]
fn a_search_lists_what_it_found() {
    let mut app = fresh();
    let long = "x".repeat(70);
    let text = format!(
        "[{{\"content\":\"a\",\"similarity\":0.875}},{{\"content\":\"{}\",\"similarity\":\"?\"}},3]",
        long
    );
    app.finish_recall(success(&text), "12");
    let cut = format!("  2. {} (0.00)", "x".repeat(60));
    assert_eq!(
        log(&app),
        vec![
            (Role::System, "3 results (12ms):"),
            (Role::Result, "  1. a (0.88)"),
            (Role::Result, cut.as_str()),
            (Role::Result, "  3. ? (0.00)")
        ]
    );
}

#[test]
fn items_at_hand_are_listed() {
    let mut app = fresh();
    let similarity = JsonNumber {
        unsigned: None,
        signed: None,
        double: 0.25_f64.to_bits(),
        fixed2: "0.25".to_string(),
        fixed3: "0.250".to_string(),
    };
    let item = Json::Object(vec![
        ("content".to_string(), Json::Text("m".to_string())),
        ("similarity".to_string(), Json::Number(similarity)),
    ]);
    app.tell_found(&vec![item], "0");
    assert_eq!(
        log(&app),
        vec![(Role::System, "1 results (0ms):"), (Role::Result, "  1. m (0.25)")]
    );
}

#[test]
fn a_search_without_a_list_is_shown_as_it_is() {
    let mut app = fresh();
    app.finish_recall(success(" nothing found\n"), "1");
    app.finish_recall(success("{\"a\":1}\n"), "1");
    app.finish_recall(success("[]"), "1");
    app.finish_recall(failure("bad"), "1");
    app.finish_recall(not_run("gone"), "1");
    assert_eq!(
        log(&app),
        vec![
            (Role::Result, "nothing found"),
            (Role::Result, "{\"a\":1}"),
            (Role::System, "0 results (1ms):"),
            (Role::Error, "Error: bad"),
            (Role::Error, "Failed: gone")
        ]
    );
}

#[test]
fn a_deleted_memory_is_told_and_observed() {
    let mut app = fresh();
    assert_eq!(app.finish_forget(success("Forgotten.\n")).len(), 1);
    assert!(app.finish_forget(success("again")).is_empty());
    assert!(app.finish_forget(failure("bad")).is_empty());
    assert!(app.finish_forget(not_run("gone")).is_empty());
    assert_eq!(
        log(&app),
        vec![
            (Role::Result, "Forgotten."),
            (Role::Result, "again"),
            (Role::Error, "Error: bad"),
            (Role::Error, "Failed: gone")
        ]
    );
}

#[test]
fn the_result_takes_the_place_of_the_notice() {
    for (end, role, text) in [
        (PassEnd::Success(" ok \n".to_string()), Role::Result, "ok"),
        (PassEnd::Success(" \n".to_string()), Role::Result, "(no output)"),
        (PassEnd::Failure(" bad\n".to_string()), Role::Error, "Error: bad"),
        (PassEnd::NotStarted("gone".to_string()), Role::Error, "spawn: gone"),
        (PassEnd::NotWaited("lost".to_string()), Role::Error, "wait: lost"),
        (PassEnd::NotCollected("pipe".to_string()), Role::Error, "pipe"),
        (PassEnd::TimedOut(30), Role::Error, "timeout after 30s"),
        (PassEnd::Panicked, Role::Error, "thread panicked"),
    ] {
        let mut app = fresh();
        app.execute_passthrough("stats", vec!["stats".to_string()], 30);
        assert_eq!(log(&app)[1], (Role::System, "Running... (up to 30s)"));
        let work = app.finish_passthrough(end);
        assert_eq!(work.len(), if role == Role::Result { 1 } else { 0 });
        assert_eq!(log(&app), vec![(Role::User, "stats"), (role, text)]);
    }
}

#[test]
fn only_a_notice_is_taken_back() {
    let mut app = fresh();
    app.tell(Role::User, "x");
    app.finish_passthrough(PassEnd::Panicked);
    assert_eq!(log(&app), vec![(Role::User, "x"), (Role::Error, "thread panicked")]);
}

#[test]
fn waiting_goes_on_until_the_limit_has_passed() {
    assert!(matches!(next_wait(Probe::Exited, u64::MAX, 0), Wait::Collect));
    assert!(matches!(next_wait(Probe::Running, 30_000_000_000, 30), Wait::Sleep(150)));
    assert!(matches!(
        next_wait(Probe::Running, 30_000_000_001, 30),
        Wait::Kill(PassEnd::TimedOut(30))
    ));
    assert!(matches!(next_wait(Probe::Running, u64::MAX, u64::MAX), Wait::Sleep(150)));
    assert!(matches!(
        next_wait(Probe::Broken("e".to_string()), 0, 30),
        Wait::Leave(PassEnd::NotWaited(e)) if e == "e"
    ));
}

#[test]
fn a_plugin_that_does_not_start_says_so() {
    assert_eq!(plugin_failure_line("gone"), "[plugin spawn failed: gone]");
}
