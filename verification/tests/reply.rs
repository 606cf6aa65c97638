use kannaka_tui::json::parse;
use kannaka_tui::reply::{
    announces_ready, ask_reply, chat_reply_from_json, dream_reply, observe_from_json,
    observe_reply, read_chat_line, status_from_json, status_reply, Outcome,
};

fn success(text: &str) -> Outcome {
    Outcome::Success(text.to_string())
}

fn failure(code: Option<i32>, stderr: &str) -> Outcome {
    Outcome::Failure { code, stderr: stderr.to_string() }
}

fn not_run(e: &str) -> Outcome {
    Outcome::NotRun(e.to_string())
}

const FLAT: &str = "{\"phi\":0.5,\"xi\":0.25,\"mean_order\":0.75,\"total_memories\":10,\
                    \"num_clusters\":3,\"consciousness_level\":\"Coherent\",\"active_memories\":4}";

#[test]
fn a_status_is_read_flat_or_in_an_envelope() {
    let flat = status_from_json(&parse(FLAT).ok().unwrap());
    let wrapped = format!("{{\"schema_version\":1,\"data\":{}}}", FLAT);
    let enveloped = status_from_json(&parse(&wrapped).ok().unwrap());
    for s in [flat, enveloped] {
        assert_eq!(s.phi, 0.5_f64.to_bits());
        assert_eq!(s.xi, 0.25_f64.to_bits());
        assert_eq!(s.order, 0.75_f64.to_bits());
        assert_eq!((s.memories, s.clusters, s.active, s.links), (10, 3, 4, 0));
        assert_eq!(s.level, "Coherent");
    }
}

#[test]
fn an_envelope_needs_both_its_marks() {
    let data_only = format!("{{\"data\":{},\"phi\":1.0}}", FLAT);
    let s = status_from_json(&parse(&data_only).ok().unwrap());
    assert_eq!(s.phi, 1.0_f64.to_bits());
    assert_eq!(s.level, "Unknown");
    let version_only = status_from_json(&parse("{\"schema_version\":1}").ok().unwrap());
    assert_eq!((version_only.phi, version_only.memories), (0, 0));
}

#[test]
fn a_status_run_answers() {
    assert_eq!(status_reply(success(FLAT), "k").ok().unwrap().clusters, 3);
    let broken = serde_json::from_str::<serde_json::Value>("{").unwrap_err().to_string();
    assert_eq!(
        status_reply(success("{"), "k").err().unwrap(),
        format!("status parse: {}", broken)
    );
    assert_eq!(
        status_reply(failure(Some(1), " bad \n"), "k").err().unwrap(),
        "status failed: bad"
    );
    assert_eq!(
        status_reply(not_run("gone"), "/bin/k").err().unwrap(),
        "status spawn failed at '/bin/k': gone"
    );
}

#[test]
fn an_observation_is_read() {
    let (links, memories) = observe_from_json(
        &parse(
            "{\"topology\":{\"total_links\":12},\"waves\":{\"strongest\":[\
             {\"content_preview\":\"a\",\"amplitude\":0.5},{},7]}}",
        )
        .ok()
        .unwrap(),
    );
    assert_eq!(links, 12);
    assert_eq!(memories.len(), 3);
    assert_eq!(memories[0].content, "a");
    assert_eq!(memories[0].amplitude, 0.5_f64.to_bits());
    assert_eq!((memories[1].content.as_str(), memories[1].amplitude), ("", 0));
    assert_eq!((memories[2].content.as_str(), memories[2].amplitude), ("", 0));
    for text in ["{}", "[]", "{\"waves\":{\"strongest\":{}}}", "{\"waves\":1}"] {
        let (none, empty) = observe_from_json(&parse(text).ok().unwrap());
        assert_eq!((none, empty.len()), (0, 0));
    }
}

#[test]
fn an_observation_run_answers() {
    let (links, memories) =
        observe_reply(success("{\"topology\":{\"total_links\":2}}")).ok().unwrap();
    assert_eq!((links, memories.len()), (2, 0));
    let broken = serde_json::from_str::<serde_json::Value>("x").unwrap_err().to_string();
    assert_eq!(observe_reply(success("x")).err().unwrap(), format!("observe parse: {}", broken));
    assert_eq!(observe_reply(failure(None, "why")).err().unwrap(), "observe failed");
    assert_eq!(observe_reply(not_run("gone")).err().unwrap(), "observe spawn failed: gone");
}

#[test]
fn a_dream_run_answers() {
    assert_eq!(dream_reply(success(" 3 cycles \n")), Ok("3 cycles".to_string()));
    assert_eq!(dream_reply(failure(Some(2), " no \n")), Err("no".to_string()));
    assert_eq!(dream_reply(not_run("gone")), Err("spawn failed: gone".to_string()));
}

#[test]
fn a_one_shot_question_answers() {
    assert_eq!(ask_reply(success(" yes\n")), Ok("yes".to_string()));
    assert_eq!(ask_reply(failure(Some(2), " no ")), Err("agent exited 2: no".to_string()));
    assert_eq!(ask_reply(failure(None, "")), Err("agent exited -1: ".to_string()));
    assert_eq!(ask_reply(not_run("gone")), Err("spawn failed: gone".to_string()));
}

#[test]
fn lines_of_the_chat_child_are_read() {
    let r = read_chat_line("{\"kind\":\"chunk\",\"text\":\"he\"}").unwrap();
    assert_eq!((r.kind.as_str(), r.text.as_str()), ("chunk", "he"));
    let bare = chat_reply_from_json(&parse("{\"kind\":3}").ok().unwrap());
    assert_eq!((bare.kind.as_str(), bare.text.as_str()), ("chat", ""));
    assert!(read_chat_line("loading").is_none());
    assert!(read_chat_line("").is_none());
}

#[test]
fn the_chat_child_says_when_it_is_ready() {
    assert!(announces_ready("{\"kind\":\"ready\"}"));
    assert!(!announces_ready("almost ready"));
}
