use kannaka_tui::bus::{
    agent_snapshot_from_payload, bus_subject_color, dream_event_from_payload, frame_from_json,
    read_bus_line, route_frame, summarize_payload, Frame,
};
use kannaka_tui::json::{parse, Json, Payload};
use kannaka_tui::style::Color;

fn json(text: &str) -> Json {
    parse(text).ok().unwrap()
}

fn payload(text: &str) -> Payload {
    Payload { json: json(text), compact: Some(text.to_string()) }
}

#[test]
fn a_dream_report_is_read_field_by_field() {
    let d = dream_event_from_payload(
        9,
        &json(
            "{\"agent_id\":\"a\",\"cycles\":1,\"memories_strengthened\":2,\"memories_pruned\":3,\
             \"new_connections\":4,\"hallucinations_created\":5,\"consciousness_before\":0.25,\
             \"consciousness_after\":0.5,\"emerged\":true}",
        ),
    )
    .unwrap();
    assert_eq!(d.ts_ms, 9);
    assert_eq!(d.agent_id, "a");
    assert_eq!((d.cycles, d.strengthened, d.pruned), (1, 2, 3));
    assert_eq!((d.new_connections, d.hallucinations), (4, 5));
    assert_eq!(d.consciousness_before, 0.25_f64.to_bits());
    assert_eq!(d.consciousness_after, 0.5_f64.to_bits());
    assert!(d.emerged);
}

#[test]
fn a_dream_report_may_lack_every_field_but_must_be_an_object() {
    let d = dream_event_from_payload(0, &json("{}")).unwrap();
    assert_eq!(d.agent_id, "?");
    assert_eq!((d.cycles, d.strengthened, d.pruned), (0, 0, 0));
    assert_eq!((d.new_connections, d.hallucinations), (0, 0));
    assert_eq!((d.consciousness_before, d.consciousness_after), (0, 0));
    assert!(!d.emerged);
    assert!(dream_event_from_payload(0, &json("[]")).is_none());
    assert!(dream_event_from_payload(0, &json("\"x\"")).is_none());
    assert!(dream_event_from_payload(0, &json("null")).is_none());
}

#[test]
fn an_agent_report_is_read_field_by_field() {
    let a = agent_snapshot_from_payload(
        "QUEEN.phase.b",
        &json(
            "{\"agent_id\":\"a\",\"theta\":1.5,\"phase\":2.5,\"phi\":0.5,\"coherence\":0.25,\
             \"order_parameter\":0.75,\"handedness\":\"left\",\"memory_count\":7}",
        ),
        42,
    )
    .unwrap();
    assert_eq!(a.agent_id, "a");
    assert_eq!(a.theta, 1.5_f64.to_bits());
    assert_eq!(a.phi, 0.5_f64.to_bits());
    assert_eq!(a.coherence, 0.25_f64.to_bits());
    assert_eq!(a.order_parameter, 0.75_f64.to_bits());
    assert_eq!(a.handedness, "left");
    assert_eq!(a.memory_count, 7);
    assert_eq!(a.last_seen, 42);
}

#[test]
fn an_agent_report_may_lack_every_field_but_the_agent() {
    let a = agent_snapshot_from_payload(
        "QUEEN.phase.b",
        &json("{\"agent_id\":\"a\",\"phase\":2.5}"),
        1,
    )
    .unwrap();
    assert_eq!(a.agent_id, "a");
    assert_eq!(a.theta, 2.5_f64.to_bits());
    assert_eq!((a.phi, a.coherence, a.order_parameter), (0, 0, 0));
    assert_eq!(a.handedness, "achiral");
    assert_eq!(a.memory_count, 0);
    // A theta that is no number hides the phase.
    let b = agent_snapshot_from_payload(
        "QUEEN.phase.b",
        &json("{\"agent_id\":\"a\",\"theta\":\"x\",\"phase\":2.5}"),
        1,
    )
    .unwrap();
    assert_eq!(b.theta, 0);
    assert!(agent_snapshot_from_payload("QUEEN.phase.b", &json("{\"theta\":1.0}"), 1).is_none());
    assert!(agent_snapshot_from_payload("QUEEN.phase.b", &json("{\"agent_id\":7}"), 1).is_none());
    assert!(agent_snapshot_from_payload("OTHER.b", &json("{}"), 1).is_none());
    assert!(agent_snapshot_from_payload("QUEEN.phase.b", &json("[1]"), 1).is_none());
    assert!(agent_snapshot_from_payload("OTHER.b", &json("{\"agent_id\":\"a\"}"), 1).is_some());
}

#[test]
fn summaries_prefer_what_they_know_by_name() {
    assert_eq!(
        summarize_payload(
            "s",
            &payload(
                "{\"event\":\"e\",\"content\":\"hello\",\"consciousness_level\":\"Coherent\",\
                 \"xi\":0.5,\"phi\":0.25,\"theta\":1,\"agent_id\":\"a\",\"other\":1}"
            )
        ),
        "agent=a \u{b7} \u{3b8}=1.000 \u{b7} \u{3a6}=0.250 \u{b7} \u{39e}=0.500 \u{b7} \
         level=Coherent \u{b7} \"hello\" \u{b7} event=e"
    );
    assert_eq!(summarize_payload("s", &payload("{\"phi\":0.1235}")), "\u{3a6}=0.123");
}

#[test]
fn a_long_content_is_shortened_within_its_quotation_marks() {
    let long = "x".repeat(61);
    let text = format!("{{\"content\":\"{}\"}}", long);
    assert_eq!(
        summarize_payload("s", &payload(&text)),
        format!("\"{}\u{2026}\"", "x".repeat(59))
    );
}

#[test]
fn other_payloads_are_shown_by_their_beginning() {
    assert_eq!(summarize_payload("s", &payload("{\"a\":1}")), "{\"a\":1}");
    assert_eq!(summarize_payload("s", &payload("[1,2]")), "[1,2]");
    assert_eq!(summarize_payload("s", &payload("null")), "null");
    assert_eq!(summarize_payload("s", &payload("\"hi\"")), "hi");
    let long = format!("\"{}\"", "y".repeat(200));
    assert_eq!(
        summarize_payload("s", &payload(&long)),
        format!("{}\u{2026}", "y".repeat(119))
    );
    let bare = Payload { json: Json::Object(vec![]), compact: None };
    assert_eq!(summarize_payload("s", &bare), "");
    let null = Payload { json: Json::Null, compact: None };
    assert_eq!(summarize_payload("s", &null), "<unprintable s>");
}

#[test]
fn subjects_have_their_colours() {
    for (subject, color) in [
        ("QUEEN.phase.a", Color::Dim),
        ("QUEEN.order", Color::Rgb(180, 140, 255)),
        ("KANNAKA.consciousness", Color::Accent),
        ("KANNAKA.memory.new", Color::Success),
        ("KANNAKA.substrate.phi", Color::Info),
        ("KANNAKA.dreams", Color::Warning),
        ("KANNAKA.dreams.x", Color::Accent),
        ("KANNAKA.", Color::Accent),
        ("RADIO.track", Color::Rgb(255, 100, 200)),
        ("KAX.trade", Color::Rgb(100, 200, 255)),
        ("EYE.open", Color::Rgb(255, 200, 100)),
        ("tui.error", Color::Error),
        ("tui.errors", Color::Text),
        ("?", Color::Text),
        ("", Color::Text),
    ] {
        assert_eq!(bus_subject_color(subject), color, "{}", subject);
    }
}

#[test]
fn frames_go_where_their_subjects_say() {
    let frame = |subject: &str, text: &str| Frame {
        ts_ms: 5,
        subject: subject.to_string(),
        payload: payload(text),
    };
    let phase = route_frame(frame("QUEEN.phase.a", "{\"agent_id\":\"a\",\"phi\":1}"), 3);
    assert_eq!(phase.agent.unwrap().agent_id, "a");
    assert!(phase.dream.is_none());
    assert_eq!(phase.line.summary, "agent=a \u{b7} \u{3a6}=1.000");
    let nameless = route_frame(frame("QUEEN.phase.a", "{\"phi\":1}"), 3);
    assert!(nameless.agent.is_none());
    assert_eq!(nameless.line.summary, "\u{3a6}=1.000");
    let dream = route_frame(frame("KANNAKA.dreams", "{\"agent_id\":\"b\"}"), 3);
    assert!(dream.agent.is_none());
    assert_eq!(dream.dream.unwrap().agent_id, "b");
    let other = route_frame(frame("KANNAKA.dreams.old", "{\"agent_id\":\"b\"}"), 3);
    assert!(other.agent.is_none() && other.dream.is_none());
    assert_eq!(other.line.ts_ms, 5);
    assert_eq!(other.line.subject, "KANNAKA.dreams.old");
    assert_eq!(other.line.summary, "agent=b");
}

#[test]
fn a_frame_is_read_out_of_a_document() {
    let f = frame_from_json(&json("{\"ts\":8,\"subject\":\"x\"}"), payload("1"));
    assert_eq!((f.ts_ms, f.subject.as_str()), (8, "x"));
    let g = frame_from_json(&json("[]"), payload("1"));
    assert_eq!((g.ts_ms, g.subject.as_str()), (0, "?"));
}

#[test]
fn a_line_of_the_stream_becomes_an_update() {
    let u = read_bus_line(
        "  {\"ts\":1700000000000,\"subject\":\"QUEEN.phase.z\",\"payload\":{\"agent_id\":\"z\",\"theta\":0.5}} \n",
        77,
    )
    .unwrap();
    assert_eq!(u.line.ts_ms, 1_700_000_000_000);
    assert_eq!(u.line.subject, "QUEEN.phase.z");
    assert_eq!(u.line.summary, "agent=z \u{b7} \u{3b8}=0.500");
    let a = u.agent.unwrap();
    assert_eq!((a.agent_id.as_str(), a.last_seen), ("z", 77));
    let bare = read_bus_line("{}", 0).unwrap();
    assert_eq!(bare.line.subject, "?");
    assert_eq!(bare.line.summary, "null");
}

#[test]
fn blank_and_broken_lines_bring_nothing() {
    assert!(read_bus_line("", 0).is_none());
    assert!(read_bus_line("   ", 0).is_none());
    assert!(read_bus_line("{", 0).is_none());
}

#[test]
fn a_summary_is_one_line() {
    for (text, expected) in [
        ("\"a\\nb\"", "a \u{b7} b"),
        ("{\"agent_id\":\"a\\nb\"}", "agent=a \u{b7} b"),
        ("{\"consciousness_level\":\"\\n\"}", "level= \u{b7} "),
        ("{\"content\":\"a\\nb\"}", "\"a \u{b7} b\""),
        ("{\"event\":\"a\\nb\"}", "event=a \u{b7} b"),
        ("{\"other\":\"a\\nb\"}", "{\"other\":\"a\\nb\"}"),
    ] {
        assert_eq!(summarize_payload("s", &payload(text)), expected);
    }
    let long = format!("\"{}\\n{}\"", "x".repeat(118), "y".repeat(9));
    assert_eq!(
        summarize_payload("s", &payload(&long)),
        format!("{} \u{2026}", "x".repeat(118))
    );
    let null = Payload { json: Json::Null, compact: None };
    assert_eq!(summarize_payload("s\nt", &null), "<unprintable s \u{b7} t>");
}
