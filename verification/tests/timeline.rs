use godot_agent::codec::parse_json;
use godot_agent::json::Scalar;
use godot_agent::timeline::{build_timeline, InputEvent, MouseButton, TimedEvent};

fn number(scalar: &Scalar) -> f64 {
    match scalar {
        Scalar::Integer(i) => *i as f64,
        Scalar::Number(n) => n.as_f64().unwrap(),
    }
}

fn show(timed: &TimedEvent) -> String {
    let waits: Vec<f64> = timed.delay.waits.iter().map(number).collect();
    let event = match &timed.event {
        InputEvent::Key { key, pressed } => format!("key {} {}", key, pressed),
        InputEvent::Char { ch, pressed } => format!("char {} {}", ch, pressed),
        InputEvent::Motion { x, y } => format!("move {} {}", number(x), number(y)),
        InputEvent::Click { x, y, button, pressed, double } => {
            let button = match button {
                MouseButton::Left => "left",
                MouseButton::Right => "right",
                MouseButton::Middle => "middle",
            };
            format!("click {} {} {} {} {}", number(x), number(y), button, pressed, double)
        }
        InputEvent::Action { action, pressed } => format!("action {} {}", action, pressed),
    };
    if waits.is_empty() {
        format!("{}: {}", timed.delay.gap_ms, event)
    } else {
        format!("{}{:?}: {}", timed.delay.gap_ms, waits, event)
    }
}

fn build(events: &str) -> Result<Vec<String>, String> {
    let args = parse_json(&format!("{{\"events\":{}}}", events)).unwrap();
    build_timeline(&args).map(|timeline| timeline.iter().map(show).collect())
}

#[test]
fn taps_are_pressed_and_released() {
    assert_eq!(
        build("[{\"type\":\"key\",\"key\":\"Enter\"},{\"type\":\"action\",\"action\":\"ui_accept\"}]").unwrap(),
        vec![
            "0: key Enter true",
            "60: key Enter false",
            "50: action ui_accept true",
            "60: action ui_accept false"
        ]
    );
}

#[test]
fn presses_may_stand_alone() {
    assert_eq!(
        build("[{\"type\":\"key\",\"key\":\"A\",\"pressed\":true},{\"type\":\"action\",\"action\":\"j\",\"pressed\":false},{\"type\":\"key\",\"key\":\"A\",\"pressed\":1}]").unwrap(),
        vec!["0: key A true", "50: action j false", "50: key A true", "60: key A false"]
    );
}

#[test]
fn text_is_typed() {
    assert_eq!(
        build("[{\"type\":\"text\",\"text\":\"hé\"},{\"type\":\"mouse_move\",\"x\":1,\"y\":2.5}]").unwrap(),
        vec![
            "0: char h true",
            "20: char h false",
            "20: char é true",
            "20: char é false",
            "20: move 1 2.5"
        ]
    );
    assert_eq!(build("[{\"type\":\"text\",\"text\":\"\"}]").unwrap(), Vec::<String>::new());
}

#[test]
fn clicks_move_first() {
    assert_eq!(
        build("[{\"type\":\"mouse_click\",\"x\":3,\"y\":4,\"button\":\"right\",\"double\":true}]").unwrap(),
        vec!["0: move 3 4", "60: click 3 4 right true true", "60: click 3 4 right false false"]
    );
    assert_eq!(
        build("[{\"type\":\"mouse_click\",\"x\":0,\"y\":0,\"button\":\"middle\"}]").unwrap()[1],
        "60: click 0 0 middle true false"
    );
    assert_eq!(
        build("[{\"type\":\"mouse_click\",\"x\":0,\"y\":0,\"button\":\"fourth\"}]").unwrap()[1],
        "60: click 0 0 left true false"
    );
    assert_eq!(
        build("[{\"type\":\"mouse_click\",\"x\":0,\"y\":0}]").unwrap()[1],
        "60: click 0 0 left true false"
    );
}

#[test]
fn waits_add_up_before_the_next_event() {
    assert_eq!(
        build("[{\"type\":\"wait\",\"ms\":500},{\"type\":\"key\",\"key\":\"A\",\"pressed\":true},{\"type\":\"wait\"},{\"type\":\"wait\",\"ms\":0.5},{\"type\":\"key\",\"key\":\"A\",\"pressed\":false},{\"type\":\"wait\",\"ms\":1}]").unwrap(),
        vec!["0[500.0]: key A true", "50[100.0, 0.5]: key A false"]
    );
    assert_eq!(build("[{\"type\":\"wait\"}]").unwrap(), Vec::<String>::new());
}

#[test]
fn bad_entries_are_named() {
    let error = |events: &str| build(events).unwrap_err();
    assert_eq!(error("[{}]"), "events[0] is missing `type`");
    assert_eq!(error("[7]"), "events[0] is missing `type`");
    assert_eq!(
        error("[{\"type\":\"wait\"},{\"type\":\"key\"}]"),
        "events[1]: key events need a `key` name"
    );
    assert_eq!(error("[{\"type\":\"text\"}]"), "events[0]: text events need `text`");
    assert_eq!(
        error("[{\"type\":\"mouse_click\",\"x\":1}]"),
        "events[0]: mouse events need numeric `x` and `y`"
    );
    assert_eq!(
        error("[{\"type\":\"mouse_move\",\"x\":\"1\",\"y\":1}]"),
        "events[0]: mouse events need numeric `x` and `y`"
    );
    assert_eq!(error("[{\"type\":\"action\"}]"), "events[0]: action events need `action`");
    assert_eq!(error("[{\"type\":\"drag\"}]"), "events[0]: unknown event type `drag`");
}

#[test]
fn first_bad_entry_counts() {
    let mut events = String::from("[");
    for _ in 0..12 {
        events.push_str("{\"type\":\"wait\"},");
    }
    events.push_str("{\"type\":\"a\"},{\"type\":\"b\"}]");
    assert_eq!(build(&events).unwrap_err(), "events[12]: unknown event type `a`");
}

#[test]
fn events_must_be_an_array() {
    for args in ["{}", "{\"events\":{}}", "[]", "null"] {
        assert_eq!(
            build_timeline(&parse_json(args).unwrap()).unwrap_err(),
            "simulate_input requires an `events` array"
        );
    }
}
