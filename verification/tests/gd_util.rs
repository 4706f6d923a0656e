use godot_agent::codec::compact_text;
use godot_agent::gd_util::{
    gdscript_source, script_result, serialize_node, variant_to_json, GodotKind, GodotValue,
    SceneNode, ScriptOutcome,
};

fn node(name: &str, script: Option<&str>, children: Vec<SceneNode>) -> SceneNode {
    SceneNode {
        name: name.to_string(),
        class: "Node".to_string(),
        script: script.map(String::from),
        children,
    }
}

fn tree() -> SceneNode {
    node(
        "Root",
        Some("res://root.gd"),
        vec![
            node("A", Some(""), vec![node("B", None, vec![node("C", None, vec![])])]),
            node("D", None, vec![]),
        ],
    )
}

#[test]
fn tree_to_a_depth() {
    let show = |depth| compact_text(&serialize_node(&tree(), depth));
    assert_eq!(show(0), "{\"name\":\"Root\",\"script\":\"res://root.gd\",\"type\":\"Node\"}");
    assert_eq!(show(-3), show(0));
    assert_eq!(
        show(1),
        "{\"children\":[{\"name\":\"A\",\"type\":\"Node\"},{\"name\":\"D\",\"type\":\"Node\"}],\"name\":\"Root\",\"script\":\"res://root.gd\",\"type\":\"Node\"}"
    );
    assert_eq!(
        show(16),
        "{\"children\":[{\"children\":[{\"children\":[{\"name\":\"C\",\"type\":\"Node\"}],\"name\":\"B\",\"type\":\"Node\"}],\"name\":\"A\",\"type\":\"Node\"},{\"name\":\"D\",\"type\":\"Node\"}],\"name\":\"Root\",\"script\":\"res://root.gd\",\"type\":\"Node\"}"
    );
    assert_eq!(show(i64::MAX), show(3));
    assert_eq!(show(i64::MIN), show(0));
}

#[test]
fn deeper_nodes_do_not_show() {
    let cut = node("Root", Some("res://root.gd"), vec![node("A", None, vec![]), node("D", None, vec![])]);
    assert_eq!(
        compact_text(&serialize_node(&tree(), 1)),
        compact_text(&serialize_node(&cut, 1))
    );
}

fn value(text: &str, kind: GodotKind) -> GodotValue {
    GodotValue { text: text.to_string(), kind }
}

fn shown(value: &GodotValue) -> String {
    compact_text(&variant_to_json(value, 0))
}

#[test]
fn plain_values() {
    assert_eq!(shown(&value("<null>", GodotKind::Nil)), "null");
    assert_eq!(shown(&value("true", GodotKind::Bool(true))), "true");
    assert_eq!(shown(&value("-3", GodotKind::Int(-3))), "-3");
    assert_eq!(shown(&value("0.5", GodotKind::Float(serde_json::Number::from_f64(0.5)))), "0.5");
    assert_eq!(shown(&value("2.0", GodotKind::Float(serde_json::Number::from_f64(2.0)))), "2.0");
    assert_eq!(
        shown(&value("inf", GodotKind::Float(serde_json::Number::from_f64(f64::INFINITY)))),
        "null"
    );
    assert_eq!(shown(&value("(1, 2)", GodotKind::Text)), "\"(1, 2)\"");
    assert_eq!(
        shown(&value("", GodotKind::PackedStrings(vec!["a".to_string(), "b".to_string()]))),
        "[\"a\",\"b\"]"
    );
}

#[test]
fn dictionary_keys_may_collide() {
    let entries = vec![
        ("1".to_string(), value("a", GodotKind::Text)),
        ("k".to_string(), value("", GodotKind::Array(vec![value("0", GodotKind::Int(0))]))),
        ("1".to_string(), value("b", GodotKind::Text)),
    ];
    assert_eq!(shown(&value("", GodotKind::Dictionary(entries))), "{\"1\":\"b\",\"k\":[0]}");
}

fn nested(levels: usize) -> GodotValue {
    let mut inner = value("7", GodotKind::Int(7));
    for level in 0..levels {
        inner = value(&format!("L{}", level), GodotKind::Array(vec![inner]));
    }
    inner
}

#[test]
fn deep_values_are_text() {
    assert_eq!(shown(&nested(8)), "[[[[[[[[7]]]]]]]]");
    assert_eq!(shown(&nested(9)), "[[[[[[[[[\"7\"]]]]]]]]]");
    assert_eq!(shown(&nested(12)), "[[[[[[[[[\"L2\"]]]]]]]]]");
    assert_eq!(compact_text(&variant_to_json(&nested(1), 8)), "[\"7\"]");
    assert_eq!(compact_text(&variant_to_json(&nested(1), 9)), "\"L0\"");
    assert_eq!(compact_text(&variant_to_json(&nested(1), u32::MAX)), "\"L0\"");
}

#[test]
fn code_becomes_the_body() {
    assert_eq!(
        gdscript_source("var a = 1\r\nif a:\n\treturn a"),
        "@tool\nextends RefCounted\nfunc run():\n\tvar a = 1\n\tif a:\n\t\treturn a\n"
    );
    assert_eq!(gdscript_source(""), "@tool\nextends RefCounted\nfunc run():\n");
    assert_eq!(gdscript_source("\n"), "@tool\nextends RefCounted\nfunc run():\n\t\n");
}

#[test]
fn script_outcomes() {
    assert_eq!(
        script_result(&ScriptOutcome::NotParsed("PARSE_ERROR".to_string())).unwrap_err(),
        "GDScript parse error (PARSE_ERROR). The code runs inside `func run():` — check indentation and syntax."
    );
    assert_eq!(
        script_result(&ScriptOutcome::NotCreated("no".to_string())).unwrap_err(),
        "Failed to instantiate script: no"
    );
    assert_eq!(
        script_result(&ScriptOutcome::Failed("index out of bounds".to_string())).unwrap_err(),
        "Script runtime error: index out of bounds"
    );
    let returned = ScriptOutcome::Returned(value("4", GodotKind::Int(4)));
    assert_eq!(compact_text(&script_result(&returned).unwrap()), "4");
}
