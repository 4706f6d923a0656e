//! Laws of scene trees, script values and scripts.

use vstd::prelude::*;

use crate::gd_util::{
    GodotKind, GodotValue, KindView, NodeView, SceneNode, ScriptOutcome, ValueView,
};
use crate::json::JsonView;
use crate::{gd_util, json, text};

verus! {

proof fn lemma_node_keys()
    ensures
        "name"@ != "type"@,
        "name"@ != "script"@,
        "name"@ != "children"@,
        "type"@ != "script"@,
        "type"@ != "children"@,
        "script"@ != "children"@,
{
    reveal_strlit("name");
    reveal_strlit("type");
    reveal_strlit("script");
    reveal_strlit("children");
    assert("name"@.len() == 4 && "name"@[0] == 'n');
    assert("type"@.len() == 4 && "type"@[0] == 't');
    assert("script"@.len() == 6);
    assert("children"@.len() == 8);
}

/// Whether a JSON value tells the name, the type and the script of a node: the
/// script only where its path is not empty.
pub open spec fn tells_node(json: JsonView, node: NodeView) -> bool {
    &&& json is Object
    &&& json->Object_0.dom().subset_of(set!["name"@, "type"@, "script"@, "children"@])
    &&& json.field("name"@) == Some(JsonView::Text(node.name))
    &&& json.field("type"@) == Some(JsonView::Text(node.class))
    &&& node.script is Some && node.script->0.len() > 0 ==> json.field("script"@) == Some(
        JsonView::Text(node.script->0),
    )
    &&& node.script is None || node.script->0.len() == 0 ==> json.field("script"@) is None
}

/// A node is told by its name, type and script. Where the depth is positive and
/// it has children, there is an item for each of them, in order, that tells the
/// child in the same way to one level less; else there are no children.
pub proof fn law_node(node: NodeView, depth: int, i: int)
    ensures
        tells_node(gd_util::node_json(node, depth), node),
        depth > 0 && node.children.len() > 0 ==> {
            &&& gd_util::node_json(node, depth).field("children"@) is Some
            &&& gd_util::node_json(node, depth).field("children"@)->0 is Array
            &&& gd_util::node_json(node, depth).field("children"@)->0->Array_0.len() == node.children.len()
            &&& 0 <= i < node.children.len() ==> {
                let item = gd_util::node_json(node, depth).field("children"@)->0->Array_0[i];
                &&& tells_node(item, node.children[i])
                &&& item == gd_util::node_json(node.children[i], depth - 1)
            }
        },
        depth <= 0 || node.children.len() == 0 ==> gd_util::node_json(node, depth).field("children"@) is None,
{
    lemma_node_keys();
    lemma_tells_node(node, depth);
    if depth > 0 && node.children.len() > 0 {
        lemma_nodes_json(node.children, depth - 1);
        if 0 <= i < node.children.len() {
            lemma_tells_node(node.children[i], depth - 1);
        }
    }
}

proof fn lemma_tells_node(node: NodeView, depth: int)
    ensures
        tells_node(gd_util::node_json(node, depth), node),
{
    lemma_node_keys();
}

proof fn lemma_nodes_json(nodes: Seq<NodeView>, depth: int)
    ensures
        gd_util::nodes_json(nodes, depth).len() == nodes.len(),
        forall|i: int|
            0 <= i < nodes.len() ==> #[trigger] gd_util::nodes_json(nodes, depth)[i] == gd_util::node_json(
                nodes[i],
                depth,
            ),
    decreases nodes.len(),
{
    if nodes.len() > 0 {
        lemma_nodes_json(nodes.drop_last(), depth);
    }
}

/// The view of a node tells everything of it.
pub proof fn law_node_is_what_it_holds(node: SceneNode, i: int)
    ensures
        node@.name == node.name@,
        node@.class == node.class@,
        node.script is Some ==> node@.script == Some(node.script->0@),
        node.script is None ==> node@.script is None,
        node@.children.len() == node.children@.len(),
        0 <= i < node.children@.len() ==> node@.children[i] == node.children@[i]@,
{
    gd_util::lemma_node_views(node.children@);
}

/// A value within the nesting limit keeps what it is: nothing, a truth value,
/// a number or a text is the JSON of the same, a number that JSON lacks is
/// nothing.
pub proof fn law_plain_value(value: ValueView, depth: nat)
    requires
        depth <= 8,
    ensures
        value.kind is Nil ==> gd_util::variant_json(value, depth) == JsonView::Null,
        value.kind matches KindView::Bool(b) ==> gd_util::variant_json(value, depth) == JsonView::Bool(b),
        value.kind matches KindView::Int(i) ==> gd_util::variant_json(value, depth) == JsonView::Integer(i),
        value.kind matches KindView::Float(Some(n)) ==> gd_util::variant_json(value, depth)
            == json::number_view(n),
        value.kind matches KindView::Float(None) ==> gd_util::variant_json(value, depth) == JsonView::Null,
        value.kind is Text ==> gd_util::variant_json(value, depth) == JsonView::Text(value.text),
{
}

/// The JSON of a plain value determines the value.
pub proof fn law_plain_values_are_told_apart(a: ValueView, b: ValueView, depth: nat)
    requires
        depth <= 8,
        a.kind is Nil || a.kind is Bool || a.kind is Int,
        b.kind is Nil || b.kind is Bool || b.kind is Int,
    ensures
        gd_util::variant_json(a, depth) == gd_util::variant_json(b, depth) <==> a.kind == b.kind,
{
}

/// A value nested deeper than the limit is its text.
pub proof fn law_deep_value(value: ValueView, depth: nat)
    requires
        depth > 8,
    ensures
        gd_util::variant_json(value, depth) == JsonView::Text(value.text),
{
}

/// An array becomes an array with the JSON of each item, in order, one level
/// deeper; a list of strings becomes an array of their texts.
pub proof fn law_array_value(value: ValueView, depth: nat, i: int)
    requires
        depth <= 8,
    ensures
        value.kind matches KindView::Array(items) ==> {
            let json = gd_util::variant_json(value, depth);
            &&& json is Array
            &&& json->Array_0.len() == items.len()
            &&& 0 <= i < items.len() ==> json->Array_0[i] == gd_util::variant_json(items[i], depth + 1)
        },
        value.kind matches KindView::PackedStrings(items) ==> {
            let json = gd_util::variant_json(value, depth);
            &&& json is Array
            &&& json->Array_0.len() == items.len()
            &&& 0 <= i < items.len() ==> json->Array_0[i] == JsonView::Text(items[i])
        },
{
    match value.kind {
        KindView::Array(items) => lemma_variants_json(items, depth + 1),
        _ => {},
    }
}

proof fn lemma_variants_json(items: Seq<ValueView>, depth: nat)
    ensures
        gd_util::variants_json(items, depth).len() == items.len(),
        forall|i: int|
            0 <= i < items.len() ==> #[trigger] gd_util::variants_json(items, depth)[i] == gd_util::variant_json(
                items[i],
                depth,
            ),
    decreases items.len(),
{
    if items.len() > 0 {
        lemma_variants_json(items.drop_last(), depth);
    }
}

/// A dictionary becomes an object that has a field for the key of each entry
/// and no others. A field is the JSON, one level deeper, of the last entry under
/// its key.
pub proof fn law_dictionary_value(
    value: ValueView,
    entries: Seq<(Seq<char>, ValueView)>,
    depth: nat,
    key: Seq<char>,
    i: int,
)
    requires
        depth <= 8,
        value.kind == KindView::Dictionary(entries),
    ensures
        gd_util::variant_json(value, depth) is Object,
        gd_util::variant_json(value, depth)->Object_0.dom().contains(key) <==> exists|k: int|
            0 <= k < entries.len() && (#[trigger] entries[k]).0 == key,
        0 <= i < entries.len() && entries[i].0 == key && (forall|k: int|
            i < k < entries.len() ==> (#[trigger] entries[k]).0 != key) ==> gd_util::variant_json(
            value,
            depth,
        )->Object_0[key] == gd_util::variant_json(entries[i].1, depth + 1),
{
    lemma_dictionary(entries, depth + 1, key, i);
}

proof fn lemma_dictionary(
    entries: Seq<(Seq<char>, ValueView)>,
    depth: nat,
    key: Seq<char>,
    i: int,
)
    ensures
        gd_util::dictionary_json(entries, depth).dom().contains(key) <==> exists|k: int|
            0 <= k < entries.len() && (#[trigger] entries[k]).0 == key,
        0 <= i < entries.len() && entries[i].0 == key && (forall|k: int|
            i < k < entries.len() ==> (#[trigger] entries[k]).0 != key) ==> gd_util::dictionary_json(
            entries,
            depth,
        )[key] == gd_util::variant_json(entries[i].1, depth),
    decreases entries.len(),
{
    if entries.len() > 0 {
        let shorter = entries.drop_last();
        let last = entries.len() - 1;
        lemma_dictionary(shorter, depth, key, i);
        assert(entries[last] == entries.last());
        assert(forall|k: int| 0 <= k < last ==> shorter[k] == entries[k]);
        if gd_util::dictionary_json(shorter, depth).dom().contains(key) {
            let k = choose|k: int| 0 <= k < shorter.len() && (#[trigger] shorter[k]).0 == key;
            assert(entries[k].0 == key);
        }
        if exists|k: int| 0 <= k < entries.len() && (#[trigger] entries[k]).0 == key {
            let k = choose|k: int| 0 <= k < entries.len() && (#[trigger] entries[k]).0 == key;
            if k < last {
                assert(shorter[k].0 == key);
            }
        }
    }
}

/// The view of a value tells everything of it.
pub proof fn law_value_is_what_it_holds(value: GodotValue, i: int)
    ensures
        value@.text == value.text@,
        match value.kind {
            GodotKind::Nil => value@.kind == KindView::Nil,
            GodotKind::Bool(b) => value@.kind == KindView::Bool(b),
            GodotKind::Int(n) => value@.kind == KindView::Int(n),
            GodotKind::Float(n) => value@.kind == KindView::Float(n),
            GodotKind::Array(items) => {
                &&& value@.kind is Array
                &&& value@.kind->Array_0.len() == items@.len()
                &&& 0 <= i < items@.len() ==> value@.kind->Array_0[i] == items@[i]@
            },
            GodotKind::Dictionary(entries) => {
                &&& value@.kind is Dictionary
                &&& value@.kind->Dictionary_0.len() == entries@.len()
                &&& 0 <= i < entries@.len() ==> value@.kind->Dictionary_0[i] == (
                    entries@[i].0@,
                    entries@[i].1@,
                )
            },
            GodotKind::PackedStrings(items) => {
                &&& value@.kind is PackedStrings
                &&& value@.kind->PackedStrings_0.len() == items@.len()
                &&& 0 <= i < items@.len() ==> value@.kind->PackedStrings_0[i] == items@[i]@
            },
            GodotKind::Text => value@.kind == KindView::Text,
        },
{
    match value.kind {
        GodotKind::Array(items) => gd_util::lemma_godot_views(items@),
        GodotKind::Dictionary(entries) => gd_util::lemma_godot_entries(entries@),
        _ => {},
    }
}

/// What every script begins with.
pub open spec fn script_start() -> Seq<char> {
    "@tool\nextends RefCounted\nfunc run():\n"@
}

/// A script is its start and then the lines of the code, in order, each behind
/// a tab and before a line feed; what ended the lines of the code is gone.
pub proof fn law_script(line: Seq<char>, rest: Seq<char>)
    requires
        !line.contains('\n'),
    ensures
        gd_util::script_source(Seq::empty()) == script_start(),
        line.len() > 0 ==> gd_util::script_source(line) == script_start() + seq!['\t'] + line + seq!['\n'],
        line.len() == 0 || line.last() != '\r' ==> gd_util::script_source(line + seq!['\n'] + rest)
            == script_start() + seq!['\t'] + line + seq!['\n'] + gd_util::script_source(rest).skip(
            script_start().len() as int,
        ),
        gd_util::script_source(line + seq!['\r', '\n'] + rest) == script_start() + seq!['\t'] + line
            + seq!['\n'] + gd_util::script_source(rest).skip(script_start().len() as int),
{
    let start = script_start();
    let body = gd_util::indented(text::lines(rest));
    crate::laws::text::law_lines(line, rest);
    assert(gd_util::script_source(rest).skip(start.len() as int) =~= body);
    assert(start + Seq::<char>::empty() =~= start);
    let all = seq![line] + text::lines(rest);
    gd_util::lemma_indented_first(all);
    assert(all.skip(1) =~= text::lines(rest));
    let shown = start + seq!['\t'] + line + seq!['\n'] + body;
    assert(start + gd_util::indented(all) =~= shown);
    let one = seq![line];
    gd_util::lemma_indented_first(one);
    assert(one.skip(1) =~= Seq::<Seq<char>>::empty());
    assert(start + gd_util::indented(one) =~= start + seq!['\t'] + line + seq!['\n']);
}

/// A run of a script is answered with the JSON of what it returned, or with an
/// error that tells what went wrong in the words of the engine.
pub proof fn law_script_answer(outcome: ScriptOutcome)
    ensures
        match outcome {
            ScriptOutcome::NotParsed(error) => gd_util::script_answer(outcome) == Err::<
                JsonView,
                Seq<char>,
            >(
                "GDScript parse error ("@ + error@
                    + "). The code runs inside `func run():` — check indentation and syntax."@,
            ),
            ScriptOutcome::NotCreated(error) => gd_util::script_answer(outcome) == Err::<
                JsonView,
                Seq<char>,
            >("Failed to instantiate script: "@ + error@),
            ScriptOutcome::Failed(error) => gd_util::script_answer(outcome) == Err::<JsonView, Seq<char>>(
                "Script runtime error: "@ + error@,
            ),
            ScriptOutcome::Returned(value) => gd_util::script_answer(outcome) == Ok::<JsonView, Seq<char>>(
                gd_util::variant_json(value@, 0),
            ),
        },
{
}

} // verus!
