//! Godot values as JSON, for the editor and the running game alike.
//!
//! Nodes and values come in as snapshots that hold what the engine says of
//! them.

use vstd::prelude::*;

use crate::json::{clone_number, text_array, Fields, Json, JsonView};
use crate::text::split_lines;

verus! {

/// A node of a scene and the nodes below it.
#[derive(Debug)]
pub struct SceneNode {
    pub name: String,
    pub class: String,
    /// The path of the script on the node, where it has a script; the path is
    /// empty where the script is not a file.
    pub script: Option<String>,
    pub children: Vec<SceneNode>,
}

/// What a scene node is.
#[verifier::ext_equal]
pub struct NodeView {
    pub name: Seq<char>,
    pub class: Seq<char>,
    pub script: Option<Seq<char>>,
    pub children: Seq<NodeView>,
}

impl SceneNode {
    pub open spec fn to_view(self) -> NodeView
        decreases self,
    {
        NodeView {
            name: self.name@,
            class: self.class@,
            script: match self.script {
                Some(path) => Some(path@),
                None => None,
            },
            children: node_views(self.children@),
        }
    }
}

/// What the nodes of a list are.
pub open spec fn node_views(nodes: Seq<SceneNode>) -> Seq<NodeView>
    decreases nodes,
{
    if nodes.len() == 0 {
        Seq::empty()
    } else {
        node_views(nodes.drop_last()).push(nodes.last().to_view())
    }
}

impl View for SceneNode {
    type V = NodeView;

    open spec fn view(&self) -> NodeView {
        self.to_view()
    }
}

pub(crate) proof fn lemma_node_views(nodes: Seq<SceneNode>)
    ensures
        node_views(nodes).len() == nodes.len(),
        forall|i: int| 0 <= i < nodes.len() ==> #[trigger] node_views(nodes)[i] == nodes[i]@,
    decreases nodes.len(),
{
    if nodes.len() > 0 {
        lemma_node_views(nodes.drop_last());
    }
}

/// The JSON of a node and of the nodes below it down to a depth: name, type,
/// the path of the script where it has one, and the children where there are
/// any and the depth reaches them.
pub open spec fn node_json(node: NodeView, depth: int) -> JsonView
    decreases depth, 0nat,
{
    let base = Map::<Seq<char>, JsonView>::empty().insert(
        "name"@,
        JsonView::Text(node.name),
    ).insert("type"@, JsonView::Text(node.class));
    let scripted = match node.script {
        Some(path) => if path.len() > 0 {
            base.insert("script"@, JsonView::Text(path))
        } else {
            base
        },
        None => base,
    };
    if depth > 0 && node.children.len() > 0 {
        JsonView::Object(
            scripted.insert("children"@, JsonView::Array(nodes_json(node.children, depth - 1))),
        )
    } else {
        JsonView::Object(scripted)
    }
}

/// The JSON of each node of a list.
pub open spec fn nodes_json(nodes: Seq<NodeView>, depth: int) -> Seq<JsonView>
    decreases depth, nodes.len() + 1,
{
    if nodes.len() == 0 {
        Seq::empty()
    } else {
        nodes_json(nodes.drop_last(), depth).push(node_json(nodes.last(), depth))
    }
}

/// Serialize a node subtree to JSON: name, type, script, children.
pub fn serialize_node(node: &SceneNode, depth: i64) -> (r: Json)
    ensures
        r@ == node_json(node@, depth as int),
    decreases depth,
{
    let mut fields = Fields::new().with("name", Json::text(node.name.as_str())).with(
        "type",
        Json::text(node.class.as_str()),
    );
    match &node.script {
        Some(path) => {
            if !path.as_str().is_empty() {
                fields.put("script", Json::text(path.as_str()));
            }
        },
        None => {},
    }
    proof {
        lemma_node_views(node.children@);
    }
    if depth > 0 && node.children.len() > 0 {
        let ghost all = node@.children;
        let mut children: Vec<Json> = Vec::new();
        let mut i: usize = 0;
        while i < node.children.len()
            invariant
                i <= node.children.len(),
                depth > 0,
                all.len() == node.children.len(),
                forall|k: int| 0 <= k < all.len() ==> #[trigger] all[k] == node.children@[k]@,
                crate::json::views(children@) == nodes_json(all.take(i as int), depth - 1),
            decreases node.children.len() - i,
        {
            let child = serialize_node(&node.children[i], depth - 1);
            proof {
                crate::json::lemma_views_push(children@, child);
                assert(all.take(i + 1).drop_last() =~= all.take(i as int));
                assert(all.take(i + 1).last() == all[i as int]);
            }
            children.push(child);
            i = i + 1;
        }
        assert(all.take(i as int) =~= all);
        fields.put("children", Json::Array(children));
    }
    Json::Object(fields)
}

/// A value of the scripting language: the text that the engine writes for it,
/// and what it is made of.
#[derive(Debug)]
pub struct GodotValue {
    pub text: String,
    pub kind: GodotKind,
}

/// What a value of the scripting language is made of.
#[derive(Debug)]
pub enum GodotKind {
    Nil,
    Bool(bool),
    Int(i64),
    /// A floating-point number, where JSON has a number for it: infinities and
    /// the result of an undefined operation have none.
    Float(Option<serde_json::Number>),
    Array(Vec<GodotValue>),
    /// The entries in order, each key as the text that the engine writes for it.
    Dictionary(Vec<(String, GodotValue)>),
    PackedStrings(Vec<String>),
    /// A string, or any value that is shown as its text.
    Text,
}

/// What a value of the scripting language is.
#[verifier::ext_equal]
pub struct ValueView {
    pub text: Seq<char>,
    pub kind: KindView,
}

#[verifier::ext_equal]
pub enum KindView {
    Nil,
    Bool(bool),
    Int(i64),
    Float(Option<serde_json::Number>),
    Array(Seq<ValueView>),
    Dictionary(Seq<(Seq<char>, ValueView)>),
    PackedStrings(Seq<Seq<char>>),
    Text,
}

impl GodotValue {
    pub open spec fn to_view(self) -> ValueView
        decreases self,
    {
        ValueView { text: self.text@, kind: self.kind.to_view() }
    }
}

impl GodotKind {
    pub open spec fn to_view(self) -> KindView
        decreases self,
    {
        match self {
            GodotKind::Nil => KindView::Nil,
            GodotKind::Bool(b) => KindView::Bool(b),
            GodotKind::Int(i) => KindView::Int(i),
            GodotKind::Float(n) => KindView::Float(n),
            GodotKind::Array(items) => KindView::Array(godot_views(items@)),
            GodotKind::Dictionary(entries) => KindView::Dictionary(godot_entries(entries@)),
            GodotKind::PackedStrings(items) => KindView::PackedStrings(
                items@.map_values(|s: String| s@),
            ),
            GodotKind::Text => KindView::Text,
        }
    }
}

/// What the values of a list are.
pub open spec fn godot_views(items: Seq<GodotValue>) -> Seq<ValueView>
    decreases items,
{
    if items.len() == 0 {
        Seq::empty()
    } else {
        godot_views(items.drop_last()).push(items.last().to_view())
    }
}

/// What the entries of a dictionary are.
pub open spec fn godot_entries(entries: Seq<(String, GodotValue)>) -> Seq<(Seq<char>, ValueView)>
    decreases entries,
{
    if entries.len() == 0 {
        Seq::empty()
    } else {
        godot_entries(entries.drop_last()).push(
            (entries.last().0@, entries.last().1.to_view()),
        )
    }
}

impl View for GodotValue {
    type V = ValueView;

    open spec fn view(&self) -> ValueView {
        self.to_view()
    }
}

pub(crate) proof fn lemma_godot_views(items: Seq<GodotValue>)
    ensures
        godot_views(items).len() == items.len(),
        forall|i: int| 0 <= i < items.len() ==> #[trigger] godot_views(items)[i] == items[i]@,
    decreases items.len(),
{
    if items.len() > 0 {
        lemma_godot_views(items.drop_last());
    }
}

pub(crate) proof fn lemma_godot_entries(entries: Seq<(String, GodotValue)>)
    ensures
        godot_entries(entries).len() == entries.len(),
        forall|i: int|
            0 <= i < entries.len() ==> #[trigger] godot_entries(entries)[i] == (
                entries[i].0@,
                entries[i].1@,
            ),
    decreases entries.len(),
{
    if entries.len() > 0 {
        lemma_godot_entries(entries.drop_last());
    }
}

/// The nesting level below which values are shown as their text.
pub const MAX_VALUE_DEPTH: u32 = 8;

/// The JSON of a value that stands at a nesting level.
pub open spec fn variant_json(value: ValueView, depth: nat) -> JsonView
    decreases MAX_VALUE_DEPTH + 2 - depth, 0nat,
{
    if depth > MAX_VALUE_DEPTH {
        JsonView::Text(value.text)
    } else {
        match value.kind {
            KindView::Nil => JsonView::Null,
            KindView::Bool(b) => JsonView::Bool(b),
            KindView::Int(i) => JsonView::Integer(i),
            KindView::Float(Some(n)) => crate::json::number_view(n),
            KindView::Float(None) => JsonView::Null,
            KindView::Array(items) => JsonView::Array(variants_json(items, depth + 1)),
            KindView::Dictionary(entries) => JsonView::Object(
                dictionary_json(entries, depth + 1),
            ),
            KindView::PackedStrings(items) => JsonView::Array(
                items.map_values(|s: Seq<char>| JsonView::Text(s)),
            ),
            KindView::Text => JsonView::Text(value.text),
        }
    }
}

/// The JSON of each value of a list.
pub open spec fn variants_json(items: Seq<ValueView>, depth: nat) -> Seq<JsonView>
    decreases MAX_VALUE_DEPTH + 2 - depth, items.len() + 1,
{
    if items.len() == 0 {
        Seq::empty()
    } else {
        variants_json(items.drop_last(), depth).push(variant_json(items.last(), depth))
    }
}

/// The fields that the entries of a dictionary become, the later ones over the
/// earlier ones whose keys have the same text.
pub open spec fn dictionary_json(entries: Seq<(Seq<char>, ValueView)>, depth: nat) -> Map<
    Seq<char>,
    JsonView,
>
    decreases MAX_VALUE_DEPTH + 2 - depth, entries.len() + 1,
{
    if entries.len() == 0 {
        Map::empty()
    } else {
        dictionary_json(entries.drop_last(), depth).insert(
            entries.last().0,
            variant_json(entries.last().1, depth),
        )
    }
}

/// The JSON of a value that a script returned, standing at a nesting level.
pub fn variant_to_json(value: &GodotValue, depth: u32) -> (r: Json)
    ensures
        r@ == variant_json(value@, depth as nat),
    decreases MAX_VALUE_DEPTH + 2 - depth,
{
    if depth > MAX_VALUE_DEPTH {
        return Json::text(value.text.as_str());
    }
    let ghost d = depth as nat;
    match &value.kind {
        GodotKind::Nil => Json::Null,
        GodotKind::Bool(b) => Json::Bool(*b),
        GodotKind::Int(i) => Json::Integer(*i),
        GodotKind::Float(number) => match number {
            Some(n) => Json::Number(clone_number(n)),
            None => Json::Null,
        },
        GodotKind::Array(items) => {
            let ghost all = godot_views(items@);
            proof {
                lemma_godot_views(items@);
            }
            let mut list: Vec<Json> = Vec::new();
            let mut i: usize = 0;
            while i < items.len()
                invariant
                    i <= items.len(),
                    depth <= MAX_VALUE_DEPTH,
                    d == depth,
                    all.len() == items.len(),
                    forall|k: int| 0 <= k < all.len() ==> #[trigger] all[k] == items@[k]@,
                    crate::json::views(list@) == variants_json(all.take(i as int), d + 1),
                decreases items.len() - i,
            {
                let json = variant_to_json(&items[i], depth + 1);
                proof {
                    crate::json::lemma_views_push(list@, json);
                    assert(all.take(i + 1).drop_last() =~= all.take(i as int));
                    assert(all.take(i + 1).last() == all[i as int]);
                }
                list.push(json);
                i = i + 1;
            }
            assert(all.take(i as int) =~= all);
            Json::Array(list)
        },
        GodotKind::Dictionary(entries) => {
            let ghost all = godot_entries(entries@);
            proof {
                lemma_godot_entries(entries@);
            }
            let mut fields = Fields::new();
            let mut i: usize = 0;
            while i < entries.len()
                invariant
                    i <= entries.len(),
                    depth <= MAX_VALUE_DEPTH,
                    d == depth,
                    all.len() == entries.len(),
                    forall|k: int|
                        0 <= k < entries@.len() ==> #[trigger] all[k] == (
                            entries@[k].0@,
                            entries@[k].1@,
                        ),
                    fields@ == dictionary_json(all.take(i as int), d + 1),
                decreases entries.len() - i,
            {
                let json = variant_to_json(&entries[i].1, depth + 1);
                proof {
                    assert(all.take(i + 1).drop_last() =~= all.take(i as int));
                    assert(all.take(i + 1).last() == all[i as int]);
                }
                fields.put(entries[i].0.as_str(), json);
                i = i + 1;
            }
            assert(all.take(i as int) =~= all);
            Json::Object(fields)
        },
        GodotKind::PackedStrings(items) => {
            proof {
                assert(items@.map_values(|s: String| s@).map_values(
                    |s: Seq<char>| JsonView::Text(s),
                ) =~= items@.map_values(|s: String| JsonView::Text(s@)));
            }
            text_array(items)
        },
        GodotKind::Text => Json::text(value.text.as_str()),
    }
}

/// The first lines of every script that is run.
pub const SCRIPT_HEADER: &'static str = "@tool\nextends RefCounted\nfunc run():\n";

/// Lines as the body of a function: each behind a tab and before a line feed.
pub open spec fn indented(lines: Seq<Seq<char>>) -> Seq<char>
    decreases lines.len(),
{
    if lines.len() == 0 {
        Seq::empty()
    } else {
        (indented(lines.drop_last()).push('\t') + lines.last()).push('\n')
    }
}

/// The script in which a piece of code is the body of `func run():`.
pub open spec fn script_source(code: Seq<char>) -> Seq<char> {
    SCRIPT_HEADER@ + indented(crate::text::lines(code))
}

/// Makes a script of a piece of code.
pub fn gdscript_source(code: &str) -> (r: String)
    ensures
        r@ == script_source(code@),
{
    let lines = split_lines(code);
    let ghost all = lines@.map_values(|line: String| line@);
    let mut source = SCRIPT_HEADER.to_owned();
    let mut i: usize = 0;
    assert(SCRIPT_HEADER@ + indented(all.take(0)) =~= SCRIPT_HEADER@);
    while i < lines.len()
        invariant
            i <= lines.len(),
            all == lines@.map_values(|line: String| line@),
            source@ == SCRIPT_HEADER@ + indented(all.take(i as int)),
        decreases lines.len() - i,
    {
        source.push('\t');
        source.append(lines[i].as_str());
        source.push('\n');
        proof {
            assert(all.take(i + 1).drop_last() =~= all.take(i as int));
            assert(all.take(i + 1).last() == lines@[i as int]@);
            assert(source@ =~= SCRIPT_HEADER@ + indented(all.take(i + 1)));
        }
        i = i + 1;
    }
    assert(all.take(i as int) =~= all);
    source
}

/// A line behind a tab.
pub open spec fn tabbed(line: Seq<char>) -> Seq<char> {
    seq!['\t'] + line
}

/// The code is the body of `func run():`: the lines of a script are three of
/// its own and then those of the code, each behind a tab. A line of the code
/// that ends in a carriage return of its own is left out of this: that return
/// then stands before a line feed.
pub proof fn law_code_is_body(code: Seq<char>)
    requires
        forall|i: int|
            0 <= i < crate::text::lines(code).len() ==> {
                let line = #[trigger] crate::text::lines(code)[i];
                line.len() > 0 ==> line.last() != '\r'
            },
    ensures
        crate::text::lines(script_source(code)) == seq![
            "@tool"@,
            "extends RefCounted"@,
            "func run():"@,
        ] + crate::text::lines(code).map_values(|line: Seq<char>| tabbed(line)),
{
    let body = crate::text::lines(code);
    assert forall|i: int| 0 <= i < body.len() implies !(#[trigger] body[i]).contains('\n') by {
        crate::text::lemma_lines_hold_no_feed(code, i);
    }
    lemma_indented_lines(body);
    reveal_strlit("@tool\nextends RefCounted\nfunc run():\n");
    reveal_strlit("@tool");
    reveal_strlit("extends RefCounted");
    reveal_strlit("func run():");
    let rest = indented(body);
    let third = "func run():"@.push('\n') + rest;
    let second = "extends RefCounted"@.push('\n') + third;
    let first = "@tool"@.push('\n') + second;
    assert(script_source(code) =~= first);
    crate::text::lemma_first_line("func run():"@, rest);
    crate::text::lemma_first_line("extends RefCounted"@, third);
    crate::text::lemma_first_line("@tool"@, second);
    assert(crate::text::lines(first) =~= seq![
        "@tool"@,
        "extends RefCounted"@,
        "func run():"@,
    ] + body.map_values(|line: Seq<char>| tabbed(line)));
}

pub(crate) proof fn lemma_indented_first(lines: Seq<Seq<char>>)
    requires
        lines.len() > 0,
    ensures
        indented(lines) == tabbed(lines[0]).push('\n') + indented(lines.skip(1)),
    decreases lines.len(),
{
    if lines.len() == 1 {
        assert(lines.drop_last() =~= Seq::<Seq<char>>::empty());
        assert(lines.skip(1) =~= Seq::<Seq<char>>::empty());
        assert(indented(lines) =~= tabbed(lines[0]).push('\n') + indented(lines.skip(1)));
    } else {
        lemma_indented_first(lines.drop_last());
        assert(lines.drop_last().skip(1) =~= lines.skip(1).drop_last());
        assert(indented(lines) =~= tabbed(lines[0]).push('\n') + indented(lines.skip(1)));
    }
}

proof fn lemma_indented_lines(lines: Seq<Seq<char>>)
    requires
        forall|i: int| 0 <= i < lines.len() ==> !(#[trigger] lines[i]).contains('\n'),
        forall|i: int|
            0 <= i < lines.len() ==> ((#[trigger] lines[i]).len() > 0 ==> lines[i].last() != '\r'),
    ensures
        crate::text::lines(indented(lines)) == lines.map_values(
            |line: Seq<char>| tabbed(line),
        ),
    decreases lines.len(),
{
    let expected = lines.map_values(|line: Seq<char>| tabbed(line));
    if lines.len() == 0 {
        assert(crate::text::lines(indented(lines)) =~= expected);
    } else {
        let rest = lines.skip(1);
        assert forall|i: int| 0 <= i < rest.len() implies !(#[trigger] rest[i]).contains('\n') && (
        rest[i].len() > 0 ==> rest[i].last() != '\r') by {
            assert(rest[i] == lines[i + 1]);
        }
        lemma_indented_lines(rest);
        lemma_indented_first(lines);
        let first = tabbed(lines[0]);
        assert(!first.contains('\n')) by {
            if first.contains('\n') {
                let j = choose|j: int| 0 <= j < first.len() && first[j] == '\n';
                assert(lines[0][j - 1] == '\n');
            }
        }
        crate::text::lemma_first_line(first, indented(rest));
        assert(crate::text::without_return(first) == first);
        assert(crate::text::lines(indented(lines)) =~= expected);
    }
}

/// How a run of a script went.
#[derive(Debug)]
pub enum ScriptOutcome {
    /// The engine did not take the source; the name of its error.
    NotParsed(String),
    /// The script could not be instantiated.
    NotCreated(String),
    /// The call of `run` failed.
    Failed(String),
    /// `run` returned a value.
    Returned(GodotValue),
}

/// What is answered after a run of a script.
pub open spec fn script_answer(outcome: ScriptOutcome) -> Result<JsonView, Seq<char>> {
    match outcome {
        ScriptOutcome::NotParsed(error) => Err(
            "GDScript parse error ("@ + error@
                + "). The code runs inside `func run():` — check indentation and syntax."@,
        ),
        ScriptOutcome::NotCreated(error) => Err("Failed to instantiate script: "@ + error@),
        ScriptOutcome::Failed(error) => Err("Script runtime error: "@ + error@),
        ScriptOutcome::Returned(value) => Ok(variant_json(value@, 0)),
    }
}

/// Answers after a run of a script: with the JSON of the value that it
/// returned, or with an error.
pub fn script_result(outcome: &ScriptOutcome) -> (r: Result<Json, String>)
    ensures
        match r {
            Ok(json) => script_answer(*outcome) == Ok::<JsonView, Seq<char>>(json@),
            Err(message) => script_answer(*outcome) == Err::<JsonView, Seq<char>>(message@),
        },
{
    match outcome {
        ScriptOutcome::NotParsed(error) => {
            let mut message = "GDScript parse error (".to_owned();
            message.append(error.as_str());
            message.append(
                "). The code runs inside `func run():` — check indentation and syntax.",
            );
            Err(message)
        },
        ScriptOutcome::NotCreated(error) => {
            let mut message = "Failed to instantiate script: ".to_owned();
            message.append(error.as_str());
            Err(message)
        },
        ScriptOutcome::Failed(error) => {
            let mut message = "Script runtime error: ".to_owned();
            message.append(error.as_str());
            Err(message)
        },
        ScriptOutcome::Returned(value) => Ok(variant_to_json(value, 0)),
    }
}

/// A node without the nodes that lie deeper below it than `depth`.
pub open spec fn cut_node(node: NodeView, depth: int) -> NodeView
    decreases depth, 0nat,
{
    if depth > 0 {
        NodeView { children: cut_nodes(node.children, depth - 1), ..node }
    } else {
        NodeView { children: Seq::empty(), ..node }
    }
}

pub open spec fn cut_nodes(nodes: Seq<NodeView>, depth: int) -> Seq<NodeView>
    decreases depth, nodes.len() + 1,
{
    if nodes.len() == 0 {
        Seq::empty()
    } else {
        cut_nodes(nodes.drop_last(), depth).push(cut_node(nodes.last(), depth))
    }
}

/// The JSON of a node to a depth shows nothing of what lies deeper.
pub proof fn law_depth_limits_tree(node: NodeView, depth: int)
    ensures
        node_json(cut_node(node, depth), depth) == node_json(node, depth),
    decreases depth, 0nat,
{
    if depth > 0 {
        lemma_cut_nodes(node.children, depth - 1);
    }
}

proof fn lemma_cut_nodes(nodes: Seq<NodeView>, depth: int)
    ensures
        nodes_json(cut_nodes(nodes, depth), depth) == nodes_json(nodes, depth),
        cut_nodes(nodes, depth).len() == nodes.len(),
    decreases depth, nodes.len() + 1,
{
    if nodes.len() > 0 {
        lemma_cut_nodes(nodes.drop_last(), depth);
        law_depth_limits_tree(nodes.last(), depth);
        assert(cut_nodes(nodes, depth).drop_last() =~= cut_nodes(nodes.drop_last(), depth));
    }
}

/// A value at a nesting level without what lies below the level at which
/// values are shown as their text.
pub open spec fn cut_value(value: ValueView, depth: nat) -> ValueView
    decreases MAX_VALUE_DEPTH + 2 - depth, 0nat,
{
    if depth > MAX_VALUE_DEPTH {
        ValueView { kind: KindView::Text, ..value }
    } else {
        match value.kind {
            KindView::Array(items) => ValueView {
                kind: KindView::Array(cut_values(items, depth + 1)),
                ..value
            },
            KindView::Dictionary(entries) => ValueView {
                kind: KindView::Dictionary(cut_entries(entries, depth + 1)),
                ..value
            },
            _ => value,
        }
    }
}

pub open spec fn cut_values(items: Seq<ValueView>, depth: nat) -> Seq<ValueView>
    decreases MAX_VALUE_DEPTH + 2 - depth, items.len() + 1,
{
    if items.len() == 0 {
        Seq::empty()
    } else {
        cut_values(items.drop_last(), depth).push(cut_value(items.last(), depth))
    }
}

pub open spec fn cut_entries(entries: Seq<(Seq<char>, ValueView)>, depth: nat) -> Seq<
    (Seq<char>, ValueView),
>
    decreases MAX_VALUE_DEPTH + 2 - depth, entries.len() + 1,
{
    if entries.len() == 0 {
        Seq::empty()
    } else {
        cut_entries(entries.drop_last(), depth).push(
            (entries.last().0, cut_value(entries.last().1, depth)),
        )
    }
}

/// The JSON of a value shows nothing of what is nested deeper than the limit,
/// but the text of what stands there.
pub proof fn law_nesting_is_limited(value: ValueView, depth: nat)
    ensures
        variant_json(cut_value(value, depth), depth) == variant_json(value, depth),
    decreases MAX_VALUE_DEPTH + 2 - depth, 0nat,
{
    if depth <= MAX_VALUE_DEPTH {
        match value.kind {
            KindView::Array(items) => lemma_cut_values(items, depth + 1),
            KindView::Dictionary(entries) => lemma_cut_entries(entries, depth + 1),
            _ => {},
        }
    }
}

proof fn lemma_cut_values(items: Seq<ValueView>, depth: nat)
    ensures
        variants_json(cut_values(items, depth), depth) == variants_json(items, depth),
    decreases MAX_VALUE_DEPTH + 2 - depth, items.len() + 1,
{
    if items.len() > 0 {
        lemma_cut_values(items.drop_last(), depth);
        law_nesting_is_limited(items.last(), depth);
        assert(cut_values(items, depth).drop_last() =~= cut_values(items.drop_last(), depth));
    }
}

proof fn lemma_cut_entries(entries: Seq<(Seq<char>, ValueView)>, depth: nat)
    ensures
        dictionary_json(cut_entries(entries, depth), depth) == dictionary_json(entries, depth),
    decreases MAX_VALUE_DEPTH + 2 - depth, entries.len() + 1,
{
    if entries.len() > 0 {
        lemma_cut_entries(entries.drop_last(), depth);
        law_nesting_is_limited(entries.last().1, depth);
        assert(cut_entries(entries, depth).drop_last() =~= cut_entries(
            entries.drop_last(),
            depth,
        ));
    }
}

} // verus!
