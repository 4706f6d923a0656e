//! Tool descriptions as MCP's `tools/list` serves them.

use vstd::prelude::*;

use crate::json::{Fields, Json, JsonView};

verus! {

/// The kind of value that an argument takes.
#[derive(Debug, Clone, Copy, PartialEq, Eq, Structural)]
pub enum ParamKind {
    Number,
    Text,
    /// An array whose items are objects.
    Objects,
}

/// An argument of a tool.
#[derive(Debug, Clone, Copy)]
pub struct Param {
    pub name: &'static str,
    pub kind: ParamKind,
    pub description: &'static str,
    pub required: bool,
}

/// A tool of an endpoint.
#[derive(Debug)]
pub struct Tool {
    pub name: &'static str,
    pub description: &'static str,
    pub params: Vec<Param>,
}

/// What an argument of a tool is.
pub struct ParamView {
    pub name: Seq<char>,
    pub kind: ParamKind,
    pub description: Seq<char>,
    pub required: bool,
}

/// What a tool is.
pub struct ToolView {
    pub name: Seq<char>,
    pub description: Seq<char>,
    pub params: Seq<ParamView>,
}

impl View for Param {
    type V = ParamView;

    open spec fn view(&self) -> ParamView {
        ParamView {
            name: self.name@,
            kind: self.kind,
            description: self.description@,
            required: self.required,
        }
    }
}

impl View for Tool {
    type V = ToolView;

    open spec fn view(&self) -> ToolView {
        ToolView {
            name: self.name@,
            description: self.description@,
            params: self.params@.map_values(|p: Param| p@),
        }
    }
}

/// The name that JSON Schema gives to a kind.
pub open spec fn kind_name(kind: ParamKind) -> Seq<char> {
    match kind {
        ParamKind::Number => "number"@,
        ParamKind::Text => "string"@,
        ParamKind::Objects => "array"@,
    }
}

/// The schema of one argument.
pub open spec fn param_schema(param: ParamView) -> JsonView {
    let base = Map::<Seq<char>, JsonView>::empty().insert(
        "type"@,
        JsonView::Text(kind_name(param.kind)),
    ).insert("description"@, JsonView::Text(param.description));
    if param.kind == ParamKind::Objects {
        JsonView::Object(
            base.insert(
                "items"@,
                JsonView::Object(
                    Map::<Seq<char>, JsonView>::empty().insert(
                        "type"@,
                        JsonView::Text("object"@),
                    ),
                ),
            ),
        )
    } else {
        JsonView::Object(base)
    }
}

/// The schemas of the arguments under their names.
pub open spec fn properties(params: Seq<ParamView>) -> Map<Seq<char>, JsonView>
    decreases params.len(),
{
    if params.len() == 0 {
        Map::empty()
    } else {
        properties(params.drop_last()).insert(params.last().name, param_schema(params.last()))
    }
}

/// The names of the arguments that must be given, in order.
pub open spec fn required_names(params: Seq<ParamView>) -> Seq<Seq<char>>
    decreases params.len(),
{
    if params.len() == 0 {
        Seq::empty()
    } else if params.last().required {
        required_names(params.drop_last()).push(params.last().name)
    } else {
        required_names(params.drop_last())
    }
}

/// The schema of all arguments together. It lists the required ones only where
/// there are any.
pub open spec fn input_schema(params: Seq<ParamView>) -> JsonView {
    let base = Map::<Seq<char>, JsonView>::empty().insert(
        "type"@,
        JsonView::Text("object"@),
    ).insert("properties"@, JsonView::Object(properties(params)));
    let required = required_names(params);
    if required.len() > 0 {
        JsonView::Object(
            base.insert(
                "required"@,
                JsonView::Array(required.map_values(|name: Seq<char>| JsonView::Text(name))),
            ),
        )
    } else {
        JsonView::Object(base)
    }
}

/// The description of a tool as JSON.
pub open spec fn tool_json(tool: ToolView) -> JsonView {
    JsonView::Object(
        Map::<Seq<char>, JsonView>::empty().insert("name"@, JsonView::Text(tool.name)).insert(
            "description"@,
            JsonView::Text(tool.description),
        ).insert("inputSchema"@, input_schema(tool.params)),
    )
}

/// The descriptions of the tools of an endpoint as JSON.
pub open spec fn tools_json(tools: Seq<ToolView>) -> JsonView {
    JsonView::Array(tools.map_values(|tool: ToolView| tool_json(tool)))
}

fn render_param(param: &Param) -> (r: Json)
    ensures
        r@ == param_schema(param@),
{
    let kind = match param.kind {
        ParamKind::Number => "number",
        ParamKind::Text => "string",
        ParamKind::Objects => "array",
    };
    let mut fields = Fields::new().with("type", Json::text(kind)).with(
        "description",
        Json::text(param.description),
    );
    if param.kind == ParamKind::Objects {
        let items = Fields::new().with("type", Json::text("object"));
        fields.put("items", Json::Object(items));
    }
    Json::Object(fields)
}

fn render_schema(params: &Vec<Param>) -> (r: Json)
    ensures
        r@ == input_schema(params@.map_values(|p: Param| p@)),
{
    let ghost all = params@.map_values(|p: Param| p@);
    let mut schemas = Fields::new();
    let mut required: Vec<Json> = Vec::new();
    let mut i: usize = 0;
    while i < params.len()
        invariant
            i <= params.len(),
            all == params@.map_values(|p: Param| p@),
            schemas@ == properties(all.take(i as int)),
            crate::json::views(required@) == required_names(all.take(i as int)).map_values(
                |name: Seq<char>| JsonView::Text(name),
            ),
        decreases params.len() - i,
    {
        let param = &params[i];
        schemas.put(param.name, render_param(param));
        proof {
            assert(all.take(i + 1).drop_last() =~= all.take(i as int));
            assert(all.take(i + 1).last() == param@);
        }
        if param.required {
            let name = Json::text(param.name);
            proof {
                crate::json::lemma_views_push(required@, name);
                let names = required_names(all.take(i as int));
                assert(names.push(param@.name).map_values(|name: Seq<char>| JsonView::Text(name))
                    =~= names.map_values(|name: Seq<char>| JsonView::Text(name)).push(
                    JsonView::Text(param@.name),
                ));
            }
            required.push(name);
        }
        i = i + 1;
    }
    proof {
        assert(all.take(i as int) =~= all);
        crate::json::lemma_views(required@);
        assert(required_names(all).map_values(|name: Seq<char>| JsonView::Text(name)).len()
            == required_names(all).len());
    }
    let mut fields = Fields::new().with("type", Json::text("object")).with(
        "properties",
        Json::Object(schemas),
    );
    if required.len() > 0 {
        fields.put("required", Json::Array(required));
    }
    Json::Object(fields)
}

/// Renders the tools of an endpoint.
pub fn render_tools(tools: &Vec<Tool>) -> (r: Json)
    ensures
        r@ == tools_json(tools@.map_values(|tool: Tool| tool@)),
{
    let ghost all = tools@.map_values(|tool: Tool| tool@);
    let ghost texts = all.map_values(|tool: ToolView| tool_json(tool));
    let mut list: Vec<Json> = Vec::new();
    let mut i: usize = 0;
    while i < tools.len()
        invariant
            i <= tools.len(),
            all == tools@.map_values(|tool: Tool| tool@),
            texts == all.map_values(|tool: ToolView| tool_json(tool)),
            crate::json::views(list@) == texts.take(i as int),
        decreases tools.len() - i,
    {
        let tool = &tools[i];
        let json = Json::Object(
            Fields::new().with("name", Json::text(tool.name)).with(
                "description",
                Json::text(tool.description),
            ).with("inputSchema", render_schema(&tool.params)),
        );
        proof {
            crate::json::lemma_views_push(list@, json);
            assert(texts[i as int] == json@);
            assert(texts.take(i as int).push(json@) =~= texts.take(i + 1));
        }
        list.push(json);
        i = i + 1;
    }
    assert(texts.take(i as int) =~= texts);
    Json::Array(list)
}

} // verus!
