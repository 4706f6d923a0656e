//! Laws of what the functions return: of any result that a call may have.

use std::collections::VecDeque;

use vstd::prelude::*;

use crate::chat::{ChatEvent, ChatEventView, ChatProgram};
use crate::editor::{CommandView, EditorInfo, EditorStep, StepView};
use crate::gd_util::{GodotKind, GodotValue, SceneNode, ScriptOutcome};
use crate::json::{Fields, Json, JsonView, Scalar};
use crate::ops::EditorOp;
use crate::runtime::{
    Advance, Capture, GameInfo, GameOp, GameTree, GodotAgentRuntime, JobStep, SequenceView,
};
use crate::server::{Answer, Endpoint, HttpMethod, HttpReply, McpServer, Next, ToolJob, Wait};
use crate::timeline::{Delay, InputView, TimedEvent};
use crate::tools::Tool;
use crate::{chat, codec, editor, gd_util, json, ops, runtime, server, text, timeline, tools};

verus! {

/// The timeline of a call with nothing but an entry that holds an action or a
/// key, or lets it go, is one event at once: on what the entry names, with the
/// flag of the entry.
pub proof fn law_lone_hold(
    args: &Json,
    entry: JsonView,
    name: Seq<char>,
    pressed: bool,
    r: Result<VecDeque<TimedEvent>, String>,
)
    requires
        call_ensures(timeline::build_timeline, (args,), r),
        args@.field("events"@) == Some(JsonView::Array(seq![entry])),
        entry.field("pressed"@) == Some(JsonView::Bool(pressed)),
        ({
            ||| entry.field("type"@) == Some(JsonView::Text("action"@)) && entry.field("action"@)
                == Some(JsonView::Text(name))
            ||| entry.field("type"@) == Some(JsonView::Text("key"@)) && entry.field("key"@) == Some(
                JsonView::Text(name),
            )
        }),
    ensures
        r is Ok,
        r->Ok_0@.len() == 1,
        r->Ok_0@[0].delay.gap_ms == 0,
        r->Ok_0@[0].delay.waits@.len() == 0,
        entry.field("type"@) == Some(JsonView::Text("action"@)) ==> r->Ok_0@[0].event@ == (
        InputView::Action { action: name, pressed }),
        entry.field("type"@) == Some(JsonView::Text("key"@)) ==> r->Ok_0@[0].event@ == (
        InputView::Key { key: name, pressed }),
{
    crate::laws::timeline::law_lone_hold_is_one_event(args@, entry, name, pressed);
    assert(timeline::timed_views(r->Ok_0@).len() == r->Ok_0@.len());
    assert(timeline::timed_views(r->Ok_0@)[0] == r->Ok_0@[0]@);
    assert(r->Ok_0@[0]@.delay.waits.len() == r->Ok_0@[0].delay.waits@.len());
}

/// The timeline of a call is the one that its entries plan, event by event, or
/// the complaint about them.
pub proof fn law_timeline(args: &Json, i: int, r: Result<VecDeque<TimedEvent>, String>)
    requires
        call_ensures(timeline::build_timeline, (args,), r),
    ensures
        match r {
            Ok(timeline) => {
                let entries = args@.field("events"@)->0->Array_0;
                let planned = timeline::plan_entries(entries)->Ok_0.timeline;
                &&& args@.field("events"@) matches Some(JsonView::Array(_))
                &&& timeline::plan_entries(entries) is Ok
                &&& timeline@.len() == planned.len()
                &&& 0 <= i < timeline@.len() ==> timeline@[i].event@ == planned[i].event
                    && timeline@[i].delay@ == planned[i].delay
            },
            Err(message) => if args@.field("events"@) matches Some(JsonView::Array(_)) {
                timeline::plan_entries(args@.field("events"@)->0->Array_0) == Err::<
                    timeline::PlanView,
                    Seq<char>,
                >(message@)
            } else {
                message@ == "simulate_input requires an `events` array"@
            },
        },
{
    match r {
        Ok(timeline) => {
            let seen = timeline::timed_views(timeline@);
            assert(seen.len() == timeline@.len());
            if 0 <= i < timeline@.len() {
                assert(seen[i] == timeline@[i]@);
            }
        },
        Err(_) => {},
    }
}

/// The JSON of a plain value is that value: nothing, the truth value, the
/// integer, or the text.
pub proof fn law_plain_value(value: &GodotValue, depth: u32, r: Json)
    requires
        call_ensures(gd_util::variant_to_json, (value, depth), r),
        depth <= 8,
    ensures
        value.kind is Nil ==> r@ == JsonView::Null,
        value.kind matches GodotKind::Bool(b) ==> r@ == JsonView::Bool(b),
        value.kind matches GodotKind::Int(i) ==> r@ == JsonView::Integer(i),
        value.kind is Text ==> r@ == JsonView::Text(value.text@),
        value.kind matches GodotKind::Float(Some(n)) ==> r@ == json::number_view(n),
        value.kind matches GodotKind::Float(None) ==> r@ == JsonView::Null,
{
}

/// The JSON of an array has the JSON of each item, in order; that of a list of
/// strings has each string.
pub proof fn law_array_value(value: &GodotValue, depth: u32, i: int, r: Json)
    requires
        call_ensures(gd_util::variant_to_json, (value, depth), r),
        depth <= 8,
    ensures
        value.kind matches GodotKind::Array(items) ==> {
            &&& r@ is Array
            &&& r@->Array_0.len() == items@.len()
            &&& 0 <= i < items@.len() ==> r@->Array_0[i] == gd_util::variant_json(
                items@[i]@,
                depth as nat + 1,
            )
        },
        value.kind matches GodotKind::PackedStrings(items) ==> {
            &&& r@ is Array
            &&& r@->Array_0.len() == items@.len()
            &&& 0 <= i < items@.len() ==> r@->Array_0[i] == JsonView::Text(items@[i]@)
        },
{
    crate::laws::gd_util::law_value_is_what_it_holds(*value, i);
    crate::laws::gd_util::law_array_value(value@, depth as nat, i);
}

/// A value nested deeper than the limit is its text.
pub proof fn law_deep_value(value: &GodotValue, depth: u32, r: Json)
    requires
        call_ensures(gd_util::variant_to_json, (value, depth), r),
        depth > 8,
    ensures
        r@ == JsonView::Text(value.text@),
{
}

/// The JSON of a node has its name and type, and its script where the path is
/// not empty. Where the depth is positive it has an item for each child, in
/// order, with the name, the type and the script of that child.
pub proof fn law_node(node: &SceneNode, depth: i64, i: int, r: Json)
    requires
        call_ensures(gd_util::serialize_node, (node, depth), r),
    ensures
        r@.field("name"@) == Some(JsonView::Text(node.name@)),
        r@.field("type"@) == Some(JsonView::Text(node.class@)),
        r@.field("script"@) == (match node.script {
            Some(path) => if path@.len() > 0 {
                Some(JsonView::Text(path@))
            } else {
                None
            },
            None => None,
        }),
        depth <= 0 || node.children@.len() == 0 ==> r@.field("children"@) is None,
        depth > 0 && node.children@.len() > 0 ==> {
            &&& r@.field("children"@) is Some
            &&& r@.field("children"@)->0 is Array
            &&& r@.field("children"@)->0->Array_0.len() == node.children@.len()
        },
        depth > 0 && 0 <= i < node.children@.len() ==> {
            let item = r@.field("children"@)->0->Array_0[i];
            let child = node.children@[i];
            &&& item.field("name"@) == Some(JsonView::Text(child.name@))
            &&& item.field("type"@) == Some(JsonView::Text(child.class@))
            &&& item.field("script"@) == (match child.script {
                Some(path) => if path@.len() > 0 {
                    Some(JsonView::Text(path@))
                } else {
                    None
                },
                None => None,
            })
            &&& item == gd_util::node_json(child@, depth - 1)
        },
{
    crate::laws::gd_util::law_node_is_what_it_holds(*node, i);
    crate::laws::gd_util::law_node(node@, depth as int, i);
    if 0 <= i < node.children@.len() {
        crate::laws::gd_util::law_node_is_what_it_holds(node.children@[i], 0);
    }
}

/// A script is its start and then the code line by line; a run of it is
/// answered as its outcome says.
pub proof fn law_scripts(
    code: &str,
    source: String,
    outcome: &ScriptOutcome,
    r: Result<Json, String>,
)
    requires
        call_ensures(gd_util::gdscript_source, (code,), source),
        call_ensures(gd_util::script_result, (outcome,), r),
    ensures
        source@ == gd_util::script_source(code@),
        match outcome {
            ScriptOutcome::Returned(value) => r is Ok && r->Ok_0@ == gd_util::variant_json(
                value@,
                0,
            ),
            ScriptOutcome::Failed(error) => r is Err && r->Err_0@ == "Script runtime error: "@
                + error@,
            ScriptOutcome::NotCreated(error) => r is Err && r->Err_0@
                == "Failed to instantiate script: "@ + error@,
            ScriptOutcome::NotParsed(error) => r is Err && r->Err_0@ == "GDScript parse error ("@
                + error@ + "). The code runs inside `func run():` — check indentation and syntax."@,
        },
{
}

/// A call that reaches the game is queued under the id of the message, with the
/// name and the arguments that its parameters hold, for every name.
pub proof fn law_game_call(
    server: &McpServer,
    message: Json,
    params: JsonView,
    name: Seq<char>,
    r: Next,
)
    requires
        call_ensures(McpServer::proceed, (server, Some(Ok::<Json, String>(message))), r),
        server.endpoint == Endpoint::Game,
        message@.field("id"@) is Some,
        message@.field("id"@) != Some(JsonView::Null),
        message@.field("method"@) == Some(JsonView::Text("tools/call"@)),
        message@.field("params"@) == Some(params),
        params.field("name"@) == Some(JsonView::Text(name)),
        params.field("arguments"@) is Some,
    ensures
        match r {
            Next::Queue { id, screenshot, job: ToolJob::Game { name: called, args } } => {
                &&& id@ == message@.field("id"@)->0
                &&& called@ == name
                &&& args@ == params.field("arguments"@)->0
                &&& screenshot == (name == "capture_screenshot"@)
            },
            _ => false,
        },
{
    crate::laws::server::law_game_call_is_queued(
        server@,
        message@,
        message@.field("id"@)->0,
        name,
        params.field("arguments"@)->0,
    );
}

/// A call that reaches the editor is queued under the id of the message, with
/// the operation that the name and the arguments of its parameters ask for.
pub proof fn law_editor_call(
    server: &McpServer,
    message: Json,
    params: JsonView,
    name: Seq<char>,
    r: Next,
)
    requires
        call_ensures(McpServer::proceed, (server, Some(Ok::<Json, String>(message))), r),
        server.endpoint == Endpoint::Editor,
        message@.field("id"@) is Some,
        message@.field("id"@) != Some(JsonView::Null),
        message@.field("method"@) == Some(JsonView::Text("tools/call"@)),
        message@.field("params"@) == Some(params),
        params.field("name"@) == Some(JsonView::Text(name)),
        params.field("arguments"@) is Some,
        ops::tool_call(name, params.field("arguments"@)->0) is Ok,
    ensures
        match r {
            Next::Queue { id, screenshot, job: ToolJob::Editor(op) } => {
                &&& id@ == message@.field("id"@)->0
                &&& op@ == ops::tool_call(name, params.field("arguments"@)->0)->Ok_0
                &&& !screenshot
            },
            _ => false,
        },
{
    crate::laws::server::law_editor_call_is_queued(
        server@,
        message@,
        message@.field("id"@)->0,
        name,
        params.field("arguments"@)->0,
    );
}

/// What is said of a message holds of the text that denotes it, and of a body
/// that cannot be read.
pub proof fn law_body(server: &McpServer, text: &str, r: Next, unread: Next)
    requires
        call_ensures(McpServer::receive, (server, Some(text)), r),
        call_ensures(McpServer::receive, (server, None::<&str>), unread),
    ensures
        r@ == server::body_next(server@, Some(codec::json_read(text@))),
        unread matches Next::Reply(reply) && reply.status == 400 && reply.body@.len() == 0,
{
}

/// The job of a call is what the call asks for, and of the jobs only a call of
/// the game's screenshot tool is one.
pub proof fn law_job(
    endpoint: Endpoint,
    name: String,
    args: Json,
    r: Result<ToolJob, String>,
    job: &ToolJob,
    screenshot: bool,
)
    requires
        call_ensures(server::begin_call, (endpoint, name, args), r),
        call_ensures(server::asks_screenshot, (job,), screenshot),
    ensures
        endpoint == Endpoint::Game ==> match r {
            Ok(ToolJob::Game { name: called, args: given }) => called@ == name@ && given@ == args@,
            _ => false,
        },
        endpoint == Endpoint::Editor ==> match r {
            Ok(ToolJob::Editor(op)) => ops::tool_call(name@, args@) == Ok::<
                ops::EditorOpView,
                Seq<char>,
            >(op@),
            Ok(_) => false,
            Err(message) => ops::tool_call(name@, args@) == Err::<
                ops::EditorOpView,
                Seq<char>,
            >(message@),
        },
        screenshot <==> (job matches ToolJob::Game { name: called, .. } && called@
            == "capture_screenshot"@),
{
}

/// A method decides the reply, but for POST.
pub proof fn law_method(method: HttpMethod, r: Option<HttpReply>)
    requires
        call_ensures(server::method_reply, (method,), r),
    ensures
        method == HttpMethod::Post <==> r is None,
        method == HttpMethod::Delete ==> r->0.status == 200 && r->0.body@.len() == 0,
        method == HttpMethod::Other ==> r->0.status == 405 && r->0.body@.len() == 0,
        r is Some ==> r->0.content_type is None,
{
    if r is Some {
        assert(r->0@.body == r->0.body@);
        assert(r->0@.content_type is None);
    }
}

/// A queued call is replied to with status 200 and the response that belongs to
/// what became of its job.
pub proof fn law_queued_reply(id: Json, screenshot: bool, wait: Wait, r: HttpReply)
    requires
        call_ensures(server::queued_reply, (id, screenshot, wait), r),
    ensures
        r.status == 200,
        r.content_type is Some,
        r.content_type->0@ == "application/json"@,
        r.body@ == vstd::utf8::encode_utf8(
            codec::json_compact(
                server::call_response(
                    id@,
                    screenshot,
                    match wait {
                        Wait::Answered(Ok(value)) => Ok(value@),
                        Wait::Answered(Err(message)) => Err(message@),
                        Wait::Closed => Err("Editor plugin is shutting down"@),
                        Wait::TimedOut => Err(
                            "Timed out waiting for the editor main thread. The editor may be busy (e.g. a modal dialog is open) or the scene is playing with the editor paused."@,
                        ),
                    },
                ),
            ),
        ),
{
    assert(r@.content_type == Some("application/json"@));
}

/// A value is told the client as its text, or as indented JSON.
pub proof fn law_result_text(value: &Json, r: String)
    requires
        call_ensures(server::stringify_result, (value,), r),
    ensures
        value@ matches JsonView::Text(text) ==> r@ == text,
        !(value@ is Text) ==> r@ == codec::json_pretty(value@),
{
}

/// A call of a tool of the editor asks for its operation with what it names, or
/// is refused in these words.
pub proof fn law_tool_call(name: &str, args: &Json, r: Result<EditorOp, String>)
    requires
        call_ensures(ops::parse_tool_call, (name, args), r),
    ensures
        name@ == "get_editor_info"@ ==> r matches Ok(EditorOp::GetEditorInfo),
        name@ == "save_all_scenes"@ ==> r matches Ok(EditorOp::SaveAllScenes),
        name@ == "stop_playing"@ ==> r matches Ok(EditorOp::StopPlaying),
        name@ == "get_scene_tree"@ ==> {
            &&& r matches Ok(EditorOp::GetSceneTree { max_depth })
            &&& args@.field("max_depth"@) is None ==> max_depth == 16
            &&& args@.field("max_depth"@) matches Some(JsonView::Integer(d)) ==> max_depth == d
            &&& crate::laws::ops::is_depth_of(args@, max_depth)
        },
        name@ == "open_scene"@ ==> match args@.field("path"@) {
            Some(JsonView::Text(path)) => r matches Ok(EditorOp::OpenScene { path: opened })
                && opened@ == path,
            _ => r matches Err(message) && message@ == "open_scene requires a `path` argument"@,
        },
        name@ == "play_scene"@ ==> match args@.field("scene_path"@) {
            Some(JsonView::Text(path)) => r matches Ok(
                EditorOp::PlayScene { scene_path: Some(played) },
            ) && played@ == path,
            _ => r matches Ok(EditorOp::PlayScene { scene_path: None }),
        },
        name@ == "execute_editor_script"@ ==> match args@.field("code"@) {
            Some(JsonView::Text(code)) => r matches Ok(EditorOp::ExecuteScript { code: run })
                && run@ == code,
            _ => r matches Err(message) && message@
                == "execute_editor_script requires a `code` argument"@,
        },
{
    crate::laws::ops::lemma_editor_names();
    crate::laws::ops::law_plain_calls(args@);
    crate::laws::ops::law_tree_call(args@);
    crate::laws::ops::law_open_call(args@);
    crate::laws::ops::law_play_call(args@);
    crate::laws::ops::law_script_call(args@);
}

/// An operation of the editor becomes the step that belongs to it.
pub proof fn law_editor_step(op: &EditorOp, r: Result<EditorStep, String>)
    requires
        call_ensures(editor::execute_op, (op,), r),
    ensures
        match r {
            Ok(step) => editor::op_step(op@) == Ok::<StepView, Seq<char>>(step@),
            Err(message) => editor::op_step(op@) == Err::<StepView, Seq<char>>(message@),
        },
        op is StopPlaying ==> r is Ok && r->Ok_0@ == (StepView::Command {
            command: CommandView::StopPlaying,
            reply: "Stopped playing"@,
        }),
        op matches EditorOp::GetSceneTree { max_depth: depth } ==> r is Ok && r->Ok_0@ == (
        StepView::ReadTree { max_depth: *depth }),
{
}

/// The state of the editor is answered field by field, and its tree to the
/// depth that is asked for, where a scene is edited.
pub proof fn law_editor_answers(
    info: &EditorInfo,
    told: Json,
    root: Option<&SceneNode>,
    max_depth: i64,
    r: Result<Json, String>,
)
    requires
        call_ensures(editor::editor_info, (info,), told),
        call_ensures(editor::scene_tree_result, (root, max_depth), r),
    ensures
        told@ == editor::info_json(*info),
        root is None ==> r is Err && r->Err_0@
            == "No scene is currently being edited in the editor"@,
        root matches Some(node) ==> r is Ok && r->Ok_0@ == gd_util::node_json(
            node@,
            max_depth as int,
        ),
{
}

/// A call of a tool of the game asks for its operation, or is refused.
pub proof fn law_game_op(name: &str, args: &Json, r: Result<GameOp, String>)
    requires
        call_ensures(runtime::execute_game_op, (name, args), r),
    ensures
        name@ == "get_game_info"@ ==> r matches Ok(GameOp::GetGameInfo),
        name@ == "capture_screenshot"@ ==> r matches Ok(GameOp::CaptureScreenshot),
        name@ == "get_scene_tree"@ ==> {
            &&& r matches Ok(GameOp::GetSceneTree { max_depth })
            &&& crate::laws::ops::is_depth_of(args@, max_depth)
        },
        name@ == "execute_script"@ ==> match args@.field("code"@) {
            Some(JsonView::Text(code)) => r matches Ok(GameOp::ExecuteScript { source }) && source@
                == gd_util::script_source(code),
            _ => r matches Err(message) && message@ == "execute_script requires a `code` argument"@,
        },
        name@ != "get_game_info"@ && name@ != "capture_screenshot"@ && name@ != "get_scene_tree"@
            && name@ != "execute_script"@ ==> r is Err && r->Err_0@ == "Unknown tool: "@ + name@,
{
    crate::laws::runtime::lemma_game_names();
    crate::laws::runtime::law_tree_job(None, args@);
}

/// What the game is asked for is answered where the engine has it, and else
/// with what is missing.
pub proof fn law_game_answers(
    info: Option<&GameInfo>,
    told: Result<Json, String>,
    tree: &GameTree,
    max_depth: i64,
    r: Result<Json, String>,
)
    requires
        call_ensures(runtime::game_info_result, (info,), told),
        call_ensures(runtime::game_tree_result, (tree, max_depth), r),
    ensures
        info is None ==> told is Err && told->Err_0@ == "Main loop is not a SceneTree"@,
        info matches Some(state) ==> told is Ok && told->Ok_0@ == runtime::game_info_json(
            *state,
        ),
        match tree {
            GameTree::NoSceneTree => r is Err && r->Err_0@ == "Main loop is not a SceneTree"@,
            GameTree::NoRootWindow => r is Err && r->Err_0@ == "No root window"@,
            GameTree::Root(node) => r is Ok && r->Ok_0@ == gd_util::node_json(
                node@,
                max_depth as int,
            ),
        },
{
}

/// A screenshot keeps its proportions, is at most 1280 wide, and is answered
/// with its file.
pub proof fn law_screenshot(
    width: i32,
    height: i32,
    size: Option<(i32, i32)>,
    capture: &Capture,
    r: Result<Json, String>,
)
    requires
        call_ensures(runtime::screenshot_size, (width, height), size),
        call_ensures(runtime::screenshot_result, (capture,), r),
        height >= 0,
    ensures
        width <= 1280 ==> size is None,
        width > 1280 ==> {
            &&& size matches Some((w, h))
            &&& w == 1280
            &&& h >= 0
            &&& h * width <= height * 1280
            &&& height * 1280 < (h + 1) * width
        },
        capture matches Capture::Encoded(base64) ==> {
            &&& r is Ok
            &&& r->Ok_0@.field("_image_base64"@) == Some(JsonView::Text(base64@))
            &&& r->Ok_0@.field("_mime"@) == Some(JsonView::Text("image/png"@))
        },
        !(capture is Encoded) ==> r is Err,
{
    crate::laws::runtime::law_screenshot_size(width as int, height as int);
    crate::laws::runtime::law_capture(*capture);
}

/// Every text of the assistant that is not blank, and every use of a tool, is
/// among the events of a line that holds its message.
pub proof fn law_line(
    line: &str,
    message: JsonView,
    blocks: Seq<JsonView>,
    i: int,
    r: Vec<ChatEvent>,
)
    requires
        call_ensures(chat::read_line, (line,), r),
        !text::blank(line@),
        codec::json_read(line@) == Ok::<JsonView, Seq<char>>(message),
        message.field("type"@) == Some(JsonView::Text("assistant"@)),
        message.field("message"@) is Some,
        message.field("message"@)->0.field("content"@) == Some(JsonView::Array(blocks)),
        0 <= i < blocks.len(),
    ensures
        blocks[i].field("type"@) == Some(JsonView::Text("text"@)) ==> {
            blocks[i].field("text"@) matches Some(JsonView::Text(text)) ==> (!text::blank(
                text,
            ) ==> exists|k: int|
                0 <= k < r@.len() && (#[trigger] r@[k])@ == ChatEventView::AssistantText(text))
        },
        blocks[i].field("type"@) == Some(JsonView::Text("tool_use"@)) ==> {
            blocks[i].field("name"@) matches Some(JsonView::Text(name)) ==> exists|k: int|
                0 <= k < r@.len() && (#[trigger] r@[k])@ == ChatEventView::ToolUse(
                    text::without_prefixes(name, "mcp__godot-editor__"@),
                )
        },
{
    let events = chat::message_events(message);
    assert(chat::event_views(r@) == events);
    assert(events.len() == r@.len());
    if blocks[i].field("type"@) == Some(JsonView::Text("text"@)) {
        match blocks[i].field("text"@) {
            Some(JsonView::Text(text)) => {
                if !text::blank(text) {
                    crate::laws::chat::law_text_is_shown(message, blocks, i, text);
                    let event = ChatEventView::AssistantText(text);
                    let k = choose|k: int| 0 <= k < events.len() && events[k] == event;
                    assert(r@[k]@ == event);
                }
            },
            _ => {},
        }
    }
    if blocks[i].field("type"@) == Some(JsonView::Text("tool_use"@)) {
        match blocks[i].field("name"@) {
            Some(JsonView::Text(name)) => {
                crate::laws::chat::law_tool_use_is_shown(message, blocks, i, name);
                let event = ChatEventView::ToolUse(
                    text::without_prefixes(name, "mcp__godot-editor__"@),
                );
                let k = choose|k: int| 0 <= k < events.len() && events[k] == event;
                assert(r@[k]@ == event);
            },
            _ => {},
        }
    }
}

/// The events of a message are those of its kind, and of a line those of the
/// message that it holds, if it holds one.
pub proof fn law_message(
    message: &Json,
    events: Vec<ChatEvent>,
    line: &str,
    r: Vec<ChatEvent>,
)
    requires
        call_ensures(chat::read_message, (message,), events),
        call_ensures(chat::read_line, (line,), r),
    ensures
        chat::event_views(events@) == chat::message_events(message@),
        text::blank(line@) ==> r@.len() == 0,
        codec::json_read(line@) is Err ==> r@.len() == 0,
        !text::blank(line@) ==> (codec::json_read(line@) matches Ok(value)
            ==> chat::event_views(r@) == chat::message_events(value)),
{
    assert(chat::event_views(r@).len() == r@.len());
}

/// The end of the process is told, and a message of the user is sent, as the
/// protocol of the chat has it.
pub proof fn law_chat_texts(program: &ChatProgram, exit: ChatEvent, text: &str, line: String)
    requires
        call_ensures(chat::exit_event, (program,), exit),
        call_ensures(chat::user_line, (text,), line),
    ensures
        exit matches ChatEvent::ProcessExit(message) && message@ == chat::exit_text(
            *program,
        ),
        line@ == codec::json_compact(chat::user_json(text@)).push('\n'),
{
}

/// The process is started with its arguments, from where it is found.
pub proof fn law_start(
    mcp_port: u16,
    game_port: u16,
    args: Vec<String>,
    command: &str,
    home: &str,
    places: Vec<String>,
    i: int,
)
    requires
        call_ensures(chat::program_args, (mcp_port, game_port), args),
        call_ensures(chat::program_candidates, (command, home), places),
    ensures
        args@.len() == 13,
        0 <= i < 13 ==> args@[i]@ == chat::program_arguments(mcp_port, game_port)[i],
        places@.len() == 3,
        0 <= i < 3 ==> places@[i]@ == chat::candidate_paths(command@, home@)[i],
{
    let texts = args@.map_values(|s: String| s@);
    let paths = places@.map_values(|s: String| s@);
    assert(texts.len() == args@.len());
    assert(paths.len() == places@.len());
    if 0 <= i < 13 {
        assert(texts[i] == args@[i]@);
    }
    if 0 <= i < 3 {
        assert(paths[i] == places@[i]@);
    }
}

/// The program is where the variable says, where it is set.
pub proof fn law_found(
    program: &ChatProgram,
    variable: Option<&str>,
    shell_output: Option<&str>,
    home: &str,
    there: &Vec<bool>,
    r: Result<String, String>,
)
    requires
        call_ensures(
            chat::find_claude,
            (program, variable, shell_output, home, there),
            r,
        ),
    ensures
        variable matches Some(path) ==> r is Ok && r->Ok_0@ == path@,
        variable is None ==> (shell_output matches Some(output) ==> (!text::blank(output@)
            ==> r is Ok && r->Ok_0@ == text::trimmed(output@))),
        variable is None && (shell_output is None || text::blank(shell_output->0@)) ==> {
            match chat::first_there(
                chat::candidate_paths(program.command@, home@),
                there@,
            ) {
                Some(path) => r is Ok && r->Ok_0@ == path,
                None => r is Err && r->Err_0@ == chat::missing_text(*program),
            }
        },
{
    crate::laws::chat::law_program_is_found(
        *program,
        json::optional_text(variable),
        json::optional_text(shell_output),
        home@,
        there@,
    );
}

/// The functions on text return what the text is.
pub proof fn law_texts(
    s: &str,
    prefix: &str,
    stripped: String,
    trimmed: String,
    blank: bool,
    lines: Vec<String>,
    port: Option<u16>,
    integer: Option<i64>,
    i: int,
)
    requires
        call_ensures(text::strip_prefixes, (s, prefix), stripped),
        call_ensures(text::trim, (s,), trimmed),
        call_ensures(text::is_blank, (s,), blank),
        call_ensures(text::split_lines, (s,), lines),
        call_ensures(text::parse_port, (s,), port),
        call_ensures(text::read_integer, (s,), integer),
    ensures
        stripped@ == text::without_prefixes(s@, prefix@),
        trimmed@ == text::trimmed(s@),
        blank == text::blank(s@),
        lines@.len() == text::lines(s@).len(),
        0 <= i < lines@.len() ==> lines@[i]@ == text::lines(s@)[i],
        port == text::port_number(s@),
        integer is None <==> text::whole_number(s@) is None,
        integer matches Some(n) ==> n == text::clamped(text::whole_number(s@)->0),
{
    let texts = lines@.map_values(|line: String| line@);
    assert(texts.len() == lines@.len());
    if 0 <= i < lines@.len() {
        assert(texts[i] == lines@[i]@);
    }
}

/// Two strings are compared by their characters.
pub proof fn law_comparisons(a: &str, b: &str, equal: bool, begins: bool, ends: bool)
    requires
        call_ensures(text::same, (a, b), equal),
        call_ensures(text::begins_with, (a, b), begins),
        call_ensures(text::finishes_with, (a, b), ends),
    ensures
        equal == (a@ == b@),
        begins == b@.is_prefix_of(a@),
        ends == b@.is_suffix_of(a@),
{
}

/// A port that is set counts, where it is one.
pub proof fn law_port(setting: Option<&str>, default: u16, r: u16)
    requires
        call_ensures(text::configured_port, (setting, default), r),
    ensures
        setting is None ==> r == default,
        setting matches Some(s) ==> match text::port_number(s@) {
            Some(port) => r == port,
            None => r == default,
        },
{
}

/// A job is refused, carried out or started as its name and arguments say, and
/// what is being played changes only where a sequence starts.
pub proof fn law_job_is_taken(
    game: &mut GodotAgentRuntime,
    name: &str,
    args: &Json,
    r: JobStep,
)
    requires
        call_ensures(GodotAgentRuntime::take_job, (game, name, args), r),
    ensures
        (final(game)@, r@) == runtime::job_step(old(game)@, name@, args@),
        !(r is Started) ==> final(game)@ == old(game)@,
        r is Started ==> {
            &&& name@ == "simulate_input"@
            &&& old(game)@ is None
            &&& timeline::call_timeline(args@) is Ok
            &&& final(game)@ == Some(
                SequenceView { timeline: timeline::call_timeline(args@)->Ok_0, dispatched: 0 },
            )
        },
        name@ == "simulate_input"@ && old(game)@ is Some ==> r@
            == runtime::JobStepView::Refuse("An input sequence is already in progress"@),
        name@ == "execute_script"@ ==> (args@.field("code"@) matches Some(JsonView::Text(code))
            ==> (r matches JobStep::Execute(GameOp::ExecuteScript { source }) && source@
            == gd_util::script_source(code))),
{
    crate::laws::runtime::lemma_game_names();
    crate::laws::runtime::law_input_job(old(game)@, args@);
    crate::laws::runtime::law_script_job(old(game)@, args@);
}

/// A frame on which the next event is due dispatches that event, and the last
/// one ends the sequence; any other frame changes nothing.
pub proof fn law_frame(
    game: &mut GodotAgentRuntime,
    due: bool,
    r: Advance,
)
    requires
        call_ensures(GodotAgentRuntime::advance_input_sequence, (game, due), r),
    ensures
        old(game)@ is None ==> r is Idle && final(game)@ is None,
        old(game)@ is Some && !due ==> r is Waiting && final(game)@ == old(game)@,
        old(game)@ is Some && due ==> {
            let before = old(game)@->0;
            &&& before.timeline.len() > 0
            &&& before.timeline.len() > 1 ==> {
                &&& r matches Advance::Dispatch(event)
                &&& event@ == before.timeline[0].event
                &&& final(game)@ is Some
                &&& final(game)@->0.timeline == before.timeline.skip(1)
                &&& final(game)@->0.dispatched == before.dispatched + 1
            }
            &&& before.timeline.len() == 1 ==> {
                &&& r matches Advance::Finish(event, reply)
                &&& event@ == before.timeline[0].event
                &&& reply@ == "Dispatched "@ + text::decimal(before.dispatched + 1)
                    + " input events"@
                &&& final(game)@ is None
            }
        },
{
}

/// A runtime begins with nothing to play, and tells the delay before the next
/// event of what it plays.
pub proof fn law_next_delay(
    fresh: GodotAgentRuntime,
    game: &GodotAgentRuntime,
    r: Option<&Delay>,
)
    requires
        call_ensures(GodotAgentRuntime::new, (), fresh),
        call_ensures(GodotAgentRuntime::next_delay, (game,), r),
    ensures
        fresh@ is None,
        game@ is None ==> r is None,
        game@ matches Some(sequence) ==> r is Some && r->0@ == sequence.timeline[0].delay,
{
}

/// A number is appended in its decimal form.
pub proof fn law_decimal(out: &mut String, n: usize, r: ())
    requires
        call_ensures(text::push_decimal, (out, n), r),
    ensures
        final(out)@ == old(out)@ + text::decimal(n as nat),
{
}

/// Fields hold what was set, and nothing else.
pub proof fn law_fields(
    fields: &mut Fields,
    empty: Fields,
    key: &str,
    other: &str,
    value: Json,
    r: (),
    more: Fields,
    seen: &Fields,
    found: Option<&Json>,
)
    requires
        call_ensures(Fields::put, (fields, key, value), r),
        call_ensures(Fields::new, (), empty),
        call_ensures(Fields::with, (empty, key, value), more),
        call_ensures(Fields::get, (seen, other), found),
    ensures
        final(fields)@ == old(fields)@.insert(key@, value@),
        empty@ == Map::<Seq<char>, JsonView>::empty(),
        more@ == Map::<Seq<char>, JsonView>::empty().insert(key@, value@),
        found is Some <==> seen@.dom().contains(other@),
        found matches Some(json) ==> json@ == seen@[other@],
{
}

/// A value is read as what it is, and its fields as what they are.
pub proof fn law_values(
    json: &Json,
    key: &str,
    field: Option<&Json>,
    s: Option<&str>,
    i: Option<i64>,
    b: Option<bool>,
    n: Option<Scalar>,
    text_field: Option<&str>,
    integer_field: Option<i64>,
    boolean_field: Option<bool>,
    number_field: Option<Scalar>,
)
    requires
        call_ensures(Json::get, (json, key), field),
        call_ensures(Json::as_str, (json,), s),
        call_ensures(Json::as_i64, (json,), i),
        call_ensures(Json::as_bool, (json,), b),
        call_ensures(Json::as_number, (json,), n),
        call_ensures(Json::text_field, (json, key), text_field),
        call_ensures(Json::integer_field, (json, key), integer_field),
        call_ensures(Json::boolean_field, (json, key), boolean_field),
        call_ensures(Json::number_field, (json, key), number_field),
    ensures
        field is Some <==> json@.field(key@) is Some,
        field matches Some(value) ==> json@.field(key@) == Some(value@),
        s is Some <==> json@ is Text,
        s matches Some(text) ==> json@ == JsonView::Text(text@),
        i is Some <==> json@ is Integer,
        i matches Some(integer) ==> json@ == JsonView::Integer(integer),
        b is Some <==> json@ is Bool,
        b matches Some(truth) ==> json@ == JsonView::Bool(truth),
        n is Some <==> json@ is Integer || json@ is Number,
        n matches Some(number) ==> json@ == number@,
        text_field is Some <==> json@.field(key@) matches Some(JsonView::Text(_)),
        text_field matches Some(text) ==> json@.field(key@) == Some(JsonView::Text(text@)),
        integer_field is Some <==> json@.field(key@) matches Some(JsonView::Integer(_)),
        integer_field matches Some(integer) ==> json@.field(key@) == Some(
            JsonView::Integer(integer),
        ),
        boolean_field is Some <==> json@.field(key@) matches Some(JsonView::Bool(_)),
        boolean_field matches Some(truth) ==> json@.field(key@) == Some(JsonView::Bool(truth)),
        number_field is Some ==> json@.field(key@) == Some(number_field->0@),
        number_field is Some <==> (json@.field(key@) matches Some(JsonView::Integer(_))
            || json@.field(key@) matches Some(JsonView::Number(_))),
{
}

/// A JSON text is read and written as `serde_json` reads and writes it.
pub proof fn law_json_texts(
    source: &str,
    read: Result<Json, String>,
    json: &Json,
    compact: String,
    bytes: Vec<u8>,
    pretty: String,
)
    requires
        call_ensures(codec::parse_json, (source,), read),
        call_ensures(codec::compact_text, (json,), compact),
        call_ensures(codec::compact_bytes, (json,), bytes),
        call_ensures(codec::pretty_text, (json,), pretty),
    ensures
        read matches Ok(value) ==> codec::json_read(source@) == Ok::<JsonView, Seq<char>>(value@),
        read matches Err(message) ==> codec::json_read(source@) == Err::<JsonView, Seq<char>>(
            message@,
        ),
        compact@ == codec::json_compact(json@),
        bytes@ == vstd::utf8::encode_utf8(compact@),
        pretty@ == codec::json_pretty(json@),
{
}

/// The depth that the text of a number asks for is the integer that it denotes.
pub proof fn law_depth_text(s: &str, r: i64)
    requires
        call_ensures(ops::read_depth_text, (s,), r),
    ensures
        text::whole_number(s@) is None ==> r == 16,
        text::whole_number(s@) matches Some(n) ==> (i64::MIN <= n <= i64::MAX ==> r == n),
{
}

/// A reply has the status that it is given, and a JSON reply the value; the
/// reply to a call has its response.
pub proof fn law_replies(
    status: u16,
    value: &Json,
    bare: HttpReply,
    full: HttpReply,
    id: Json,
    screenshot: bool,
    outcome: Result<Json, String>,
    reply: HttpReply,
)
    requires
        call_ensures(server::empty_response, (status,), bare),
        call_ensures(server::json_response, (status, value), full),
        call_ensures(server::call_reply, (id, screenshot, outcome), reply),
    ensures
        bare.status == status,
        bare.body@.len() == 0,
        full.status == status,
        full.body@ == vstd::utf8::encode_utf8(codec::json_compact(value@)),
        reply.status == 200,
        reply.body@ == vstd::utf8::encode_utf8(
            codec::json_compact(
                server::call_response(
                    id@,
                    screenshot,
                    match outcome {
                        Ok(result) => Ok(result@),
                        Err(message) => Err(message@),
                    },
                ),
            ),
        ),
{
    assert(bare@.body == bare.body@);
    assert(full@.body == full.body@);
    assert(reply@.body == reply.body@);
}

/// A message is answered as the server has it, and what became of a job is told
/// as it is.
pub proof fn law_answers(
    mcp: &McpServer,
    message: &Json,
    answer: Answer,
    wait: Wait,
    outcome: Result<Json, String>,
)
    requires
        call_ensures(McpServer::answer, (mcp, message), answer),
        call_ensures(server::call_outcome, (wait,), outcome),
    ensures
        answer@ == server::message_answer(mcp@, message@),
        wait matches Wait::Answered(Ok(value)) ==> outcome is Ok && outcome->Ok_0@ == value@,
        wait matches Wait::Answered(Err(reason)) ==> outcome is Err && outcome->Err_0@ == reason@,
        !(wait is Answered) ==> outcome is Err && server::wait_outcome(wait) == Err::<
            JsonView,
            Seq<char>,
        >(outcome->Err_0@),
{
}

/// The configuration names both ports, and the path that the shell printed is
/// what it printed without the white space around it.
pub proof fn law_configuration(
    mcp_port: u16,
    game_port: u16,
    config: String,
    shell_output: Option<&str>,
    path: Option<String>,
)
    requires
        call_ensures(chat::mcp_config, (mcp_port, game_port), config),
        call_ensures(chat::shell_path, (shell_output,), path),
    ensures
        config@ == chat::config_text(mcp_port, game_port),
        shell_output is None ==> path is None,
        shell_output matches Some(output) ==> {
            &&& path is None <==> text::blank(output@)
            &&& path is Some ==> path->0@ == text::trimmed(output@)
        },
{
    match shell_output {
        Some(output) => text::law_blank_iff_trimmed_away(output@),
        None => {},
    }
}

/// A list of texts becomes an array of them, and a list of tools the
/// descriptions of them, in order.
pub proof fn law_arrays(
    items: &Vec<String>,
    texts: Json,
    list: &Vec<Tool>,
    served: Json,
    i: int,
)
    requires
        call_ensures(json::text_array, (items,), texts),
        call_ensures(tools::render_tools, (list,), served),
    ensures
        texts@ is Array,
        texts@->Array_0.len() == items@.len(),
        0 <= i < items@.len() ==> texts@->Array_0[i] == JsonView::Text(items@[i]@),
        served@ is Array,
        served@->Array_0.len() == list@.len(),
        0 <= i < list@.len() ==> served@->Array_0[i] == tools::tool_json(list@[i]@),
{
    let all = list@.map_values(|tool: Tool| tool@);
    assert(all.len() == list@.len());
    if 0 <= i < list@.len() {
        assert(all[i] == list@[i]@);
    }
}

/// The lists of tools that are served are those of the two sides.
pub proof fn law_lists(editor: Json, game: Json, endpoint: Endpoint, version: &str, r: McpServer)
    requires
        call_ensures(ops::tool_definitions, (), editor),
        call_ensures(runtime::game_tool_definitions, (), game),
        call_ensures(server::server_for, (endpoint, version), r),
    ensures
        editor@ == tools::tools_json(ops::editor_tools()),
        game@ == tools::tools_json(runtime::game_tools()),
        r.endpoint == endpoint,
        r.version@ == version@,
        endpoint == Endpoint::Editor ==> r.name@ == "godot-agent"@ && r.tools@ == editor@,
        endpoint == Endpoint::Game ==> r.name@ == "godot-agent-game"@ && r.tools@ == game@,
{
    assert(r@.endpoint == r.endpoint);
}

} // verus!
