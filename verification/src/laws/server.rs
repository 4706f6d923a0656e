//! Laws of the server: from the fields of a message to the reply or the job.

use vstd::prelude::*;

use crate::json::{Json, JsonView};
use crate::ops::EditorOpView;
use crate::server::{
    Answer, AnswerView, Endpoint, HttpReply, JobView, McpServer, Next, NextView, ServerView,
    ToolJob, Wait,
};
use crate::{codec, ops, runtime, server, tools};

verus! {

/// A reply without a body has its status and nothing else; a JSON reply has its
/// status, its type, and the compact text of the value in UTF-8.
pub proof fn law_replies(status: u16, value: JsonView)
    ensures
        server::bare_reply(status).status == status,
        server::bare_reply(status).content_type is None,
        server::bare_reply(status).body.len() == 0,
        server::json_reply(status, value).status == status,
        server::json_reply(status, value).content_type == Some("application/json"@),
        server::json_reply(status, value).body == vstd::utf8::encode_utf8(
            codec::json_compact(value),
        ),
{
}

/// Whether what follows from a message is a reply with status 200 and a JSON
/// value.
pub open spec fn answers(server: ServerView, message: JsonView, value: JsonView) -> bool {
    server::body_next(server, Some(Ok(message))) == NextView::Reply(server::json_reply(200, value))
}

/// Whether a value is a JSON-RPC response under an id that holds a result.
pub open spec fn is_result(value: JsonView, id: JsonView, result: JsonView) -> bool {
    &&& value is Object
    &&& value->Object_0.dom() == set!["jsonrpc"@, "id"@, "result"@]
    &&& value.field("jsonrpc"@) == Some(JsonView::Text("2.0"@))
    &&& value.field("id"@) == Some(id)
    &&& value.field("result"@) == Some(result)
}

/// Whether a value is a JSON-RPC response under an id that holds an error.
pub open spec fn is_error(
    value: JsonView,
    id: JsonView,
    code: int,
    message: Seq<char>,
) -> bool {
    &&& value is Object
    &&& value->Object_0.dom() == set!["jsonrpc"@, "id"@, "error"@]
    &&& value.field("jsonrpc"@) == Some(JsonView::Text("2.0"@))
    &&& value.field("id"@) == Some(id)
    &&& value.field("error"@) is Some
    &&& value.field("error"@)->0 is Object
    &&& value.field("error"@)->0->Object_0.dom() == set!["code"@, "message"@]
    &&& value.field("error"@)->0.field("code"@) is Some
    &&& value.field("error"@)->0.field("code"@)->0 is Integer
    &&& value.field("error"@)->0.field("code"@)->0->Integer_0 == code
    &&& value.field("error"@)->0.field("message"@) == Some(JsonView::Text(message))
}

proof fn lemma_result(id: JsonView, result: JsonView)
    ensures
        is_result(server::rpc_result(id, result), id, result),
{
    server::lemma_rpc_keys();
    assert(server::rpc_result(id, result)->Object_0.dom() =~= set![
        "jsonrpc"@,
        "id"@,
        "result"@,
    ]);
}

proof fn lemma_error(id: JsonView, code: i64, message: Seq<char>)
    ensures
        is_error(server::rpc_error(id, code, message), id, code as int, message),
{
    server::lemma_rpc_keys();
    reveal_strlit("code");
    reveal_strlit("message");
    assert("code"@.len() == 4);
    assert("message"@.len() == 7);
    let value = server::rpc_error(id, code, message);
    assert(value->Object_0.dom() =~= set!["jsonrpc"@, "id"@, "error"@]);
    assert(value.field("error"@)->0->Object_0.dom() =~= set!["code"@, "message"@]);
}

proof fn lemma_methods()
    ensures
        "initialize"@ != "ping"@,
        "initialize"@ != "tools/list"@,
        "initialize"@ != "tools/call"@,
        "ping"@ != "tools/list"@,
        "ping"@ != "tools/call"@,
        "tools/list"@ != "tools/call"@,
        ""@ != "initialize"@,
        ""@ != "ping"@,
        ""@ != "tools/list"@,
        ""@ != "tools/call"@,
{
    reveal_strlit("initialize");
    reveal_strlit("ping");
    reveal_strlit("tools/list");
    reveal_strlit("tools/call");
    reveal_strlit("");
    assert("initialize"@.len() == 10 && "initialize"@[0] == 'i');
    assert("ping"@.len() == 4);
    assert("tools/list"@.len() == 10 && "tools/list"@[6] == 'l' && "tools/list"@[0] == 't');
    assert("tools/call"@.len() == 10 && "tools/call"@[6] == 'c' && "tools/call"@[0] == 't');
    assert(""@.len() == 0);
}

/// Whether a message is a request under an id for a method.
pub open spec fn requests(message: JsonView, id: JsonView, method: Seq<char>) -> bool {
    &&& message.field("id"@) == Some(id)
    &&& id != JsonView::Null
    &&& message.field("method"@) == Some(JsonView::Text(method))
}

/// A body that could not be read is a bad request. One that is no JSON is
/// answered with an error under no id that tells what is wrong with it.
pub proof fn law_bad_body(server: ServerView, message: Seq<char>)
    ensures
        server::body_next(server, None) == NextView::Reply(server::bare_reply(400)),
        exists|value: JsonView|
            is_error(value, JsonView::Null, -32700, "Parse error: "@ + message) && server::body_next(
                server,
                Some(Err(message)),
            ) == NextView::Reply(#[trigger] server::json_reply(400, value)),
{
    let text = "Parse error: "@ + message;
    lemma_error(JsonView::Null, server::PARSE_ERROR, text);
    let value = server::rpc_error(JsonView::Null, server::PARSE_ERROR, text);
    assert(server::body_next(server, Some(Err(message))) == NextView::Reply(server::json_reply(400, value)));
}

/// A message without an id, or with a null one, is accepted and no more.
pub proof fn law_notification(server: ServerView, message: JsonView)
    requires
        message.field("id"@) is None || message.field("id"@) == Some(JsonView::Null),
    ensures
        server::body_next(server, Some(Ok(message))) == NextView::Reply(server::bare_reply(202)),
{
}

/// `initialize` is answered with the protocol version that the client names, or
/// else the default one, with what the server can do, and with its name and
/// version.
pub proof fn law_initialize(server: ServerView, message: JsonView, id: JsonView)
    requires
        requests(message, id, "initialize"@),
    ensures
        exists|value: JsonView, result: JsonView|
            #![trigger is_result(value, id, result)]
            is_result(value, id, result) && answers(server, message, value) && {
                &&& result is Object
                &&& result->Object_0.dom() == set![
                    "protocolVersion"@,
                    "capabilities"@,
                    "serverInfo"@,
                ]
                &&& result.field("protocolVersion"@) == Some(
                    match message.field("params"@) {
                        Some(params) => match params.field("protocolVersion"@) {
                            Some(JsonView::Text(version)) => JsonView::Text(version),
                            _ => JsonView::Text("2024-11-05"@),
                        },
                        None => JsonView::Text("2024-11-05"@),
                    },
                )
                &&& result.field("capabilities"@) == Some(
                    JsonView::Object(
                        Map::<Seq<char>, JsonView>::empty().insert(
                            "tools"@,
                            JsonView::Object(Map::empty()),
                        ),
                    ),
                )
                &&& result.field("serverInfo"@) is Some
                &&& result.field("serverInfo"@)->0 is Object
                &&& result.field("serverInfo"@)->0->Object_0.dom() == set!["name"@, "version"@]
                &&& result.field("serverInfo"@)->0.field("name"@) == Some(
                    JsonView::Text(server.name),
                )
                &&& result.field("serverInfo"@)->0.field("version"@) == Some(
                    JsonView::Text(server.version),
                )
            },
{
    lemma_methods();
    reveal_strlit("protocolVersion");
    reveal_strlit("capabilities");
    reveal_strlit("serverInfo");
    reveal_strlit("name");
    reveal_strlit("version");
    assert("protocolVersion"@.len() == 15);
    assert("capabilities"@.len() == 12);
    assert("serverInfo"@.len() == 10);
    assert("name"@.len() == 4);
    assert("version"@.len() == 7);
    let params = server::value_or_empty(message.field("params"@));
    let result = server::initialize_result(server, params);
    lemma_result(id, result);
    let value = server::rpc_result(id, result);
    assert(result->Object_0.dom() =~= set![
        "protocolVersion"@,
        "capabilities"@,
        "serverInfo"@,
    ]);
    assert(result.field("serverInfo"@)->0->Object_0.dom() =~= set!["name"@, "version"@]);
    assert(is_result(value, id, result) && answers(server, message, value));
}

/// `ping` is answered with an empty result.
pub proof fn law_ping(server: ServerView, message: JsonView, id: JsonView)
    requires
        requests(message, id, "ping"@),
    ensures
        exists|value: JsonView|
            is_result(value, id, JsonView::Object(Map::empty())) && #[trigger] answers(
                server,
                message,
                value,
            ),
{
    lemma_methods();
    let result = JsonView::Object(Map::<Seq<char>, JsonView>::empty());
    lemma_result(id, result);
    assert(answers(server, message, server::rpc_result(id, result)));
}

/// `tools/list` is answered with the tools of the server.
pub proof fn law_list(server: ServerView, message: JsonView, id: JsonView)
    requires
        requests(message, id, "tools/list"@),
    ensures
        exists|value: JsonView|
            is_result(
                value,
                id,
                JsonView::Object(
                    Map::<Seq<char>, JsonView>::empty().insert("tools"@, server.tools),
                ),
            ) && #[trigger] answers(server, message, value),
{
    lemma_methods();
    let result = JsonView::Object(
        Map::<Seq<char>, JsonView>::empty().insert("tools"@, server.tools),
    );
    lemma_result(id, result);
    assert(answers(server, message, server::rpc_result(id, result)));
}

/// A request for any other method, or for none, is answered with an error that
/// names the method.
pub proof fn law_other_method(
    server: ServerView,
    message: JsonView,
    id: JsonView,
    method: Seq<char>,
)
    requires
        message.field("id"@) == Some(id),
        id != JsonView::Null,
        match message.field("method"@) {
            Some(JsonView::Text(name)) => method == name,
            _ => method == ""@,
        },
        method != "initialize"@,
        method != "ping"@,
        method != "tools/list"@,
        method != "tools/call"@,
    ensures
        exists|value: JsonView|
            is_error(value, id, -32601, "Method not found: "@ + method) && #[trigger] answers(
                server,
                message,
                value,
            ),
{
    let code: i64 = server::METHOD_NOT_FOUND;
    lemma_error(id, code, "Method not found: "@ + method);
    let value = server::rpc_error(id, code, "Method not found: "@ + method);
    assert(answers(server, message, value));
}

/// Whether a message is a request to call a tool: under an id, by the name that
/// its parameters hold, or the empty one, with the arguments that they hold, or
/// an empty object.
pub open spec fn calls(
    message: JsonView,
    id: JsonView,
    name: Seq<char>,
    args: JsonView,
) -> bool {
    let params = match message.field("params"@) {
        Some(params) => params,
        None => JsonView::Null,
    };
    &&& requests(message, id, "tools/call"@)
    &&& match params.field("name"@) {
        Some(JsonView::Text(text)) => name == text,
        _ => name == ""@,
    }
    &&& match params.field("arguments"@) {
        Some(value) => args == value,
        None => args == JsonView::Object(Map::empty()),
    }
}

/// A call that reaches the game is queued under the id of the request, with the
/// name and the arguments that the request holds, whatever they are.
pub proof fn law_game_call_is_queued(
    server: ServerView,
    message: JsonView,
    id: JsonView,
    name: Seq<char>,
    args: JsonView,
)
    requires
        server.endpoint == Endpoint::Game,
        calls(message, id, name, args),
    ensures
        server::body_next(server, Some(Ok(message))) == (NextView::Queue {
            id,
            screenshot: name == "capture_screenshot"@,
            job: JobView::Game { name, args },
        }),
{
    lemma_methods();
}

/// A call that reaches the editor is queued under the id of the request, with
/// the operation that it asks for. One that asks for none is answered at once
/// with the reason.
pub proof fn law_editor_call_is_queued(
    server: ServerView,
    message: JsonView,
    id: JsonView,
    name: Seq<char>,
    args: JsonView,
)
    requires
        server.endpoint == Endpoint::Editor,
        calls(message, id, name, args),
    ensures
        match ops::tool_call(name, args) {
            Ok(op) => server::body_next(server, Some(Ok(message))) == (NextView::Queue {
                id,
                screenshot: false,
                job: JobView::Editor(op),
            }),
            Err(reason) => answers(
                server,
                message,
                server::call_response(id, false, Err::<JsonView, Seq<char>>(reason)),
            ),
        },
{
    lemma_methods();
}

/// Whether a value is a piece of content that is a text.
pub open spec fn is_text(value: JsonView, text: Seq<char>) -> bool {
    &&& value is Object
    &&& value->Object_0.dom() == set!["type"@, "text"@]
    &&& value.field("type"@) == Some(JsonView::Text("text"@))
    &&& value.field("text"@) == Some(JsonView::Text(text))
}

/// Whether a value is a piece of content that is an image.
pub open spec fn is_image(value: JsonView, data: Seq<char>, mime: Seq<char>) -> bool {
    &&& value is Object
    &&& value->Object_0.dom() == set!["type"@, "data"@, "mimeType"@]
    &&& value.field("type"@) == Some(JsonView::Text("image"@))
    &&& value.field("data"@) == Some(JsonView::Text(data))
    &&& value.field("mimeType"@) == Some(JsonView::Text(mime))
}

proof fn lemma_content_keys()
    ensures
        "type"@ != "text"@,
        "type"@ != "data"@,
        "type"@ != "mimeType"@,
        "data"@ != "mimeType"@,
        "content"@ != "isError"@,
{
    reveal_strlit("type");
    reveal_strlit("text");
    reveal_strlit("data");
    reveal_strlit("mimeType");
    reveal_strlit("content");
    reveal_strlit("isError");
    assert("type"@[1] == 'y');
    assert("text"@[1] == 'e');
    assert("data"@.len() == 4 && "data"@[0] == 'd' && "type"@[0] == 't');
    assert("mimeType"@.len() == 8 && "type"@.len() == 4);
    assert("content"@[0] == 'c');
    assert("isError"@[0] == 'i');
}

/// A call is answered under its id with one piece of content. That of a failed
/// call is the message, and the result is marked. That of a successful one is
/// the value as a text, but for a screenshot: that is an image.
pub proof fn law_call_response(
    id: JsonView,
    screenshot: bool,
    outcome: Result<JsonView, Seq<char>>,
)
    ensures
        exists|result: JsonView, block: JsonView|
            #![trigger is_result(server::call_response(id, screenshot, outcome), id, result), single(result, block)]
            is_result(server::call_response(id, screenshot, outcome), id, result) && single(result, block)
                && match outcome {
                Err(message) => {
                    &&& result->Object_0.dom() == set!["content"@, "isError"@]
                    &&& result.field("isError"@) == Some(JsonView::Bool(true))
                    &&& is_text(block, message)
                },
                Ok(value) => {
                    &&& result->Object_0.dom() == set!["content"@]
                    &&& match server::image_of(value) {
                        Some((data, mime)) => if screenshot {
                            is_image(block, data, mime)
                        } else {
                            is_text(block, server::result_text(value))
                        },
                        None => is_text(block, server::result_text(value)),
                    }
                },
            },
{
    lemma_content_keys();
    let result = server::tool_result(screenshot, outcome);
    let block = result.field("content"@)->0->Array_0[0];
    lemma_result(id, result);
    match outcome {
        Err(message) => {
            assert(block->Object_0.dom() =~= set!["type"@, "text"@]);
            assert(result->Object_0.dom() =~= set!["content"@, "isError"@]);
        },
        Ok(value) => {
            if server::image_of(value) is Some && screenshot {
                assert(block->Object_0.dom() =~= set!["type"@, "data"@, "mimeType"@]);
            } else {
                assert(block->Object_0.dom() =~= set!["type"@, "text"@]);
            }
            assert(result->Object_0.dom() =~= set!["content"@]);
        },
    }
    assert(is_result(server::call_response(id, screenshot, outcome), id, result) && single(result, block));
}

/// Whether a tool result holds one piece of content.
pub open spec fn single(result: JsonView, block: JsonView) -> bool {
    &&& result is Object
    &&& result.field("content"@) == Some(JsonView::Array(seq![block]))
}

/// A text is shown as it is, anything else as indented JSON.
pub proof fn law_result_text(value: JsonView, text: Seq<char>)
    ensures
        server::result_text(JsonView::Text(text)) == text,
        !(value is Text) ==> server::result_text(value) == codec::json_pretty(value),
{
}

/// An image is an object of its file and its type, two texts, and nothing else.
pub proof fn law_image(value: JsonView, data: Seq<char>, mime: Seq<char>)
    ensures
        server::image_of(value) == Some((data, mime)) <==> {
            &&& value is Object
            &&& value->Object_0.dom() == set!["_image_base64"@, "_mime"@]
            &&& value.field("_image_base64"@) == Some(JsonView::Text(data))
            &&& value.field("_mime"@) == Some(JsonView::Text(mime))
        },
{
    reveal_strlit("_image_base64");
    reveal_strlit("_mime");
    assert("_image_base64"@.len() == 13);
    assert("_mime"@.len() == 5);
    let image = runtime::image_json(data, mime);
    assert(image->Object_0.dom() =~= set!["_image_base64"@, "_mime"@]);
    if value is Object && value->Object_0.dom() == set!["_image_base64"@, "_mime"@]
        && value.field("_image_base64"@) == Some(JsonView::Text(data)) && value.field("_mime"@)
        == Some(JsonView::Text(mime)) {
        assert(value->Object_0 =~= image->Object_0);
    }
}

/// A job that the queue does not take, or that is not answered in time, fails
/// in these words; an answer is what it is.
pub proof fn law_wait(wait: Wait, value: Json, message: String)
    ensures
        wait is Closed ==> server::wait_outcome(wait) == Err::<JsonView, Seq<char>>(
            "Editor plugin is shutting down"@,
        ),
        wait is TimedOut ==> server::wait_outcome(wait) == Err::<JsonView, Seq<char>>(
            "Timed out waiting for the editor main thread. The editor may be busy (e.g. a modal dialog is open) or the scene is playing with the editor paused."@,
        ),
        server::wait_outcome(Wait::Answered(Ok(value))) == Ok::<JsonView, Seq<char>>(value@),
        server::wait_outcome(Wait::Answered(Err(message))) == Err::<JsonView, Seq<char>>(message@),
        server::outcome_view(Ok(value)) == Ok::<JsonView, Seq<char>>(value@),
        server::outcome_view(Err(message)) == Err::<JsonView, Seq<char>>(message@),
{
}

/// The servers of the two endpoints go by these names, tell the version that
/// they are given, and serve the tools of their side.
pub proof fn law_servers(endpoint: Endpoint, version: Seq<char>)
    ensures
        server::endpoint_server(endpoint, version).endpoint == endpoint,
        server::endpoint_server(endpoint, version).version == version,
        endpoint == Endpoint::Editor ==> {
            &&& server::endpoint_server(endpoint, version).name == "godot-agent"@
            &&& server::endpoint_server(endpoint, version).tools == tools::tools_json(
                ops::editor_tools(),
            )
        },
        endpoint == Endpoint::Game ==> {
            &&& server::endpoint_server(endpoint, version).name == "godot-agent-game"@
            &&& server::endpoint_server(endpoint, version).tools == tools::tools_json(
                runtime::game_tools(),
            )
        },
{
}

/// The views of replies, jobs, answers and servers tell everything of them.
pub proof fn law_views(
    reply: HttpReply,
    job: ToolJob,
    answer: Answer,
    next: Next,
    server: McpServer,
)
    ensures
        reply@.status == reply.status,
        reply@.body == reply.body@,
        reply.content_type is None ==> reply@.content_type is None,
        reply.content_type matches Some(kind) ==> reply@.content_type == Some(kind@),
        match job {
            ToolJob::Editor(op) => job@ == JobView::Editor(op@),
            ToolJob::Game { name, args } => job@ == (JobView::Game { name: name@, args: args@ }),
        },
        match answer {
            Answer::Accepted => answer@ == AnswerView::Accepted,
            Answer::Respond(value) => answer@ == AnswerView::Respond(value@),
            Answer::Call { id, name, args } => answer@ == (AnswerView::Call {
                id: id@,
                name: name@,
                args: args@,
            }),
        },
        match next {
            Next::Reply(reply) => next@ == NextView::Reply(reply@),
            Next::Queue { id, screenshot, job } => next@ == (NextView::Queue {
                id: id@,
                screenshot,
                job: job@,
            }),
        },
        server@.endpoint == server.endpoint,
        server@.name == server.name@,
        server@.version == server.version@,
        server@.tools == server.tools@,
{
}

} // verus!
