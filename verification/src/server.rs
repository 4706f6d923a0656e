//! The MCP server: JSON-RPC over HTTP POST, in stateless JSON mode.
//!
//! A request is answered in steps. The method of the request decides first
//! ([`method_reply`]), then its body ([`McpServer::receive`]). The job of a tool
//! call is handed to the main thread of the engine, and what becomes of it is
//! put into the reply ([`queued_reply`]).

use vstd::prelude::*;

use crate::codec::{compact_bytes, parse_json, pretty_text};
use crate::json::{Fields, Json, JsonView};
use crate::ops::{parse_tool_call, tool_definitions, EditorOp, EditorOpView};
use crate::runtime::{game_tool_definitions, CAPTURE_SCREENSHOT, IMAGE_FIELD, MIME_FIELD};
use crate::text::same;

verus! {

/// The port of the editor's endpoint.
pub const DEFAULT_PORT: u16 = 6010;

/// The port of the running game's endpoint.
pub const DEFAULT_GAME_PORT: u16 = 6011;

/// How long a tool call waits for the main thread, in seconds.
pub const TOOL_TIMEOUT_SECS: u64 = 30;

/// The protocol version that is named to a client that names none.
pub const DEFAULT_PROTOCOL: &'static str = "2024-11-05";

pub const PARSE_ERROR: i64 = -32700;

pub const METHOD_NOT_FOUND: i64 = -32601;

/// The method of an HTTP request, as far as it matters.
#[derive(Debug, Clone, Copy, PartialEq, Eq, Structural)]
pub enum HttpMethod {
    Post,
    Delete,
    Other,
}

/// A reply to an HTTP request.
#[derive(Debug)]
pub struct HttpReply {
    pub status: u16,
    pub content_type: Option<String>,
    pub body: Vec<u8>,
}

/// What a reply is.
#[verifier::ext_equal]
pub struct ReplyView {
    pub status: u16,
    pub content_type: Option<Seq<char>>,
    pub body: Seq<u8>,
}

impl View for HttpReply {
    type V = ReplyView;

    open spec fn view(&self) -> ReplyView {
        ReplyView {
            status: self.status,
            content_type: match self.content_type {
                Some(kind) => Some(kind@),
                None => None,
            },
            body: self.body@,
        }
    }
}

/// A reply without a body.
pub open spec fn bare_reply(status: u16) -> ReplyView {
    ReplyView { status, content_type: None, body: Seq::empty() }
}

/// A reply whose body is the compact text of a JSON value.
pub open spec fn json_reply(status: u16, value: JsonView) -> ReplyView {
    ReplyView {
        status,
        content_type: Some("application/json"@),
        body: vstd::utf8::encode_utf8(crate::codec::json_compact(value)),
    }
}

/// Makes a reply without a body.
pub fn empty_response(status: u16) -> (r: HttpReply)
    ensures
        r@ == bare_reply(status),
{
    HttpReply { status, content_type: None, body: Vec::new() }
}

/// Makes a reply of a JSON value.
pub fn json_response(status: u16, value: &Json) -> (r: HttpReply)
    ensures
        r@ == json_reply(status, value@),
{
    HttpReply {
        status,
        content_type: Some("application/json".to_owned()),
        body: compact_bytes(value),
    }
}

/// The reply that the method of a request alone decides; the body of a POST
/// has to be read.
pub fn method_reply(method: HttpMethod) -> (r: Option<HttpReply>)
    ensures
        match r {
            None => method == HttpMethod::Post,
            Some(reply) => match method {
                HttpMethod::Post => false,
                HttpMethod::Delete => reply@ == bare_reply(200),
                HttpMethod::Other => reply@ == bare_reply(405),
            },
        },
{
    match method {
        HttpMethod::Post => None,
        HttpMethod::Delete => Some(empty_response(200)),
        HttpMethod::Other => Some(empty_response(405)),
    }
}

/// The head of every JSON-RPC response.
pub open spec fn rpc_head(id: JsonView) -> Map<Seq<char>, JsonView> {
    Map::<Seq<char>, JsonView>::empty().insert("jsonrpc"@, JsonView::Text("2.0"@)).insert(
        "id"@,
        id,
    )
}

/// A JSON-RPC response with a result.
pub open spec fn rpc_result(id: JsonView, result: JsonView) -> JsonView {
    JsonView::Object(rpc_head(id).insert("result"@, result))
}

/// A JSON-RPC response with an error.
pub open spec fn rpc_error(id: JsonView, code: i64, message: Seq<char>) -> JsonView {
    JsonView::Object(
        rpc_head(id).insert(
            "error"@,
            JsonView::Object(
                Map::<Seq<char>, JsonView>::empty().insert(
                    "code"@,
                    JsonView::Integer(code),
                ).insert("message"@, JsonView::Text(message)),
            ),
        ),
    )
}

fn result_json(id: Json, result: Json) -> (r: Json)
    ensures
        r@ == rpc_result(id@, result@),
{
    Json::Object(
        Fields::new().with("jsonrpc", Json::text("2.0")).with("id", id).with("result", result),
    )
}

fn error_json(id: Json, code: i64, message: &str) -> (r: Json)
    ensures
        r@ == rpc_error(id@, code, message@),
{
    let error = Fields::new().with("code", Json::Integer(code)).with(
        "message",
        Json::text(message),
    );
    Json::Object(
        Fields::new().with("jsonrpc", Json::text("2.0")).with("id", id).with(
            "error",
            Json::Object(error),
        ),
    )
}

/// Where an endpoint lives.
#[derive(Debug, Clone, Copy, PartialEq, Eq, Structural)]
pub enum Endpoint {
    Editor,
    Game,
}

/// What a tool call asks of the main thread.
#[derive(Debug)]
pub enum ToolJob {
    /// An operation of the editor.
    Editor(EditorOp),
    /// A call that the game itself reads.
    Game { name: String, args: Json },
}

/// What a job is.
#[verifier::ext_equal]
pub enum JobView {
    Editor(EditorOpView),
    Game { name: Seq<char>, args: JsonView },
}

impl View for ToolJob {
    type V = JobView;

    open spec fn view(&self) -> JobView {
        match self {
            ToolJob::Editor(op) => JobView::Editor(op@),
            ToolJob::Game { name, args } => JobView::Game { name: name@, args: args@ },
        }
    }
}

/// The job of a tool call, or why the call is refused before it is queued.
pub open spec fn call_job(endpoint: Endpoint, name: Seq<char>, args: JsonView) -> Result<
    JobView,
    Seq<char>,
> {
    match endpoint {
        Endpoint::Editor => match crate::ops::tool_call(name, args) {
            Ok(op) => Ok(JobView::Editor(op)),
            Err(message) => Err(message),
        },
        Endpoint::Game => Ok(JobView::Game { name, args }),
    }
}

/// Makes the job of a tool call.
pub fn begin_call(endpoint: Endpoint, name: String, args: Json) -> (r: Result<ToolJob, String>)
    ensures
        match r {
            Ok(job) => call_job(endpoint, name@, args@) == Ok::<JobView, Seq<char>>(job@),
            Err(message) => call_job(endpoint, name@, args@) == Err::<JobView, Seq<char>>(
                message@,
            ),
        },
{
    match endpoint {
        Endpoint::Editor => match parse_tool_call(name.as_str(), &args) {
            Ok(op) => Ok(ToolJob::Editor(op)),
            Err(message) => Err(message),
        },
        Endpoint::Game => Ok(ToolJob::Game { name, args }),
    }
}

/// Whether a job is a call of the game's screenshot tool.
pub open spec fn is_screenshot(job: JobView) -> bool {
    job matches JobView::Game { name, args } && name == CAPTURE_SCREENSHOT@
}

/// Tells whether a job is a call of the game's screenshot tool.
pub fn asks_screenshot(job: &ToolJob) -> (r: bool)
    ensures
        r == is_screenshot(job@),
{
    match job {
        ToolJob::Editor(_) => false,
        ToolJob::Game { name, args: _ } => same(name.as_str(), CAPTURE_SCREENSHOT),
    }
}

/// What a server says of itself.
#[derive(Debug)]
pub struct McpServer {
    pub endpoint: Endpoint,
    pub name: String,
    pub version: String,
    /// The list of its tools, as `tools/list` gives it.
    pub tools: Json,
}

/// What a server is.
pub struct ServerView {
    pub endpoint: Endpoint,
    pub name: Seq<char>,
    pub version: Seq<char>,
    pub tools: JsonView,
}

impl View for McpServer {
    type V = ServerView;

    open spec fn view(&self) -> ServerView {
        ServerView {
            endpoint: self.endpoint,
            name: self.name@,
            version: self.version@,
            tools: self.tools@,
        }
    }
}

/// The answer to a JSON-RPC message.
#[derive(Debug)]
pub enum Answer {
    /// The message is a notification and gets no response.
    Accepted,
    Respond(Json),
    /// A tool has to be called; the response follows from what comes of it.
    Call { id: Json, name: String, args: Json },
}

/// What an answer is.
#[verifier::ext_equal]
pub enum AnswerView {
    Accepted,
    Respond(JsonView),
    Call { id: JsonView, name: Seq<char>, args: JsonView },
}

impl View for Answer {
    type V = AnswerView;

    open spec fn view(&self) -> AnswerView {
        match self {
            Answer::Accepted => AnswerView::Accepted,
            Answer::Respond(value) => AnswerView::Respond(value@),
            Answer::Call { id, name, args } => AnswerView::Call {
                id: id@,
                name: name@,
                args: args@,
            },
        }
    }
}

/// A text that may be missing, or another in its place.
pub open spec fn text_or(value: Option<Seq<char>>, other: Seq<char>) -> Seq<char> {
    match value {
        Some(s) => s,
        None => other,
    }
}

/// A value that may be missing, or the empty object in its place.
pub open spec fn value_or_empty(value: Option<JsonView>) -> JsonView {
    match value {
        Some(v) => v,
        None => JsonView::Object(Map::empty()),
    }
}

/// The result of `initialize`: the protocol version of the client, or the
/// default one, and what the server is.
pub open spec fn initialize_result(server: ServerView, params: JsonView) -> JsonView {
    let empty = Map::<Seq<char>, JsonView>::empty();
    JsonView::Object(
        empty.insert(
            "protocolVersion"@,
            JsonView::Text(text_or(params.text_field("protocolVersion"@), DEFAULT_PROTOCOL@)),
        ).insert(
            "capabilities"@,
            JsonView::Object(empty.insert("tools"@, JsonView::Object(empty))),
        ).insert(
            "serverInfo"@,
            JsonView::Object(
                empty.insert("name"@, JsonView::Text(server.name)).insert(
                    "version"@,
                    JsonView::Text(server.version),
                ),
            ),
        ),
    )
}

/// The answer to a request that carries an id.
pub open spec fn request_answer(
    server: ServerView,
    id: JsonView,
    method: Seq<char>,
    params: JsonView,
) -> AnswerView {
    let empty = Map::<Seq<char>, JsonView>::empty();
    if method == "initialize"@ {
        AnswerView::Respond(rpc_result(id, initialize_result(server, params)))
    } else if method == "ping"@ {
        AnswerView::Respond(rpc_result(id, JsonView::Object(empty)))
    } else if method == "tools/list"@ {
        AnswerView::Respond(
            rpc_result(id, JsonView::Object(empty.insert("tools"@, server.tools))),
        )
    } else if method == "tools/call"@ {
        AnswerView::Call {
            id,
            name: text_or(params.text_field("name"@), ""@),
            args: value_or_empty(params.field("arguments"@)),
        }
    } else {
        AnswerView::Respond(rpc_error(id, METHOD_NOT_FOUND, "Method not found: "@ + method))
    }
}

/// The answer to a message. One without an id, or whose id is null, is a
/// notification, whatever else it holds.
pub open spec fn message_answer(server: ServerView, message: JsonView) -> AnswerView {
    match message.field("id"@) {
        None => AnswerView::Accepted,
        Some(JsonView::Null) => AnswerView::Accepted,
        Some(id) => request_answer(
            server,
            id,
            text_or(message.text_field("method"@), ""@),
            value_or_empty(message.field("params"@)),
        ),
    }
}

/// What the server of an endpoint is.
pub open spec fn endpoint_server(endpoint: Endpoint, version: Seq<char>) -> ServerView {
    match endpoint {
        Endpoint::Editor => ServerView {
            endpoint,
            name: "godot-agent"@,
            version,
            tools: crate::tools::tools_json(crate::ops::editor_tools()),
        },
        Endpoint::Game => ServerView {
            endpoint,
            name: "godot-agent-game"@,
            version,
            tools: crate::tools::tools_json(crate::runtime::game_tools()),
        },
    }
}

/// Makes the server of an endpoint.
pub fn server_for(endpoint: Endpoint, version: &str) -> (r: McpServer)
    ensures
        r@ == endpoint_server(endpoint, version@),
{
    match endpoint {
        Endpoint::Editor => McpServer {
            endpoint,
            name: "godot-agent".to_owned(),
            version: version.to_owned(),
            tools: tool_definitions(),
        },
        Endpoint::Game => McpServer {
            endpoint,
            name: "godot-agent-game".to_owned(),
            version: version.to_owned(),
            tools: game_tool_definitions(),
        },
    }
}

/// What a result is that a tool call may have.
pub open spec fn outcome_view(outcome: Result<Json, String>) -> Result<JsonView, Seq<char>> {
    match outcome {
        Ok(value) => Ok(value@),
        Err(message) => Err(message@),
    }
}

/// A value as a text for the client: a text as it is, anything else as
/// indented JSON.
pub open spec fn result_text(value: JsonView) -> Seq<char> {
    match value {
        JsonView::Text(s) => s,
        _ => crate::codec::json_pretty(value),
    }
}

/// Turns a value into a text for the client.
pub fn stringify_result(value: &Json) -> (r: String)
    ensures
        r@ == result_text(value@),
{
    match value {
        Json::Text(s) => s.clone(),
        _ => pretty_text(value),
    }
}

/// The file and the type of the image that a value is, where it is one.
pub open spec fn image_of(value: JsonView) -> Option<(Seq<char>, Seq<char>)> {
    match (value.text_field(IMAGE_FIELD@), value.text_field(MIME_FIELD@)) {
        (Some(data), Some(mime)) => if value == crate::runtime::image_json(data, mime) {
            Some((data, mime))
        } else {
            None
        },
        _ => None,
    }
}

/// A piece of content that is a text.
pub open spec fn text_block(text: Seq<char>) -> JsonView {
    JsonView::Object(
        Map::<Seq<char>, JsonView>::empty().insert("type"@, JsonView::Text("text"@)).insert(
            "text"@,
            JsonView::Text(text),
        ),
    )
}

/// A piece of content that is an image.
pub open spec fn image_block(data: Seq<char>, mime: Seq<char>) -> JsonView {
    JsonView::Object(
        Map::<Seq<char>, JsonView>::empty().insert("type"@, JsonView::Text("image"@)).insert(
            "data"@,
            JsonView::Text(data),
        ).insert("mimeType"@, JsonView::Text(mime)),
    )
}

/// The piece of content that a value becomes: the image of a screenshot as an
/// image, anything else as a text.
pub open spec fn result_block(screenshot: bool, value: JsonView) -> JsonView {
    match image_of(value) {
        Some((data, mime)) if screenshot => image_block(data, mime),
        _ => text_block(result_text(value)),
    }
}

/// A tool result: one piece of content, and a mark where the call failed.
pub open spec fn tool_result(
    screenshot: bool,
    outcome: Result<JsonView, Seq<char>>,
) -> JsonView {
    let empty = Map::<Seq<char>, JsonView>::empty();
    match outcome {
        Ok(value) => JsonView::Object(
            empty.insert("content"@, JsonView::Array(seq![result_block(screenshot, value)])),
        ),
        Err(message) => JsonView::Object(
            empty.insert("content"@, JsonView::Array(seq![text_block(message)])).insert(
                "isError"@,
                JsonView::Bool(true),
            ),
        ),
    }
}

/// Looks for the file and the type of an image in a value.
fn find_image(value: &Json) -> (r: Option<(&str, &str)>)
    ensures
        image_of(value@) == (match r {
            Some((data, mime)) => Some((data@, mime@)),
            None => None,
        }),
{
    let fields = match value {
        Json::Object(fields) => fields,
        _ => return None,
    };
    match (value.text_field(IMAGE_FIELD), value.text_field(MIME_FIELD)) {
        (Some(data), Some(mime)) => {
            let ghost image = crate::runtime::image_json(data@, mime@);
            if fields.has_only(IMAGE_FIELD, MIME_FIELD) {
                assert(fields@ =~= image->Object_0);
                Some((data, mime))
            } else {
                None
            }
        },
        _ => None,
    }
}

fn block_of_text(text: String) -> (r: Json)
    ensures
        r@ == text_block(text@),
{
    Json::Object(Fields::new().with("type", Json::text("text")).with("text", Json::Text(text)))
}

fn block_of_result(screenshot: bool, value: &Json) -> (r: Json)
    ensures
        r@ == result_block(screenshot, value@),
{
    if screenshot {
        match find_image(value) {
            Some((data, mime)) => return Json::Object(
                Fields::new().with("type", Json::text("image")).with(
                    "data",
                    Json::text(data),
                ).with("mimeType", Json::text(mime)),
            ),
            None => {},
        }
    }
    block_of_text(stringify_result(value))
}

fn content_of(block: Json) -> (r: Json)
    ensures
        r@ == JsonView::Array(seq![block@]),
{
    let mut items: Vec<Json> = Vec::new();
    proof {
        assert(crate::json::views(items@) =~= Seq::<JsonView>::empty());
        crate::json::lemma_views_push(items@, block);
    }
    items.push(block);
    assert(crate::json::views(items@) =~= seq![block@]);
    Json::Array(items)
}

/// The response to a tool call.
pub open spec fn call_response(
    id: JsonView,
    screenshot: bool,
    outcome: Result<JsonView, Seq<char>>,
) -> JsonView {
    rpc_result(id, tool_result(screenshot, outcome))
}

/// Replies to a tool call, which may be one of the screenshot tool.
pub fn call_reply(id: Json, screenshot: bool, outcome: Result<Json, String>) -> (r: HttpReply)
    ensures
        r@ == json_reply(200, call_response(id@, screenshot, outcome_view(outcome))),
{
    let result = match outcome {
        Ok(value) => Json::Object(
            Fields::new().with("content", content_of(block_of_result(screenshot, &value))),
        ),
        Err(message) => Json::Object(
            Fields::new().with("content", content_of(block_of_text(message))).with(
                "isError",
                Json::Bool(true),
            ),
        ),
    };
    json_response(200, &result_json(id, result))
}

/// What follows once the body of a request is read.
#[derive(Debug)]
pub enum Next {
    Reply(HttpReply),
    /// Queue the job; [`queued_reply`] replies under the id, and is told whether
    /// the job is a call of the screenshot tool.
    Queue { id: Json, screenshot: bool, job: ToolJob },
}

/// What follows, as a value.
#[verifier::ext_equal]
pub enum NextView {
    Reply(ReplyView),
    Queue { id: JsonView, screenshot: bool, job: JobView },
}

impl View for Next {
    type V = NextView;

    open spec fn view(&self) -> NextView {
        match self {
            Next::Reply(reply) => NextView::Reply(reply@),
            Next::Queue { id, screenshot, job } => NextView::Queue {
                id: id@,
                screenshot: *screenshot,
                job: job@,
            },
        }
    }
}

/// What follows from the answer to a message: a tool call that is refused is
/// replied to at once.
pub open spec fn answer_next(endpoint: Endpoint, answer: AnswerView) -> NextView {
    match answer {
        AnswerView::Accepted => NextView::Reply(bare_reply(202)),
        AnswerView::Respond(value) => NextView::Reply(json_reply(200, value)),
        AnswerView::Call { id, name, args } => match call_job(endpoint, name, args) {
            Ok(job) => NextView::Queue { id, screenshot: is_screenshot(job), job },
            Err(message) => NextView::Reply(
                json_reply(200, call_response(id, false, Err::<JsonView, Seq<char>>(message))),
            ),
        },
    }
}

/// What follows from a body, given what reading it as JSON gave. A body that
/// could not be read as text at all has none.
pub open spec fn body_next(
    server: ServerView,
    parsed: Option<Result<JsonView, Seq<char>>>,
) -> NextView {
    match parsed {
        None => NextView::Reply(bare_reply(400)),
        Some(Err(message)) => NextView::Reply(
            json_reply(400, rpc_error(JsonView::Null, PARSE_ERROR, "Parse error: "@ + message)),
        ),
        Some(Ok(value)) => answer_next(server.endpoint, message_answer(server, value)),
    }
}

impl McpServer {
    fn initialize(&self, params: &Json) -> (r: Json)
        ensures
            r@ == initialize_result(self@, params@),
    {
        let protocol = match params.text_field("protocolVersion") {
            Some(version) => version,
            None => DEFAULT_PROTOCOL,
        };
        let capabilities = Fields::new().with("tools", Json::Object(Fields::new()));
        let info = Fields::new().with("name", Json::text(self.name.as_str())).with(
            "version",
            Json::text(self.version.as_str()),
        );
        Json::Object(
            Fields::new().with("protocolVersion", Json::text(protocol)).with(
                "capabilities",
                Json::Object(capabilities),
            ).with("serverInfo", Json::Object(info)),
        )
    }

    fn answer_request(&self, id: Json, method: &str, params: &Json) -> (r: Answer)
        ensures
            r@ == request_answer(self@, id@, method@, params@),
    {
        if same(method, "initialize") {
            Answer::Respond(result_json(id, self.initialize(params)))
        } else if same(method, "ping") {
            Answer::Respond(result_json(id, Json::Object(Fields::new())))
        } else if same(method, "tools/list") {
            let result = Fields::new().with("tools", self.tools.clone());
            Answer::Respond(result_json(id, Json::Object(result)))
        } else if same(method, "tools/call") {
            let name = match params.text_field("name") {
                Some(name) => name,
                None => "",
            };
            let args = match params.get("arguments") {
                Some(args) => args.clone(),
                None => Json::Object(Fields::new()),
            };
            Answer::Call { id, name: name.to_owned(), args }
        } else {
            let mut message = "Method not found: ".to_owned();
            message.append(method);
            Answer::Respond(error_json(id, METHOD_NOT_FOUND, message.as_str()))
        }
    }

    /// Answers a JSON-RPC message.
    pub fn answer(&self, message: &Json) -> (r: Answer)
        ensures
            r@ == message_answer(self@, message@),
    {
        let id = match message.get("id") {
            None => return Answer::Accepted,
            Some(id) => id,
        };
        match id {
            Json::Null => return Answer::Accepted,
            _ => {},
        }
        let method = match message.text_field("method") {
            Some(method) => method,
            None => "",
        };
        match message.get("params") {
            Some(params) => self.answer_request(id.clone(), method, params),
            None => self.answer_request(id.clone(), method, &Json::Object(Fields::new())),
        }
    }

    /// Decides what follows from a body, given what reading it as JSON gave.
    pub fn proceed(&self, parsed: Option<Result<Json, String>>) -> (r: Next)
        ensures
            r@ == body_next(
                self@,
                match parsed {
                    None => None,
                    Some(Ok(value)) => Some(Ok(value@)),
                    Some(Err(message)) => Some(Err(message@)),
                },
            ),
    {
        match parsed {
            None => Next::Reply(empty_response(400)),
            Some(Err(error)) => {
                let mut message = "Parse error: ".to_owned();
                message.append(error.as_str());
                Next::Reply(
                    json_response(400, &error_json(Json::Null, PARSE_ERROR, message.as_str())),
                )
            },
            Some(Ok(value)) => match self.answer(&value) {
                Answer::Accepted => Next::Reply(empty_response(202)),
                Answer::Respond(value) => Next::Reply(json_response(200, &value)),
                Answer::Call { id, name, args } => match begin_call(self.endpoint, name, args) {
                    Ok(job) => Next::Queue { id, screenshot: asks_screenshot(&job), job },
                    Err(message) => Next::Reply(call_reply(id, false, Err(message))),
                },
            },
        }
    }

    /// Takes the body of a POST, where it could be read as text.
    pub fn receive(&self, body: Option<&str>) -> (r: Next)
        ensures
            r@ == body_next(
                self@,
                match body {
                    None => None,
                    Some(text) => Some(crate::codec::json_read(text@)),
                },
            ),
    {
        match body {
            None => self.proceed(None),
            Some(text) => self.proceed(Some(parse_json(text))),
        }
    }
}

/// What became of a queued job.
#[derive(Debug)]
pub enum Wait {
    /// The queue is closed and did not take the job.
    Closed,
    /// No answer came in time.
    TimedOut,
    /// The main thread answered.
    Answered(Result<Json, String>),
}

pub const SHUTTING_DOWN: &'static str = "Editor plugin is shutting down";

pub const TIMED_OUT: &'static str = "Timed out waiting for the editor main thread. The editor may be busy (e.g. a modal dialog is open) or the scene is playing with the editor paused.";

/// What comes of a tool call.
pub open spec fn wait_outcome(wait: Wait) -> Result<JsonView, Seq<char>> {
    match wait {
        Wait::Closed => Err(SHUTTING_DOWN@),
        Wait::TimedOut => Err(TIMED_OUT@),
        Wait::Answered(outcome) => outcome_view(outcome),
    }
}

/// Tells what comes of a tool call.
pub fn call_outcome(wait: Wait) -> (r: Result<Json, String>)
    ensures
        outcome_view(r) == wait_outcome(wait),
{
    match wait {
        Wait::Closed => Err(SHUTTING_DOWN.to_owned()),
        Wait::TimedOut => Err(TIMED_OUT.to_owned()),
        Wait::Answered(outcome) => outcome,
    }
}

/// Replies to a tool call once it is known what became of its job.
pub fn queued_reply(id: Json, screenshot: bool, wait: Wait) -> (r: HttpReply)
    ensures
        r@ == json_reply(200, call_response(id@, screenshot, wait_outcome(wait))),
{
    call_reply(id, screenshot, call_outcome(wait))
}

/// The id of a request: that of its message, unless there is none or it is
/// null.
pub open spec fn request_id(message: JsonView) -> Option<JsonView> {
    match message.field("id"@) {
        Some(JsonView::Null) => None,
        other => other,
    }
}

/// A notification is accepted with a bare reply, whatever method it names: it
/// gets no response and calls no tool.
pub proof fn law_notification_is_only_accepted(server: ServerView, message: JsonView)
    requires
        request_id(message) is None,
    ensures
        body_next(server, Some(Ok(message))) == NextView::Reply(bare_reply(202)),
{
}

/// Whether a value is a JSON-RPC response to the request with that id: it says
/// so, carries the id, and holds a result or an error but not both.
pub open spec fn responds_to(response: JsonView, id: JsonView) -> bool {
    &&& response.field("jsonrpc"@) == Some(JsonView::Text("2.0"@))
    &&& response.field("id"@) == Some(id)
    &&& response.field("result"@) is Some <==> response.field("error"@) is None
}

pub(crate) proof fn lemma_rpc_keys()
    ensures
        "jsonrpc"@ != "id"@,
        "jsonrpc"@ != "result"@,
        "jsonrpc"@ != "error"@,
        "id"@ != "result"@,
        "id"@ != "error"@,
        "result"@ != "error"@,
{
    reveal_strlit("jsonrpc");
    reveal_strlit("id");
    reveal_strlit("result");
    reveal_strlit("error");
    assert("jsonrpc"@.len() == 7);
    assert("id"@.len() == 2);
    assert("result"@.len() == 6);
    assert("error"@.len() == 5);
}

proof fn lemma_responses(id: JsonView, result: JsonView, code: i64, message: Seq<char>)
    ensures
        responds_to(rpc_result(id, result), id),
        rpc_result(id, result).field("result"@) == Some(result),
        responds_to(rpc_error(id, code, message), id),
        rpc_error(id, code, message).field("error"@) is Some,
{
    lemma_rpc_keys();
}

/// Every request is answered under its own id: with a response that carries
/// it, or with a tool call whose response will.
pub proof fn law_request_is_answered_under_its_id(server: ServerView, message: JsonView)
    requires
        request_id(message) is Some,
    ensures
        match message_answer(server, message) {
            AnswerView::Accepted => false,
            AnswerView::Respond(response) => responds_to(response, request_id(message)->0),
            AnswerView::Call { id, name, args } => id == request_id(message)->0 && forall|
                screenshot: bool,
                outcome: Result<JsonView, Seq<char>>,
            |
                responds_to(#[trigger] call_response(id, screenshot, outcome), id),
        },
{
    let id = request_id(message)->0;
    let method = text_or(message.text_field("method"@), ""@);
    let params = value_or_empty(message.field("params"@));
    let empty = Map::<Seq<char>, JsonView>::empty();
    lemma_responses(
        id,
        initialize_result(server, params),
        METHOD_NOT_FOUND,
        "Method not found: "@ + method,
    );
    lemma_responses(id, JsonView::Object(empty), 0, ""@);
    lemma_responses(id, JsonView::Object(empty.insert("tools"@, server.tools)), 0, ""@);
    assert forall|screenshot: bool, outcome: Result<JsonView, Seq<char>>| responds_to(
        #[trigger] call_response(id, screenshot, outcome),
        id,
    ) by {
        lemma_responses(id, tool_result(screenshot, outcome), 0, ""@);
    }
}

/// A failed tool call is answered with a result that is marked as an error and
/// holds the message, a successful one with a result without the mark; neither
/// is a JSON-RPC error.
pub proof fn law_tool_failure_is_a_marked_result(
    id: JsonView,
    screenshot: bool,
    outcome: Result<JsonView, Seq<char>>,
)
    ensures
        call_response(id, screenshot, outcome).field("error"@) is None,
        call_response(id, screenshot, outcome).field("result"@) == Some(tool_result(screenshot, outcome)),
        tool_result(screenshot, outcome).field("isError"@) == (if outcome is Err {
            Some(JsonView::Bool(true))
        } else {
            None
        }),
        outcome matches Err(message) ==> tool_result(screenshot, outcome).field("content"@)->0.array()->0[0]
            .text_field("text"@) == Some(message),
        outcome matches Ok(value) ==> tool_result(screenshot, outcome).field("content"@) == Some(
            JsonView::Array(seq![result_block(screenshot, value)]),
        ),
{
    lemma_rpc_keys();
    reveal_strlit("content");
    reveal_strlit("isError");
    reveal_strlit("type");
    reveal_strlit("text");
    assert("content"@[0] == 'c');
    assert("isError"@[0] == 'i');
    assert("type"@[1] == 'y');
    assert("text"@[1] == 'e');
}

/// A screenshot is answered with an image: a call of the game's screenshot tool
/// is queued as one, and its result holds one piece of content, which is the
/// PNG file.
pub proof fn law_screenshot_is_an_image(
    id: JsonView,
    args: JsonView,
    base64: Seq<char>,
    capture: crate::runtime::Capture,
)
    requires
        capture matches crate::runtime::Capture::Encoded(text) && text@ == base64,
    ensures
        answer_next(
            Endpoint::Game,
            AnswerView::Call { id, name: CAPTURE_SCREENSHOT@, args },
        ) == (NextView::Queue {
            id,
            screenshot: true,
            job: JobView::Game { name: CAPTURE_SCREENSHOT@, args },
        }),
        call_response(id, true, crate::runtime::capture_answer(capture)).field("result"@) == Some(
            JsonView::Object(
                Map::<Seq<char>, JsonView>::empty().insert(
                    "content"@,
                    JsonView::Array(seq![image_block(base64, "image/png"@)]),
                ),
            ),
        ),
{
    lemma_rpc_keys();
    reveal_strlit("_image_base64");
    reveal_strlit("_mime");
    assert(IMAGE_FIELD@.len() == 13);
    assert(MIME_FIELD@.len() == 5);
    assert(image_of(crate::runtime::image_json(base64, "image/png"@)) == Some(
        (base64, "image/png"@),
    ));
}

/// What any other call gives, that of a script too, is answered with its text,
/// whatever the value looks like; so is every call of an editor tool.
pub proof fn law_other_results_are_text(
    id: JsonView,
    endpoint: Endpoint,
    name: Seq<char>,
    args: JsonView,
    value: JsonView,
)
    requires
        call_job(endpoint, name, args) is Ok,
        endpoint == Endpoint::Editor || name != CAPTURE_SCREENSHOT@,
    ensures
        ({
            let job = call_job(endpoint, name, args)->Ok_0;
            &&& answer_next(endpoint, AnswerView::Call { id, name, args }) == (NextView::Queue {
                id,
                screenshot: false,
                job,
            })
            &&& call_response(id, false, Ok::<JsonView, Seq<char>>(value)) == rpc_result(
                id,
                JsonView::Object(
                    Map::<Seq<char>, JsonView>::empty().insert(
                        "content"@,
                        JsonView::Array(seq![text_block(result_text(value))]),
                    ),
                ),
            )
        }),
{
}

/// A call of an editor tool that is refused is replied to with the reason, as
/// a failed call, without a job: whatever the editor is doing.
pub proof fn law_refused_call_queues_nothing(
    server: ServerView,
    message: JsonView,
    id: JsonView,
    name: Seq<char>,
    args: JsonView,
    reason: Seq<char>,
)
    requires
        server.endpoint == Endpoint::Editor,
        message_answer(server, message) == (AnswerView::Call { id, name, args }),
        crate::ops::tool_call(name, args) == Err::<EditorOpView, Seq<char>>(reason),
    ensures
        body_next(server, Some(Ok(message))) == NextView::Reply(
            json_reply(200, call_response(id, false, Err::<JsonView, Seq<char>>(reason))),
        ),
{
}

} // verus!
