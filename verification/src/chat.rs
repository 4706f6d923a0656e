//! Chat backend: the protocol of a headless assistant process.
//!
//! Messages go to the process and events come back as lines of JSON. The
//! process is a program that is known by a name; [`BIN_VARIABLE`] may say where
//! it is.

use vstd::prelude::*;

use crate::codec::{compact_text, parse_json};
use crate::json::{Fields, Json, JsonView};
use crate::text::{is_blank, push_decimal, same, strip_prefixes, trim};

verus! {

/// Events surfaced to the UI.
#[derive(Debug)]
pub enum ChatEvent {
    AssistantText(String),
    ToolUse(String),
    TurnDone { error: Option<String> },
    ProcessExit(String),
}

/// What an event is.
#[verifier::ext_equal]
pub enum ChatEventView {
    AssistantText(Seq<char>),
    ToolUse(Seq<char>),
    TurnDone { error: Option<Seq<char>> },
    ProcessExit(Seq<char>),
}

impl View for ChatEvent {
    type V = ChatEventView;

    open spec fn view(&self) -> ChatEventView {
        match self {
            ChatEvent::AssistantText(text) => ChatEventView::AssistantText(text@),
            ChatEvent::ToolUse(name) => ChatEventView::ToolUse(name@),
            ChatEvent::TurnDone { error } => ChatEventView::TurnDone {
                error: match error {
                    Some(message) => Some(message@),
                    None => None,
                },
            },
            ChatEvent::ProcessExit(message) => ChatEventView::ProcessExit(message@),
        }
    }
}

/// What a list of events is.
pub open spec fn event_views(events: Seq<ChatEvent>) -> Seq<ChatEventView> {
    events.map_values(|e: ChatEvent| e@)
}

/// What the names of the editor's tools begin with in the stream.
pub const TOOL_PREFIX: &'static str = "mcp__godot-editor__";

/// The environment variable that may hold the path of the program.
pub const BIN_VARIABLE: &'static str = "GODOT_AGENT_CLAUDE_BIN";

/// The program that is chatted with.
#[derive(Debug)]
pub struct ChatProgram {
    /// Its name, as the user reads it.
    pub name: String,
    /// The name of its file.
    pub command: String,
}

/// What the user is told when the process has ended.
pub open spec fn exit_text(program: ChatProgram) -> Seq<char> {
    program.name@ + " process exited. Press New to start a fresh session (check `"@
        + program.command@ + "` login if this repeats)."@
}

/// What the user is told when the program is nowhere to be found.
pub open spec fn missing_text(program: ChatProgram) -> Seq<char> {
    "Could not find the `"@ + program.command@ + "` CLI. Install "@ + program.name@
        + " Code or set "@ + BIN_VARIABLE@ + "."@
}

/// The event that a block of an assistant message amounts to, if any: a text
/// that is not blank, or the use of a tool under its bare name.
pub open spec fn block_event(block: JsonView) -> Option<ChatEventView> {
    match block.text_field("type"@) {
        Some(kind) => if kind == "text"@ {
            match block.text_field("text"@) {
                Some(text) => if crate::text::blank(text) {
                    None
                } else {
                    Some(ChatEventView::AssistantText(text))
                },
                None => None,
            }
        } else if kind == "tool_use"@ {
            let name = match block.text_field("name"@) {
                Some(name) => name,
                None => "tool"@,
            };
            Some(ChatEventView::ToolUse(crate::text::without_prefixes(name, TOOL_PREFIX@)))
        } else {
            None
        },
        None => None,
    }
}

/// The events of the blocks of an assistant message, in order.
pub open spec fn block_events(blocks: Seq<JsonView>) -> Seq<ChatEventView>
    decreases blocks.len(),
{
    if blocks.len() == 0 {
        Seq::empty()
    } else {
        match block_event(blocks.last()) {
            Some(event) => block_events(blocks.drop_last()).push(event),
            None => block_events(blocks.drop_last()),
        }
    }
}

/// The blocks of an assistant message.
pub open spec fn message_blocks(message: JsonView) -> Seq<JsonView> {
    match message.field("message"@) {
        Some(inner) => match inner.field("content"@) {
            Some(JsonView::Array(blocks)) => blocks,
            _ => Seq::empty(),
        },
        None => Seq::empty(),
    }
}

/// The error that the end of a turn reports, if any: what the result says, or
/// else what kind of failure it names.
pub open spec fn turn_error(message: JsonView) -> Option<Seq<char>> {
    match message.text_field("subtype"@) {
        None => None,
        Some(subtype) => if subtype == "success"@ {
            None
        } else {
            match message.text_field("result"@) {
                Some(result) => Some(result),
                None => Some(subtype),
            }
        },
    }
}

/// The events that a message of the stream amounts to.
pub open spec fn message_events(message: JsonView) -> Seq<ChatEventView> {
    match message.text_field("type"@) {
        Some(kind) => if kind == "assistant"@ {
            block_events(message_blocks(message))
        } else if kind == "result"@ {
            seq![ChatEventView::TurnDone { error: turn_error(message) }]
        } else {
            Seq::empty()
        },
        None => Seq::empty(),
    }
}

/// The events that a line of the stream amounts to, given what reading it as
/// JSON gave: none where the line is blank or no JSON.
pub open spec fn line_events(
    line: Seq<char>,
    parsed: Result<JsonView, Seq<char>>,
) -> Seq<ChatEventView> {
    if crate::text::blank(line) {
        Seq::empty()
    } else {
        match parsed {
            Ok(message) => message_events(message),
            Err(_) => Seq::empty(),
        }
    }
}

fn read_block(block: &Json) -> (r: Option<ChatEvent>)
    ensures
        block_event(block@) == (match r {
            Some(event) => Some(event@),
            None => None,
        }),
{
    let kind = match block.text_field("type") {
        Some(kind) => kind,
        None => return None,
    };
    if same(kind, "text") {
        match block.text_field("text") {
            Some(text) => if is_blank(text) {
                None
            } else {
                Some(ChatEvent::AssistantText(text.to_owned()))
            },
            None => None,
        }
    } else if same(kind, "tool_use") {
        let name = match block.text_field("name") {
            Some(name) => name,
            None => "tool",
        };
        Some(ChatEvent::ToolUse(strip_prefixes(name, TOOL_PREFIX)))
    } else {
        None
    }
}

fn read_blocks(blocks: &Vec<Json>) -> (r: Vec<ChatEvent>)
    ensures
        event_views(r@) == block_events(crate::json::views(blocks@)),
{
    let ghost all = crate::json::views(blocks@);
    proof {
        crate::json::lemma_views(blocks@);
    }
    let mut events: Vec<ChatEvent> = Vec::new();
    let mut i: usize = 0;
    assert(event_views(events@) =~= block_events(all.take(0)));
    while i < blocks.len()
        invariant
            i <= blocks.len(),
            all.len() == blocks.len(),
            forall|k: int| 0 <= k < all.len() ==> #[trigger] all[k] == blocks@[k]@,
            event_views(events@) == block_events(all.take(i as int)),
        decreases blocks.len() - i,
    {
        let ghost before = events@;
        proof {
            assert(all.take(i + 1).drop_last() =~= all.take(i as int));
            assert(all.take(i + 1).last() == all[i as int]);
        }
        match read_block(&blocks[i]) {
            Some(event) => {
                events.push(event);
                assert(event_views(events@) =~= event_views(before).push(event@));
            },
            None => {},
        }
        i = i + 1;
    }
    assert(all.take(i as int) =~= all);
    events
}

/// Reads a message of the stream.
pub fn read_message(message: &Json) -> (r: Vec<ChatEvent>)
    ensures
        event_views(r@) == message_events(message@),
{
    let mut none: Vec<ChatEvent> = Vec::new();
    assert(event_views(none@) =~= Seq::<ChatEventView>::empty());
    let kind = match message.text_field("type") {
        Some(kind) => kind,
        None => return none,
    };
    if same(kind, "assistant") {
        match message.get("message") {
            Some(inner) => match inner.get("content") {
                Some(content) => match content.as_array() {
                    Some(blocks) => read_blocks(blocks),
                    None => none,
                },
                None => none,
            },
            None => none,
        }
    } else if same(kind, "result") {
        let error = match message.text_field("subtype") {
            None => None,
            Some(subtype) => if same(subtype, "success") {
                None
            } else {
                match message.text_field("result") {
                    Some(result) => Some(result.to_owned()),
                    None => Some(subtype.to_owned()),
                }
            },
        };
        none.push(ChatEvent::TurnDone { error });
        assert(event_views(none@) =~= message_events(message@));
        none
    } else {
        none
    }
}

/// Reads a line of the stream.
pub fn read_line(line: &str) -> (r: Vec<ChatEvent>)
    ensures
        event_views(r@) == line_events(line@, crate::codec::json_read(line@)),
{
    let none: Vec<ChatEvent> = Vec::new();
    assert(event_views(none@) =~= Seq::<ChatEventView>::empty());
    if is_blank(line) {
        return none;
    }
    match parse_json(line) {
        Ok(message) => read_message(&message),
        Err(_) => none,
    }
}

/// The event that ends the stream.
pub fn exit_event(program: &ChatProgram) -> (r: ChatEvent)
    ensures
        r@ == ChatEventView::ProcessExit(exit_text(*program)),
{
    let mut message = program.name.clone();
    message.append(" process exited. Press New to start a fresh session (check `");
    message.append(program.command.as_str());
    message.append("` login if this repeats).");
    ChatEvent::ProcessExit(message)
}

/// The events of the lines of a stream, one line after the other.
pub open spec fn stream_events(lines: Seq<Seq<char>>) -> Seq<ChatEventView>
    decreases lines.len(),
{
    if lines.len() == 0 {
        Seq::empty()
    } else {
        stream_events(lines.drop_last()) + line_events(
            lines.last(),
            crate::codec::json_read(lines.last()),
        )
    }
}

/// The events of a whole session: those of the lines that could be read, and
/// then the one that ends the stream.
pub open spec fn session_events(
    program: ChatProgram,
    lines: Seq<Seq<char>>,
) -> Seq<ChatEventView> {
    stream_events(lines).push(ChatEventView::ProcessExit(exit_text(program)))
}

/// Whether a line says nothing: it is blank, no JSON, or a message that is
/// neither the assistant's nor the end of a turn.
pub open spec fn says_nothing(line: Seq<char>) -> bool {
    ||| crate::text::blank(line)
    ||| crate::codec::json_read(line) is Err
    ||| {
        let kind = crate::codec::json_read(line)->Ok_0.text_field("type"@);
        kind != Some("assistant"@) && kind != Some("result"@)
    }
}

/// A session ends with the exit of the process, which is told once.
pub proof fn law_session_ends_with_its_exit(program: ChatProgram, lines: Seq<Seq<char>>)
    ensures
        session_events(program, lines).last() == ChatEventView::ProcessExit(exit_text(program)),
        forall|i: int|
            0 <= i < session_events(program, lines).len() - 1 ==> !((
            #[trigger] session_events(program, lines)[i]) is ProcessExit),
{
    lemma_stream_has_no_exit(lines);
}

proof fn lemma_blocks_have_no_exit(blocks: Seq<JsonView>)
    ensures
        forall|i: int|
            0 <= i < block_events(blocks).len() ==> !((#[trigger] block_events(
                blocks,
            )[i]) is ProcessExit),
    decreases blocks.len(),
{
    if blocks.len() > 0 {
        lemma_blocks_have_no_exit(blocks.drop_last());
    }
}

proof fn lemma_stream_has_no_exit(lines: Seq<Seq<char>>)
    ensures
        forall|i: int|
            0 <= i < stream_events(lines).len() ==> !((#[trigger] stream_events(
                lines,
            )[i]) is ProcessExit),
    decreases lines.len(),
{
    if lines.len() > 0 {
        lemma_stream_has_no_exit(lines.drop_last());
        match crate::codec::json_read(lines.last()) {
            Ok(message) => lemma_blocks_have_no_exit(message_blocks(message)),
            Err(_) => {},
        }
    }
}

/// A line that says nothing can be taken out of a session without a change to
/// its events.
pub proof fn law_silent_line_changes_nothing(
    program: ChatProgram,
    lines: Seq<Seq<char>>,
    i: int,
)
    requires
        0 <= i < lines.len(),
        says_nothing(lines[i]),
    ensures
        session_events(program, lines.remove(i)) == session_events(program, lines),
{
    lemma_silent_line(lines, i);
}

proof fn lemma_silent_line(lines: Seq<Seq<char>>, i: int)
    requires
        0 <= i < lines.len(),
        says_nothing(lines[i]),
    ensures
        stream_events(lines.remove(i)) == stream_events(lines),
    decreases lines.len(),
{
    if i == lines.len() - 1 {
        assert(lines.remove(i) =~= lines.drop_last());
        assert(line_events(lines[i], crate::codec::json_read(lines[i])).len() == 0);
        assert(stream_events(lines) =~= stream_events(lines.drop_last()));
    } else {
        lemma_silent_line(lines.drop_last(), i);
        assert(lines.remove(i).drop_last() =~= lines.drop_last().remove(i));
        assert(lines.remove(i).last() == lines.last());
    }
}

/// The UI is never shown a blank text, nor the name of an editor tool with the
/// prefix that it has in the stream.
pub proof fn law_surfaced_texts_are_clean(blocks: Seq<JsonView>, i: int)
    requires
        0 <= i < block_events(blocks).len(),
    ensures
        match block_events(blocks)[i] {
            ChatEventView::AssistantText(text) => !crate::text::blank(text),
            ChatEventView::ToolUse(name) => !TOOL_PREFIX@.is_prefix_of(name),
            _ => false,
        },
    decreases blocks.len(),
{
    let shorter = block_events(blocks.drop_last());
    if i < shorter.len() {
        law_surfaced_texts_are_clean(blocks.drop_last(), i);
    } else {
        let block = blocks.last();
        let name = match block.text_field("name"@) {
            Some(name) => name,
            None => "tool"@,
        };
        reveal_strlit("mcp__godot-editor__");
        assert(TOOL_PREFIX@.len() > 0);
        crate::text::lemma_prefixes_are_gone(name, TOOL_PREFIX@);
    }
}

/// A message of the user as JSON.
pub open spec fn user_json(text: Seq<char>) -> JsonView {
    let empty = Map::<Seq<char>, JsonView>::empty();
    let block = JsonView::Object(
        empty.insert("type"@, JsonView::Text("text"@)).insert("text"@, JsonView::Text(text)),
    );
    JsonView::Object(
        empty.insert("type"@, JsonView::Text("user"@)).insert(
            "message"@,
            JsonView::Object(
                empty.insert("role"@, JsonView::Text("user"@)).insert(
                    "content"@,
                    JsonView::Array(seq![block]),
                ),
            ),
        ),
    )
}

/// The line that carries a message of the user to the process. Whatever the
/// text holds, it is one line: its only line feed is the last character.
pub fn user_line(text: &str) -> (r: String)
    ensures
        r@ == crate::codec::json_compact(user_json(text@)).push('\n'),
        !r@.drop_last().contains('\n'),
{
    let block = Json::Object(
        Fields::new().with("type", Json::text("text")).with("text", Json::text(text)),
    );
    let mut blocks: Vec<Json> = Vec::new();
    proof {
        assert(crate::json::views(blocks@) =~= Seq::<JsonView>::empty());
        crate::json::lemma_views_push(blocks@, block);
    }
    blocks.push(block);
    assert(crate::json::views(blocks@) =~= seq![block@]);
    let message = Fields::new().with("role", Json::text("user")).with(
        "content",
        Json::Array(blocks),
    );
    let json = Json::Object(
        Fields::new().with("type", Json::text("user")).with("message", Json::Object(message)),
    );
    let mut line = compact_text(&json);
    let ghost compact = line@;
    line.push('\n');
    assert(line@.drop_last() =~= compact);
    line
}

pub const CONFIG_START: &'static str = "{\"mcpServers\":{\"godot-editor\":{\"type\":\"http\",\"url\":\"http://127.0.0.1:";

pub const CONFIG_MIDDLE: &'static str = "/mcp\"},\"godot-game\":{\"type\":\"http\",\"url\":\"http://127.0.0.1:";

pub const CONFIG_END: &'static str = "/mcp\"}}}";

/// The configuration by which the process reaches the two endpoints.
pub open spec fn config_text(mcp_port: u16, game_port: u16) -> Seq<char> {
    CONFIG_START@ + crate::text::decimal(mcp_port as nat) + CONFIG_MIDDLE@
        + crate::text::decimal(game_port as nat) + CONFIG_END@
}

/// Writes the configuration by which the process reaches the two endpoints.
pub fn mcp_config(mcp_port: u16, game_port: u16) -> (r: String)
    ensures
        r@ == config_text(mcp_port, game_port),
{
    let mut config = CONFIG_START.to_owned();
    push_decimal(&mut config, mcp_port as usize);
    config.append(CONFIG_MIDDLE);
    push_decimal(&mut config, game_port as usize);
    config.append(CONFIG_END);
    config
}

/// The arguments with which the process is started.
pub open spec fn program_arguments(mcp_port: u16, game_port: u16) -> Seq<Seq<char>> {
    seq![
        "--print"@,
        "--input-format"@,
        "stream-json"@,
        "--output-format"@,
        "stream-json"@,
        "--verbose"@,
        "--permission-mode"@,
        "acceptEdits"@,
        "--allowedTools"@,
        "mcp__godot-editor,mcp__godot-game"@,
        "--mcp-config"@,
        config_text(mcp_port, game_port),
        "--strict-mcp-config"@,
    ]
}

/// Lists the arguments with which the process is started.
pub fn program_args(mcp_port: u16, game_port: u16) -> (r: Vec<String>)
    ensures
        r@.map_values(|s: String| s@) == program_arguments(mcp_port, game_port),
{
    let mut args: Vec<String> = Vec::new();
    args.push("--print".to_owned());
    args.push("--input-format".to_owned());
    args.push("stream-json".to_owned());
    args.push("--output-format".to_owned());
    args.push("stream-json".to_owned());
    args.push("--verbose".to_owned());
    args.push("--permission-mode".to_owned());
    args.push("acceptEdits".to_owned());
    args.push("--allowedTools".to_owned());
    args.push("mcp__godot-editor,mcp__godot-game".to_owned());
    args.push("--mcp-config".to_owned());
    args.push(mcp_config(mcp_port, game_port));
    args.push("--strict-mcp-config".to_owned());
    assert(args@.map_values(|s: String| s@) =~= program_arguments(mcp_port, game_port));
    args
}

/// Where the program is looked for last, in order.
pub open spec fn candidate_paths(command: Seq<char>, home: Seq<char>) -> Seq<Seq<char>> {
    seq![
        "/opt/homebrew/bin/"@ + command,
        "/usr/local/bin/"@ + command,
        home + "/.local/bin/"@ + command,
    ]
}

/// Lists where the program is looked for last.
pub fn program_candidates(command: &str, home: &str) -> (r: Vec<String>)
    ensures
        r@.map_values(|s: String| s@) == candidate_paths(command@, home@),
{
    let mut paths: Vec<String> = Vec::new();
    let mut brew = "/opt/homebrew/bin/".to_owned();
    brew.append(command);
    paths.push(brew);
    let mut shared = "/usr/local/bin/".to_owned();
    shared.append(command);
    paths.push(shared);
    let mut own = home.to_owned();
    own.append("/.local/bin/");
    own.append(command);
    paths.push(own);
    assert(paths@.map_values(|s: String| s@) =~= candidate_paths(command@, home@));
    paths
}

/// The first of the paths that is there.
pub open spec fn first_there(paths: Seq<Seq<char>>, there: Seq<bool>) -> Option<Seq<char>>
    decreases paths.len(),
{
    if paths.len() == 0 || there.len() == 0 {
        None
    } else if there[0] {
        Some(paths[0])
    } else {
        first_there(paths.skip(1), there.skip(1))
    }
}

/// Where the program is: at the path that the variable names; else where the
/// shell finds it; else at the first of the other places that is there.
pub open spec fn program_path(
    program: ChatProgram,
    variable: Option<Seq<char>>,
    shell_output: Option<Seq<char>>,
    home: Seq<char>,
    there: Seq<bool>,
) -> Result<Seq<char>, Seq<char>> {
    let found = match shell_output {
        Some(output) => crate::text::trimmed(output),
        None => Seq::empty(),
    };
    if variable is Some {
        Ok(variable->0)
    } else if found.len() > 0 {
        Ok(found)
    } else {
        match first_there(candidate_paths(program.command@, home), there) {
            Some(path) => Ok(path),
            None => Err(missing_text(program)),
        }
    }
}

/// The path that the shell printed, if it printed one.
pub fn shell_path(shell_output: Option<&str>) -> (r: Option<String>)
    ensures
        match shell_output {
            Some(output) => match r {
                Some(path) => path@ == crate::text::trimmed(output@) && path@.len() > 0,
                None => crate::text::trimmed(output@).len() == 0,
            },
            None => r is None,
        },
{
    match shell_output {
        Some(output) => {
            let path = trim(output);
            if path.as_str().is_empty() {
                None
            } else {
                Some(path)
            }
        },
        None => None,
    }
}

/// Locates the program. `there` tells of each of the [`program_candidates`]
/// whether there is a file; it is looked at only where the variable is unset
/// and the shell found nothing.
pub fn find_claude(
    program: &ChatProgram,
    variable: Option<&str>,
    shell_output: Option<&str>,
    home: &str,
    there: &Vec<bool>,
) -> (r: Result<String, String>)
    ensures
        match r {
            Ok(path) => program_path(
                *program,
                crate::json::optional_text(variable),
                crate::json::optional_text(shell_output),
                home@,
                there@,
            ) == Ok::<Seq<char>, Seq<char>>(path@),
            Err(message) => program_path(
                *program,
                crate::json::optional_text(variable),
                crate::json::optional_text(shell_output),
                home@,
                there@,
            ) == Err::<Seq<char>, Seq<char>>(message@),
        },
{
    match variable {
        Some(path) => return Ok(path.to_owned()),
        None => {},
    }
    match shell_path(shell_output) {
        Some(path) => return Ok(path),
        None => {},
    }
    let paths = program_candidates(program.command.as_str(), home);
    let ghost all = candidate_paths(program.command@, home@);
    let mut i: usize = 0;
    assert(all.skip(0) =~= all);
    assert(there@.skip(0) =~= there@);
    while i < paths.len() && i < there.len()
        invariant
            i <= paths.len(),
            i <= there.len(),
            all == candidate_paths(program.command@, home@),
            all == paths@.map_values(|s: String| s@),
            first_there(all, there@) == first_there(all.skip(i as int), there@.skip(i as int)),
            variable is None,
            program_path(
                *program,
                crate::json::optional_text(variable),
                crate::json::optional_text(shell_output),
                home@,
                there@,
            ) == (match first_there(all, there@) {
                Some(path) => Ok::<Seq<char>, Seq<char>>(path),
                None => Err::<Seq<char>, Seq<char>>(missing_text(*program)),
            }),
        decreases paths.len() - i,
    {
        if there[i] {
            return Ok(paths[i].clone());
        }
        assert(all.skip(i as int).skip(1) =~= all.skip(i + 1));
        assert(there@.skip(i as int).skip(1) =~= there@.skip(i + 1));
        i = i + 1;
    }
    let mut message = "Could not find the `".to_owned();
    message.append(program.command.as_str());
    message.append("` CLI. Install ");
    message.append(program.name.as_str());
    message.append(" Code or set ");
    message.append(BIN_VARIABLE);
    message.append(".");
    Err(message)
}

} // verus!
