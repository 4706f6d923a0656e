//! Laws of the chat: what the lines of the process become, and how it is
//! started.

use vstd::prelude::*;

use crate::chat::{ChatEvent, ChatEventView, ChatProgram};
use crate::json::JsonView;
use crate::{chat, codec, text};

verus! {

/// Whether a block of a message says something: a text that is not blank, or
/// the use of a tool.
pub open spec fn speaks(block: JsonView) -> bool {
    ||| block.field("type"@) == Some(JsonView::Text("tool_use"@))
    ||| block.field("type"@) == Some(JsonView::Text("text"@)) && {
        &&& block.field("text"@) is Some
        &&& block.field("text"@)->0 is Text
        &&& !text::blank(block.field("text"@)->0->Text_0)
    }
}

/// Whether an event tells what a block says: its text as it is, or the name of
/// the tool without the prefix of the editor's tools.
pub open spec fn tells(block: JsonView, event: ChatEventView) -> bool {
    if block.field("type"@) == Some(JsonView::Text("text"@)) {
        block.field("text"@) matches Some(JsonView::Text(text)) && event
            == ChatEventView::AssistantText(text)
    } else {
        match block.field("name"@) {
            Some(JsonView::Text(name)) => event == ChatEventView::ToolUse(
                text::without_prefixes(name, "mcp__godot-editor__"@),
            ),
            _ => event == ChatEventView::ToolUse("tool"@),
        }
    }
}

proof fn lemma_block_kinds()
    ensures
        "text"@ != "tool_use"@,
        text::without_prefixes("tool"@, "mcp__godot-editor__"@) == "tool"@,
{
    reveal_strlit("text");
    reveal_strlit("tool_use");
    reveal_strlit("tool");
    reveal_strlit("mcp__godot-editor__");
    assert("text"@.len() == 4);
    assert("tool_use"@.len() == 8);
    assert("tool"@.len() == 4);
    assert("mcp__godot-editor__"@.len() == 19);
}

proof fn lemma_block(block: JsonView)
    ensures
        speaks(block) <==> chat::block_event(block) is Some,
        speaks(block) ==> tells(block, chat::block_event(block)->0),
{
    lemma_block_kinds();
}

/// The blocks that say something, in order.
pub open spec fn speaking(blocks: Seq<JsonView>) -> Seq<JsonView> {
    blocks.filter(|block: JsonView| speaks(block))
}

proof fn lemma_blocks(blocks: Seq<JsonView>)
    ensures
        chat::block_events(blocks).len() == speaking(blocks).len(),
        forall|k: int|
            0 <= k < speaking(blocks).len() ==> tells(
                #[trigger] speaking(blocks)[k],
                chat::block_events(blocks)[k],
            ),
    decreases blocks.len(),
{
    reveal(Seq::filter);
    if blocks.len() > 0 {
        lemma_blocks(blocks.drop_last());
        lemma_block(blocks.last());
    }
}

/// Whether a message is one of the assistant with these blocks.
pub open spec fn assistant_says(message: JsonView, blocks: Seq<JsonView>) -> bool {
    &&& message.field("type"@) == Some(JsonView::Text("assistant"@))
    &&& message.field("message"@) is Some
    &&& message.field("message"@)->0.field("content"@) == Some(JsonView::Array(blocks))
}

/// The events of a message of the assistant are what its blocks say, one event
/// for each block that says something, in order.
pub proof fn law_blocks_are_told_in_order(message: JsonView, blocks: Seq<JsonView>, k: int)
    requires
        assistant_says(message, blocks),
    ensures
        chat::message_events(message).len() == speaking(blocks).len(),
        0 <= k < speaking(blocks).len() ==> tells(speaking(blocks)[k], chat::message_events(message)[k]),
{
    lemma_blocks(blocks);
}

/// One more block at the end of a message adds one event where it is a text
/// that is not blank, and that text; one event where it is the use of a tool,
/// and its bare name, or a word for it where it has none; and nothing else.
pub proof fn law_block_is_added(
    message: JsonView,
    longer: JsonView,
    blocks: Seq<JsonView>,
    block: JsonView,
)
    requires
        assistant_says(message, blocks),
        assistant_says(longer, blocks.push(block)),
    ensures
        ({
            let before = chat::message_events(message);
            let after = chat::message_events(longer);
            &&& blocks.len() == 0 ==> before.len() == 0
            &&& block.field("type"@) == Some(JsonView::Text("text"@)) ==> after == (
            match block.field("text"@) {
                Some(JsonView::Text(text)) => if text::blank(text) {
                    before
                } else {
                    before + seq![ChatEventView::AssistantText(text)]
                },
                _ => before,
            })
            &&& block.field("type"@) == Some(JsonView::Text("tool_use"@)) ==> after == before
                + seq![
                ChatEventView::ToolUse(
                    match block.field("name"@) {
                        Some(JsonView::Text(name)) => text::without_prefixes(
                            name,
                            "mcp__godot-editor__"@,
                        ),
                        _ => "tool"@,
                    },
                ),
            ]
            &&& block.field("type"@) != Some(JsonView::Text("text"@)) && block.field("type"@)
                != Some(JsonView::Text("tool_use"@)) ==> after == before
        }),
{
    lemma_block_kinds();
    assert(blocks.push(block).drop_last() =~= blocks);
    let before = chat::message_events(message);
    let after = chat::message_events(longer);
    if chat::block_event(block) is Some {
        assert(after =~= before + seq![chat::block_event(block)->0]);
    }
}

/// Every text of the assistant that is not blank is shown, whole.
pub proof fn law_text_is_shown(
    message: JsonView,
    blocks: Seq<JsonView>,
    i: int,
    text: Seq<char>,
)
    requires
        assistant_says(message, blocks),
        0 <= i < blocks.len(),
        blocks[i].field("type"@) == Some(JsonView::Text("text"@)),
        blocks[i].field("text"@) == Some(JsonView::Text(text)),
        !text::blank(text),
    ensures
        chat::message_events(message).contains(ChatEventView::AssistantText(text)),
{
    lemma_shown(blocks, i);
}

/// Every use of a tool is shown, by its name.
pub proof fn law_tool_use_is_shown(
    message: JsonView,
    blocks: Seq<JsonView>,
    i: int,
    name: Seq<char>,
)
    requires
        assistant_says(message, blocks),
        0 <= i < blocks.len(),
        blocks[i].field("type"@) == Some(JsonView::Text("tool_use"@)),
        blocks[i].field("name"@) == Some(JsonView::Text(name)),
    ensures
        chat::message_events(message).contains(
            ChatEventView::ToolUse(
                text::without_prefixes(name, "mcp__godot-editor__"@),
            ),
        ),
{
    lemma_block_kinds();
    lemma_shown(blocks, i);
}

proof fn lemma_shown(blocks: Seq<JsonView>, i: int)
    requires
        0 <= i < blocks.len(),
        speaks(blocks[i]),
    ensures
        chat::block_events(blocks).contains(chat::block_event(blocks[i])->0),
        tells(blocks[i], chat::block_event(blocks[i])->0),
    decreases blocks.len(),
{
    lemma_block(blocks[i]);
    let shorter = blocks.drop_last();
    let events = chat::block_events(blocks);
    if i == blocks.len() - 1 {
        assert(events[events.len() - 1] == chat::block_event(blocks[i])->0);
    } else {
        assert(shorter[i] == blocks[i]);
        lemma_shown(shorter, i);
        let before = chat::block_events(shorter);
        let k = choose|k: int|
            0 <= k < before.len() && before[k] == chat::block_event(blocks[i])->0;
        assert(events[k] == before[k]);
    }
}

/// The end of a turn is one event. It reports an error exactly where it names a
/// kind of end other than success: the result, or else that kind.
pub proof fn law_turn_ends(message: JsonView)
    requires
        message.field("type"@) == Some(JsonView::Text("result"@)),
    ensures
        chat::message_events(message).len() == 1,
        chat::message_events(message)[0] == (ChatEventView::TurnDone {
            error: match message.field("subtype"@) {
                Some(JsonView::Text(subtype)) => if subtype == "success"@ {
                    None
                } else {
                    match message.field("result"@) {
                        Some(JsonView::Text(result)) => Some(result),
                        _ => Some(subtype),
                    }
                },
                _ => None,
            },
        }),
{
    reveal_strlit("assistant");
    reveal_strlit("result");
    assert("assistant"@.len() == 9);
    assert("result"@.len() == 6);
}

/// A message that is neither the assistant's nor the end of a turn is no event,
/// nor is one of the assistant without blocks.
pub proof fn law_other_messages(message: JsonView)
    requires
        ({
            ||| message.field("type"@) != Some(JsonView::Text("assistant"@)) && message.field(
                "type"@,
            ) != Some(JsonView::Text("result"@))
            ||| message.field("type"@) == Some(JsonView::Text("assistant"@)) && !exists|
                blocks: Seq<JsonView>,
            |
                assistant_says(message, blocks)
        }),
    ensures
        chat::message_events(message).len() == 0,
{
    if message.field("type"@) == Some(JsonView::Text("assistant"@)) {
        match message.field("message"@) {
            Some(inner) => match inner.field("content"@) {
                Some(JsonView::Array(blocks)) => {
                    assert(assistant_says(message, blocks));
                },
                _ => {},
            },
            None => {},
        }
    }
}

/// A line gives the events of the message that it holds; a blank one, or one
/// that holds none, gives no event.
pub proof fn law_line(line: Seq<char>, parsed: Result<JsonView, Seq<char>>)
    ensures
        text::blank(line) ==> chat::line_events(line, parsed).len() == 0,
        parsed is Err ==> chat::line_events(line, parsed).len() == 0,
        !text::blank(line) && parsed is Ok ==> chat::line_events(line, parsed) == chat::message_events(
            parsed->Ok_0,
        ),
{
}

/// The events of a stream are those of its lines, in order.
pub proof fn law_stream(lines: Seq<Seq<char>>, line: Seq<char>)
    ensures
        chat::stream_events(Seq::empty()).len() == 0,
        chat::stream_events(lines.push(line)) == chat::stream_events(lines)
            + chat::line_events(line, codec::json_read(line)),
{
    assert(lines.push(line).drop_last() =~= lines);
}

/// What the user is told at the end of the process and where the program is
/// missing names the program.
pub proof fn law_messages(program: ChatProgram)
    ensures
        chat::exit_text(program) == program.name@
            + " process exited. Press New to start a fresh session (check `"@ + program.command@
            + "` login if this repeats)."@,
        chat::missing_text(program) == "Could not find the `"@ + program.command@ + "` CLI. Install "@
            + program.name@ + " Code or set "@ + "GODOT_AGENT_CLAUDE_BIN"@ + "."@,
{
}

/// A message of the user is sent as such, with its text as it is.
pub proof fn law_user_message(text: Seq<char>)
    ensures
        ({
            let json = chat::user_json(text);
            let message = json.field("message"@)->0;
            &&& json is Object
            &&& json->Object_0.dom() == set!["type"@, "message"@]
            &&& json.field("type"@) == Some(JsonView::Text("user"@))
            &&& message is Object
            &&& message->Object_0.dom() == set!["role"@, "content"@]
            &&& message.field("role"@) == Some(JsonView::Text("user"@))
            &&& message.field("content"@) is Some
            &&& message.field("content"@)->0 is Array
            &&& message.field("content"@)->0->Array_0.len() == 1
            &&& ({
                let block = message.field("content"@)->0->Array_0[0];
                &&& block is Object
                &&& block->Object_0.dom() == set!["type"@, "text"@]
                &&& block.field("type"@) == Some(JsonView::Text("text"@))
                &&& block.field("text"@) == Some(JsonView::Text(text))
            })
        }),
{
    reveal_strlit("type");
    reveal_strlit("message");
    reveal_strlit("role");
    reveal_strlit("content");
    reveal_strlit("text");
    assert("type"@.len() == 4 && "type"@[1] == 'y');
    assert("message"@.len() == 7);
    assert("role"@.len() == 4);
    assert("content"@.len() == 7);
    assert("text"@[1] == 'e');
    let json = chat::user_json(text);
    let message = json.field("message"@)->0;
    let block = message.field("content"@)->0->Array_0[0];
    assert(json->Object_0.dom() =~= set!["type"@, "message"@]);
    assert(message->Object_0.dom() =~= set!["role"@, "content"@]);
    assert(block->Object_0.dom() =~= set!["type"@, "text"@]);
}

/// The process is started with these arguments, and told to reach the editor
/// and the game on this machine, each at its port.
pub proof fn law_arguments(mcp_port: u16, game_port: u16)
    ensures
        chat::config_text(mcp_port, game_port)
            == "{\"mcpServers\":{\"godot-editor\":{\"type\":\"http\",\"url\":\"http://127.0.0.1:"@
            + text::decimal(mcp_port as nat)
            + "/mcp\"},\"godot-game\":{\"type\":\"http\",\"url\":\"http://127.0.0.1:"@
            + text::decimal(game_port as nat) + "/mcp\"}}}"@,
        chat::program_arguments(mcp_port, game_port).len() == 13,
        chat::program_arguments(mcp_port, game_port)[0] == "--print"@,
        chat::program_arguments(mcp_port, game_port)[1] == "--input-format"@,
        chat::program_arguments(mcp_port, game_port)[2] == "stream-json"@,
        chat::program_arguments(mcp_port, game_port)[3] == "--output-format"@,
        chat::program_arguments(mcp_port, game_port)[4] == "stream-json"@,
        chat::program_arguments(mcp_port, game_port)[5] == "--verbose"@,
        chat::program_arguments(mcp_port, game_port)[6] == "--permission-mode"@,
        chat::program_arguments(mcp_port, game_port)[7] == "acceptEdits"@,
        chat::program_arguments(mcp_port, game_port)[8] == "--allowedTools"@,
        chat::program_arguments(mcp_port, game_port)[9] == "mcp__godot-editor,mcp__godot-game"@,
        chat::program_arguments(mcp_port, game_port)[10] == "--mcp-config"@,
        chat::program_arguments(mcp_port, game_port)[11] == chat::config_text(mcp_port, game_port),
        chat::program_arguments(mcp_port, game_port)[12] == "--strict-mcp-config"@,
{
}

/// The program is looked for last in three places, in this order.
pub proof fn law_candidates(command: Seq<char>, home: Seq<char>)
    ensures
        chat::candidate_paths(command, home).len() == 3,
        chat::candidate_paths(command, home)[0] == "/opt/homebrew/bin/"@ + command,
        chat::candidate_paths(command, home)[1] == "/usr/local/bin/"@ + command,
        chat::candidate_paths(command, home)[2] == home + "/.local/bin/"@ + command,
{
}

/// Of several places the first that is there is taken, and none where none is.
pub proof fn law_first_place(paths: Seq<Seq<char>>, there: Seq<bool>, i: int)
    ensures
        0 <= i < paths.len() && i < there.len() && there[i] && (forall|k: int|
            0 <= k < i ==> !(#[trigger] there[k])) ==> chat::first_there(paths, there) == Some(paths[i]),
        (forall|k: int| 0 <= k < paths.len() && k < there.len() ==> !(#[trigger] there[k]))
            ==> chat::first_there(paths, there) is None,
    decreases paths.len(),
{
    if paths.len() > 0 && there.len() > 0 {
        law_first_place(paths.skip(1), there.skip(1), i - 1);
        if 0 < i < paths.len() && i < there.len() && (forall|k: int|
            0 <= k < i ==> !(#[trigger] there[k])) {
            assert(!there[0]);
            assert forall|k: int| 0 <= k < i - 1 implies !(#[trigger] there.skip(1)[k]) by {
                assert(!there[k + 1]);
            }
        }
        if forall|k: int| 0 <= k < paths.len() && k < there.len() ==> !(#[trigger] there[k]) {
            assert(!there[0]);
            assert forall|k: int|
                0 <= k < paths.skip(1).len() && k < there.skip(1).len() implies !(
            #[trigger] there.skip(1)[k]) by {
                assert(!there[k + 1]);
            }
        }
    }
}

/// The path that is set counts first, then what the shell prints unless it is
/// blank, then the first of the other places that is there; without any of them
/// the program is missing.
pub proof fn law_program_is_found(
    program: ChatProgram,
    variable: Option<Seq<char>>,
    shell_output: Option<Seq<char>>,
    home: Seq<char>,
    there: Seq<bool>,
)
    ensures
        ({
            let found = chat::program_path(program, variable, shell_output, home, there);
            let printed = shell_output is Some && !text::blank(shell_output->0);
            &&& variable is Some ==> found == Ok::<Seq<char>, Seq<char>>(variable->0)
            &&& variable is None && printed ==> found == Ok::<Seq<char>, Seq<char>>(
                text::trimmed(shell_output->0),
            )
            &&& variable is None && !printed ==> match chat::first_there(
                chat::candidate_paths(program.command@, home),
                there,
            ) {
                Some(path) => found == Ok::<Seq<char>, Seq<char>>(path),
                None => found == Err::<Seq<char>, Seq<char>>(chat::missing_text(program)),
            }
        }),
{
    match shell_output {
        Some(output) => text::law_blank_iff_trimmed_away(output),
        None => {},
    }
}

/// The view of events tells everything of them, in order.
pub proof fn law_events_are_what_they_hold(event: ChatEvent, events: Seq<ChatEvent>, i: int)
    ensures
        match event {
            ChatEvent::AssistantText(text) => event@ == ChatEventView::AssistantText(text@),
            ChatEvent::ToolUse(name) => event@ == ChatEventView::ToolUse(name@),
            ChatEvent::TurnDone { error: Some(message) } => event@ == (ChatEventView::TurnDone {
                error: Some(message@),
            }),
            ChatEvent::TurnDone { error: None } => event@ == (ChatEventView::TurnDone {
                error: None,
            }),
            ChatEvent::ProcessExit(message) => event@ == ChatEventView::ProcessExit(message@),
        },
        chat::event_views(events).len() == events.len(),
        0 <= i < events.len() ==> chat::event_views(events)[i] == events[i]@,
{
}

} // verus!
