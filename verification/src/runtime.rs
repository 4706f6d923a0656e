//! The running game's side: its tools, the input sequence that it plays, and
//! what it answers.
//!
//! Input simulation is scheduled on a timeline and dispatched event by event.
//! The clock is outside: [`GodotAgentRuntime::advance_input_sequence`] is called
//! once per frame and told whether the next event is due, so that events land
//! on separate frames like real user input would.

use std::collections::VecDeque;

use vstd::prelude::*;

use crate::gd_util::{gdscript_source, serialize_node, SceneNode};
use crate::json::{clone_number, Fields, Json, JsonView};
use crate::ops::{
    plain_tool, read_depth, tool_with, unknown_tool_text, GET_SCENE_TREE, MAX_DEPTH_TEXT,
};
use crate::text::{push_decimal, same};
use crate::timeline::{build_timeline, Delay, InputEvent, InputView, TimedEvent, TimedView};
use crate::tools::{render_tools, Param, ParamKind, ParamView, Tool, ToolView};

verus! {

pub const GET_GAME_INFO: &'static str = "get_game_info";

pub const CAPTURE_SCREENSHOT: &'static str = "capture_screenshot";

pub const SIMULATE_INPUT: &'static str = "simulate_input";

pub const EXECUTE_SCRIPT: &'static str = "execute_script";

pub const GET_GAME_INFO_TEXT: &'static str = "Get live state of the running game: FPS, current scene, window size.";

pub const GAME_TREE_TEXT: &'static str = "Get the live runtime node tree of the running game (includes autoloads and dynamically created nodes).";

pub const CAPTURE_SCREENSHOT_TEXT: &'static str = "Capture the game's rendered frame and return it as an image (downscaled to max 1280px wide).";

pub const SIMULATE_INPUT_TEXT: &'static str = "Inject a timed sequence of input events into the running game, as if a player performed them. Events: {type:'key', key:'Enter'|'A'|'Escape'|..., pressed?:bool} (omit pressed for tap), {type:'text', text:'hello'} (types characters), {type:'mouse_click', x, y, button?:'left'|'right'|'middle', double?:bool}, {type:'mouse_move', x, y}, {type:'action', action:'ui_accept', pressed?:bool} (omit pressed for tap, uses the project's input map), {type:'wait', ms:500}. Events are spaced across frames automatically; returns after the last event is dispatched.";

pub const EVENTS_TEXT: &'static str = "Sequence of input events to dispatch in order";

pub const EXECUTE_SCRIPT_TEXT: &'static str = "Execute arbitrary GDScript inside the running game process. The code runs as the body of `func run():`; use Engine.get_main_loop() to reach the SceneTree (e.g. `return Engine.get_main_loop().current_scene.name`). The return value is serialized back.";

pub const GAME_CODE_TEXT: &'static str = "GDScript statements to execute in the game";

/// The tools of the running game.
pub open spec fn game_tools() -> Seq<ToolView> {
    seq![
        ToolView {
            name: GET_GAME_INFO@,
            description: GET_GAME_INFO_TEXT@,
            params: Seq::empty(),
        },
        ToolView {
            name: GET_SCENE_TREE@,
            description: GAME_TREE_TEXT@,
            params: seq![
                ParamView {
                    name: "max_depth"@,
                    kind: ParamKind::Number,
                    description: MAX_DEPTH_TEXT@,
                    required: false,
                },
            ],
        },
        ToolView {
            name: CAPTURE_SCREENSHOT@,
            description: CAPTURE_SCREENSHOT_TEXT@,
            params: Seq::empty(),
        },
        ToolView {
            name: SIMULATE_INPUT@,
            description: SIMULATE_INPUT_TEXT@,
            params: seq![
                ParamView {
                    name: "events"@,
                    kind: ParamKind::Objects,
                    description: EVENTS_TEXT@,
                    required: true,
                },
            ],
        },
        ToolView {
            name: EXECUTE_SCRIPT@,
            description: EXECUTE_SCRIPT_TEXT@,
            params: seq![
                ParamView {
                    name: "code"@,
                    kind: ParamKind::Text,
                    description: GAME_CODE_TEXT@,
                    required: true,
                },
            ],
        },
    ]
}

/// MCP tool definitions that the running game serves by `tools/list`.
pub fn game_tool_definitions() -> (r: Json)
    ensures
        r@ == crate::tools::tools_json(game_tools()),
{
    let mut tools: Vec<Tool> = Vec::new();
    tools.push(plain_tool(GET_GAME_INFO, GET_GAME_INFO_TEXT));
    tools.push(
        tool_with(
            GET_SCENE_TREE,
            GAME_TREE_TEXT,
            Param {
                name: "max_depth",
                kind: ParamKind::Number,
                description: MAX_DEPTH_TEXT,
                required: false,
            },
        ),
    );
    tools.push(plain_tool(CAPTURE_SCREENSHOT, CAPTURE_SCREENSHOT_TEXT));
    tools.push(
        tool_with(
            SIMULATE_INPUT,
            SIMULATE_INPUT_TEXT,
            Param {
                name: "events",
                kind: ParamKind::Objects,
                description: EVENTS_TEXT,
                required: true,
            },
        ),
    );
    tools.push(
        tool_with(
            EXECUTE_SCRIPT,
            EXECUTE_SCRIPT_TEXT,
            Param {
                name: "code",
                kind: ParamKind::Text,
                description: GAME_CODE_TEXT,
                required: true,
            },
        ),
    );
    assert(tools@.map_values(|tool: Tool| tool@) =~= game_tools());
    render_tools(&tools)
}

/// An operation of the game that is answered at once.
#[derive(Debug)]
pub enum GameOp {
    /// [`game_info_result`] answers.
    GetGameInfo,
    /// [`game_tree_result`] answers.
    GetSceneTree { max_depth: i64 },
    /// [`screenshot_result`] answers.
    CaptureScreenshot,
    /// `script_result` answers.
    ExecuteScript { source: String },
}

/// What an operation of the game is.
#[verifier::ext_equal]
pub enum GameOpView {
    GetGameInfo,
    GetSceneTree { max_depth: i64 },
    CaptureScreenshot,
    ExecuteScript { source: Seq<char> },
}

impl View for GameOp {
    type V = GameOpView;

    open spec fn view(&self) -> GameOpView {
        match self {
            GameOp::GetGameInfo => GameOpView::GetGameInfo,
            GameOp::GetSceneTree { max_depth } => GameOpView::GetSceneTree {
                max_depth: *max_depth,
            },
            GameOp::CaptureScreenshot => GameOpView::CaptureScreenshot,
            GameOp::ExecuteScript { source } => GameOpView::ExecuteScript { source: source@ },
        }
    }
}

/// What a call of a game tool asks for, other than input, or why it is refused.
pub open spec fn game_call(name: Seq<char>, args: JsonView) -> Result<GameOpView, Seq<char>> {
    if name == GET_GAME_INFO@ {
        Ok(GameOpView::GetGameInfo)
    } else if name == GET_SCENE_TREE@ {
        Ok(GameOpView::GetSceneTree { max_depth: crate::ops::depth_asked(args) })
    } else if name == CAPTURE_SCREENSHOT@ {
        Ok(GameOpView::CaptureScreenshot)
    } else if name == EXECUTE_SCRIPT@ {
        match args.text_field("code"@) {
            Some(code) => Ok(
                GameOpView::ExecuteScript { source: crate::gd_util::script_source(code) },
            ),
            None => Err("execute_script requires a `code` argument"@),
        }
    } else {
        Err(crate::ops::unknown_tool(name))
    }
}

/// Decides what a call of a game tool asks for.
pub fn execute_game_op(name: &str, args: &Json) -> (r: Result<GameOp, String>)
    ensures
        match r {
            Ok(op) => game_call(name@, args@) == Ok::<GameOpView, Seq<char>>(op@),
            Err(message) => game_call(name@, args@) == Err::<GameOpView, Seq<char>>(message@),
        },
{
    if same(name, GET_GAME_INFO) {
        Ok(GameOp::GetGameInfo)
    } else if same(name, GET_SCENE_TREE) {
        Ok(GameOp::GetSceneTree { max_depth: read_depth(args) })
    } else if same(name, CAPTURE_SCREENSHOT) {
        Ok(GameOp::CaptureScreenshot)
    } else if same(name, EXECUTE_SCRIPT) {
        match args.text_field("code") {
            Some(code) => Ok(GameOp::ExecuteScript { source: gdscript_source(code) }),
            None => Err("execute_script requires a `code` argument".to_owned()),
        }
    } else {
        Err(unknown_tool_text(name))
    }
}

/// An input sequence that is being played.
#[derive(Debug)]
struct ActiveSequence {
    timeline: VecDeque<TimedEvent>,
    dispatched: usize,
}

/// What a sequence is: the events still to come, and how many have been
/// dispatched.
#[verifier::ext_equal]
pub struct SequenceView {
    pub timeline: Seq<TimedView>,
    pub dispatched: nat,
}

/// The state of the running game's runtime: the input sequence that it plays,
/// if any.
#[derive(Debug)]
pub struct GodotAgentRuntime {
    active: Option<ActiveSequence>,
}

impl View for GodotAgentRuntime {
    type V = Option<SequenceView>;

    closed spec fn view(&self) -> Option<SequenceView> {
        match self.active {
            Some(seq) => Some(
                SequenceView {
                    timeline: crate::timeline::timed_views(seq.timeline@),
                    dispatched: seq.dispatched as nat,
                },
            ),
            None => None,
        }
    }
}

/// What has to be done for a job.
#[derive(Debug)]
pub enum JobStep {
    /// Answer with an error.
    Refuse(String),
    /// A sequence has started; its answer follows when the last event is
    /// dispatched.
    Started,
    /// Do this and answer.
    Execute(GameOp),
}

/// What a step is.
#[verifier::ext_equal]
pub enum JobStepView {
    Refuse(Seq<char>),
    Started,
    Execute(GameOpView),
}

impl View for JobStep {
    type V = JobStepView;

    open spec fn view(&self) -> JobStepView {
        match self {
            JobStep::Refuse(message) => JobStepView::Refuse(message@),
            JobStep::Started => JobStepView::Started,
            JobStep::Execute(op) => JobStepView::Execute(op@),
        }
    }
}

/// The state after a job, and what has to be done for it. A sequence starts
/// only where none is being played and the call names at least one event.
pub open spec fn job_step(
    active: Option<SequenceView>,
    name: Seq<char>,
    args: JsonView,
) -> (Option<SequenceView>, JobStepView) {
    if name == SIMULATE_INPUT@ {
        if active is Some {
            (active, JobStepView::Refuse("An input sequence is already in progress"@))
        } else {
            match crate::timeline::call_timeline(args) {
                Err(message) => (active, JobStepView::Refuse(message)),
                Ok(timeline) => if timeline.len() == 0 {
                    (active, JobStepView::Refuse("events array is empty"@))
                } else {
                    (Some(SequenceView { timeline, dispatched: 0 }), JobStepView::Started)
                },
            }
        }
    } else {
        match game_call(name, args) {
            Err(message) => (active, JobStepView::Refuse(message)),
            Ok(op) => (active, JobStepView::Execute(op)),
        }
    }
}

/// What happens to the input sequence.
#[derive(Debug)]
pub enum Advance {
    /// No sequence is being played.
    Idle,
    /// The next event is not due.
    Waiting,
    /// Dispatch this event; more follow.
    Dispatch(InputEvent),
    /// Dispatch this event; it is the last, and the call is answered with the
    /// text.
    Finish(InputEvent, String),
}

/// What happens, as a value.
#[verifier::ext_equal]
pub enum AdvanceView {
    Idle,
    Waiting,
    Dispatch(InputView),
    Finish(InputView, Seq<char>),
}

impl View for Advance {
    type V = AdvanceView;

    open spec fn view(&self) -> AdvanceView {
        match self {
            Advance::Idle => AdvanceView::Idle,
            Advance::Waiting => AdvanceView::Waiting,
            Advance::Dispatch(event) => AdvanceView::Dispatch(event@),
            Advance::Finish(event, reply) => AdvanceView::Finish(event@, reply@),
        }
    }
}

/// The answer to a call whose events have all been dispatched.
pub open spec fn dispatched_text(count: nat) -> Seq<char> {
    "Dispatched "@ + crate::text::decimal(count) + " input events"@
}

/// The state after the sequence is advanced, and what happens.
pub open spec fn advance_step(active: Option<SequenceView>, due: bool) -> (
    Option<SequenceView>,
    AdvanceView,
) {
    match active {
        None => (None, AdvanceView::Idle),
        Some(seq) => if !due {
            (active, AdvanceView::Waiting)
        } else if seq.timeline.len() > 1 {
            (
                Some(
                    SequenceView {
                        timeline: seq.timeline.skip(1),
                        dispatched: seq.dispatched + 1,
                    },
                ),
                AdvanceView::Dispatch(seq.timeline[0].event),
            )
        } else {
            (
                None,
                AdvanceView::Finish(
                    seq.timeline[0].event,
                    dispatched_text(seq.dispatched + 1),
                ),
            )
        },
    }
}

/// Whether a state can come about: a sequence that is being played has events
/// to come.
pub open spec fn playable(active: Option<SequenceView>) -> bool {
    active matches Some(seq) ==> seq.timeline.len() > 0
}

impl GodotAgentRuntime {
    /// A sequence that is being played has events to come, and their number
    /// can be counted.
    #[verifier::type_invariant]
    spec fn wf(self) -> bool {
        match self.active {
            Some(seq) => seq.timeline@.len() > 0 && seq.dispatched + seq.timeline@.len()
                <= usize::MAX,
            None => true,
        }
    }

    /// A runtime that plays nothing.
    pub fn new() -> (r: GodotAgentRuntime)
        ensures
            r@ is None,
    {
        GodotAgentRuntime { active: None }
    }

    /// Takes a job.
    pub fn take_job(&mut self, name: &str, args: &Json) -> (r: JobStep)
        ensures
            playable(old(self)@),
            playable(final(self)@),
            (final(self)@, r@) == job_step(old(self)@, name@, args@),
    {
        proof {
            use_type_invariant(&*self);
        }
        if same(name, SIMULATE_INPUT) {
            if self.active.is_some() {
                return JobStep::Refuse("An input sequence is already in progress".to_owned());
            }
            match build_timeline(args) {
                Err(message) => JobStep::Refuse(message),
                Ok(timeline) => {
                    if timeline.len() == 0 {
                        return JobStep::Refuse("events array is empty".to_owned());
                    }
                    self.active = Some(ActiveSequence { timeline, dispatched: 0 });
                    JobStep::Started
                },
            }
        } else {
            match execute_game_op(name, args) {
                Err(message) => JobStep::Refuse(message),
                Ok(op) => JobStep::Execute(op),
            }
        }
    }

    /// The delay before the next event of the sequence that is being played.
    pub fn next_delay(&self) -> (r: Option<&Delay>)
        ensures
            playable(self@),
            match self@ {
                Some(seq) => r is Some && r->0@ == seq.timeline[0].delay,
                None => r is None,
            },
    {
        proof {
            use_type_invariant(self);
        }
        match &self.active {
            Some(seq) => Some(&seq.timeline[0].delay),
            None => None,
        }
    }

    /// Advances the sequence that is being played: where the next event is
    /// due, it is to be dispatched. This is called once per frame: a call gives
    /// one event at most, so no two events share a frame.
    pub fn advance_input_sequence(&mut self, due: bool) -> (r: Advance)
        ensures
            playable(old(self)@),
            playable(final(self)@),
            (final(self)@, r@) == advance_step(old(self)@, due),
    {
        proof {
            use_type_invariant(&*self);
        }
        let mut taken: Option<ActiveSequence> = None;
        std::mem::swap(&mut taken, &mut self.active);
        match taken {
            None => Advance::Idle,
            Some(mut seq) => {
                if !due {
                    self.active = Some(seq);
                    return Advance::Waiting;
                }
                let ghost before = seq.timeline@;
                match seq.timeline.pop_front() {
                    None => Advance::Idle,
                    Some(timed) => {
                        seq.dispatched = seq.dispatched + 1;
                        if seq.timeline.len() > 0 {
                            proof {
                                assert(crate::timeline::timed_views(seq.timeline@)
                                    =~= crate::timeline::timed_views(before).skip(1));
                            }
                            self.active = Some(seq);
                            Advance::Dispatch(timed.event)
                        } else {
                            let mut reply = "Dispatched ".to_owned();
                            push_decimal(&mut reply, seq.dispatched);
                            reply.append(" input events");
                            Advance::Finish(timed.event, reply)
                        }
                    },
                }
            },
        }
    }
}

/// A job never disturbs the sequence that is being played, and leaves a state
/// that can come about.
pub proof fn law_job_leaves_sequence_alone(
    active: Option<SequenceView>,
    name: Seq<char>,
    args: JsonView,
)
    requires
        playable(active),
    ensures
        playable(job_step(active, name, args).0),
        active is Some ==> job_step(active, name, args).0 == active,
        job_step(active, name, args).1 != JobStepView::Started ==> job_step(active, name, args).0
            == active,
{
}

/// What a run of the sequence amounts to: the state after a series of looks at
/// the clock, each of which finds the next event due or not, the inputs that
/// were dispatched, and the answers that were given.
pub open spec fn play(active: Option<SequenceView>, dues: Seq<bool>) -> (
    Option<SequenceView>,
    Seq<InputView>,
    Seq<Seq<char>>,
)
    decreases dues.len(),
{
    if dues.len() == 0 {
        (active, Seq::empty(), Seq::empty())
    } else {
        let before = play(active, dues.drop_last());
        let step = advance_step(before.0, dues.last());
        match step.1 {
            AdvanceView::Idle => (step.0, before.1, before.2),
            AdvanceView::Waiting => (step.0, before.1, before.2),
            AdvanceView::Dispatch(input) => (step.0, before.1.push(input), before.2),
            AdvanceView::Finish(input, reply) => (
                step.0,
                before.1.push(input),
                before.2.push(reply),
            ),
        }
    }
}

/// With one look at the clock per frame, a frame sees one input at most, and at
/// most one answer, however late the clock is.
pub proof fn law_one_input_per_frame(active: Option<SequenceView>, dues: Seq<bool>)
    requires
        dues.len() > 0,
    ensures
        ({
            let earlier = play(active, dues.drop_last());
            let now = play(active, dues);
            &&& earlier.1.is_prefix_of(now.1)
            &&& now.1.len() <= earlier.1.len() + 1
            &&& earlier.2.is_prefix_of(now.2)
            &&& now.2.len() <= earlier.2.len() + 1
        }),
{
    let earlier = play(active, dues.drop_last());
    let now = play(active, dues);
    assert(now.1.subrange(0, earlier.1.len() as int) =~= earlier.1);
    assert(now.2.subrange(0, earlier.2.len() as int) =~= earlier.2);
}

/// How often the next event was found due.
pub open spec fn count_due(dues: Seq<bool>) -> nat
    decreases dues.len(),
{
    if dues.len() == 0 {
        0
    } else if dues.last() {
        count_due(dues.drop_last()) + 1
    } else {
        count_due(dues.drop_last())
    }
}

/// However the clock runs, the inputs of a timeline are dispatched in order,
/// each once; the call is answered once, right after the last of them, with
/// their number.
pub proof fn law_timeline_is_played_in_order(timeline: Seq<TimedView>, dues: Seq<bool>)
    requires
        timeline.len() > 0,
    ensures
        ({
            let start = Some(SequenceView { timeline, dispatched: 0 });
            let inputs = crate::timeline::inputs(timeline);
            let due = count_due(dues);
            if due < timeline.len() {
                &&& play(start, dues).0 == Some(
                    SequenceView { timeline: timeline.skip(due as int), dispatched: due },
                )
                &&& play(start, dues).1 == inputs.take(due as int)
                &&& play(start, dues).2 == Seq::<Seq<char>>::empty()
            } else {
                &&& play(start, dues).0 is None
                &&& play(start, dues).1 == inputs
                &&& play(start, dues).2 == seq![dispatched_text(timeline.len())]
            }
        }),
    decreases dues.len(),
{
    let start = Some(SequenceView { timeline, dispatched: 0 });
    let inputs = crate::timeline::inputs(timeline);
    if dues.len() == 0 {
        assert(timeline.skip(0) =~= timeline);
        assert(inputs.take(0) =~= Seq::<InputView>::empty());
    } else {
        let earlier = dues.drop_last();
        law_timeline_is_played_in_order(timeline, earlier);
        let m = count_due(earlier) as int;
        if m < timeline.len() && dues.last() {
            let rest = timeline.skip(m);
            assert(rest[0] == timeline[m]);
            assert(rest.skip(1) =~= timeline.skip(m + 1));
            assert(inputs.take(m).push(timeline[m].event) =~= inputs.take(m + 1));
            if m + 1 == timeline.len() {
                assert(inputs.take(m + 1) =~= inputs);
                assert(Seq::<Seq<char>>::empty().push(dispatched_text(timeline.len())) =~= seq![
                    dispatched_text(timeline.len()),
                ]);
            }
        }
    }
}

proof fn lemma_timeline_message(args: JsonView, name: Seq<char>)
    requires
        crate::timeline::call_timeline(args) is Err,
    ensures
        crate::timeline::call_timeline(args)->Err_0 != crate::ops::unknown_tool(name),
{
    let message = crate::timeline::call_timeline(args)->Err_0;
    reveal_strlit("Unknown tool: ");
    reveal_strlit("simulate_input requires an `events` array");
    reveal_strlit("events[");
    assert(crate::ops::unknown_tool(name)[0] == 'U');
    assert("simulate_input requires an `events` array"@[0] == 's');
    assert("events["@[0] == 'e');
    match args.field("events"@) {
        Some(JsonView::Array(entries)) => {
            crate::timeline::law_first_bad_entry_is_reported(entries, message);
            let i = choose|i: int|
                0 <= i < entries.len() && #[trigger] crate::timeline::entry_effect(
                    entries[i],
                    i as nat,
                ) == Err::<crate::timeline::Effect, Seq<char>>(message) && forall|j: int|
                    0 <= j < i ==> (#[trigger] crate::timeline::entry_effect(
                        entries[j],
                        j as nat,
                    )) is Ok;
            crate::timeline::lemma_entry_message(entries[i], i as nat);
            assert(message[0] == 'e');
        },
        _ => {},
    }
}

/// A call is answered as one of an unknown tool exactly where the game's
/// `tools/list` does not list the tool.
pub proof fn law_unknown_iff_unlisted(
    active: Option<SequenceView>,
    name: Seq<char>,
    args: JsonView,
)
    ensures
        job_step(active, name, args).1 == JobStepView::Refuse(crate::ops::unknown_tool(name))
            <==> !crate::ops::lists(game_tools(), name),
{
    let tools = game_tools();
    assert(tools[0].name == GET_GAME_INFO@);
    assert(tools[1].name == GET_SCENE_TREE@);
    assert(tools[2].name == CAPTURE_SCREENSHOT@);
    assert(tools[3].name == SIMULATE_INPUT@);
    assert(tools[4].name == EXECUTE_SCRIPT@);
    reveal_strlit("Unknown tool: ");
    reveal_strlit("execute_script requires a `code` argument");
    reveal_strlit("An input sequence is already in progress");
    reveal_strlit("events array is empty");
    assert(crate::ops::unknown_tool(name)[0] == 'U');
    assert("execute_script requires a `code` argument"@[0] == 'e');
    assert("An input sequence is already in progress"@[0] == 'A');
    assert("events array is empty"@[0] == 'e');
    if crate::timeline::call_timeline(args) is Err {
        lemma_timeline_message(args, name);
    }
}

pub const NO_SCENE_TREE: &'static str = "Main loop is not a SceneTree";

pub const NO_ROOT_WINDOW: &'static str = "No root window";

/// The state of the running game.
#[derive(Debug)]
pub struct GameInfo {
    /// Frames per second, where JSON has a number for it.
    pub fps: Option<serde_json::Number>,
    /// The name and the path of the current scene, where there is one.
    pub current_scene: Option<(String, String)>,
    /// The width and the height of the window, where there is one.
    pub window_size: Option<(i32, i32)>,
    pub paused: bool,
}

/// The state of the running game as JSON.
pub open spec fn game_info_json(info: GameInfo) -> JsonView {
    let empty = Map::<Seq<char>, JsonView>::empty();
    JsonView::Object(
        empty.insert(
            "fps"@,
            match info.fps {
                Some(n) => crate::json::number_view(n),
                None => JsonView::Null,
            },
        ).insert(
            "current_scene"@,
            match info.current_scene {
                Some((name, path)) => JsonView::Object(
                    empty.insert("name"@, JsonView::Text(name@)).insert(
                        "path"@,
                        JsonView::Text(path@),
                    ),
                ),
                None => JsonView::Null,
            },
        ).insert(
            "window_size"@,
            match info.window_size {
                Some((width, height)) => JsonView::Array(
                    seq![JsonView::Integer(width as i64), JsonView::Integer(height as i64)],
                ),
                None => JsonView::Null,
            },
        ).insert("paused"@, JsonView::Bool(info.paused)),
    )
}

fn pair_json(a: i64, b: i64) -> (r: Json)
    ensures
        r@ == JsonView::Array(seq![JsonView::Integer(a), JsonView::Integer(b)]),
{
    let mut items: Vec<Json> = Vec::new();
    assert(crate::json::views(items@) =~= Seq::<JsonView>::empty());
    proof {
        crate::json::lemma_views_push(items@, Json::Integer(a));
        crate::json::lemma_views_push(items@.push(Json::Integer(a)), Json::Integer(b));
    }
    items.push(Json::Integer(a));
    items.push(Json::Integer(b));
    assert(crate::json::views(items@) =~= seq![JsonView::Integer(a), JsonView::Integer(b)]);
    Json::Array(items)
}

fn game_info(info: &GameInfo) -> (r: Json)
    ensures
        r@ == game_info_json(*info),
{
    let fps = match &info.fps {
        Some(n) => Json::Number(clone_number(n)),
        None => Json::Null,
    };
    let scene = match &info.current_scene {
        Some((name, path)) => Json::Object(
            Fields::new().with("name", Json::text(name.as_str())).with(
                "path",
                Json::text(path.as_str()),
            ),
        ),
        None => Json::Null,
    };
    let size = match info.window_size {
        Some((width, height)) => pair_json(width as i64, height as i64),
        None => Json::Null,
    };
    Json::Object(
        Fields::new().with("fps", fps).with("current_scene", scene).with(
            "window_size",
            size,
        ).with("paused", Json::Bool(info.paused)),
    )
}

/// Answers with the state of the game, which there is where the main loop is a
/// scene tree.
pub fn game_info_result(info: Option<&GameInfo>) -> (r: Result<Json, String>)
    ensures
        match info {
            Some(info) => r is Ok && r->Ok_0@ == game_info_json(*info),
            None => r is Err && r->Err_0@ == NO_SCENE_TREE@,
        },
{
    match info {
        Some(info) => Ok(game_info(info)),
        None => Err(NO_SCENE_TREE.to_owned()),
    }
}

/// What the engine says of the tree of the running game.
#[derive(Debug)]
pub enum GameTree {
    NoSceneTree,
    NoRootWindow,
    Root(SceneNode),
}

/// Answers with the tree of the running game.
pub fn game_tree_result(tree: &GameTree, max_depth: i64) -> (r: Result<Json, String>)
    ensures
        match tree {
            GameTree::NoSceneTree => r is Err && r->Err_0@ == NO_SCENE_TREE@,
            GameTree::NoRootWindow => r is Err && r->Err_0@ == NO_ROOT_WINDOW@,
            GameTree::Root(node) => r is Ok && r->Ok_0@ == crate::gd_util::node_json(
                node@,
                max_depth as int,
            ),
        },
{
    match tree {
        GameTree::NoSceneTree => Err(NO_SCENE_TREE.to_owned()),
        GameTree::NoRootWindow => Err(NO_ROOT_WINDOW.to_owned()),
        GameTree::Root(node) => Ok(serialize_node(node, max_depth)),
    }
}

/// The greatest width of a screenshot.
pub const MAX_SCREENSHOT_WIDTH: i32 = 1280;

/// The size to which a frame is scaled down, where it is too wide: the
/// greatest width, and the height in proportion, rounded towards zero.
pub open spec fn scaled_size(width: int, height: int) -> Option<(int, int)> {
    if width > MAX_SCREENSHOT_WIDTH {
        let scaled = if height >= 0 {
            height * MAX_SCREENSHOT_WIDTH / width
        } else {
            -(-height * MAX_SCREENSHOT_WIDTH / width)
        };
        Some((MAX_SCREENSHOT_WIDTH as int, scaled))
    } else {
        None
    }
}

/// Picks the size to which a frame is scaled down.
pub fn screenshot_size(width: i32, height: i32) -> (r: Option<(i32, i32)>)
    requires
        width > MAX_SCREENSHOT_WIDTH ==> i32::MIN <= height * MAX_SCREENSHOT_WIDTH <= i32::MAX,
    ensures
        scaled_size(width as int, height as int) == (match r {
            Some((w, h)) => Some((w as int, h as int)),
            None => None,
        }),
{
    if width > MAX_SCREENSHOT_WIDTH {
        let scaled = height * MAX_SCREENSHOT_WIDTH / width;
        Some((MAX_SCREENSHOT_WIDTH, scaled))
    } else {
        None
    }
}

/// How taking a screenshot went.
#[derive(Debug)]
pub enum Capture {
    NoSceneTree,
    NoRootWindow,
    NoTexture,
    NoImage,
    /// The image could not be encoded.
    NotEncoded,
    /// The PNG file in Base64.
    Encoded(String),
}

/// The field of an image result that holds the file in Base64.
pub const IMAGE_FIELD: &'static str = "_image_base64";

/// The field of an image result that holds the type of the file.
pub const MIME_FIELD: &'static str = "_mime";

/// An image as a result: its file in Base64 and the type of the file.
pub open spec fn image_json(data: Seq<char>, mime: Seq<char>) -> JsonView {
    JsonView::Object(
        Map::<Seq<char>, JsonView>::empty().insert(IMAGE_FIELD@, JsonView::Text(data)).insert(
            MIME_FIELD@,
            JsonView::Text(mime),
        ),
    )
}

/// What is answered to a screenshot call.
pub open spec fn capture_answer(capture: Capture) -> Result<JsonView, Seq<char>> {
    match capture {
        Capture::NoSceneTree => Err(NO_SCENE_TREE@),
        Capture::NoRootWindow => Err(NO_ROOT_WINDOW@),
        Capture::NoTexture => Err("Viewport has no texture"@),
        Capture::NoImage => Err("Failed to read viewport image"@),
        Capture::NotEncoded => Err("Failed to encode PNG"@),
        Capture::Encoded(base64) => Ok(image_json(base64@, "image/png"@)),
    }
}

/// Answers a screenshot call.
pub fn screenshot_result(capture: &Capture) -> (r: Result<Json, String>)
    ensures
        match r {
            Ok(json) => capture_answer(*capture) == Ok::<JsonView, Seq<char>>(json@),
            Err(message) => capture_answer(*capture) == Err::<JsonView, Seq<char>>(message@),
        },
{
    match capture {
        Capture::NoSceneTree => Err(NO_SCENE_TREE.to_owned()),
        Capture::NoRootWindow => Err(NO_ROOT_WINDOW.to_owned()),
        Capture::NoTexture => Err("Viewport has no texture".to_owned()),
        Capture::NoImage => Err("Failed to read viewport image".to_owned()),
        Capture::NotEncoded => Err("Failed to encode PNG".to_owned()),
        Capture::Encoded(base64) => Ok(
            Json::Object(
                Fields::new().with(IMAGE_FIELD, Json::text(base64.as_str())).with(
                    MIME_FIELD,
                    Json::text("image/png"),
                ),
            ),
        ),
    }
}

} // verus!
