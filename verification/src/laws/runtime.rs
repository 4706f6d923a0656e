//! Laws of the running game's side.

use vstd::prelude::*;

use crate::json::JsonView;
use crate::runtime::{
    Advance, AdvanceView, Capture, GameInfo, GameOp, GameOpView, JobStep, JobStepView, SequenceView,
};
use crate::timeline::TimedView;
use crate::{gd_util, json, runtime, text, timeline};

verus! {

pub(crate) proof fn lemma_game_names()
    ensures
        "get_game_info"@ != "get_scene_tree"@,
        "get_game_info"@ != "capture_screenshot"@,
        "get_game_info"@ != "simulate_input"@,
        "get_game_info"@ != "execute_script"@,
        "get_scene_tree"@ != "capture_screenshot"@,
        "get_scene_tree"@ != "simulate_input"@,
        "get_scene_tree"@ != "execute_script"@,
        "capture_screenshot"@ != "simulate_input"@,
        "capture_screenshot"@ != "execute_script"@,
        "simulate_input"@ != "execute_script"@,
{
    reveal_strlit("get_game_info");
    reveal_strlit("get_scene_tree");
    reveal_strlit("capture_screenshot");
    reveal_strlit("simulate_input");
    reveal_strlit("execute_script");
    assert("get_game_info"@.len() == 13);
    assert("get_scene_tree"@.len() == 14 && "get_scene_tree"@[0] == 'g');
    assert("capture_screenshot"@.len() == 18);
    assert("simulate_input"@.len() == 14 && "simulate_input"@[0] == 's');
    assert("execute_script"@.len() == 14 && "execute_script"@[0] == 'e');
}

/// Tools without arguments are carried out, whatever is given to them and
/// whatever is being played.
pub proof fn law_plain_jobs(active: Option<SequenceView>, args: JsonView)
    ensures
        runtime::game_call("get_game_info"@, args) == Ok::<GameOpView, Seq<char>>(
            GameOpView::GetGameInfo,
        ),
        runtime::job_step(active, "get_game_info"@, args) == (
            active,
            JobStepView::Execute(GameOpView::GetGameInfo),
        ),
        runtime::game_call("capture_screenshot"@, args) == Ok::<GameOpView, Seq<char>>(
            GameOpView::CaptureScreenshot,
        ),
        runtime::job_step(active, "capture_screenshot"@, args) == (
            active,
            JobStepView::Execute(GameOpView::CaptureScreenshot),
        ),
{
    lemma_game_names();
}

/// A call for the tree asks for the depth that its arguments name.
pub proof fn law_tree_job(active: Option<SequenceView>, args: JsonView)
    ensures
        runtime::game_call("get_scene_tree"@, args) matches Ok(
            GameOpView::GetSceneTree { max_depth },
        ) && crate::laws::ops::is_depth_of(args, max_depth) && runtime::job_step(
            active,
            "get_scene_tree"@,
            args,
        ) == (active, JobStepView::Execute(GameOpView::GetSceneTree { max_depth })),
{
    lemma_game_names();
}

/// A call to run a script runs its code as the body of a script, and is refused
/// without any.
pub proof fn law_script_job(active: Option<SequenceView>, args: JsonView)
    ensures
        match args.field("code"@) {
            Some(JsonView::Text(code)) => {
                let op = GameOpView::ExecuteScript { source: gd_util::script_source(code) };
                &&& runtime::game_call("execute_script"@, args) == Ok::<
                    GameOpView,
                    Seq<char>,
                >(op)
                &&& runtime::job_step(active, "execute_script"@, args) == (
                    active,
                    JobStepView::Execute(op),
                )
            },
            _ => {
                let message = "execute_script requires a `code` argument"@;
                &&& runtime::game_call("execute_script"@, args) == Err::<
                    GameOpView,
                    Seq<char>,
                >(message)
                &&& runtime::job_step(active, "execute_script"@, args) == (
                    active,
                    JobStepView::Refuse(message),
                )
            },
        },
{
    lemma_game_names();
}

/// A call of any other tool is refused by its name.
pub proof fn law_other_job(active: Option<SequenceView>, name: Seq<char>, args: JsonView)
    requires
        name != "get_game_info"@,
        name != "get_scene_tree"@,
        name != "capture_screenshot"@,
        name != "simulate_input"@,
        name != "execute_script"@,
    ensures
        runtime::game_call(name, args) == Err::<GameOpView, Seq<char>>(
            "Unknown tool: "@ + name,
        ),
        runtime::job_step(active, name, args) == (
            active,
            JobStepView::Refuse("Unknown tool: "@ + name),
        ),
{
}

/// A call to simulate input is refused while a sequence is being played. Else
/// it starts the timeline of its events from the first of them, and is refused
/// where there is none, or for what is wrong with them.
pub proof fn law_input_job(active: Option<SequenceView>, args: JsonView)
    ensures
        active is Some ==> runtime::job_step(active, "simulate_input"@, args) == (
            active,
            JobStepView::Refuse("An input sequence is already in progress"@),
        ),
        active is None ==> match timeline::call_timeline(args) {
            Err(message) => runtime::job_step(active, "simulate_input"@, args) == (
                None::<SequenceView>,
                JobStepView::Refuse(message),
            ),
            Ok(timeline) => if timeline.len() == 0 {
                runtime::job_step(active, "simulate_input"@, args) == (
                    None::<SequenceView>,
                    JobStepView::Refuse("events array is empty"@),
                )
            } else {
                runtime::job_step(active, "simulate_input"@, args) == (
                    Some(SequenceView { timeline, dispatched: 0 }),
                    JobStepView::Started,
                )
            },
        },
{
}

/// A frame on which nothing is due changes nothing. One on which the next event
/// is due dispatches that event and counts it; the rest of the timeline stays.
/// The last event ends the sequence, and the answer tells how many there were.
pub proof fn law_frame(first: TimedView, rest: Seq<TimedView>, dispatched: nat)
    ensures
        ({
            let playing = Some(SequenceView { timeline: seq![first] + rest, dispatched });
            &&& runtime::advance_step(None, true) == (None::<SequenceView>, AdvanceView::Idle)
            &&& runtime::advance_step(None, false) == (None::<SequenceView>, AdvanceView::Idle)
            &&& runtime::advance_step(playing, false) == (playing, AdvanceView::Waiting)
            &&& rest.len() > 0 ==> runtime::advance_step(playing, true) == (
                Some(SequenceView { timeline: rest, dispatched: dispatched + 1 }),
                AdvanceView::Dispatch(first.event),
            )
            &&& rest.len() == 0 ==> runtime::advance_step(playing, true) == (
                None::<SequenceView>,
                AdvanceView::Finish(
                    first.event,
                    "Dispatched "@ + text::decimal(dispatched + 1) + " input events"@,
                ),
            )
        }),
{
    let timeline = seq![first] + rest;
    assert(timeline.skip(1) =~= rest);
    assert(timeline[0] == first);
}

/// A state is one that can come about exactly where nothing is being played or
/// events are to come.
pub proof fn law_playable(timeline: Seq<TimedView>, dispatched: nat)
    ensures
        runtime::playable(None),
        runtime::playable(Some(SequenceView { timeline, dispatched })) == (timeline.len() > 0),
{
}

/// The state of the game is told field by field; what there is not is null.
pub proof fn law_game_info(info: GameInfo)
    ensures
        ({
            let json = runtime::game_info_json(info);
            &&& json is Object
            &&& json->Object_0.dom() == set![
                "fps"@,
                "current_scene"@,
                "window_size"@,
                "paused"@,
            ]
            &&& json.field("fps"@) == Some(
                match info.fps {
                    Some(n) => json::number_view(n),
                    None => JsonView::Null,
                },
            )
            &&& json.field("paused"@) == Some(JsonView::Bool(info.paused))
            &&& info.window_size is None ==> json.field("window_size"@) == Some(JsonView::Null)
            &&& info.window_size matches Some((width, height)) ==> json.field("window_size"@)
                == Some(
                JsonView::Array(
                    seq![JsonView::Integer(width as i64), JsonView::Integer(height as i64)],
                ),
            )
            &&& info.current_scene is None ==> json.field("current_scene"@) == Some(JsonView::Null)
            &&& info.current_scene matches Some((name, path)) ==> {
                let scene = json.field("current_scene"@)->0;
                &&& scene is Object
                &&& scene->Object_0.dom() == set!["name"@, "path"@]
                &&& scene.field("name"@) == Some(JsonView::Text(name@))
                &&& scene.field("path"@) == Some(JsonView::Text(path@))
            }
        }),
{
    reveal_strlit("fps");
    reveal_strlit("current_scene");
    reveal_strlit("window_size");
    reveal_strlit("paused");
    reveal_strlit("name");
    reveal_strlit("path");
    assert("fps"@.len() == 3);
    assert("current_scene"@.len() == 13);
    assert("window_size"@.len() == 11);
    assert("paused"@.len() == 6);
    assert("name"@[0] == 'n');
    assert("path"@[0] == 'p');
    let json = runtime::game_info_json(info);
    assert(json->Object_0.dom() =~= set!["fps"@, "current_scene"@, "window_size"@, "paused"@]);
    match info.current_scene {
        Some((name, path)) => {
            let scene = json.field("current_scene"@)->0;
            assert(scene->Object_0.dom() =~= set!["name"@, "path"@]);
        },
        None => {},
    }
}

/// A frame that is at most 1280 wide is kept. A wider one is scaled to that
/// width, and its height in proportion to less than a pixel: the height that
/// it gets, in proportion, is not above its own, and one more would be.
pub proof fn law_screenshot_size(width: int, height: int)
    ensures
        width <= 1280 ==> runtime::scaled_size(width, height) is None,
        width > 1280 && height >= 0 ==> {
            runtime::scaled_size(width, height) matches Some((w, h)) && {
                &&& w == 1280
                &&& h >= 0
                &&& h * width <= height * 1280
                &&& height * 1280 < (h + 1) * width
            }
        },
        width > 1280 && height < 0 ==> {
            runtime::scaled_size(width, -height) matches Some((w, h))
                && runtime::scaled_size(width, height) == Some((w, -h))
        },
{
    if width > 1280 && height >= 0 {
        let product = height * 1280;
        let h = product / width;
        assert(h >= 0 && h * width <= product && product < (h + 1) * width) by (nonlinear_arith)
            requires
                h == product / width,
                product >= 0,
                width > 1280,
        ;
    }
}

/// A screenshot is answered with its file and type, or with what was missing.
pub proof fn law_capture(capture: Capture)
    ensures
        match capture {
            Capture::NoSceneTree => runtime::capture_answer(capture) == Err::<JsonView, Seq<char>>(
                "Main loop is not a SceneTree"@,
            ),
            Capture::NoRootWindow => runtime::capture_answer(capture) == Err::<JsonView, Seq<char>>(
                "No root window"@,
            ),
            Capture::NoTexture => runtime::capture_answer(capture) == Err::<JsonView, Seq<char>>(
                "Viewport has no texture"@,
            ),
            Capture::NoImage => runtime::capture_answer(capture) == Err::<JsonView, Seq<char>>(
                "Failed to read viewport image"@,
            ),
            Capture::NotEncoded => runtime::capture_answer(capture) == Err::<JsonView, Seq<char>>(
                "Failed to encode PNG"@,
            ),
            Capture::Encoded(base64) => {
                &&& runtime::capture_answer(capture) is Ok
                &&& runtime::capture_answer(capture)->Ok_0 is Object
                &&& runtime::capture_answer(capture)->Ok_0->Object_0.dom() == set![
                    "_image_base64"@,
                    "_mime"@,
                ]
                &&& runtime::capture_answer(capture)->Ok_0.field("_image_base64"@) == Some(
                    JsonView::Text(base64@),
                )
                &&& runtime::capture_answer(capture)->Ok_0.field("_mime"@) == Some(
                    JsonView::Text("image/png"@),
                )
            },
        },
        runtime::NO_SCENE_TREE@ == "Main loop is not a SceneTree"@,
        runtime::NO_ROOT_WINDOW@ == "No root window"@,
{
    reveal_strlit("_image_base64");
    reveal_strlit("_mime");
    assert("_image_base64"@.len() == 13);
    assert("_mime"@.len() == 5);
    match capture {
        Capture::Encoded(base64) => {
            assert(runtime::capture_answer(capture)->Ok_0->Object_0.dom() =~= set![
                "_image_base64"@,
                "_mime"@,
            ]);
        },
        _ => {},
    }
}

/// The views of operations, steps and what happens tell everything of them.
pub proof fn law_steps_are_what_they_hold(op: GameOp, step: JobStep, advance: Advance)
    ensures
        match op {
            GameOp::GetGameInfo => op@ == GameOpView::GetGameInfo,
            GameOp::GetSceneTree { max_depth } => op@ == (GameOpView::GetSceneTree { max_depth }),
            GameOp::CaptureScreenshot => op@ == GameOpView::CaptureScreenshot,
            GameOp::ExecuteScript { source } => op@ == (GameOpView::ExecuteScript {
                source: source@,
            }),
        },
        match step {
            JobStep::Refuse(message) => step@ == JobStepView::Refuse(message@),
            JobStep::Started => step@ == JobStepView::Started,
            JobStep::Execute(op) => step@ == JobStepView::Execute(op@),
        },
        match advance {
            Advance::Idle => advance@ == AdvanceView::Idle,
            Advance::Waiting => advance@ == AdvanceView::Waiting,
            Advance::Dispatch(event) => advance@ == AdvanceView::Dispatch(event@),
            Advance::Finish(event, reply) => advance@ == AdvanceView::Finish(event@, reply@),
        },
{
}

} // verus!
