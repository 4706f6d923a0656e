//! Laws of input timelines: what each entry of a call adds to the timeline of
//! the entries before it, wherever it stands.

use vstd::prelude::*;

use crate::json::JsonView;
use crate::timeline::{
    DelayView, InputEvent, InputView, MouseButton, PlanView, TimedEvent, TimedView,
};
use crate::{text, timeline};

verus! {

/// The names of the kinds of entries differ.
proof fn lemma_kinds()
    ensures
        "wait"@ != "key"@,
        "wait"@ != "text"@,
        "wait"@ != "mouse_click"@,
        "wait"@ != "mouse_move"@,
        "wait"@ != "action"@,
        "key"@ != "text"@,
        "key"@ != "mouse_click"@,
        "key"@ != "mouse_move"@,
        "key"@ != "action"@,
        "text"@ != "mouse_click"@,
        "text"@ != "mouse_move"@,
        "text"@ != "action"@,
        "mouse_click"@ != "mouse_move"@,
        "mouse_click"@ != "action"@,
        "mouse_move"@ != "action"@,
        "right"@ != "middle"@,
{
    reveal_strlit("wait");
    reveal_strlit("key");
    reveal_strlit("text");
    reveal_strlit("mouse_click");
    reveal_strlit("mouse_move");
    reveal_strlit("action");
    reveal_strlit("right");
    reveal_strlit("middle");
    assert("wait"@.len() == 4 && "wait"@[0] == 'w');
    assert("key"@.len() == 3);
    assert("text"@.len() == 4 && "text"@[0] == 't');
    assert("mouse_click"@.len() == 11);
    assert("mouse_move"@.len() == 10);
    assert("action"@.len() == 6);
    assert("right"@.len() == 5);
    assert("middle"@.len() == 6);
}

/// The events of a call are those that its entries plan; a call whose `events`
/// is no array is refused.
pub proof fn law_call_plans_its_entries(args: JsonView)
    ensures
        match args.field("events"@) {
            Some(JsonView::Array(entries)) => match timeline::plan_entries(entries) {
                Ok(plan) => timeline::call_timeline(args) == Ok::<Seq<TimedView>, Seq<char>>(plan.timeline),
                Err(message) => timeline::call_timeline(args) == Err::<Seq<TimedView>, Seq<char>>(message),
            },
            _ => timeline::call_timeline(args) == Err::<Seq<TimedView>, Seq<char>>(
                "simulate_input requires an `events` array"@,
            ),
        },
{
}

/// No entries plan no events, and nothing is waited for before the first.
pub proof fn law_no_entries_plan_nothing()
    ensures
        timeline::plan_entries(Seq::empty()) is Ok,
        timeline::plan_entries(Seq::empty())->Ok_0.timeline.len() == 0,
        timeline::plan_entries(Seq::empty())->Ok_0.pending.gap_ms == 0,
        timeline::plan_entries(Seq::empty())->Ok_0.pending.waits.len() == 0,
{
}

proof fn lemma_step(entries: Seq<JsonView>, entry: JsonView)
    ensures
        entries.push(entry).drop_last() == entries,
        entries.push(entry).last() == entry,
        entries.push(entry).len() == entries.len() + 1,
{
    assert(entries.push(entry).drop_last() =~= entries);
}

/// Once an entry is refused, no later one changes the answer.
pub proof fn law_refusal_stands(entries: Seq<JsonView>, entry: JsonView)
    requires
        timeline::plan_entries(entries) is Err,
    ensures
        timeline::plan_entries(entries.push(entry)) == timeline::plan_entries(entries),
{
    lemma_step(entries, entry);
}

/// The timeline of `plan` followed by one event after what is pending, and the
/// gap that is pending then.
pub open spec fn followed_by(plan: PlanView, event: InputView, gap_ms: u32) -> PlanView {
    PlanView {
        timeline: plan.timeline + seq![TimedView { delay: plan.pending, event }],
        pending: DelayView { gap_ms, waits: Seq::empty() },
    }
}

/// An entry that holds a key down or lets it go adds one event: that key, with
/// the flag that the entry gives.
pub proof fn law_held_key(entries: Seq<JsonView>, entry: JsonView, key: Seq<char>, pressed: bool)
    requires
        timeline::plan_entries(entries) is Ok,
        entry.field("type"@) == Some(JsonView::Text("key"@)),
        entry.field("key"@) == Some(JsonView::Text(key)),
        entry.field("pressed"@) == Some(JsonView::Bool(pressed)),
    ensures
        timeline::plan_entries(entries.push(entry)) == Ok::<PlanView, Seq<char>>(
            followed_by(timeline::plan_entries(entries)->Ok_0, InputView::Key { key, pressed }, 50),
        ),
{
    lemma_kinds();
    lemma_step(entries, entry);
    let plan = timeline::plan_entries(entries)->Ok_0;
    let one = timeline::cue(InputView::Key { key, pressed }, 50);
    timeline::lemma_plan_few(plan, one, one, one);
    assert(timeline::plan_entries(entries.push(entry))->Ok_0 =~= followed_by(
        plan,
        InputView::Key { key, pressed },
        50,
    ));
}

/// An entry that holds an action down or lets it go adds one event: that
/// action, with the flag that the entry gives.
pub proof fn law_held_action(
    entries: Seq<JsonView>,
    entry: JsonView,
    action: Seq<char>,
    pressed: bool,
)
    requires
        timeline::plan_entries(entries) is Ok,
        entry.field("type"@) == Some(JsonView::Text("action"@)),
        entry.field("action"@) == Some(JsonView::Text(action)),
        entry.field("pressed"@) == Some(JsonView::Bool(pressed)),
    ensures
        timeline::plan_entries(entries.push(entry)) == Ok::<PlanView, Seq<char>>(
            followed_by(timeline::plan_entries(entries)->Ok_0, InputView::Action { action, pressed }, 50),
        ),
{
    lemma_kinds();
    lemma_step(entries, entry);
    let plan = timeline::plan_entries(entries)->Ok_0;
    let one = timeline::cue(InputView::Action { action, pressed }, 50);
    timeline::lemma_plan_few(plan, one, one, one);
    assert(timeline::plan_entries(entries.push(entry))->Ok_0 =~= followed_by(
        plan,
        InputView::Action { action, pressed },
        50,
    ));
}

/// A call with nothing but an entry that holds a key or an action, or lets it
/// go, gives one event at once: on what the entry names, with its flag.
pub proof fn law_lone_hold_is_one_event(
    args: JsonView,
    entry: JsonView,
    name: Seq<char>,
    pressed: bool,
)
    requires
        args.field("events"@) == Some(JsonView::Array(seq![entry])),
        entry.field("pressed"@) == Some(JsonView::Bool(pressed)),
        ({
            ||| entry.field("type"@) == Some(JsonView::Text("key"@)) && entry.field("key"@) == Some(
                JsonView::Text(name),
            )
            ||| entry.field("type"@) == Some(JsonView::Text("action"@)) && entry.field("action"@)
                == Some(JsonView::Text(name))
        }),
    ensures
        timeline::call_timeline(args) is Ok,
        timeline::call_timeline(args)->Ok_0.len() == 1,
        timeline::call_timeline(args)->Ok_0[0].delay.gap_ms == 0,
        timeline::call_timeline(args)->Ok_0[0].delay.waits.len() == 0,
        entry.field("type"@) == Some(JsonView::Text("key"@)) ==> timeline::call_timeline(args)->Ok_0[0].event
            == (InputView::Key { key: name, pressed }),
        entry.field("type"@) == Some(JsonView::Text("action"@)) ==> timeline::call_timeline(
            args,
        )->Ok_0[0].event == (InputView::Action { action: name, pressed }),
{
    lemma_kinds();
    let none = Seq::<JsonView>::empty();
    assert(none.push(entry) =~= seq![entry]);
    if entry.field("type"@) == Some(JsonView::Text("key"@)) {
        law_held_key(none, entry, name, pressed);
    } else {
        law_held_action(none, entry, name, pressed);
    }
}

/// An entry that taps a key adds its press and, 60 ms later, its release.
pub proof fn law_tapped_key(entries: Seq<JsonView>, entry: JsonView, key: Seq<char>)
    requires
        timeline::plan_entries(entries) is Ok,
        entry.field("type"@) == Some(JsonView::Text("key"@)),
        entry.field("key"@) == Some(JsonView::Text(key)),
        !(entry.field("pressed"@) matches Some(JsonView::Bool(_))),
    ensures
        timeline::plan_entries(entries.push(entry)) == Ok::<PlanView, Seq<char>>(
            followed_by(
                followed_by(
                    timeline::plan_entries(entries)->Ok_0,
                    InputView::Key { key, pressed: true },
                    60,
                ),
                InputView::Key { key, pressed: false },
                50,
            ),
        ),
{
    lemma_kinds();
    lemma_step(entries, entry);
    let plan = timeline::plan_entries(entries)->Ok_0;
    let down = timeline::cue(InputView::Key { key, pressed: true }, 60);
    let up = timeline::cue(InputView::Key { key, pressed: false }, 50);
    timeline::lemma_plan_few(plan, down, up, up);
    assert(timeline::plan_entries(entries.push(entry))->Ok_0 =~= followed_by(
        followed_by(plan, down.input, 60),
        up.input,
        50,
    ));
}

/// An entry that taps an action adds its press and, 60 ms later, its release.
pub proof fn law_tapped_action(entries: Seq<JsonView>, entry: JsonView, action: Seq<char>)
    requires
        timeline::plan_entries(entries) is Ok,
        entry.field("type"@) == Some(JsonView::Text("action"@)),
        entry.field("action"@) == Some(JsonView::Text(action)),
        !(entry.field("pressed"@) matches Some(JsonView::Bool(_))),
    ensures
        timeline::plan_entries(entries.push(entry)) == Ok::<PlanView, Seq<char>>(
            followed_by(
                followed_by(
                    timeline::plan_entries(entries)->Ok_0,
                    InputView::Action { action, pressed: true },
                    60,
                ),
                InputView::Action { action, pressed: false },
                50,
            ),
        ),
{
    lemma_kinds();
    lemma_step(entries, entry);
    let plan = timeline::plan_entries(entries)->Ok_0;
    let down = timeline::cue(InputView::Action { action, pressed: true }, 60);
    let up = timeline::cue(InputView::Action { action, pressed: false }, 50);
    timeline::lemma_plan_few(plan, down, up, up);
    assert(timeline::plan_entries(entries.push(entry))->Ok_0 =~= followed_by(
        followed_by(plan, down.input, 60),
        up.input,
        50,
    ));
}

/// An entry that moves the pointer adds one event: the pointer at that place.
pub proof fn law_pointer_moves(entries: Seq<JsonView>, entry: JsonView, x: JsonView, y: JsonView)
    requires
        timeline::plan_entries(entries) is Ok,
        entry.field("type"@) == Some(JsonView::Text("mouse_move"@)),
        entry.field("x"@) == Some(x),
        entry.field("y"@) == Some(y),
        x is Integer || x is Number,
        y is Integer || y is Number,
    ensures
        timeline::plan_entries(entries.push(entry)) == Ok::<PlanView, Seq<char>>(
            followed_by(timeline::plan_entries(entries)->Ok_0, InputView::Motion { x, y }, 50),
        ),
{
    lemma_kinds();
    lemma_step(entries, entry);
    let plan = timeline::plan_entries(entries)->Ok_0;
    let one = timeline::cue(InputView::Motion { x, y }, 50);
    timeline::lemma_plan_few(plan, one, one, one);
    assert(timeline::plan_entries(entries.push(entry))->Ok_0 =~= followed_by(
        plan,
        InputView::Motion { x, y },
        50,
    ));
}

/// An entry that clicks adds three events at the place that it names: the
/// pointer moves there, and 60 ms apart the button goes down and up. The button
/// is the right or the middle one where the entry says so, else the left one.
/// Only the press is a double click, and only where the entry asks for one.
pub proof fn law_click(
    entries: Seq<JsonView>,
    entry: JsonView,
    x: JsonView,
    y: JsonView,
    button: MouseButton,
    double: bool,
)
    requires
        timeline::plan_entries(entries) is Ok,
        entry.field("type"@) == Some(JsonView::Text("mouse_click"@)),
        entry.field("x"@) == Some(x),
        entry.field("y"@) == Some(y),
        x is Integer || x is Number,
        y is Integer || y is Number,
        button == MouseButton::Right <==> entry.field("button"@) == Some(
            JsonView::Text("right"@),
        ),
        button == MouseButton::Middle <==> entry.field("button"@) == Some(
            JsonView::Text("middle"@),
        ),
        double <==> entry.field("double"@) == Some(JsonView::Bool(true)),
    ensures
        timeline::plan_entries(entries.push(entry)) == Ok::<PlanView, Seq<char>>(
            followed_by(
                followed_by(
                    followed_by(timeline::plan_entries(entries)->Ok_0, InputView::Motion { x, y }, 60),
                    InputView::Click { x, y, button, pressed: true, double },
                    60,
                ),
                InputView::Click { x, y, button, pressed: false, double: false },
                50,
            ),
        ),
{
    lemma_kinds();
    lemma_step(entries, entry);
    let plan = timeline::plan_entries(entries)->Ok_0;
    let there = timeline::cue(InputView::Motion { x, y }, 60);
    let down = timeline::cue(InputView::Click { x, y, button, pressed: true, double }, 60);
    let up = timeline::cue(InputView::Click { x, y, button, pressed: false, double: false }, 50);
    timeline::lemma_plan_few(plan, there, down, up);
    assert(timeline::plan_entries(entries.push(entry))->Ok_0 =~= followed_by(
        followed_by(followed_by(plan, there.input, 60), down.input, 60),
        up.input,
        50,
    ));
}

/// An entry that waits adds no event. What it waits for comes on top of what is
/// pending: the number that it names, or 100 where it names none.
pub proof fn law_wait(entries: Seq<JsonView>, entry: JsonView, ms: JsonView)
    requires
        timeline::plan_entries(entries) is Ok,
        entry.field("type"@) == Some(JsonView::Text("wait"@)),
        match entry.field("ms"@) {
            Some(JsonView::Integer(i)) => ms == JsonView::Integer(i),
            Some(JsonView::Number(n)) => ms == JsonView::Number(n),
            _ => ms == JsonView::Integer(100),
        },
    ensures
        timeline::plan_entries(entries.push(entry)) is Ok,
        ({
            let plan = timeline::plan_entries(entries)->Ok_0;
            let after = timeline::plan_entries(entries.push(entry))->Ok_0;
            &&& after.timeline == plan.timeline
            &&& after.pending.gap_ms == plan.pending.gap_ms
            &&& after.pending.waits == plan.pending.waits + seq![ms]
        }),
{
    lemma_kinds();
    lemma_step(entries, entry);
    let plan = timeline::plan_entries(entries)->Ok_0;
    let after = timeline::plan_entries(entries.push(entry))->Ok_0;
    assert(after.pending.waits =~= plan.pending.waits + seq![ms]);
}

/// An entry that types a text adds two events for each of its characters, in
/// order and 20 ms apart: the press and the release.
pub proof fn law_typed_text(entries: Seq<JsonView>, entry: JsonView, text: Seq<char>)
    requires
        timeline::plan_entries(entries) is Ok,
        entry.field("type"@) == Some(JsonView::Text("text"@)),
        entry.field("text"@) == Some(JsonView::Text(text)),
    ensures
        timeline::plan_entries(entries.push(entry)) is Ok,
        types(timeline::plan_entries(entries)->Ok_0, text, timeline::plan_entries(entries.push(entry))->Ok_0),
{
    lemma_kinds();
    lemma_step(entries, entry);
    lemma_types(timeline::plan_entries(entries)->Ok_0, text);
}

/// Whether one plan is another with a text typed at its end.
pub open spec fn types(plan: PlanView, text: Seq<char>, after: PlanView) -> bool {
    let n = plan.timeline.len();
    &&& after.timeline.len() == n + 2 * text.len()
    &&& after.timeline.take(n as int) == plan.timeline
    &&& forall|i: int|
        0 <= i < text.len() ==> {
            let press = #[trigger] after.timeline[n + 2 * i];
            &&& press.event == InputView::Char { ch: text[i], pressed: true }
            &&& press.delay == if i == 0 {
                plan.pending
            } else {
                DelayView { gap_ms: 20, waits: Seq::empty() }
            }
        }
    &&& forall|i: int|
        0 <= i < text.len() ==> {
            let release = #[trigger] after.timeline[n + 2 * i + 1];
            &&& release.event == InputView::Char { ch: text[i], pressed: false }
            &&& release.delay == DelayView { gap_ms: 20, waits: Seq::empty() }
        }
    &&& after.pending == if text.len() == 0 {
        plan.pending
    } else {
        DelayView { gap_ms: 20, waits: Seq::empty() }
    }
}

proof fn lemma_types(plan: PlanView, text: Seq<char>)
    ensures
        types(plan, text, timeline::plan_events(plan, timeline::typed(text))),
    decreases text.len(),
{
    let after = timeline::plan_events(plan, timeline::typed(text));
    if text.len() == 0 {
        assert(after.timeline.take(plan.timeline.len() as int) =~= plan.timeline);
    } else {
        let shorter = text.drop_last();
        lemma_types(plan, shorter);
        lemma_types_push(plan, shorter, text.last());
        assert(shorter.push(text.last()) =~= text);
    }
}

proof fn lemma_types_push(plan: PlanView, text: Seq<char>, ch: char)
    requires
        types(plan, text, timeline::plan_events(plan, timeline::typed(text))),
    ensures
        types(plan, text.push(ch), timeline::plan_events(plan, timeline::typed(text.push(ch)))),
{
    timeline::lemma_plan_typed(plan, text, ch);
    let before = timeline::plan_events(plan, timeline::typed(text));
    let after = timeline::plan_events(plan, timeline::typed(text.push(ch)));
    let n = plan.timeline.len() as int;
    let m = before.timeline.len() as int;
    let none = DelayView { gap_ms: 20, waits: Seq::empty() };
    assert(after.pending =~= none);
    assert(after.timeline.len() == m + 2);
    assert(after.timeline.take(m) =~= before.timeline);
    assert(after.timeline.take(n) =~= before.timeline.take(n));
    assert(after.timeline[m].delay == before.pending);
    assert(after.timeline[m + 1].delay =~= none);
    assert forall|i: int| 0 <= i < text.push(ch).len() implies {
        let press = #[trigger] after.timeline[n + 2 * i];
        &&& press.event == InputView::Char { ch: text.push(ch)[i], pressed: true }
        &&& press.delay == if i == 0 {
            plan.pending
        } else {
            none
        }
    } by {
        if i < text.len() {
            assert(after.timeline[n + 2 * i] == before.timeline[n + 2 * i]);
        } else {
            assert(n + 2 * i == m);
        }
    }
    assert forall|i: int| 0 <= i < text.push(ch).len() implies {
        let release = #[trigger] after.timeline[n + 2 * i + 1];
        &&& release.event == InputView::Char { ch: text.push(ch)[i], pressed: false }
        &&& release.delay == none
    } by {
        if i < text.len() {
            assert(after.timeline[n + 2 * i + 1] == before.timeline[n + 2 * i + 1]);
        } else {
            assert(n + 2 * i + 1 == m + 1);
        }
    }
}

/// The complaint about the entry at a place.
pub open spec fn complaint(place: nat, rest: Seq<char>) -> Seq<char> {
    "events["@ + text::decimal(place) + rest
}

/// An entry is refused where it has no kind, a kind that there is not, or not
/// what its kind needs; the answer names its place and what is wrong with it.
pub proof fn law_bad_entry(entries: Seq<JsonView>, entry: JsonView)
    requires
        timeline::plan_entries(entries) is Ok,
    ensures
        ({
            let answer = timeline::plan_entries(entries.push(entry));
            let place = entries.len();
            let numeric = |v: Option<JsonView>|
                v matches Some(JsonView::Integer(_)) || v matches Some(JsonView::Number(_));
            match entry.field("type"@) {
                Some(JsonView::Text(kind)) => {
                    &&& kind == "key"@ ==> if entry.field("key"@) matches Some(JsonView::Text(_)) {
                        answer is Ok
                    } else {
                        answer == Err::<PlanView, Seq<char>>(
                            complaint(place, "]: key events need a `key` name"@),
                        )
                    }
                    &&& kind == "text"@ ==> if entry.field("text"@) matches Some(
                        JsonView::Text(_),
                    ) {
                        answer is Ok
                    } else {
                        answer == Err::<PlanView, Seq<char>>(
                            complaint(place, "]: text events need `text`"@),
                        )
                    }
                    &&& kind == "action"@ ==> if entry.field("action"@) matches Some(
                        JsonView::Text(_),
                    ) {
                        answer is Ok
                    } else {
                        answer == Err::<PlanView, Seq<char>>(
                            complaint(place, "]: action events need `action`"@),
                        )
                    }
                    &&& kind == "mouse_click"@ || kind == "mouse_move"@ ==> if numeric(
                        entry.field("x"@),
                    ) && numeric(entry.field("y"@)) {
                        answer is Ok
                    } else {
                        answer == Err::<PlanView, Seq<char>>(
                            complaint(place, "]: mouse events need numeric `x` and `y`"@),
                        )
                    }
                    &&& kind == "wait"@ ==> answer is Ok
                    &&& kind != "wait"@ && kind != "key"@ && kind != "text"@ && kind
                        != "mouse_click"@ && kind != "mouse_move"@ && kind != "action"@ ==> answer
                        == Err::<PlanView, Seq<char>>(
                        complaint(place, "]: unknown event type `"@ + kind + "`"@),
                    )
                },
                _ => answer == Err::<PlanView, Seq<char>>(
                    complaint(place, "] is missing `type`"@),
                ),
            }
        }),
{
    lemma_kinds();
    lemma_step(entries, entry);
}

/// The view of an event tells everything of it.
pub proof fn law_event_is_what_it_holds(timed: TimedEvent, i: int)
    ensures
        match timed.event {
            InputEvent::Key { key, pressed } => timed@.event == (InputView::Key {
                key: key@,
                pressed,
            }),
            InputEvent::Char { ch, pressed } => timed@.event == (InputView::Char { ch, pressed }),
            InputEvent::Motion { x, y } => timed@.event == (InputView::Motion { x: x@, y: y@ }),
            InputEvent::Click { x, y, button, pressed, double } => timed@.event == (
            InputView::Click { x: x@, y: y@, button, pressed, double }),
            InputEvent::Action { action, pressed } => timed@.event == (InputView::Action {
                action: action@,
                pressed,
            }),
        },
        timed@.event == timed.event@,
        timed@.delay == timed.delay@,
        timed.delay@.gap_ms == timed.delay.gap_ms,
        timed.delay@.waits.len() == timed.delay.waits@.len(),
        0 <= i < timed.delay.waits@.len() ==> timed.delay@.waits[i] == timed.delay.waits@[i]@,
{
}

/// The view of a timeline tells its events in order.
pub proof fn law_timeline_is_what_it_holds(timeline: Seq<TimedEvent>, i: int)
    ensures
        timeline::timed_views(timeline).len() == timeline.len(),
        0 <= i < timeline.len() ==> timeline::timed_views(timeline)[i] == timeline[i]@,
        0 <= i < timeline.len() ==> timeline::inputs(
            timeline::timed_views(timeline),
        )[i] == timeline[i].event@,
{
}

} // verus!
