//! Input timelines: the `events` of a `simulate_input` call as input events,
//! each with the delay before it.
//!
//! Times are whole milliseconds here, but for the waits that a call asks for:
//! those are carried as the numbers that the call holds.

use std::collections::VecDeque;

use vstd::prelude::*;

use crate::json::{Json, JsonView, Scalar};
use crate::text::{chars_of, push_decimal, same};

verus! {

/// The gap between the press and the release of a tap or click.
pub const TAP_GAP_MS: u32 = 60;

/// The gap between consecutive events.
pub const EVENT_GAP_MS: u32 = 50;

/// The gap around the press and the release of a typed character.
pub const TEXT_GAP_MS: u32 = 20;

/// How long a `wait` takes that names no time.
pub const DEFAULT_WAIT_MS: i64 = 100;

#[derive(Debug, Clone, Copy, PartialEq, Eq, Structural)]
pub enum MouseButton {
    Left,
    Right,
    Middle,
}

/// One input event to dispatch.
#[derive(Debug)]
pub enum InputEvent {
    /// A key by its name.
    Key { key: String, pressed: bool },
    /// A typed character.
    Char { ch: char, pressed: bool },
    /// The pointer moves to a place.
    Motion { x: Scalar, y: Scalar },
    /// A mouse button at a place.
    Click { x: Scalar, y: Scalar, button: MouseButton, pressed: bool, double: bool },
    /// An action of the project's input map.
    Action { action: String, pressed: bool },
}

/// What an input event is.
#[verifier::ext_equal]
pub enum InputView {
    Key { key: Seq<char>, pressed: bool },
    Char { ch: char, pressed: bool },
    Motion { x: JsonView, y: JsonView },
    Click { x: JsonView, y: JsonView, button: MouseButton, pressed: bool, double: bool },
    Action { action: Seq<char>, pressed: bool },
}

impl View for InputEvent {
    type V = InputView;

    open spec fn view(&self) -> InputView {
        match self {
            InputEvent::Key { key, pressed } => InputView::Key { key: key@, pressed: *pressed },
            InputEvent::Char { ch, pressed } => InputView::Char { ch: *ch, pressed: *pressed },
            InputEvent::Motion { x, y } => InputView::Motion { x: x@, y: y@ },
            InputEvent::Click { x, y, button, pressed, double } => InputView::Click {
                x: x@,
                y: y@,
                button: *button,
                pressed: *pressed,
                double: *double,
            },
            InputEvent::Action { action, pressed } => InputView::Action {
                action: action@,
                pressed: *pressed,
            },
        }
    }
}

/// The time before an event: a gap, and the waits after it in order, all in
/// milliseconds.
#[derive(Debug)]
pub struct Delay {
    pub gap_ms: u32,
    pub waits: Vec<Scalar>,
}

/// What a delay is.
#[verifier::ext_equal]
pub struct DelayView {
    pub gap_ms: u32,
    pub waits: Seq<JsonView>,
}

impl View for Delay {
    type V = DelayView;

    open spec fn view(&self) -> DelayView {
        DelayView { gap_ms: self.gap_ms, waits: self.waits@.map_values(|w: Scalar| w@) }
    }
}

/// An event and the delay before it.
#[derive(Debug)]
pub struct TimedEvent {
    pub delay: Delay,
    pub event: InputEvent,
}

/// What a timed event is.
#[verifier::ext_equal]
pub struct TimedView {
    pub delay: DelayView,
    pub event: InputView,
}

impl View for TimedEvent {
    type V = TimedView;

    open spec fn view(&self) -> TimedView {
        TimedView { delay: self.delay@, event: self.event@ }
    }
}

/// What the timed events of a timeline are.
pub open spec fn timed_views(timeline: Seq<TimedEvent>) -> Seq<TimedView> {
    timeline.map_values(|t: TimedEvent| t@)
}

/// A timeline under construction: the events so far, and the delay before the
/// next.
#[verifier::ext_equal]
pub struct PlanView {
    pub timeline: Seq<TimedView>,
    pub pending: DelayView,
}

/// A gap without waits.
pub open spec fn gap(gap_ms: u32) -> DelayView {
    DelayView { gap_ms, waits: Seq::empty() }
}

/// A timeline without events.
pub open spec fn empty_plan() -> PlanView {
    PlanView { timeline: Seq::empty(), pending: gap(0) }
}

/// An input and the gap after it.
#[verifier::ext_equal]
pub struct Cue {
    pub input: InputView,
    pub gap_after: u32,
}

pub open spec fn cue(input: InputView, gap_after: u32) -> Cue {
    Cue { input, gap_after }
}

/// What one entry of the call contributes.
#[verifier::ext_equal]
pub enum Effect {
    /// More time before the next event.
    Wait(JsonView),
    /// Events in order, each with the gap after it.
    Events(Seq<Cue>),
}

/// A plan with one more event.
pub open spec fn plan_event(plan: PlanView, event: InputView, gap_after: u32) -> PlanView {
    PlanView {
        timeline: plan.timeline.push(TimedView { delay: plan.pending, event }),
        pending: gap(gap_after),
    }
}

/// A plan with more events.
pub open spec fn plan_events(plan: PlanView, events: Seq<Cue>) -> PlanView
    decreases events.len(),
{
    if events.len() == 0 {
        plan
    } else {
        plan_event(
            plan_events(plan, events.drop_last()),
            events.last().input,
            events.last().gap_after,
        )
    }
}

/// A plan with the effect of one more entry.
pub open spec fn plan_effect(plan: PlanView, effect: Effect) -> PlanView {
    match effect {
        Effect::Wait(ms) => PlanView {
            pending: DelayView { waits: plan.pending.waits.push(ms), ..plan.pending },
            ..plan
        },
        Effect::Events(events) => plan_events(plan, events),
    }
}

/// What typing a text amounts to: each character pressed and released.
pub open spec fn typed(text: Seq<char>) -> Seq<Cue>
    decreases text.len(),
{
    if text.len() == 0 {
        Seq::empty()
    } else {
        typed(text.drop_last()).push(
            cue(InputView::Char { ch: text.last(), pressed: true }, TEXT_GAP_MS),
        ).push(cue(InputView::Char { ch: text.last(), pressed: false }, TEXT_GAP_MS))
    }
}

/// The button that an entry names; the left one where it names none or one
/// that there is not.
pub open spec fn named_button(name: Option<Seq<char>>) -> MouseButton {
    match name {
        Some(s) => if s == "right"@ {
            MouseButton::Right
        } else if s == "middle"@ {
            MouseButton::Middle
        } else {
            MouseButton::Left
        },
        None => MouseButton::Left,
    }
}

/// A message about one entry of the call.
pub open spec fn entry_message(index: nat, rest: Seq<char>) -> Seq<char> {
    "events["@ + crate::text::decimal(index) + rest
}

/// What an entry contributes, or what is wrong with it.
pub open spec fn entry_effect(entry: JsonView, index: nat) -> Result<Effect, Seq<char>> {
    match entry.text_field("type"@) {
        None => Err(entry_message(index, "] is missing `type`"@)),
        Some(kind) => if kind == "wait"@ {
            Ok(
                Effect::Wait(
                    match entry.number_field("ms"@) {
                        Some(ms) => ms,
                        None => JsonView::Integer(DEFAULT_WAIT_MS),
                    },
                ),
            )
        } else if kind == "key"@ {
            match entry.text_field("key"@) {
                None => Err(entry_message(index, "]: key events need a `key` name"@)),
                Some(key) => Ok(
                    Effect::Events(
                        match entry.boolean_field("pressed"@) {
                            Some(pressed) => seq![cue(InputView::Key { key, pressed }, EVENT_GAP_MS)],
                            None => seq![
                                cue(InputView::Key { key, pressed: true }, TAP_GAP_MS),
                                cue(InputView::Key { key, pressed: false }, EVENT_GAP_MS),
                            ],
                        },
                    ),
                ),
            }
        } else if kind == "text"@ {
            match entry.text_field("text"@) {
                None => Err(entry_message(index, "]: text events need `text`"@)),
                Some(text) => Ok(Effect::Events(typed(text))),
            }
        } else if kind == "mouse_click"@ {
            match (entry.number_field("x"@), entry.number_field("y"@)) {
                (Some(x), Some(y)) => {
                    let button = named_button(entry.text_field("button"@));
                    let double = entry.boolean_field("double"@) == Some(true);
                    Ok(
                        Effect::Events(
                            seq![
                                cue(InputView::Motion { x, y }, TAP_GAP_MS),
                                cue(
                                    InputView::Click { x, y, button, pressed: true, double },
                                    TAP_GAP_MS,
                                ),
                                cue(
                                    InputView::Click {
                                        x,
                                        y,
                                        button,
                                        pressed: false,
                                        double: false,
                                    },
                                    EVENT_GAP_MS,
                                ),
                            ],
                        ),
                    )
                },
                _ => Err(entry_message(index, "]: mouse events need numeric `x` and `y`"@)),
            }
        } else if kind == "mouse_move"@ {
            match (entry.number_field("x"@), entry.number_field("y"@)) {
                (Some(x), Some(y)) => Ok(
                    Effect::Events(seq![cue(InputView::Motion { x, y }, EVENT_GAP_MS)]),
                ),
                _ => Err(entry_message(index, "]: mouse events need numeric `x` and `y`"@)),
            }
        } else if kind == "action"@ {
            match entry.text_field("action"@) {
                None => Err(entry_message(index, "]: action events need `action`"@)),
                Some(action) => Ok(
                    Effect::Events(
                        match entry.boolean_field("pressed"@) {
                            Some(pressed) => seq![
                                cue(InputView::Action { action, pressed }, EVENT_GAP_MS),
                            ],
                            None => seq![
                                cue(InputView::Action { action, pressed: true }, TAP_GAP_MS),
                                cue(InputView::Action { action, pressed: false }, EVENT_GAP_MS),
                            ],
                        },
                    ),
                ),
            }
        } else {
            Err(entry_message(index, "]: unknown event type `"@ + kind + "`"@))
        },
    }
}

/// The plan of a list of entries, or what is wrong with the first bad one.
pub open spec fn plan_entries(entries: Seq<JsonView>) -> Result<PlanView, Seq<char>>
    decreases entries.len(),
{
    if entries.len() == 0 {
        Ok(empty_plan())
    } else {
        match plan_entries(entries.drop_last()) {
            Err(message) => Err(message),
            Ok(plan) => match entry_effect(entries.last(), (entries.len() - 1) as nat) {
                Err(message) => Err(message),
                Ok(effect) => Ok(plan_effect(plan, effect)),
            },
        }
    }
}

/// The timeline of a `simulate_input` call, or what is wrong with the call.
pub open spec fn call_timeline(args: JsonView) -> Result<Seq<TimedView>, Seq<char>> {
    match args.field("events"@) {
        Some(JsonView::Array(entries)) => match plan_entries(entries) {
            Ok(plan) => Ok(plan.timeline),
            Err(message) => Err(message),
        },
        _ => Err("simulate_input requires an `events` array"@),
    }
}

proof fn lemma_plan_push(plan: PlanView, events: Seq<Cue>, event: Cue)
    ensures
        plan_events(plan, events.push(event)) == plan_event(
            plan_events(plan, events),
            event.input,
            event.gap_after,
        ),
{
    assert(events.push(event).drop_last() =~= events);
}

pub(crate) proof fn lemma_typed_push(text: Seq<char>, ch: char)
    ensures
        typed(text.push(ch)) == typed(text).push(
            cue(InputView::Char { ch, pressed: true }, TEXT_GAP_MS),
        ).push(cue(InputView::Char { ch, pressed: false }, TEXT_GAP_MS)),
{
    assert(text.push(ch).drop_last() =~= text);
    assert(text.push(ch).last() == ch);
}

pub(crate) proof fn lemma_plan_typed(plan: PlanView, text: Seq<char>, ch: char)
    ensures
        plan_events(plan, typed(text.push(ch))) == plan_event(
            plan_event(
                plan_events(plan, typed(text)),
                InputView::Char { ch, pressed: true },
                TEXT_GAP_MS,
            ),
            InputView::Char { ch, pressed: false },
            TEXT_GAP_MS,
        ),
{
    let press = cue(InputView::Char { ch, pressed: true }, TEXT_GAP_MS);
    let release = cue(InputView::Char { ch, pressed: false }, TEXT_GAP_MS);
    lemma_typed_push(text, ch);
    lemma_plan_push(plan, typed(text), press);
    lemma_plan_push(plan, typed(text).push(press), release);
}

pub(crate) proof fn lemma_plan_few(
    plan: PlanView,
    a: Cue,
    b: Cue,
    c: Cue,
)
    ensures
        plan_events(plan, seq![a]) == plan_event(plan, a.input, a.gap_after),
        plan_events(plan, seq![a, b]) == plan_event(plan_event(plan, a.input, a.gap_after), b.input, b.gap_after),
        plan_events(plan, seq![a, b, c]) == plan_event(
            plan_event(plan_event(plan, a.input, a.gap_after), b.input, b.gap_after),
            c.input,
            c.gap_after,
        ),
{
    let none = Seq::<Cue>::empty();
    lemma_plan_push(plan, none, a);
    lemma_plan_push(plan, none.push(a), b);
    lemma_plan_push(plan, none.push(a).push(b), c);
    assert(seq![a] =~= none.push(a));
    assert(seq![a, b] =~= none.push(a).push(b));
    assert(seq![a, b, c] =~= none.push(a).push(b).push(c));
}

/// A timeline under construction.
struct Plan {
    timeline: VecDeque<TimedEvent>,
    pending: Delay,
}

impl View for Plan {
    type V = PlanView;

    closed spec fn view(&self) -> PlanView {
        PlanView { timeline: timed_views(self.timeline@), pending: self.pending@ }
    }
}

fn entry_error(index: usize, rest: &str) -> (r: String)
    ensures
        r@ == entry_message(index as nat, rest@),
{
    let mut message = "events[".to_owned();
    push_decimal(&mut message, index);
    message.append(rest);
    message
}

fn mouse_button(name: Option<&str>) -> (r: MouseButton)
    ensures
        r == named_button(crate::json::optional_text(name)),
{
    match name {
        Some(s) => if same(s, "right") {
            MouseButton::Right
        } else if same(s, "middle") {
            MouseButton::Middle
        } else {
            MouseButton::Left
        },
        None => MouseButton::Left,
    }
}

/// The place that an entry names.
fn point(entry: &Json, index: usize) -> (r: Result<(Scalar, Scalar), String>)
    ensures
        match r {
            Ok(place) => entry@.number_field("x"@) == Some(place.0@)
                && entry@.number_field("y"@) == Some(place.1@),
            Err(message) => (entry@.number_field("x"@) is None
                || entry@.number_field("y"@) is None) && message@ == entry_message(
                index as nat,
                "]: mouse events need numeric `x` and `y`"@,
            ),
        },
{
    match (entry.number_field("x"), entry.number_field("y")) {
        (Some(x), Some(y)) => Ok((x, y)),
        _ => Err(entry_error(index, "]: mouse events need numeric `x` and `y`")),
    }
}

impl Plan {
    fn push(&mut self, event: InputEvent, gap_after: u32)
        ensures
            final(self)@ == plan_event(old(self)@, event@, gap_after),
    {
        let ghost before = self@;
        let mut delay = Delay { gap_ms: gap_after, waits: Vec::new() };
        assert(delay@ =~= gap(gap_after));
        std::mem::swap(&mut self.pending, &mut delay);
        self.timeline.push_back(TimedEvent { delay, event });
        assert(self@.timeline =~= plan_event(before, event@, gap_after).timeline);
    }

    fn wait(&mut self, ms: Scalar)
        ensures
            final(self)@ == plan_effect(old(self)@, Effect::Wait(ms@)),
    {
        let ghost before = self@;
        self.pending.waits.push(ms);
        assert(self@.pending.waits =~= before.pending.waits.push(ms@));
    }

    fn type_text(&mut self, text: &str)
        ensures
            final(self)@ == plan_events(old(self)@, typed(text@)),
    {
        let ghost before = self@;
        let chars = chars_of(text);
        let mut i: usize = 0;
        assert(typed(chars@.take(0)) =~= Seq::<Cue>::empty());
        while i < chars.len()
            invariant
                i <= chars.len(),
                self@ == plan_events(before, typed(chars@.take(i as int))),
            decreases chars.len() - i,
        {
            let ch = chars[i];
            proof {
                lemma_plan_typed(before, chars@.take(i as int), ch);
                assert(chars@.take(i as int).push(ch) =~= chars@.take(i + 1));
            }
            self.push(InputEvent::Char { ch, pressed: true }, TEXT_GAP_MS);
            self.push(InputEvent::Char { ch, pressed: false }, TEXT_GAP_MS);
            i = i + 1;
        }
        assert(chars@.take(i as int) =~= chars@);
    }
}

impl Plan {
    /// A press, a release, or both as a tap.
    fn press(&mut self, down: InputEvent, up: InputEvent, pressed: Option<bool>)
        ensures
            final(self)@ == plan_events(
                old(self)@,
                match pressed {
                    Some(true) => seq![cue(down@, EVENT_GAP_MS)],
                    Some(false) => seq![cue(up@, EVENT_GAP_MS)],
                    None => seq![cue(down@, TAP_GAP_MS), cue(up@, EVENT_GAP_MS)],
                },
            ),
    {
        proof {
            let none = cue(up@, 0u32);
            lemma_plan_few(self@, cue(down@, EVENT_GAP_MS), none, none);
            lemma_plan_few(self@, cue(up@, EVENT_GAP_MS), none, none);
            lemma_plan_few(self@, cue(down@, TAP_GAP_MS), cue(up@, EVENT_GAP_MS), none);
        }
        match pressed {
            Some(true) => self.push(down, EVENT_GAP_MS),
            Some(false) => self.push(up, EVENT_GAP_MS),
            None => {
                self.push(down, TAP_GAP_MS);
                self.push(up, EVENT_GAP_MS);
            },
        }
    }

    /// A click: the pointer moves there first, so that hover states update.
    fn click(&mut self, x: Scalar, y: Scalar, button: MouseButton, double: bool)
        ensures
            final(self)@ == plan_events(
                old(self)@,
                seq![
                    cue(InputView::Motion { x: x@, y: y@ }, TAP_GAP_MS),
                    cue(
                        InputView::Click { x: x@, y: y@, button, pressed: true, double },
                        TAP_GAP_MS,
                    ),
                    cue(
                        InputView::Click {
                            x: x@,
                            y: y@,
                            button,
                            pressed: false,
                            double: false,
                        },
                        EVENT_GAP_MS,
                    ),
                ],
            ),
    {
        let move_there = InputEvent::Motion { x: x.clone(), y: y.clone() };
        let down = InputEvent::Click {
            x: x.clone(),
            y: y.clone(),
            button,
            pressed: true,
            double,
        };
        let up = InputEvent::Click { x, y, button, pressed: false, double: false };
        proof {
            lemma_plan_few(
                self@,
                cue(move_there@, TAP_GAP_MS),
                cue(down@, TAP_GAP_MS),
                cue(up@, EVENT_GAP_MS),
            );
        }
        self.push(move_there, TAP_GAP_MS);
        self.push(down, TAP_GAP_MS);
        self.push(up, EVENT_GAP_MS);
    }

    /// Adds what an entry contributes.
    fn add_entry(&mut self, entry: &Json, index: usize) -> (r: Result<(), String>)
        ensures
            match r {
                Ok(_) => entry_effect(entry@, index as nat) is Ok && final(self)@ == plan_effect(
                    old(self)@,
                    entry_effect(entry@, index as nat)->Ok_0,
                ),
                Err(message) => entry_effect(entry@, index as nat) == Err::<Effect, Seq<char>>(
                    message@,
                ),
            },
    {
        let kind = match entry.text_field("type") {
            Some(kind) => kind,
            None => return Err(entry_error(index, "] is missing `type`")),
        };
        if same(kind, "wait") {
            let ms = match entry.number_field("ms") {
                Some(ms) => ms,
                None => Scalar::Integer(DEFAULT_WAIT_MS),
            };
            self.wait(ms);
            Ok(())
        } else if same(kind, "key") {
            let key = match entry.text_field("key") {
                Some(key) => key,
                None => return Err(entry_error(index, "]: key events need a `key` name")),
            };
            let down = InputEvent::Key { key: key.to_owned(), pressed: true };
            let up = InputEvent::Key { key: key.to_owned(), pressed: false };
            self.press(down, up, entry.boolean_field("pressed"));
            Ok(())
        } else if same(kind, "text") {
            match entry.text_field("text") {
                Some(text) => {
                    self.type_text(text);
                    Ok(())
                },
                None => Err(entry_error(index, "]: text events need `text`")),
            }
        } else if same(kind, "mouse_click") {
            match point(entry, index) {
                Ok((x, y)) => {
                    let button = mouse_button(entry.text_field("button"));
                    let double = match entry.boolean_field("double") {
                        Some(double) => double,
                        None => false,
                    };
                    self.click(x, y, button, double);
                    Ok(())
                },
                Err(message) => Err(message),
            }
        } else if same(kind, "mouse_move") {
            match point(entry, index) {
                Ok((x, y)) => {
                    let event = InputEvent::Motion { x, y };
                    proof {
                        let none = cue(event@, 0u32);
                        lemma_plan_few(self@, cue(event@, EVENT_GAP_MS), none, none);
                    }
                    self.push(event, EVENT_GAP_MS);
                    Ok(())
                },
                Err(message) => Err(message),
            }
        } else if same(kind, "action") {
            let action = match entry.text_field("action") {
                Some(action) => action,
                None => return Err(entry_error(index, "]: action events need `action`")),
            };
            let down = InputEvent::Action { action: action.to_owned(), pressed: true };
            let up = InputEvent::Action { action: action.to_owned(), pressed: false };
            self.press(down, up, entry.boolean_field("pressed"));
            Ok(())
        } else {
            let mut rest = "]: unknown event type `".to_owned();
            rest.append(kind);
            rest.append("`");
            Err(entry_error(index, rest.as_str()))
        }
    }
}

/// Turn the `events` array into a dispatch timeline.
pub fn build_timeline(args: &Json) -> (r: Result<VecDeque<TimedEvent>, String>)
    ensures
        match r {
            Ok(timeline) => call_timeline(args@) == Ok::<Seq<TimedView>, Seq<char>>(
                timed_views(timeline@),
            ),
            Err(message) => call_timeline(args@) == Err::<Seq<TimedView>, Seq<char>>(message@),
        },
{
    let events = match args.get("events") {
        Some(value) => match value.as_array() {
            Some(events) => events,
            None => return Err("simulate_input requires an `events` array".to_owned()),
        },
        None => return Err("simulate_input requires an `events` array".to_owned()),
    };
    let ghost all = crate::json::views(events@);
    proof {
        crate::json::lemma_views(events@);
    }
    let mut plan = Plan {
        timeline: VecDeque::new(),
        pending: Delay { gap_ms: 0, waits: Vec::new() },
    };
    assert(plan@ =~= empty_plan());
    let mut i: usize = 0;
    while i < events.len()
        invariant
            i <= events.len(),
            all == crate::json::views(events@),
            all.len() == events.len(),
            forall|k: int| 0 <= k < all.len() ==> #[trigger] all[k] == events@[k]@,
            args@.field("events"@) == Some(JsonView::Array(all)),
            plan_entries(all.take(i as int)) == Ok::<PlanView, Seq<char>>(plan@),
        decreases events.len() - i,
    {
        proof {
            assert(all.take(i + 1).drop_last() =~= all.take(i as int));
            assert(all.take(i + 1).last() == all[i as int]);
        }
        match plan.add_entry(&events[i], i) {
            Ok(_) => {},
            Err(message) => {
                proof {
                    lemma_first_error_stays(all, i + 1);
                }
                return Err(message);
            },
        }
        i = i + 1;
    }
    assert(all.take(i as int) =~= all);
    Ok(plan.timeline)
}

proof fn lemma_first_error_stays(entries: Seq<JsonView>, n: int)
    requires
        0 <= n <= entries.len(),
        plan_entries(entries.take(n)) is Err,
    ensures
        plan_entries(entries) == plan_entries(entries.take(n)),
    decreases entries.len() - n,
{
    if n < entries.len() {
        assert(entries.take(n + 1).drop_last() =~= entries.take(n));
        lemma_first_error_stays(entries, n + 1);
    } else {
        assert(entries.take(n) =~= entries);
    }
}

/// The inputs of a timeline, without their times.
pub open spec fn inputs(timeline: Seq<TimedView>) -> Seq<InputView> {
    timeline.map_values(|t: TimedView| t.event)
}

/// The inputs that an effect contributes.
pub open spec fn effect_inputs(effect: Effect) -> Seq<InputView> {
    match effect {
        Effect::Wait(_) => Seq::empty(),
        Effect::Events(events) => events.map_values(|e: Cue| e.input),
    }
}

/// The inputs that the entries contribute, one entry after the other.
pub open spec fn entry_inputs(entries: Seq<JsonView>) -> Seq<InputView>
    decreases entries.len(),
{
    if entries.len() == 0 {
        Seq::empty()
    } else {
        entry_inputs(entries.drop_last()) + effect_inputs(
            entry_effect(entries.last(), (entries.len() - 1) as nat)->Ok_0,
        )
    }
}

proof fn lemma_plan_inputs(plan: PlanView, events: Seq<Cue>)
    ensures
        inputs(plan_events(plan, events).timeline) == inputs(plan.timeline) + effect_inputs(
            Effect::Events(events),
        ),
    decreases events.len(),
{
    let after = plan_events(plan, events);
    if events.len() == 0 {
        assert(inputs(after.timeline) =~= inputs(plan.timeline) + effect_inputs(
            Effect::Events(events),
        ));
    } else {
        lemma_plan_inputs(plan, events.drop_last());
        let before = plan_events(plan, events.drop_last());
        assert(inputs(after.timeline) =~= inputs(before.timeline).push(events.last().input));
        assert(effect_inputs(Effect::Events(events)) =~= effect_inputs(
            Effect::Events(events.drop_last()),
        ).push(events.last().input));
        assert(inputs(after.timeline) =~= inputs(plan.timeline) + effect_inputs(
            Effect::Events(events),
        ));
    }
}

/// The inputs are dispatched in the order in which the call gives them, and no
/// others are.
pub proof fn law_timeline_keeps_order(entries: Seq<JsonView>)
    requires
        plan_entries(entries) is Ok,
    ensures
        inputs(plan_entries(entries)->Ok_0.timeline) == entry_inputs(entries),
    decreases entries.len(),
{
    let all = inputs(plan_entries(entries)->Ok_0.timeline);
    if entries.len() == 0 {
        assert(all =~= entry_inputs(entries));
    } else {
        law_timeline_keeps_order(entries.drop_last());
        let plan = plan_entries(entries.drop_last())->Ok_0;
        let effect = entry_effect(entries.last(), (entries.len() - 1) as nat)->Ok_0;
        match effect {
            Effect::Wait(_) => {
                assert(all =~= entry_inputs(entries));
            },
            Effect::Events(events) => lemma_plan_inputs(plan, events),
        }
    }
}

/// A call is refused for its first bad entry, and only if it has one.
pub proof fn law_first_bad_entry_is_reported(entries: Seq<JsonView>, message: Seq<char>)
    ensures
        plan_entries(entries) == Err::<PlanView, Seq<char>>(message) <==> exists|i: int|
            0 <= i < entries.len() && #[trigger] entry_effect(entries[i], i as nat) == Err::<
                Effect,
                Seq<char>,
            >(message) && forall|j: int|
                0 <= j < i ==> (#[trigger] entry_effect(entries[j], j as nat)) is Ok,
        plan_entries(entries) is Ok <==> forall|i: int|
            0 <= i < entries.len() ==> (#[trigger] entry_effect(entries[i], i as nat)) is Ok,
    decreases entries.len(),
{
    if entries.len() > 0 {
        let shorter = entries.drop_last();
        let last = entries.len() - 1;
        law_first_bad_entry_is_reported(shorter, message);
        assert forall|i: int| 0 <= i < last implies #[trigger] entry_effect(entries[i], i as nat)
            == entry_effect(shorter[i], i as nat) by {}
        assert(entry_effect(entries[last], last as nat) == entry_effect(
            entries.last(),
            last as nat,
        ));
        if plan_entries(shorter) is Ok {
            assert forall|i: int| 0 <= i < last implies (#[trigger] entry_effect(
                entries[i],
                i as nat,
            )) is Ok by {
                assert(entry_effect(shorter[i], i as nat) is Ok);
            }
        } else {
            let m = plan_entries(shorter)->Err_0;
            law_first_bad_entry_is_reported(shorter, m);
            let k = choose|i: int|
                0 <= i < shorter.len() && #[trigger] entry_effect(shorter[i], i as nat) == Err::<
                    Effect,
                    Seq<char>,
                >(m) && forall|j: int|
                    0 <= j < i ==> (#[trigger] entry_effect(shorter[j], j as nat)) is Ok;
            assert(entry_effect(entries[k], k as nat) == Err::<Effect, Seq<char>>(m));
            assert forall|j: int| 0 <= j < k implies (#[trigger] entry_effect(
                entries[j],
                j as nat,
            )) is Ok by {
                assert(entry_effect(shorter[j], j as nat) is Ok);
            }
        }
    }
}

/// Every complaint about an entry begins with its place in the list.
pub proof fn lemma_entry_message(entry: JsonView, index: nat)
    requires
        entry_effect(entry, index) is Err,
    ensures
        ("events["@ + crate::text::decimal(index)).is_prefix_of(entry_effect(entry, index)->Err_0),
{
    let message = entry_effect(entry, index)->Err_0;
    let start = "events["@ + crate::text::decimal(index);
    assert(message.subrange(0, start.len() as int) =~= start);
}

/// Whether the events of a plan keep apart: no gap before the first, at least
/// the smallest one before every other.
pub open spec fn spaced(plan: PlanView) -> bool {
    &&& plan.timeline.len() == 0 ==> plan.pending.gap_ms == 0
    &&& plan.timeline.len() > 0 ==> plan.pending.gap_ms >= TEXT_GAP_MS
        && plan.timeline[0].delay.gap_ms == 0
    &&& forall|k: int|
        1 <= k < plan.timeline.len() ==> (#[trigger] plan.timeline[k]).delay.gap_ms
            >= TEXT_GAP_MS
}

/// The gaps after the events of an entry are never below the smallest one.
pub open spec fn gaps_hold(effect: Effect) -> bool {
    effect matches Effect::Events(events) ==> forall|k: int|
        0 <= k < events.len() ==> (#[trigger] events[k]).gap_after >= TEXT_GAP_MS
}

proof fn lemma_typed_gaps(text: Seq<char>)
    ensures
        gaps_hold(Effect::Events(typed(text))),
    decreases text.len(),
{
    if text.len() > 0 {
        lemma_typed_gaps(text.drop_last());
        lemma_typed_gaps_push(text.drop_last(), text.last());
        assert(text.drop_last().push(text.last()) =~= text);
    }
}

proof fn lemma_typed_gaps_push(text: Seq<char>, ch: char)
    requires
        gaps_hold(Effect::Events(typed(text))),
    ensures
        gaps_hold(Effect::Events(typed(text.push(ch)))),
{
    lemma_typed_push(text, ch);
}

proof fn lemma_entry_gaps(entry: JsonView, index: nat)
    requires
        entry_effect(entry, index) is Ok,
    ensures
        gaps_hold(entry_effect(entry, index)->Ok_0),
{
    match entry.text_field("text"@) {
        Some(text) => lemma_typed_gaps(text),
        None => {},
    }
}

proof fn lemma_plan_spaced(plan: PlanView, events: Seq<Cue>)
    requires
        spaced(plan),
        gaps_hold(Effect::Events(events)),
    ensures
        spaced(plan_events(plan, events)),
    decreases events.len(),
{
    if events.len() > 0 {
        lemma_plan_spaced(plan, events.drop_last());
        assert(events[events.len() - 1].gap_after >= TEXT_GAP_MS);
    }
}

/// The events of a timeline are spaced: the first comes without a gap, every
/// other at least the smallest gap after the one before it, waits aside.
pub proof fn law_events_are_spaced(entries: Seq<JsonView>)
    requires
        plan_entries(entries) is Ok,
    ensures
        spaced(plan_entries(entries)->Ok_0),
    decreases entries.len(),
{
    if entries.len() > 0 {
        law_events_are_spaced(entries.drop_last());
        let plan = plan_entries(entries.drop_last())->Ok_0;
        let index = (entries.len() - 1) as nat;
        lemma_entry_gaps(entries.last(), index);
        match entry_effect(entries.last(), index)->Ok_0 {
            Effect::Wait(_) => {},
            Effect::Events(events) => lemma_plan_spaced(plan, events),
        }
    }
}

/// The release of what an input presses, if it presses anything.
pub open spec fn release_of(input: InputView) -> Option<InputView> {
    match input {
        InputView::Key { key, pressed: true } => Some(InputView::Key { key, pressed: false }),
        InputView::Char { ch, pressed: true } => Some(InputView::Char { ch, pressed: false }),
        InputView::Click { x, y, button, pressed: true, double } => Some(
            InputView::Click { x, y, button, pressed: false, double: false },
        ),
        InputView::Action { action, pressed: true } => Some(
            InputView::Action { action, pressed: false },
        ),
        _ => None,
    }
}

/// Whether an input releases something.
pub open spec fn is_release(input: InputView) -> bool {
    match input {
        InputView::Key { key, pressed } => !pressed,
        InputView::Char { ch, pressed } => !pressed,
        InputView::Click { x, y, button, pressed, double } => !pressed,
        InputView::Action { action, pressed } => !pressed,
        InputView::Motion { x, y } => false,
    }
}

/// Whether every press is followed at once by its release, and every release
/// stands right behind its press.
pub open spec fn paired(inputs: Seq<InputView>) -> bool {
    &&& forall|i: int|
        0 <= i < inputs.len() && (#[trigger] release_of(inputs[i])) is Some ==> i + 1
            < inputs.len() && release_of(inputs[i]) == Some(inputs[i + 1])
    &&& forall|i: int|
        0 <= i < inputs.len() && #[trigger] is_release(inputs[i]) ==> i > 0 && release_of(
            inputs[i - 1],
        ) == Some(inputs[i])
}

proof fn lemma_paired_concat(a: Seq<InputView>, b: Seq<InputView>)
    requires
        paired(a),
        paired(b),
    ensures
        paired(a + b),
{
    let c = a + b;
    let n = a.len() as int;
    assert forall|i: int|
        0 <= i < c.len() && (#[trigger] release_of(c[i])) is Some implies i + 1 < c.len()
        && release_of(c[i]) == Some(c[i + 1]) by {
        if i < n {
            assert(release_of(a[i]) == release_of(c[i]));
            assert(c[i + 1] == a[i + 1]);
        } else {
            assert(release_of(b[i - n]) == release_of(c[i]));
            assert(c[i + 1] == b[i - n + 1]);
        }
    }
    assert forall|i: int| 0 <= i < c.len() && #[trigger] is_release(c[i]) implies i > 0
        && release_of(c[i - 1]) == Some(c[i]) by {
        if i < n {
            assert(is_release(a[i]));
            assert(c[i - 1] == a[i - 1]);
        } else {
            assert(is_release(b[i - n]));
            assert(c[i - 1] == b[i - n - 1]);
        }
    }
}

proof fn lemma_typed_paired(text: Seq<char>)
    ensures
        paired(effect_inputs(Effect::Events(typed(text)))),
    decreases text.len(),
{
    if text.len() > 0 {
        lemma_typed_paired(text.drop_last());
        lemma_typed_paired_push(text.drop_last(), text.last());
        assert(text.drop_last().push(text.last()) =~= text);
    }
}

proof fn lemma_typed_paired_push(text: Seq<char>, ch: char)
    requires
        paired(effect_inputs(Effect::Events(typed(text)))),
    ensures
        paired(effect_inputs(Effect::Events(typed(text.push(ch))))),
{
    lemma_typed_push(text, ch);
    let before = effect_inputs(Effect::Events(typed(text)));
    let pair = seq![
        InputView::Char { ch, pressed: true },
        InputView::Char { ch, pressed: false },
    ];
    assert(release_of(pair[0]) == Some(pair[1]));
    assert(!is_release(pair[0]));
    assert(effect_inputs(Effect::Events(typed(text.push(ch)))) =~= before + pair);
    lemma_paired_concat(before, pair);
}

proof fn lemma_entry_paired(entry: JsonView, index: nat)
    requires
        entry_effect(entry, index) is Ok,
        entry.boolean_field("pressed"@) is None,
    ensures
        paired(effect_inputs(entry_effect(entry, index)->Ok_0)),
{
    let all = effect_inputs(entry_effect(entry, index)->Ok_0);
    let kind = entry.text_field("type"@)->0;
    if kind == "text"@ && kind != "wait"@ && kind != "key"@ {
        lemma_typed_paired(entry.text_field("text"@)->0);
    } else {
        assert(all.len() <= 3);
    }
}

/// Taps, typed characters and clicks come in pairs: where no entry asks for a
/// press or a release alone, every press of the timeline is followed at once
/// by its release, and nothing is released that was not pressed.
pub proof fn law_taps_are_paired(entries: Seq<JsonView>)
    requires
        plan_entries(entries) is Ok,
        forall|i: int|
            0 <= i < entries.len() ==> (#[trigger] entries[i]).boolean_field("pressed"@) is None,
    ensures
        paired(inputs(plan_entries(entries)->Ok_0.timeline)),
{
    law_timeline_keeps_order(entries);
    lemma_entries_paired(entries);
}

proof fn lemma_entries_paired(entries: Seq<JsonView>)
    requires
        plan_entries(entries) is Ok,
        forall|i: int|
            0 <= i < entries.len() ==> (#[trigger] entries[i]).boolean_field("pressed"@) is None,
    ensures
        paired(entry_inputs(entries)),
    decreases entries.len(),
{
    if entries.len() > 0 {
        let shorter = entries.drop_last();
        assert forall|i: int| 0 <= i < shorter.len() implies (
        #[trigger] shorter[i]).boolean_field("pressed"@) is None by {
            assert(shorter[i] == entries[i]);
        }
        lemma_entries_paired(shorter);
        let index = (entries.len() - 1) as nat;
        assert(entries[index as int].boolean_field("pressed"@) is None);
        lemma_entry_paired(entries.last(), index);
        lemma_paired_concat(
            entry_inputs(shorter),
            effect_inputs(entry_effect(entries.last(), index)->Ok_0),
        );
    }
}

} // verus!
