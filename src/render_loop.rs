use vstd::prelude::*;

verus! {

/// The two states of the render loop.
#[derive(Clone, Copy, Debug, PartialEq, Eq, Structural)]
pub enum LoopState {
    Running,
    Terminated,
}

/// The keys the loop tells apart.
#[derive(Clone, Copy, Debug, PartialEq, Eq, Structural)]
pub enum Key {
    Escape,
    Other,
}

/// An event taken from the window system's queue.
#[derive(Clone, Copy, Debug, PartialEq, Eq, Structural)]
pub enum InputEvent {
    /// The window system asks the program to quit.
    Quit,
    /// A key was pressed; `None` when the key has no key code.
    KeyDown { key: Option<Key> },
    /// Any other event; the loop ignores it.
    Other,
}

/// An event that ends the loop: a quit request or a press of the escape key.
pub open spec fn is_exit_event(e: InputEvent) -> bool {
    match e {
        InputEvent::Quit => true,
        InputEvent::KeyDown { key: Some(Key::Escape) } => true,
        _ => false,
    }
}

/// The state after one event.
pub open spec fn after_event(s: LoopState, e: InputEvent) -> LoopState {
    if is_exit_event(e) {
        LoopState::Terminated
    } else {
        s
    }
}

/// The state after draining a queue of events, in order.
pub open spec fn after_events(s: LoopState, events: Seq<InputEvent>) -> LoopState
    decreases events.len(),
{
    if events.len() == 0 {
        s
    } else {
        after_events(after_event(s, events[0]), events.drop_first())
    }
}

/// The state after a sequence of frames, each draining its own queue.
pub open spec fn after_frames(s: LoopState, frames: Seq<Seq<InputEvent>>) -> LoopState
    decreases frames.len(),
{
    if frames.len() == 0 {
        s
    } else {
        after_frames(after_events(s, frames[0]), frames.drop_first())
    }
}

/// Whether `e` ends the loop.
pub fn is_exit(e: &InputEvent) -> (r: bool)
    ensures
        r == is_exit_event(*e),
{
    match e {
        InputEvent::Quit => true,
        InputEvent::KeyDown { key: Some(Key::Escape) } => true,
        _ => false,
    }
}

/// The state after one event.
pub fn step(s: LoopState, e: &InputEvent) -> (r: LoopState)
    ensures
        r == after_event(s, *e),
{
    if is_exit(e) {
        LoopState::Terminated
    } else {
        s
    }
}

/// Whether some event of the queue ends the loop.
pub open spec fn has_exit_event(events: Seq<InputEvent>) -> bool {
    exists|i: int| 0 <= i < events.len() && #[trigger] is_exit_event(events[i])
}

/// Draining a queue ends the loop exactly when the loop had ended already or
/// the queue holds an exit event.
pub proof fn lemma_after_events_closed_form(s: LoopState, events: Seq<InputEvent>)
    ensures
        after_events(s, events) == (if has_exit_event(events) {
            LoopState::Terminated
        } else {
            s
        }),
    decreases events.len(),
{
    if events.len() > 0 {
        let rest = events.drop_first();
        lemma_after_events_closed_form(after_event(s, events[0]), rest);
        if has_exit_event(events) && !is_exit_event(events[0]) {
            let i = choose|i: int| 0 <= i < events.len() && #[trigger] is_exit_event(events[i]);
            assert(rest[i - 1] == events[i]);
        }
        if has_exit_event(rest) {
            let j = choose|j: int| 0 <= j < rest.len() && #[trigger] is_exit_event(rest[j]);
            assert(events[j + 1] == rest[j]);
        }
        if is_exit_event(events[0]) {
            assert(is_exit_event(events[0 as int]));
        }
    }
}

/// Drains one frame's queue of events. The first exit event ends the loop and
/// the events after it are discarded.
pub fn poll_events(s: LoopState, events: &Vec<InputEvent>) -> (r: LoopState)
    ensures
        r == after_events(s, events@),
        r == LoopState::Terminated <==> (s == LoopState::Terminated || has_exit_event(events@)),
{
    let mut i: usize = 0;
    while i < events.len()
        invariant
            i <= events.len(),
            forall|j: int| 0 <= j < i ==> !#[trigger] is_exit_event(events@[j]),
        decreases events.len() - i,
    {
        if is_exit(&events[i]) {
            assert(is_exit_event(events@[i as int]));
            proof {
                lemma_after_events_closed_form(s, events@);
            }
            return LoopState::Terminated;
        }
        i = i + 1;
    }
    proof {
        lemma_after_events_closed_form(s, events@);
    }
    s
}

/// Primitive topology of a draw call.
#[derive(Clone, Copy, Debug, PartialEq, Eq, Structural)]
pub enum Topology {
    Triangles,
}

/// A non-indexed draw call: `count` vertices from `first` on.
#[derive(Clone, Copy, Debug, PartialEq, Eq, Structural)]
pub struct DrawCall {
    pub topology: Topology,
    pub first: i32,
    pub count: i32,
}

/// A clear colour, each channel in hundredths of full intensity.
#[derive(Clone, Copy, Debug, PartialEq, Eq, Structural)]
pub struct ClearColor {
    pub red: u8,
    pub green: u8,
    pub blue: u8,
    pub alpha: u8,
}

/// What the program does after a frame's events are drained.
#[derive(Clone, Copy, Debug, PartialEq, Eq, Structural)]
pub enum FrameAction {
    /// Leave the loop; the program ends with success.
    Exit,
    /// Clear the colour buffer, issue the draw call, and present the frame.
    Render { clear: ClearColor, draw: DrawCall },
}

/// The opaque mid-grey that each frame is cleared to.
pub open spec fn frame_clear_color() -> ClearColor {
    ClearColor { red: 30, green: 30, blue: 30, alpha: 100 }
}

/// The one draw call of each frame: three vertices as a triangle list.
pub open spec fn frame_draw_call() -> DrawCall {
    DrawCall { topology: Topology::Triangles, first: 0, count: 3 }
}

/// The action for a frame whose events left the loop in state `s`.
pub open spec fn action_for(s: LoopState) -> FrameAction {
    match s {
        LoopState::Running => FrameAction::Render { clear: frame_clear_color(), draw: frame_draw_call() },
        LoopState::Terminated => FrameAction::Exit,
    }
}

/// The action for a frame whose events left the loop in state `s`.
pub fn frame_action(s: LoopState) -> (r: FrameAction)
    ensures
        r == action_for(s),
{
    match s {
        LoopState::Running => FrameAction::Render {
            clear: ClearColor { red: 30, green: 30, blue: 30, alpha: 100 },
            draw: DrawCall { topology: Topology::Triangles, first: 0, count: 3 },
        },
        LoopState::Terminated => FrameAction::Exit,
    }
}

/// One iteration of the loop: drain the frame's events, then decide whether
/// to render or to leave. A frame that holds an exit event draws nothing.
pub fn run_frame(s: LoopState, events: &Vec<InputEvent>) -> (r: (LoopState, FrameAction))
    ensures
        r.0 == after_events(s, events@),
        r.1 == action_for(r.0),
        has_exit_event(events@) ==> r.0 == LoopState::Terminated && r.1 == FrameAction::Exit,
        s == LoopState::Running && !has_exit_event(events@) ==> r.0 == LoopState::Running
            && r.1 == action_for(LoopState::Running),
{
    let next = poll_events(s, events);
    (next, frame_action(next))
}

/// The terminated state is final: no queue of events leaves it.
pub proof fn lemma_terminated_is_final(events: Seq<InputEvent>)
    ensures
        after_events(LoopState::Terminated, events) == LoopState::Terminated,
{
    lemma_after_events_closed_form(LoopState::Terminated, events);
}

/// Pressing escape has the same effect as a quit request, wherever it stands
/// in a frame's queue and whatever the state.
pub proof fn lemma_escape_acts_as_quit(s: LoopState, before: Seq<InputEvent>, after: Seq<InputEvent>)
    ensures
        after_events(s, before + seq![InputEvent::KeyDown { key: Some(Key::Escape) }] + after)
            == after_events(s, before + seq![InputEvent::Quit] + after),
        after_events(s, before + seq![InputEvent::Quit] + after) == LoopState::Terminated,
{
    let escape = before + seq![InputEvent::KeyDown { key: Some(Key::Escape) }] + after;
    let quit = before + seq![InputEvent::Quit] + after;
    assert(is_exit_event(escape[before.len() as int]));
    assert(is_exit_event(quit[before.len() as int]));
    lemma_after_events_closed_form(s, escape);
    lemma_after_events_closed_form(s, quit);
}

/// Number of frames that render, over a run of frames starting in state `s`.
pub open spec fn frames_rendered(s: LoopState, frames: Seq<Seq<InputEvent>>) -> nat
    decreases frames.len(),
{
    if frames.len() == 0 {
        0
    } else {
        let next = after_events(s, frames[0]);
        (if action_for(next) is Render {
            1nat
        } else {
            0nat
        }) + frames_rendered(next, frames.drop_first())
    }
}

/// Once the loop has ended, no later frame renders.
pub proof fn lemma_terminated_renders_nothing(frames: Seq<Seq<InputEvent>>)
    ensures
        frames_rendered(LoopState::Terminated, frames) == 0,
        after_frames(LoopState::Terminated, frames) == LoopState::Terminated,
    decreases frames.len(),
{
    if frames.len() > 0 {
        lemma_terminated_is_final(frames[0]);
        lemma_terminated_renders_nothing(frames.drop_first());
    }
}

/// When frame `k` (counted from 0) is the first whose queue holds an exit
/// event, a loop that starts running renders exactly the `k` frames before
/// it, draws nothing in frame `k` or after, and ends terminated.
pub proof fn lemma_renders_until_first_exit(frames: Seq<Seq<InputEvent>>, k: int)
    requires
        0 <= k < frames.len(),
        forall|m: int| 0 <= m < k ==> !has_exit_event(#[trigger] frames[m]),
        has_exit_event(frames[k]),
    ensures
        frames_rendered(LoopState::Running, frames) == k,
        after_frames(LoopState::Running, frames) == LoopState::Terminated,
    decreases k,
{
    lemma_after_events_closed_form(LoopState::Running, frames[0]);
    let rest = frames.drop_first();
    if k == 0 {
        lemma_terminated_renders_nothing(rest);
    } else {
        assert(!has_exit_event(frames[0]));
        assert forall|m: int| 0 <= m < k - 1 implies !has_exit_event(#[trigger] rest[m]) by {
            assert(rest[m] == frames[m + 1]);
        }
        assert(rest[k - 1] == frames[k]);
        lemma_renders_until_first_exit(rest, k - 1);
    }
}

/// Polling empty queues, any number of times, never changes the state.
pub proof fn lemma_empty_polls_keep_state(s: LoopState, frames: Seq<Seq<InputEvent>>)
    requires
        forall|k: int| 0 <= k < frames.len() ==> #[trigger] frames[k].len() == 0,
    ensures
        after_frames(s, frames) == s,
    decreases frames.len(),
{
    if frames.len() > 0 {
        assert(frames[0].len() == 0);
        let rest = frames.drop_first();
        assert forall|k: int| 0 <= k < rest.len() implies #[trigger] rest[k].len() == 0 by {
            assert(rest[k] == frames[k + 1]);
        }
        lemma_empty_polls_keep_state(s, rest);
    }
}

} // verus!
