use vstd::prelude::*;
use crate::scene::{
    clear_color, clear_color_spec, projection, projection_spec, view, view_spec, viewport,
    viewport_spec, LookAt, Model, Perspective, Rgba, Viewport,
};

verus! {

pub const FRAMES_PER_SECOND: u32 = 60;
pub const NANOS_PER_SECOND: u32 = 1_000_000_000;
/// The pause after each rendered frame.
pub const FRAME_SLEEP_NANOS: u32 = NANOS_PER_SECOND / FRAMES_PER_SECOND;

#[derive(PartialEq, Eq, Structural, Clone, Copy, Debug)]
pub enum Key {
    Escape,
    Other,
}

/// What the window system reports; everything the loop does not consult is `Other`.
#[derive(PartialEq, Eq, Structural, Clone, Copy, Debug)]
pub enum InputEvent {
    Quit,
    KeyDown(Option<Key>),
    Other,
}

/// Everything one frame does, besides drawing the vertex array.
#[derive(PartialEq, Eq, Structural, Clone, Copy, Debug)]
pub struct FramePlan {
    pub viewport: Viewport,
    pub clear_color: Rgba,
    pub model: Model,
    pub view: LookAt,
    pub projection: Perspective,
    pub sleep_nanos: u32,
}

/// What the loop does with the events of one iteration.
#[derive(PartialEq, Eq, Structural, Clone, Copy, Debug)]
pub enum FrameStep {
    Exit,
    Render(FramePlan),
}

pub open spec fn is_exit(e: InputEvent) -> bool {
    e == InputEvent::Quit || e == InputEvent::KeyDown(Some(Key::Escape))
}

pub open spec fn requests_exit(events: Seq<InputEvent>) -> bool {
    exists|i: int| 0 <= i < events.len() && is_exit(events[i])
}

pub open spec fn frame_plan_spec() -> FramePlan {
    FramePlan {
        viewport: viewport_spec(),
        clear_color: clear_color_spec(),
        model: Model::Identity,
        view: view_spec(),
        projection: projection_spec(),
        sleep_nanos: FRAME_SLEEP_NANOS,
    }
}

pub open spec fn step_spec(events: Seq<InputEvent>) -> FrameStep {
    if requests_exit(events) {
        FrameStep::Exit
    } else {
        FrameStep::Render(frame_plan_spec())
    }
}

/// Whether the event asks the program to end: a quit request or Escape pressed.
pub fn is_exit_event(e: &InputEvent) -> (r: bool)
    ensures
        r == is_exit(*e),
{
    match e {
        InputEvent::Quit => true,
        InputEvent::KeyDown(Some(Key::Escape)) => true,
        _ => false,
    }
}

/// The plan of one frame: the whole window cleared to white, the fixed camera
/// computed afresh, and a pause of `FRAME_SLEEP_NANOS` afterwards.
pub fn frame_plan() -> (r: FramePlan)
    ensures
        r == frame_plan_spec(),
{
    FramePlan {
        viewport: viewport(),
        clear_color: clear_color(),
        model: Model::Identity,
        view: view(),
        projection: projection(),
        sleep_nanos: FRAME_SLEEP_NANOS,
    }
}

/// Decides one iteration of the render loop from the events polled in it:
/// exit as soon as one of them asks to, else render the frame.
pub fn frame_step(events: &Vec<InputEvent>) -> (r: FrameStep)
    ensures
        r == step_spec(events@),
        r is Exit <==> exists|i: int| 0 <= i < events@.len() && is_exit(events@[i]),
{
    let mut i: usize = 0;
    while i < events.len()
        invariant
            i <= events@.len(),
            forall|j: int| 0 <= j < i ==> !is_exit(events@[j]),
        decreases events@.len() - i,
    {
        if is_exit_event(&events[i]) {
            return FrameStep::Exit;
        }
        i = i + 1;
    }
    FrameStep::Render(frame_plan())
}

/// Only a quit request or an Escape key-down ends the loop: events of any
/// other kind, put before or after the others, change no decision.
pub proof fn lemma_only_exit_events_end_the_loop(events: Seq<InputEvent>, others: Seq<InputEvent>)
    requires
        forall|i: int| 0 <= i < others.len() ==> !is_exit(others[i]),
    ensures
        step_spec(others) == FrameStep::Render(frame_plan_spec()),
        step_spec(events + others) == step_spec(events),
        step_spec(others + events) == step_spec(events),
        step_spec(seq![InputEvent::Quit]) == FrameStep::Exit,
        step_spec(seq![InputEvent::KeyDown(Some(Key::Escape))]) == FrameStep::Exit,
{
    let a = events + others;
    let b = others + events;
    if requests_exit(events) {
        let i = choose|i: int| 0 <= i < events.len() && is_exit(events[i]);
        assert(a[i] == events[i]);
        assert(b[others.len() + i] == events[i]);
    }
    if requests_exit(a) {
        let i = choose|i: int| 0 <= i < a.len() && is_exit(a[i]);
        if i >= events.len() {
            assert(a[i] == others[i - events.len()]);
        }
    }
    if requests_exit(b) {
        let i = choose|i: int| 0 <= i < b.len() && is_exit(b[i]);
        if i >= others.len() {
            assert(b[i] == events[i - others.len()]);
        }
    }
    assert(seq![InputEvent::Quit][0] == InputEvent::Quit);
    assert(seq![InputEvent::KeyDown(Some(Key::Escape))][0] == InputEvent::KeyDown(Some(Key::Escape)));
}

/// Every frame that renders uses the same plan: the look-at view from
/// (0,0,5) toward the origin with +y up, the 45 degree perspective with the
/// window's aspect ratio and planes at 0.1 and 100, and a pause of one
/// sixtieth of a second, rounded down to whole nanoseconds and never zero.
pub proof fn lemma_every_frame_renders_alike(a: Seq<InputEvent>, b: Seq<InputEvent>)
    requires
        !requests_exit(a),
        !requests_exit(b),
    ensures
        step_spec(a) == step_spec(b),
        step_spec(a) matches FrameStep::Render(p) && {
            &&& p.view == view_spec()
            &&& p.projection == projection_spec()
            &&& p.model == Model::Identity
            &&& p.sleep_nanos > 0
            &&& 60 * (p.sleep_nanos as int) <= 1_000_000_000 < 60 * (p.sleep_nanos + 1)
        },
{
}

} // verus!
