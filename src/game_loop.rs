//! The decisions of the frame loop: when to stop, what to advance, what to
//! draw. Polling input, presenting and pacing are done by the caller, who
//! hands each frame's events and timer reading to `GameLoop::run_frame`.
use vstd::prelude::*;
use crate::actor::{advance_all, Actor, Component};
use crate::frame::{frame_commands, render_frame};
use crate::paint::DrawCommand;

verus! {

/// Frames per second that the loop paces itself to.
pub const TARGET_FPS: u32 = 120;

/// An input event, as far as the loop tells events apart.
#[derive(Clone, Copy, Debug, PartialEq, Eq, Structural)]
pub enum InputEvent {
    /// The window was asked to close.
    WindowClose,
    /// The escape key went down.
    EscapePressed,
    /// Anything else; ignored.
    Other,
}

/// Whether `e` asks the loop to stop.
pub open spec fn is_quit_event(e: InputEvent) -> bool {
    e is WindowClose || e is EscapePressed
}

/// Whether any of `events` asks the loop to stop.
pub open spec fn quit_in(events: Seq<InputEvent>) -> bool {
    exists|i: int| 0 <= i < events.len() && is_quit_event(#[trigger] events[i])
}

/// Whether `e` asks the loop to stop: a window close or the escape key.
pub fn is_quit(e: &InputEvent) -> (r: bool)
    ensures
        r == is_quit_event(*e),
{
    match e {
        InputEvent::WindowClose => true,
        InputEvent::EscapePressed => true,
        InputEvent::Other => false,
    }
}

/// Whether the events of one frame hold a quit signal.
pub fn quit_requested(events: &Vec<InputEvent>) -> (r: bool)
    ensures
        r == quit_in(events@),
{
    let mut i: usize = 0;
    while i < events.len()
        invariant
            i <= events.len(),
            forall|j: int| 0 <= j < i ==> !is_quit_event(#[trigger] events@[j]),
        decreases events.len() - i,
    {
        if is_quit(&events[i]) {
            return true;
        }
        i = i + 1;
    }
    false
}

/// The sleep, in nanoseconds, that paces the loop to `frames_per_second`.
pub fn frame_budget_nanos(frames_per_second: u32) -> (r: u32)
    requires
        frames_per_second > 0,
    ensures
        r == 1_000_000_000int / frames_per_second as int,
{
    1_000_000_000u32 / frames_per_second
}

/// A tick counter that never goes back: it starts at 0 and follows the
/// readings of a timer, keeping the largest seen.
#[derive(Clone, Copy, Debug)]
pub struct Clock {
    ticks: u32,
}

impl View for Clock {
    type V = u32;

    closed spec fn view(&self) -> u32 {
        self.ticks
    }
}

/// The larger of two tick values.
pub open spec fn later(a: u32, b: u32) -> u32 {
    if b > a {
        b
    } else {
        a
    }
}

impl Clock {
    pub fn new() -> (c: Clock)
        ensures
            c@ == 0,
    {
        Clock { ticks: 0 }
    }

    /// The ticks counted so far.
    pub fn now(&self) -> (r: u32)
        ensures
            r == self@,
    {
        self.ticks
    }

    /// Takes a timer reading; a reading below the current count is ignored.
    pub fn observe(&mut self, reading: u32)
        ensures
            final(self)@ == later(old(self)@, reading),
            final(self)@ >= old(self)@,
    {
        if reading > self.ticks {
            self.ticks = reading;
        }
    }
}

/// What the loop is: whether it still runs, the clock, and the actor.
pub struct LoopView {
    pub running: bool,
    pub ticks: u32,
    pub actor_id: i32,
    pub components: Seq<Component>,
}

/// One frame of the loop on the events polled and the timer reading taken
/// for it. A stopped loop stays stopped and draws nothing; a quit signal
/// stops the loop before anything is advanced or drawn. Otherwise the actor
/// advances one frame and the frame at the clock's new count is drawn.
pub open spec fn loop_step(v: LoopView, events: Seq<InputEvent>, reading: u32) -> (
    LoopView,
    Option<Seq<DrawCommand>>,
) {
    if !v.running || quit_in(events) {
        (LoopView { running: false, ticks: v.ticks, actor_id: v.actor_id, components: v.components }, None)
    } else {
        let t = later(v.ticks, reading);
        (
            LoopView { running: true, ticks: t, actor_id: v.actor_id, components: advance_all(v.components) },
            Some(frame_commands(t)),
        )
    }
}

/// The draw commands of each of a run of frames, from state `v`; `None` for
/// a frame that draws nothing.
pub open spec fn run_outputs(v: LoopView, frames: Seq<(Seq<InputEvent>, u32)>) -> Seq<
    Option<Seq<DrawCommand>>,
>
    decreases frames.len(),
{
    if frames.len() == 0 {
        Seq::empty()
    } else {
        let s = loop_step(v, frames[0].0, frames[0].1);
        seq![s.1] + run_outputs(s.0, frames.drop_first())
    }
}

/// The commands of a frame as a sequence, or `None` for a frame that draws
/// nothing.
pub open spec fn commands_view(r: Option<Vec<DrawCommand>>) -> Option<Seq<DrawCommand>> {
    match r {
        Some(v) => Some(v@),
        None => None,
    }
}

/// The loop's state between frames.
pub struct GameLoop {
    actor: Actor,
    clock: Clock,
    running: bool,
}

impl View for GameLoop {
    type V = LoopView;

    closed spec fn view(&self) -> LoopView {
        LoopView {
            running: self.running,
            ticks: self.clock@,
            actor_id: self.actor.id,
            components: self.actor.components@,
        }
    }
}

impl GameLoop {
    /// A running loop over `actor`, with the clock at 0.
    pub fn new(actor: Actor) -> (r: GameLoop)
        ensures
            r@ == (LoopView { running: true, ticks: 0, actor_id: actor.id, components: actor.components@ }),
    {
        GameLoop { actor, clock: Clock::new(), running: true }
    }

    /// Runs one frame: stops on a quit signal among `events`, else advances
    /// the actor once and returns the frame to draw at the clock's count
    /// after `reading`.
    pub fn run_frame(&mut self, events: &Vec<InputEvent>, reading: u32) -> (r: Option<Vec<DrawCommand>>)
        ensures
            (final(self)@, commands_view(r)) == loop_step(old(self)@, events@, reading),
    {
        if !self.running || quit_requested(events) {
            self.running = false;
            return None;
        }
        self.actor.update();
        self.clock.observe(reading);
        let t = self.clock.now();
        Some(render_frame(t))
    }

    /// Whether no quit signal has been seen yet.
    pub fn is_running(&self) -> (r: bool)
        ensures
            r == self@.running,
    {
        self.running
    }

    /// The ticks counted so far.
    pub fn now(&self) -> (r: u32)
        ensures
            r == self@.ticks,
    {
        self.clock.now()
    }

    /// The actor advanced by the loop.
    pub fn actor(&self) -> (r: &Actor)
        ensures
            r.id == self@.actor_id,
            r.components@ == self@.components,
    {
        &self.actor
    }
}

/// Once stopped, a loop draws nothing in any later frame.
pub proof fn lemma_stopped_draws_nothing(v: LoopView, frames: Seq<(Seq<InputEvent>, u32)>)
    requires
        !v.running,
    ensures
        run_outputs(v, frames).len() == frames.len(),
        forall|j: int| 0 <= j < frames.len() ==> run_outputs(v, frames)[j] is None,
    decreases frames.len(),
{
    if frames.len() > 0 {
        let s = loop_step(v, frames[0].0, frames[0].1);
        lemma_stopped_draws_nothing(s.0, frames.drop_first());
        assert forall|j: int| 0 <= j < frames.len() implies run_outputs(v, frames)[j] is None by {
            if j > 0 {
                assert(run_outputs(v, frames)[j] == run_outputs(s.0, frames.drop_first())[j - 1]);
            }
        }
    }
}

/// A quit signal among the events of frame `k` ends drawing: neither frame
/// `k` nor any later frame draws anything.
pub proof fn lemma_quit_ends_drawing(v: LoopView, frames: Seq<(Seq<InputEvent>, u32)>, k: int)
    requires
        0 <= k < frames.len(),
        quit_in(frames[k].0),
    ensures
        run_outputs(v, frames).len() == frames.len(),
        forall|j: int| k <= j < frames.len() ==> run_outputs(v, frames)[j] is None,
    decreases k,
{
    let s = loop_step(v, frames[0].0, frames[0].1);
    if k == 0 {
        lemma_stopped_draws_nothing(s.0, frames.drop_first());
    } else {
        assert(frames.drop_first()[k - 1] == frames[k]);
        lemma_quit_ends_drawing(s.0, frames.drop_first(), k - 1);
    }
    assert forall|j: int| k <= j < frames.len() implies run_outputs(v, frames)[j] is None by {
        if j > 0 {
            assert(run_outputs(v, frames)[j] == run_outputs(s.0, frames.drop_first())[j - 1]);
        }
    }
}

} // verus!
