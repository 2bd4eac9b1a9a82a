//! The draw commands of one frame, derived from the elapsed ticks alone.
use vstd::prelude::*;
use crate::paint::{DrawCommand, Rgba};

verus! {

/// Ticks per degree of wedge rotation.
pub const TICKS_PER_DEGREE: u32 = 30;

/// Centre of the arena, in pixels.
pub const ARENA_X: i16 = 400;
pub const ARENA_Y: i16 = 300;

/// Position of the ball, in pixels.
pub const BALL_X: i16 = 500;
pub const BALL_Y: i16 = 350;

/// The rotation, in degrees, of the goal and player wedges after `ticks`.
pub open spec fn offset_of(ticks: u32) -> int {
    ticks as int / TICKS_PER_DEGREE as int
}

/// The angular span of the goal wedge.
pub open spec fn goal_span_of(ticks: u32) -> (i32, i32) {
    ((0 + offset_of(ticks)) as i32, (45 + offset_of(ticks)) as i32)
}

/// The angular span of the player wedge.
pub open spec fn player_span_of(ticks: u32) -> (i32, i32) {
    ((10 - offset_of(ticks)) as i32, (30 - offset_of(ticks)) as i32)
}

/// The angular span of the black wedge drawn over the player wedge to leave
/// its outline.
pub open spec fn player_inner_span_of(ticks: u32) -> (i32, i32) {
    ((9 - offset_of(ticks)) as i32, (31 - offset_of(ticks)) as i32)
}

/// The opaque colours of the scene.
pub open spec fn black() -> Rgba {
    Rgba { r: 0, g: 0, b: 0, a: 255 }
}

pub open spec fn blue() -> Rgba {
    Rgba { r: 0, g: 0, b: 255, a: 255 }
}

pub open spec fn green() -> Rgba {
    Rgba { r: 0, g: 255, b: 0, a: 255 }
}

pub open spec fn yellow() -> Rgba {
    Rgba { r: 255, g: 255, b: 0, a: 255 }
}

/// A sector around the arena centre.
pub open spec fn arena_pie(radius: i16, span: (i32, i32), color: Rgba) -> DrawCommand {
    DrawCommand::FilledPie { cx: ARENA_X, cy: ARENA_Y, radius, start: span.0, end: span.1, color }
}

/// The frame drawn at `ticks`, in painter's order: clear, the arena ring, the
/// goal wedge, the outlined player wedge, the ball.
pub open spec fn frame_commands(ticks: u32) -> Seq<DrawCommand> {
    seq![
        DrawCommand::Clear { color: black() },
        DrawCommand::FilledCircle { cx: ARENA_X, cy: ARENA_Y, radius: 200, color: blue() },
        DrawCommand::FilledCircle { cx: ARENA_X, cy: ARENA_Y, radius: 180, color: black() },
        arena_pie(202, goal_span_of(ticks), black()),
        arena_pie(160, player_span_of(ticks), green()),
        arena_pie(155, player_inner_span_of(ticks), black()),
        DrawCommand::FilledCircle { cx: BALL_X, cy: BALL_Y, radius: 5, color: yellow() },
    ]
}

/// The wedge rotation after `ticks`: whole multiples of the ticks per degree,
/// rounded down. It grows without bound as the ticks grow.
pub fn angle_offset(ticks: u32) -> (r: u32)
    ensures
        r == ticks / 30,
        r == offset_of(ticks),
{
    ticks / TICKS_PER_DEGREE
}

/// The goal wedge's span after `ticks`: `[offset, 45 + offset]`.
pub fn goal_span(ticks: u32) -> (r: (i32, i32))
    ensures
        r == goal_span_of(ticks),
        r.0 == offset_of(ticks),
        r.1 == 45 + offset_of(ticks),
{
    let off = angle_offset(ticks) as i32;
    (off, 45 + off)
}

/// The player wedge's span after `ticks`: `[10 - offset, 30 - offset]`.
pub fn player_span(ticks: u32) -> (r: (i32, i32))
    ensures
        r == player_span_of(ticks),
        r.0 == 10 - offset_of(ticks),
        r.1 == 30 - offset_of(ticks),
{
    let off = angle_offset(ticks) as i32;
    (10 - off, 30 - off)
}

/// The span of the black wedge inside the player wedge:
/// `[9 - offset, 31 - offset]`.
pub fn player_inner_span(ticks: u32) -> (r: (i32, i32))
    ensures
        r == player_inner_span_of(ticks),
        r.0 == 9 - offset_of(ticks),
        r.1 == 31 - offset_of(ticks),
{
    let off = angle_offset(ticks) as i32;
    (9 - off, 31 - off)
}

/// The draw commands of the frame at `ticks`, in the order they are issued.
pub fn render_frame(ticks: u32) -> (r: Vec<DrawCommand>)
    ensures
        r@ == frame_commands(ticks),
{
    let black = Rgba::rgb(0, 0, 0);
    let goal = goal_span(ticks);
    let player = player_span(ticks);
    let inner = player_inner_span(ticks);
    let r = vec![
        DrawCommand::Clear { color: black },
        DrawCommand::FilledCircle { cx: ARENA_X, cy: ARENA_Y, radius: 200, color: Rgba::rgb(0, 0, 255) },
        DrawCommand::FilledCircle { cx: ARENA_X, cy: ARENA_Y, radius: 180, color: black },
        DrawCommand::FilledPie { cx: ARENA_X, cy: ARENA_Y, radius: 202, start: goal.0, end: goal.1, color: black },
        DrawCommand::FilledPie {
            cx: ARENA_X,
            cy: ARENA_Y,
            radius: 160,
            start: player.0,
            end: player.1,
            color: Rgba::rgb(0, 255, 0),
        },
        DrawCommand::FilledPie { cx: ARENA_X, cy: ARENA_Y, radius: 155, start: inner.0, end: inner.1, color: black },
        DrawCommand::FilledCircle { cx: BALL_X, cy: BALL_Y, radius: 5, color: Rgba::rgb(255, 255, 0) },
    ];
    assert(r@ =~= frame_commands(ticks));
    r
}

/// A frame depends on the ticks only through the wedge rotation: two tick
/// values with the same rotation, equal ones in particular, give the same
/// commands in the same order.
pub proof fn lemma_frame_determined_by_offset(t1: u32, t2: u32)
    requires
        offset_of(t1) == offset_of(t2),
    ensures
        frame_commands(t1) == frame_commands(t2),
{
}

} // verus!
