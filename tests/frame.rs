use arena::frame::{
    angle_offset, goal_span, player_inner_span, player_span, render_frame, ARENA_X, ARENA_Y,
};
use arena::paint::{normalize_degrees, DrawCommand, Rgba};

#[test]
fn angle_offset_floors_ticks_over_thirty() {
    assert_eq!(angle_offset(0), 0);
    assert_eq!(angle_offset(29), 0);
    assert_eq!(angle_offset(30), 1);
    assert_eq!(angle_offset(59), 1);
    assert_eq!(angle_offset(90), 3);
    assert_eq!(angle_offset(u32::MAX), u32::MAX / 30);
}

#[test]
fn spans_at_ninety_ticks() {
    assert_eq!(angle_offset(90), 3);
    assert_eq!(goal_span(90), (3, 48));
    assert_eq!(player_span(90), (7, 27));
    assert_eq!(player_inner_span(90), (6, 28));
}

#[test]
fn player_span_goes_negative_at_nine_hundred_ticks() {
    assert_eq!(angle_offset(900), 30);
    assert_eq!(player_span(900), (-20, 0));
    assert_eq!(normalize_degrees(-20), 340);
    assert_eq!(normalize_degrees(0), 0);
}

#[test]
fn spans_keep_growing_without_wrapping() {
    let ticks = u32::MAX;
    let off = (u32::MAX / 30) as i32;
    assert_eq!(goal_span(ticks), (off, 45 + off));
    assert_eq!(player_span(ticks), (10 - off, 30 - off));
    assert_eq!(normalize_degrees(45 + off), ((45 + off) % 360) as i16);
}

#[test]
fn normalize_degrees_brings_angles_into_one_turn() {
    assert_eq!(normalize_degrees(360), 0);
    assert_eq!(normalize_degrees(405), 45);
    assert_eq!(normalize_degrees(-1), 359);
    assert_eq!(normalize_degrees(-360), 0);
    assert_eq!(normalize_degrees(i32::MIN), i32::MIN.rem_euclid(360) as i16);
    assert_eq!(normalize_degrees(i32::MAX), i32::MAX.rem_euclid(360) as i16);
}

#[test]
fn frame_at_ninety_ticks() {
    let black = Rgba::rgb(0, 0, 0);
    let expected = vec![
        DrawCommand::Clear { color: black },
        DrawCommand::FilledCircle { cx: 400, cy: 300, radius: 200, color: Rgba::rgb(0, 0, 255) },
        DrawCommand::FilledCircle { cx: 400, cy: 300, radius: 180, color: black },
        DrawCommand::FilledPie { cx: 400, cy: 300, radius: 202, start: 3, end: 48, color: black },
        DrawCommand::FilledPie { cx: 400, cy: 300, radius: 160, start: 7, end: 27, color: Rgba::rgb(0, 255, 0) },
        DrawCommand::FilledPie { cx: 400, cy: 300, radius: 155, start: 6, end: 28, color: black },
        DrawCommand::FilledCircle { cx: 500, cy: 350, radius: 5, color: Rgba::rgb(255, 255, 0) },
    ];
    assert_eq!(render_frame(90), expected);
    assert_eq!((ARENA_X, ARENA_Y), (400, 300));
}

#[test]
fn render_frame_is_repeatable() {
    for ticks in [0u32, 29, 30, 900, 123_456, u32::MAX] {
        assert_eq!(render_frame(ticks), render_frame(ticks));
    }
    assert_eq!(render_frame(30), render_frame(59));
    assert_ne!(render_frame(29), render_frame(30));
}

#[test]
fn frame_at_zero_ticks_has_unrotated_wedges() {
    let frame = render_frame(0);
    assert_eq!(frame.len(), 7);
    assert_eq!(frame[3], DrawCommand::FilledPie { cx: 400, cy: 300, radius: 202, start: 0, end: 45, color: Rgba::rgb(0, 0, 0) });
    assert_eq!(frame[4], DrawCommand::FilledPie { cx: 400, cy: 300, radius: 160, start: 10, end: 30, color: Rgba::rgb(0, 255, 0) });
    assert_eq!(frame[5], DrawCommand::FilledPie { cx: 400, cy: 300, radius: 155, start: 9, end: 31, color: Rgba::rgb(0, 0, 0) });
}
