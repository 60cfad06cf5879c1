use shapeshifter_input::input::{
    direct_make_polygon_action, direct_release_action, Action, Cursor, Directive, InputState,
    Point2,
};

fn idle_input() -> InputState {
    InputState {
        lshift_pressed: false,
        lcontrol_pressed: false,
        space_pressed: false,
        g_just_pressed: false,
        h_just_pressed: false,
        s_just_pressed: false,
        l_just_pressed: false,
        z_just_pressed: false,
        t_just_pressed: false,
        delete_just_pressed: false,
        enter_just_pressed: false,
        escape_just_pressed: false,
        space_just_pressed: false,
        left_just_pressed: false,
        right_just_pressed: false,
    }
}

fn cursor_at(x: i64, y: i64) -> Cursor {
    Cursor {
        position: Point2 { x, y },
        pos_relative_to_click: Point2 { x, y },
        last_click_position: Point2 { x: 0, y: 0 },
        last_right_click_position: Point2 { x: 0, y: 0 },
    }
}

#[test]
fn enter_ends_polygon_in_progress() {
    let mut input = idle_input();
    input.enter_just_pressed = true;
    let cursor = cursor_at(10, 20);
    let r = direct_make_polygon_action(&input, 1, 0, &cursor);
    assert_eq!(r, Directive::Emit(Action::EndMakingPolygon));
}

#[test]
fn enter_ends_polygon_even_with_space_held() {
    let mut input = idle_input();
    input.enter_just_pressed = true;
    input.space_pressed = true;
    let cursor = cursor_at(10, 20);
    let r = direct_make_polygon_action(&input, 1, 0, &cursor);
    assert_eq!(r, Directive::Emit(Action::EndMakingPolygon));
}

#[test]
fn right_click_ends_polygon_in_progress() {
    let mut input = idle_input();
    input.right_just_pressed = true;
    let cursor = cursor_at(10, 20);
    let r = direct_make_polygon_action(&input, 1, 0, &cursor);
    assert_eq!(r, Directive::Emit(Action::EndMakingPolygon));
}

#[test]
fn space_ends_polygon_in_progress() {
    let mut input = idle_input();
    input.space_just_pressed = true;
    input.space_pressed = true;
    let cursor = cursor_at(10, 20);
    let r = direct_make_polygon_action(&input, 1, 0, &cursor);
    assert_eq!(r, Directive::Emit(Action::EndMakingPolygon));
}

#[test]
fn enter_without_polygon_does_nothing() {
    let mut input = idle_input();
    input.enter_just_pressed = true;
    let cursor = cursor_at(10, 20);
    let r = direct_make_polygon_action(&input, 0, 0, &cursor);
    assert_eq!(r, Directive::NoOp);
}

#[test]
fn ending_polygon_outranks_ending_segment() {
    let mut input = idle_input();
    input.enter_just_pressed = true;
    input.left_just_pressed = true;
    let cursor = cursor_at(10, 20);
    let r = direct_make_polygon_action(&input, 1, 0, &cursor);
    assert_eq!(r, Directive::Emit(Action::EndMakingPolygon));
}

#[test]
fn click_ends_current_segment() {
    let mut input = idle_input();
    input.left_just_pressed = true;
    let cursor = cursor_at(-3, 8);
    let r = direct_make_polygon_action(&input, 1, 0, &cursor);
    assert_eq!(r, Directive::Emit(Action::EndSegment { pos: Point2 { x: -3, y: 8 } }));
}

#[test]
fn click_ends_cut_segment() {
    let mut input = idle_input();
    input.left_just_pressed = true;
    let cursor = cursor_at(4, -9);
    let r = direct_make_polygon_action(&input, 0, 1, &cursor);
    assert_eq!(r, Directive::Emit(Action::EndCutSegment { end: Point2 { x: 4, y: -9 } }));
}

#[test]
fn control_s_requests_quicksave() {
    let mut input = idle_input();
    input.lcontrol_pressed = true;
    input.s_just_pressed = true;
    let cursor = cursor_at(0, 0);
    let r = direct_make_polygon_action(&input, 0, 0, &cursor);
    assert_eq!(r, Directive::QuickSave);
}

#[test]
fn control_l_requests_quickload() {
    let mut input = idle_input();
    input.lcontrol_pressed = true;
    input.l_just_pressed = true;
    let cursor = cursor_at(0, 0);
    let r = direct_make_polygon_action(&input, 0, 0, &cursor);
    assert_eq!(r, Directive::QuickLoad);
}

#[test]
fn shift_click_starts_polygon_at_cursor() {
    let mut input = idle_input();
    input.lshift_pressed = true;
    input.left_just_pressed = true;
    let cursor = cursor_at(17, -5);
    let r = direct_make_polygon_action(&input, 0, 0, &cursor);
    assert_eq!(r, Directive::Emit(Action::StartMakingPolygon { pos: Point2 { x: 17, y: -5 } }));
}

#[test]
fn shift_click_with_polygon_in_progress_does_nothing() {
    let mut input = idle_input();
    input.lshift_pressed = true;
    input.left_just_pressed = true;
    let cursor = cursor_at(17, -5);
    let r = direct_make_polygon_action(&input, 1, 0, &cursor);
    assert_eq!(r, Directive::NoOp);
}

#[test]
fn control_click_starts_cut_segment_at_cursor() {
    let mut input = idle_input();
    input.lcontrol_pressed = true;
    input.left_just_pressed = true;
    let cursor = cursor_at(2, 3);
    let r = direct_make_polygon_action(&input, 0, 0, &cursor);
    assert_eq!(r, Directive::Emit(Action::StartMakingCutSegment { start: Point2 { x: 2, y: 3 } }));
}

#[test]
fn control_click_with_cut_in_progress_does_nothing() {
    let mut input = idle_input();
    input.lcontrol_pressed = true;
    input.left_just_pressed = true;
    let cursor = cursor_at(2, 3);
    let r = direct_make_polygon_action(&input, 0, 1, &cursor);
    assert_eq!(r, Directive::NoOp);
}

#[test]
fn escape_cancels_cut_in_progress() {
    let mut input = idle_input();
    input.escape_just_pressed = true;
    let cursor = cursor_at(0, 0);
    let r = direct_make_polygon_action(&input, 0, 1, &cursor);
    assert_eq!(r, Directive::CancelCutSegment);
}

#[test]
fn escape_without_cut_emits_delete() {
    let mut input = idle_input();
    input.escape_just_pressed = true;
    let cursor = cursor_at(0, 0);
    let r = direct_make_polygon_action(&input, 0, 0, &cursor);
    assert_eq!(r, Directive::Emit(Action::Delete));
}

#[test]
fn delete_key_emits_delete() {
    let mut input = idle_input();
    input.delete_just_pressed = true;
    let cursor = cursor_at(0, 0);
    let r = direct_make_polygon_action(&input, 0, 0, &cursor);
    assert_eq!(r, Directive::Emit(Action::Delete));
}

#[test]
fn control_escape_with_cut_does_nothing() {
    let mut input = idle_input();
    input.lcontrol_pressed = true;
    input.escape_just_pressed = true;
    let cursor = cursor_at(0, 0);
    let r = direct_make_polygon_action(&input, 0, 1, &cursor);
    assert_eq!(r, Directive::NoOp);
}

#[test]
fn reserved_modifier_combinations_do_nothing() {
    let cursor = cursor_at(0, 0);

    let mut g_alone = idle_input();
    g_alone.g_just_pressed = true;
    assert_eq!(direct_make_polygon_action(&g_alone, 0, 0, &cursor), Directive::NoOp);

    let mut shift_control_g = idle_input();
    shift_control_g.lshift_pressed = true;
    shift_control_g.lcontrol_pressed = true;
    shift_control_g.g_just_pressed = true;
    assert_eq!(direct_make_polygon_action(&shift_control_g, 0, 0, &cursor), Directive::NoOp);

    let mut control_h = idle_input();
    control_h.lcontrol_pressed = true;
    control_h.h_just_pressed = true;
    assert_eq!(direct_make_polygon_action(&control_h, 0, 0, &cursor), Directive::NoOp);

    let mut control_z = idle_input();
    control_z.lcontrol_pressed = true;
    control_z.z_just_pressed = true;
    assert_eq!(direct_make_polygon_action(&control_z, 0, 0, &cursor), Directive::NoOp);

    let mut shift_t = idle_input();
    shift_t.lshift_pressed = true;
    shift_t.t_just_pressed = true;
    assert_eq!(direct_make_polygon_action(&shift_t, 0, 0, &cursor), Directive::NoOp);
}

#[test]
fn second_read_after_draining_edges_emits_nothing() {
    let mut input = idle_input();
    input.lshift_pressed = true;
    input.left_just_pressed = true;
    let cursor = cursor_at(1, 1);

    let first = direct_make_polygon_action(&input, 0, 0, &cursor);
    assert_eq!(
        first,
        Directive::Emit(Action::StartMakingPolygon { pos: Point2 { x: 1, y: 1 } })
    );

    // the consumer drains edge-triggered input after the first read
    let drained = input.clear_edges();
    let second = direct_make_polygon_action(&drained, 0, 0, &cursor);
    assert_eq!(second, Directive::NoOp);
}

#[test]
fn release_removes_segment_markers() {
    assert_eq!(direct_release_action(true, 1), 0);
    assert_eq!(direct_release_action(true, 3), 0);
    assert_eq!(direct_release_action(false, 1), 1);
    assert_eq!(direct_release_action(false, 0), 0);
}
