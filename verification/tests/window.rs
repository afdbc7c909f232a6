use doing_now::debounce::Mode;
use doing_now::window::{
    plan_for_mode, plan_for_resolution, plan_for_single_press, top_left_position, WindowPlan,
    WINDOW_MARGIN_X, WINDOW_MARGIN_Y,
};

#[test]
fn mode_names() {
    assert_eq!(Mode::Edit.name(), "edit");
    assert_eq!(Mode::Emphasis.name(), "emphasis");
}

#[test]
fn only_edit_takes_the_pointer() {
    assert!(!Mode::Edit.ignores_cursor());
    assert!(Mode::Emphasis.ignores_cursor());
}

#[test]
fn edit_mode_plan() {
    assert_eq!(
        plan_for_mode(Mode::Edit),
        WindowPlan {
            ignore_cursor: Some(false),
            show: true,
            focus: true,
            announce: Some(Mode::Edit),
        }
    );
}

#[test]
fn emphasis_mode_plan() {
    assert_eq!(
        plan_for_mode(Mode::Emphasis),
        WindowPlan {
            ignore_cursor: Some(true),
            show: true,
            focus: true,
            announce: Some(Mode::Emphasis),
        }
    );
}

#[test]
fn single_press_hides_visible_window() {
    assert_eq!(
        plan_for_single_press(true),
        WindowPlan {
            ignore_cursor: Some(true),
            show: false,
            focus: false,
            announce: None,
        }
    );
}

#[test]
fn single_press_shows_hidden_window() {
    assert_eq!(
        plan_for_single_press(false),
        WindowPlan {
            ignore_cursor: None,
            show: true,
            focus: true,
            announce: Some(Mode::Emphasis),
        }
    );
}

#[test]
fn resolution_plans() {
    assert_eq!(plan_for_resolution(Mode::Edit, true), plan_for_mode(Mode::Edit));
    assert_eq!(plan_for_resolution(Mode::Edit, false), plan_for_mode(Mode::Edit));
    assert_eq!(
        plan_for_resolution(Mode::Emphasis, true),
        plan_for_single_press(true)
    );
    assert_eq!(
        plan_for_resolution(Mode::Emphasis, false),
        plan_for_single_press(false)
    );
}

#[test]
fn margins() {
    assert_eq!(WINDOW_MARGIN_X, 8);
    assert_eq!(WINDOW_MARGIN_Y, 6);
}

#[test]
fn top_left_of_primary_monitor() {
    assert_eq!(top_left_position(0, 0), Some((8, 6)));
}

#[test]
fn top_left_of_monitor_left_of_origin() {
    assert_eq!(top_left_position(-1920, -200), Some((-1912, -194)));
    assert_eq!(top_left_position(i32::MIN, i32::MIN), Some((i32::MIN + 8, i32::MIN + 6)));
}

#[test]
fn top_left_at_the_edge_of_the_range() {
    assert_eq!(
        top_left_position(i32::MAX - 8, i32::MAX - 6),
        Some((i32::MAX, i32::MAX))
    );
    assert_eq!(top_left_position(i32::MAX - 7, 0), None);
    assert_eq!(top_left_position(0, i32::MAX - 5), None);
    assert_eq!(top_left_position(i32::MAX, i32::MAX), None);
}
