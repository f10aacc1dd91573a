use skulpin::geometry::{Position, Size};
use skulpin::input_model::{
    ElementState, InputEvent, KeyCode, MouseButton, MouseDragState, KEYBOARD_BUTTON_COUNT,
    MOUSE_BUTTON_COUNT,
};
use skulpin::input_state::InputState;

fn pos(x: f64, y: f64) -> Position {
    Position::new((x * 1000.0).round() as i64, (y * 1000.0).round() as i64)
}

fn fresh() -> InputState {
    InputState::new(Size::new(800_000, 600_000), 1000)
}

#[test]
fn new_state_is_idle() {
    let s = fresh();
    assert_eq!(s.window_size(), Size::new(800_000, 600_000));
    assert_eq!(s.dpi_factor(), 1000);
    assert_eq!(s.mouse_position(), Position::zero());
    for code in 0..(KEYBOARD_BUTTON_COUNT as u32) {
        assert!(!s.is_key_down(KeyCode(code)));
        assert!(!s.is_key_just_down(KeyCode(code)));
        assert!(!s.is_key_just_up(KeyCode(code)));
    }
    assert!(!s.is_mouse_down(MouseButton::Left));
    assert_eq!(s.mouse_button_went_down_position(MouseButton::Left), None);
    assert_eq!(s.mouse_button_went_up_position(MouseButton::Left), None);
}

#[test]
fn key_press_then_end_frame() {
    for code in [0u32, 17, 254] {
        let mut s = fresh();
        s.handle_keyboard_event(KeyCode(code), ElementState::Pressed);
        assert!(s.is_key_down(KeyCode(code)));
        assert!(s.is_key_just_down(KeyCode(code)));
        assert!(!s.is_key_just_up(KeyCode(code)));
        s.end_frame();
        assert!(!s.is_key_just_down(KeyCode(code)));
        assert!(s.is_key_down(KeyCode(code)));
        s.handle_keyboard_event(KeyCode(code), ElementState::Pressed);
        assert!(!s.is_key_just_down(KeyCode(code)));
        s.end_frame();
        assert!(s.is_key_down(KeyCode(code)));
        s.handle_keyboard_event(KeyCode(code), ElementState::Released);
        assert!(!s.is_key_down(KeyCode(code)));
        assert!(s.is_key_just_up(KeyCode(code)));
        s.end_frame();
        assert!(!s.is_key_just_up(KeyCode(code)));
    }
}

#[test]
fn release_of_key_that_is_up_is_not_just_up() {
    let mut s = fresh();
    s.handle_keyboard_event(KeyCode(4), ElementState::Released);
    assert!(!s.is_key_just_up(KeyCode(4)));
    assert!(!s.is_key_down(KeyCode(4)));
}

#[test]
fn click_without_motion() {
    let mut s = fresh();
    s.handle_mouse_move_event(pos(3.0, 4.0));
    s.handle_mouse_button_event(MouseButton::Left, ElementState::Pressed);
    assert!(s.is_mouse_down(MouseButton::Left));
    assert!(s.is_mouse_just_down(MouseButton::Left));
    assert_eq!(s.mouse_just_down_position(MouseButton::Left), Some(pos(3.0, 4.0)));
    s.handle_mouse_button_event(MouseButton::Left, ElementState::Released);
    assert!(!s.is_mouse_down(MouseButton::Left));
    assert!(s.is_mouse_just_up(MouseButton::Left));
    assert_eq!(s.mouse_just_up_position(MouseButton::Left), Some(pos(3.0, 4.0)));
    assert!(s.is_mouse_button_just_clicked(MouseButton::Left));
    assert_eq!(s.mouse_button_just_clicked_position(MouseButton::Left), Some(pos(3.0, 4.0)));
    assert!(!s.is_mouse_drag_just_finished(MouseButton::Left));
    assert_eq!(s.mouse_drag_just_finished(MouseButton::Left), None);
    assert_eq!(s.mouse_button_went_down_position(MouseButton::Left), Some(pos(3.0, 4.0)));
    assert_eq!(s.mouse_button_went_up_position(MouseButton::Left), Some(pos(3.0, 4.0)));
}

#[test]
fn small_motion_starts_no_drag() {
    let mut s = fresh();
    s.handle_mouse_move_event(pos(1.0, 1.0));
    s.handle_mouse_button_event(MouseButton::Right, ElementState::Pressed);
    s.handle_mouse_move_event(pos(2.2, 2.6));
    assert!(!s.is_mouse_drag_in_progress(MouseButton::Right));
    assert_eq!(s.mouse_drag_in_progress(MouseButton::Right), None);
    // Exactly at the threshold is still no drag.
    s.handle_mouse_move_event(pos(3.0, 1.0));
    assert!(!s.is_mouse_drag_in_progress(MouseButton::Right));
    s.handle_mouse_button_event(MouseButton::Right, ElementState::Released);
    assert_eq!(s.mouse_button_just_clicked_position(MouseButton::Right), Some(pos(3.0, 1.0)));
}

#[test]
fn drag_from_origin_to_ten_ten() {
    let mut s = fresh();
    s.handle_mouse_move_event(pos(0.0, 0.0));
    s.handle_mouse_button_event(MouseButton::Left, ElementState::Pressed);
    s.handle_mouse_move_event(pos(10.0, 10.0));
    let d = s.mouse_drag_in_progress(MouseButton::Left).unwrap();
    assert_eq!(d.begin_position, pos(0.0, 0.0));
    assert_eq!(d.end_position, pos(10.0, 10.0));
    s.handle_mouse_button_event(MouseButton::Left, ElementState::Released);
    let f = s.mouse_drag_just_finished(MouseButton::Left).unwrap();
    assert_eq!(f.end_position, pos(10.0, 10.0));
    assert_eq!(f.begin_position, pos(0.0, 0.0));
    assert!(!s.is_mouse_button_just_clicked(MouseButton::Left));
    assert_eq!(s.mouse_button_just_clicked_position(MouseButton::Left), None);
    assert!(!s.is_mouse_drag_in_progress(MouseButton::Left));
}

#[test]
fn out_of_range_key_code_is_ignored() {
    let mut s = fresh();
    let k = KeyCode(300);
    s.handle_keyboard_event(k, ElementState::Pressed);
    assert!(!s.is_key_down(k));
    assert!(!s.is_key_just_down(k));
    assert!(!s.is_key_just_up(k));
    s.handle_keyboard_event(k, ElementState::Released);
    assert!(!s.is_key_just_up(k));
    let edge = KeyCode(KEYBOARD_BUTTON_COUNT as u32);
    s.handle_keyboard_event(edge, ElementState::Pressed);
    assert!(!s.is_key_down(edge));
    for code in 0..(KEYBOARD_BUTTON_COUNT as u32) {
        assert!(!s.is_key_down(KeyCode(code)));
    }
}

#[test]
fn out_of_range_button_is_ignored() {
    let mut s = fresh();
    // Other(3) maps to the last slot; Other(4) lies beyond it.
    let last = MouseButton::Other((MOUSE_BUTTON_COUNT - 4) as u8);
    let beyond = MouseButton::Other((MOUSE_BUTTON_COUNT - 3) as u8);
    s.handle_mouse_button_event(last, ElementState::Pressed);
    s.handle_mouse_button_event(beyond, ElementState::Pressed);
    assert!(s.is_mouse_down(last));
    assert!(!s.is_mouse_down(beyond));
    assert!(!s.is_mouse_just_down(beyond));
    assert_eq!(s.mouse_just_down_position(beyond), None);
    s.handle_mouse_button_event(beyond, ElementState::Released);
    assert!(!s.is_mouse_button_just_clicked(beyond));
    assert!(!s.is_mouse_down(MouseButton::Left));
}

#[test]
fn end_frame_twice() {
    let mut s = fresh();
    s.handle_keyboard_event(KeyCode(10), ElementState::Pressed);
    s.handle_keyboard_event(KeyCode(11), ElementState::Pressed);
    s.handle_keyboard_event(KeyCode(11), ElementState::Released);
    s.handle_mouse_move_event(pos(1.0, 1.0));
    s.handle_mouse_button_event(MouseButton::Middle, ElementState::Pressed);
    s.handle_mouse_button_event(MouseButton::Left, ElementState::Pressed);
    s.handle_mouse_button_event(MouseButton::Left, ElementState::Released);
    for _ in 0..2 {
        s.end_frame();
        assert!(s.is_key_down(KeyCode(10)));
        assert!(!s.is_key_down(KeyCode(11)));
        assert!(!s.is_key_just_down(KeyCode(10)));
        assert!(!s.is_key_just_up(KeyCode(11)));
        assert!(s.is_mouse_down(MouseButton::Middle));
        assert!(!s.is_mouse_down(MouseButton::Left));
        assert!(!s.is_mouse_just_down(MouseButton::Middle));
        assert!(!s.is_mouse_just_up(MouseButton::Left));
        assert!(!s.is_mouse_button_just_clicked(MouseButton::Left));
        assert!(!s.is_mouse_drag_just_finished(MouseButton::Left));
    }
}

#[test]
fn drag_after_jitter_scenario() {
    let mut s = fresh();
    s.handle_mouse_move_event(pos(5.0, 5.0));
    s.handle_mouse_button_event(MouseButton::Left, ElementState::Pressed);
    s.handle_mouse_move_event(pos(5.0, 5.5));
    assert!(!s.is_mouse_drag_in_progress(MouseButton::Left));
    s.handle_mouse_move_event(pos(20.0, 20.0));
    let d = s.mouse_drag_in_progress(MouseButton::Left).unwrap();
    assert_eq!(d.begin_position, pos(5.0, 5.0));
    s.handle_mouse_button_event(MouseButton::Left, ElementState::Released);
    let f = s.mouse_drag_just_finished(MouseButton::Left).unwrap();
    assert_eq!(f.begin_position, pos(5.0, 5.0));
    assert_eq!(f.end_position, pos(20.0, 20.0));
    assert_eq!(f.accumulated_frame_delta, pos(15.0, 15.0));
    assert!(!s.is_mouse_button_just_clicked(MouseButton::Left));
}

#[test]
fn drag_deltas_across_frames() {
    let mut s = fresh();
    s.handle_mouse_button_event(MouseButton::Left, ElementState::Pressed);
    s.handle_mouse_move_event(pos(3.0, 0.0));
    let d = s.mouse_drag_in_progress(MouseButton::Left).unwrap();
    assert_eq!(
        d,
        MouseDragState {
            begin_position: pos(0.0, 0.0),
            end_position: pos(3.0, 0.0),
            previous_frame_delta: pos(3.0, 0.0),
            accumulated_frame_delta: pos(3.0, 0.0),
        }
    );
    s.end_frame();
    let d = s.mouse_drag_in_progress(MouseButton::Left).unwrap();
    assert_eq!(d.previous_frame_delta, Position::zero());
    assert_eq!(d.accumulated_frame_delta, pos(3.0, 0.0));
    assert_eq!(d.begin_position, pos(0.0, 0.0));
    s.handle_mouse_move_event(pos(4.0, -2.0));
    let d = s.mouse_drag_in_progress(MouseButton::Left).unwrap();
    assert_eq!(d.previous_frame_delta, pos(1.0, -2.0));
    assert_eq!(d.accumulated_frame_delta, pos(4.0, -2.0));
    s.handle_mouse_button_event(MouseButton::Left, ElementState::Released);
    let f = s.mouse_drag_just_finished(MouseButton::Left).unwrap();
    assert_eq!(f.previous_frame_delta, Position::zero());
    assert_eq!(f.accumulated_frame_delta, pos(4.0, -2.0));
    s.end_frame();
    assert_eq!(s.mouse_drag_just_finished(MouseButton::Left), None);
}

#[test]
fn released_button_does_not_drag() {
    let mut s = fresh();
    s.handle_mouse_button_event(MouseButton::Left, ElementState::Pressed);
    s.handle_mouse_button_event(MouseButton::Left, ElementState::Released);
    s.handle_mouse_move_event(pos(50.0, 50.0));
    assert!(!s.is_mouse_drag_in_progress(MouseButton::Left));
}

#[test]
fn events_dispatch() {
    let mut s = fresh();
    assert!(!s.handle_event(InputEvent::Resized(Size::new(1_024_000, 768_000))));
    assert_eq!(s.window_size(), Size::new(1_024_000, 768_000));
    assert!(!s.handle_event(InputEvent::ScaleFactorChanged(2000)));
    assert_eq!(s.dpi_factor(), 2000);
    assert!(!s.handle_event(InputEvent::CursorMoved(pos(7.0, 8.0))));
    assert_eq!(s.mouse_position(), pos(7.0, 8.0));
    assert!(!s.handle_event(InputEvent::Keyboard { key: KeyCode(1), state: ElementState::Pressed }));
    assert!(s.is_key_down(KeyCode(1)));
    assert!(!s.handle_event(InputEvent::MouseButton {
        button: MouseButton::Other(0),
        state: ElementState::Pressed,
    }));
    assert!(s.is_mouse_down(MouseButton::Other(0)));
    assert!(s.handle_event(InputEvent::CloseRequested));
    assert!(s.is_key_down(KeyCode(1)));
}

#[test]
fn handlers_for_window_metrics() {
    let mut s = fresh();
    s.handle_window_size_changed(Size::new(10, 20));
    s.handle_hidpi_factor_changed(1500);
    assert_eq!(s.window_size(), Size::new(10, 20));
    assert_eq!(s.dpi_factor(), 1500);
}
