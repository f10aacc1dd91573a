//! The abstract input snapshot and the transition that each event makes.
use vstd::prelude::*;
use crate::geometry::{Position, Size};

verus! {

/// Number of keyboard slots; key codes from here up are ignored.
pub const KEYBOARD_BUTTON_COUNT: usize = 255;

/// Number of pointer-button slots; buttons that map from here up are ignored.
pub const MOUSE_BUTTON_COUNT: usize = 7;

/// Travel, in coordinate steps, that a held button must exceed to start a drag
/// (two logical units).
pub const MIN_DRAG_DISTANCE: i64 = 2000;

/// Square of `MIN_DRAG_DISTANCE`: a drag starts where the squared distance
/// exceeds it, which compares distances exactly.
pub const MIN_DRAG_DISTANCE_SQUARED: i128 = 2000 * 2000;

/// A keyboard key, by its dense code.
#[derive(Clone, Copy, Debug, PartialEq, Eq, Structural)]
pub struct KeyCode(pub u32);

/// A pointer button. Extra device buttons follow the middle one.
#[derive(Clone, Copy, Debug, PartialEq, Eq, Structural)]
pub enum MouseButton {
    Left,
    Right,
    Middle,
    Other(u8),
}

/// Whether a key or button went down or came up.
#[derive(Clone, Copy, Debug, PartialEq, Eq, Structural)]
pub enum ElementState {
    Pressed,
    Released,
}

/// A drag of one pointer button: where it began, where it is, and how far it
/// moved in the latest motion update and in total.
#[derive(Clone, Copy, Debug, PartialEq, Eq, Structural)]
pub struct MouseDragState {
    pub begin_position: Position,
    pub end_position: Position,
    pub previous_frame_delta: Position,
    pub accumulated_frame_delta: Position,
}

/// The state of one key.
#[derive(Clone, Copy, Debug, PartialEq, Eq, Structural)]
pub struct KeyState {
    pub is_down: bool,
    pub just_down: bool,
    pub just_up: bool,
}

/// The state of one pointer button.
#[derive(Clone, Copy, Debug, PartialEq, Eq, Structural)]
pub struct ButtonState {
    pub is_down: bool,
    pub just_down: Option<Position>,
    pub just_up: Option<Position>,
    pub just_clicked: Option<Position>,
    pub went_down_position: Option<Position>,
    pub went_up_position: Option<Position>,
    pub drag_in_progress: Option<MouseDragState>,
    pub drag_just_finished: Option<MouseDragState>,
}

/// One semantic input event.
#[derive(Clone, Copy, Debug, PartialEq, Eq, Structural)]
pub enum InputEvent {
    Keyboard { key: KeyCode, state: ElementState },
    MouseButton { button: MouseButton, state: ElementState },
    CursorMoved(Position),
    Resized(Size),
    ScaleFactorChanged(i64),
    CloseRequested,
}

/// The whole input state as a mathematical value.
pub struct InputSnapshot {
    pub window_size: Size,
    /// Scale factor, in thousandths.
    pub dpi_factor: i64,
    pub keys: Seq<KeyState>,
    pub buttons: Seq<ButtonState>,
    pub mouse_position: Position,
}

/// The slot of a key, which may lie beyond the keyboard slots.
pub open spec fn key_slot(key: KeyCode) -> int {
    key.0 as int
}

/// The slot of a button, which may lie beyond the button slots.
pub open spec fn button_slot(button: MouseButton) -> int {
    match button {
        MouseButton::Left => 0,
        MouseButton::Right => 1,
        MouseButton::Middle => 2,
        MouseButton::Other(x) => x + 3,
    }
}

pub open spec fn key_tracked(key: KeyCode) -> bool {
    key_slot(key) < KEYBOARD_BUTTON_COUNT
}

pub open spec fn button_tracked(button: MouseButton) -> bool {
    button_slot(button) < MOUSE_BUTTON_COUNT
}

pub open spec fn key_released() -> KeyState {
    KeyState { is_down: false, just_down: false, just_up: false }
}

pub open spec fn button_released() -> ButtonState {
    ButtonState {
        is_down: false,
        just_down: None,
        just_up: None,
        just_clicked: None,
        went_down_position: None,
        went_up_position: None,
        drag_in_progress: None,
        drag_just_finished: None,
    }
}

pub open spec fn zero_position() -> Position {
    Position { x: 0, y: 0 }
}

/// Drag data whose positions a pointer can report and whose total equals the
/// travel from the start.
pub open spec fn drag_wf(d: MouseDragState) -> bool {
    &&& d.begin_position.is_point()
    &&& d.end_position.is_point()
    &&& d.previous_frame_delta.is_displacement()
    &&& d.accumulated_frame_delta == d.end_position.minus(d.begin_position)
}

pub open spec fn opt_point(p: Option<Position>) -> bool {
    p matches Some(q) ==> q.is_point()
}

pub open spec fn opt_drag_wf(d: Option<MouseDragState>) -> bool {
    d matches Some(e) ==> drag_wf(e)
}

pub open spec fn button_wf(s: ButtonState) -> bool {
    &&& opt_point(s.just_down)
    &&& opt_point(s.just_up)
    &&& opt_point(s.just_clicked)
    &&& opt_point(s.went_down_position)
    &&& opt_point(s.went_up_position)
    &&& opt_drag_wf(s.drag_in_progress)
    &&& opt_drag_wf(s.drag_just_finished)
}

/// A key after a press or a release.
pub open spec fn key_after(s: KeyState, state: ElementState) -> KeyState {
    match state {
        ElementState::Pressed => KeyState {
            is_down: true,
            just_down: s.just_down || !s.is_down,
            just_up: s.just_up,
        },
        ElementState::Released => KeyState {
            is_down: false,
            just_down: s.just_down,
            just_up: s.just_up || s.is_down,
        },
    }
}

/// A drag brought up to the pointer at `p`: the new delta is the travel that
/// the total does not yet account for.
pub open spec fn drag_continued(d: MouseDragState, p: Position) -> MouseDragState {
    let delta = p.minus(d.begin_position.plus(d.accumulated_frame_delta));
    MouseDragState {
        begin_position: d.begin_position,
        end_position: p,
        previous_frame_delta: delta,
        accumulated_frame_delta: d.accumulated_frame_delta.plus(delta),
    }
}

/// A drag that starts at `begin` with the pointer now at `p`.
pub open spec fn drag_started(begin: Position, p: Position) -> MouseDragState {
    MouseDragState {
        begin_position: begin,
        end_position: p,
        previous_frame_delta: p.minus(begin),
        accumulated_frame_delta: p.minus(begin),
    }
}

/// A button after a press or a release with the pointer at `p`.
pub open spec fn button_after(s: ButtonState, state: ElementState, p: Position) -> ButtonState {
    match state {
        ElementState::Pressed => ButtonState {
            is_down: true,
            just_down: Some(p),
            went_down_position: Some(p),
            ..s
        },
        ElementState::Released => ButtonState {
            is_down: false,
            just_up: Some(p),
            went_up_position: Some(p),
            just_clicked: match s.drag_in_progress {
                Some(_) => s.just_clicked,
                None => Some(p),
            },
            drag_just_finished: match s.drag_in_progress {
                Some(d) => Some(drag_continued(d, p)),
                None => s.drag_just_finished,
            },
            drag_in_progress: None,
            ..s
        },
    }
}

/// The drag of a button after the pointer moved to `p`.
pub open spec fn drag_after_move(s: ButtonState, p: Position) -> Option<MouseDragState> {
    match s.drag_in_progress {
        Some(d) => Some(drag_continued(d, p)),
        None => match s.went_down_position {
            Some(w) => if w.distance_squared(p) > MIN_DRAG_DISTANCE_SQUARED {
                Some(drag_started(w, p))
            } else {
                None
            },
            None => None,
        },
    }
}

/// A button after the pointer moved to `p`: only a held button drags.
pub open spec fn button_after_move(s: ButtonState, p: Position) -> ButtonState {
    if s.is_down {
        ButtonState { drag_in_progress: drag_after_move(s, p), ..s }
    } else {
        s
    }
}

pub open spec fn key_after_frame(s: KeyState) -> KeyState {
    KeyState { is_down: s.is_down, just_down: false, just_up: false }
}

/// A button at a frame boundary: one-shot data cleared, a drag in progress
/// kept with no motion yet in the new frame.
pub open spec fn button_after_frame(s: ButtonState) -> ButtonState {
    ButtonState {
        just_down: None,
        just_up: None,
        just_clicked: None,
        drag_just_finished: None,
        drag_in_progress: match s.drag_in_progress {
            Some(d) => Some(MouseDragState { previous_frame_delta: zero_position(), ..d }),
            None => None,
        },
        ..s
    }
}

impl InputSnapshot {
    pub open spec fn wf(self) -> bool {
        &&& self.keys.len() == KEYBOARD_BUTTON_COUNT
        &&& self.buttons.len() == MOUSE_BUTTON_COUNT
        &&& self.mouse_position.is_point()
        &&& forall|i: int| 0 <= i < self.buttons.len() ==> #[trigger] button_wf(self.buttons[i])
    }

    /// The state of a key; one beyond the slots reads as released.
    pub open spec fn key(self, key: KeyCode) -> KeyState {
        if key_tracked(key) {
            self.keys[key_slot(key)]
        } else {
            key_released()
        }
    }

    /// The state of a button; one beyond the slots reads as released.
    pub open spec fn button(self, button: MouseButton) -> ButtonState {
        if button_tracked(button) {
            self.buttons[button_slot(button)]
        } else {
            button_released()
        }
    }

    pub open spec fn initial(window_size: Size, dpi_factor: i64) -> InputSnapshot {
        InputSnapshot {
            window_size,
            dpi_factor,
            keys: Seq::new(KEYBOARD_BUTTON_COUNT as nat, |i: int| key_released()),
            buttons: Seq::new(MOUSE_BUTTON_COUNT as nat, |i: int| button_released()),
            mouse_position: zero_position(),
        }
    }

    pub open spec fn after_key(self, key: KeyCode, state: ElementState) -> InputSnapshot {
        if key_tracked(key) {
            InputSnapshot {
                keys: self.keys.update(key_slot(key), key_after(self.keys[key_slot(key)], state)),
                ..self
            }
        } else {
            self
        }
    }

    pub open spec fn after_button(self, button: MouseButton, state: ElementState) -> InputSnapshot {
        if button_tracked(button) {
            let i = button_slot(button);
            InputSnapshot {
                buttons: self.buttons.update(
                    i,
                    button_after(self.buttons[i], state, self.mouse_position),
                ),
                ..self
            }
        } else {
            self
        }
    }

    pub open spec fn after_move(self, p: Position) -> InputSnapshot {
        InputSnapshot {
            mouse_position: p,
            buttons: self.buttons.map_values(|s: ButtonState| button_after_move(s, p)),
            ..self
        }
    }

    pub open spec fn after_frame(self) -> InputSnapshot {
        InputSnapshot {
            keys: self.keys.map_values(|s: KeyState| key_after_frame(s)),
            buttons: self.buttons.map_values(|s: ButtonState| button_after_frame(s)),
            ..self
        }
    }

    pub open spec fn after_resize(self, size: Size) -> InputSnapshot {
        InputSnapshot { window_size: size, ..self }
    }

    pub open spec fn after_scale_factor(self, factor: i64) -> InputSnapshot {
        InputSnapshot { dpi_factor: factor, ..self }
    }

    pub open spec fn after_event(self, event: InputEvent) -> InputSnapshot {
        match event {
            InputEvent::Keyboard { key, state } => self.after_key(key, state),
            InputEvent::MouseButton { button, state } => self.after_button(button, state),
            InputEvent::CursorMoved(p) => self.after_move(p),
            InputEvent::Resized(size) => self.after_resize(size),
            InputEvent::ScaleFactorChanged(factor) => self.after_scale_factor(factor),
            InputEvent::CloseRequested => self,
        }
    }
}

/// Events that the snapshot can take: pointer positions are ones a pointer
/// may report.
pub open spec fn event_admissible(event: InputEvent) -> bool {
    event matches InputEvent::CursorMoved(p) ==> p.is_point()
}

} // verus!
