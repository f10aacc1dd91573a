//! The input state store: event handlers, per-frame reset and queries.
use vstd::prelude::*;
use crate::geometry;
use crate::geometry::{Position, Size};
use crate::input_model::{
    button_after_frame, button_after_move, button_released, button_slot,
    button_tracked, button_wf, drag_after_move, drag_continued, drag_wf, event_admissible,
    key_after_frame, key_released, key_slot, key_tracked, opt_drag_wf, ButtonState,
    ElementState, InputEvent, InputSnapshot, KeyCode, KeyState, MouseButton, MouseDragState,
    KEYBOARD_BUTTON_COUNT, MIN_DRAG_DISTANCE_SQUARED, MOUSE_BUTTON_COUNT,
};

verus! {

/// Keys, pointer buttons, pointer position and window metrics as seen by the
/// current frame.
pub struct InputState {
    window_size: Size,
    dpi_factor: i64,
    keys: Vec<KeyState>,
    buttons: Vec<ButtonState>,
    mouse_position: Position,
}

impl View for InputState {
    type V = InputSnapshot;

    closed spec fn view(&self) -> InputSnapshot {
        InputSnapshot {
            window_size: self.window_size,
            dpi_factor: self.dpi_factor,
            keys: self.keys@,
            buttons: self.buttons@,
            mouse_position: self.mouse_position,
        }
    }
}

fn key_released_value() -> (r: KeyState)
    ensures
        r == key_released(),
{
    KeyState { is_down: false, just_down: false, just_up: false }
}

fn button_released_value() -> (r: ButtonState)
    ensures
        r == button_released(),
{
    ButtonState {
        is_down: false,
        just_down: None,
        just_up: None,
        just_clicked: None,
        went_down_position: None,
        went_up_position: None,
        drag_in_progress: None,
        drag_just_finished: None,
    }
}

/// Brings a drag up to the pointer at `p`.
fn continue_drag(d: MouseDragState, p: Position) -> (r: MouseDragState)
    requires
        drag_wf(d),
        p.is_point(),
    ensures
        r == drag_continued(d, p),
        drag_wf(r),
{
    let reached = geometry::add(d.begin_position, d.accumulated_frame_delta);
    let delta = geometry::subtract(p, reached);
    MouseDragState {
        begin_position: d.begin_position,
        end_position: p,
        previous_frame_delta: delta,
        accumulated_frame_delta: geometry::add(d.accumulated_frame_delta, delta),
    }
}

/// The drag of a held button after the pointer moved to `p`.
fn drag_for_move(s: &ButtonState, p: Position) -> (r: Option<MouseDragState>)
    requires
        button_wf(*s),
        p.is_point(),
    ensures
        r == drag_after_move(*s, p),
        opt_drag_wf(r),
{
    match s.drag_in_progress {
        Some(d) => Some(continue_drag(d, p)),
        None => match s.went_down_position {
            Some(went_down_position) => {
                let far_enough = geometry::distance_squared(went_down_position, p)
                    > MIN_DRAG_DISTANCE_SQUARED;
                if far_enough {
                    let delta = geometry::subtract(p, went_down_position);
                    Some(
                        MouseDragState {
                            begin_position: went_down_position,
                            end_position: p,
                            previous_frame_delta: delta,
                            accumulated_frame_delta: delta,
                        },
                    )
                } else {
                    None
                }
            },
            None => None,
        },
    }
}

impl InputState {
    pub fn new(window_size: Size, dpi_factor: i64) -> (r: InputState)
        ensures
            r@ == InputSnapshot::initial(window_size, dpi_factor),
            r@.wf(),
    {
        let mut keys: Vec<KeyState> = Vec::new();
        let mut i: usize = 0;
        while i < KEYBOARD_BUTTON_COUNT
            invariant
                i <= KEYBOARD_BUTTON_COUNT,
                keys@.len() == i,
                forall|j: int| 0 <= j < i ==> keys@[j] == key_released(),
            decreases KEYBOARD_BUTTON_COUNT - i,
        {
            keys.push(key_released_value());
            i = i + 1;
        }
        let mut buttons: Vec<ButtonState> = Vec::new();
        let mut i: usize = 0;
        while i < MOUSE_BUTTON_COUNT
            invariant
                i <= MOUSE_BUTTON_COUNT,
                buttons@.len() == i,
                forall|j: int| 0 <= j < i ==> buttons@[j] == button_released(),
            decreases MOUSE_BUTTON_COUNT - i,
        {
            buttons.push(button_released_value());
            i = i + 1;
        }
        let r = InputState {
            window_size,
            dpi_factor,
            keys,
            buttons,
            mouse_position: Position::zero(),
        };
        assert(r@.keys =~= InputSnapshot::initial(window_size, dpi_factor).keys);
        assert(r@.buttons =~= InputSnapshot::initial(window_size, dpi_factor).buttons);
        r
    }

    //
    // Queries
    //
    pub fn window_size(&self) -> (r: Size)
        ensures
            r == self@.window_size,
    {
        self.window_size
    }

    /// Scale factor, in thousandths.
    pub fn dpi_factor(&self) -> (r: i64)
        ensures
            r == self@.dpi_factor,
    {
        self.dpi_factor
    }

    fn key_state(&self, key: KeyCode) -> (r: KeyState)
        requires
            self@.wf(),
        ensures
            r == self@.key(key),
    {
        match Self::keyboard_button_to_index(key) {
            Some(index) => self.keys[index],
            None => key_released_value(),
        }
    }

    fn button_state(&self, mouse_button: MouseButton) -> (r: ButtonState)
        requires
            self@.wf(),
        ensures
            r == self@.button(mouse_button),
    {
        match Self::mouse_button_to_index(mouse_button) {
            Some(index) => self.buttons[index],
            None => button_released_value(),
        }
    }

    pub fn is_key_down(&self, key: KeyCode) -> (r: bool)
        requires
            self@.wf(),
        ensures
            r == self@.key(key).is_down,
    {
        self.key_state(key).is_down
    }

    pub fn is_key_just_down(&self, key: KeyCode) -> (r: bool)
        requires
            self@.wf(),
        ensures
            r == self@.key(key).just_down,
    {
        self.key_state(key).just_down
    }

    pub fn is_key_just_up(&self, key: KeyCode) -> (r: bool)
        requires
            self@.wf(),
        ensures
            r == self@.key(key).just_up,
    {
        self.key_state(key).just_up
    }

    pub fn mouse_position(&self) -> (r: Position)
        ensures
            r == self@.mouse_position,
    {
        self.mouse_position
    }

    pub fn is_mouse_down(&self, mouse_button: MouseButton) -> (r: bool)
        requires
            self@.wf(),
        ensures
            r == self@.button(mouse_button).is_down,
    {
        self.button_state(mouse_button).is_down
    }

    pub fn is_mouse_just_down(&self, mouse_button: MouseButton) -> (r: bool)
        requires
            self@.wf(),
        ensures
            r == self@.button(mouse_button).just_down is Some,
    {
        self.button_state(mouse_button).just_down.is_some()
    }

    pub fn mouse_just_down_position(&self, mouse_button: MouseButton) -> (r: Option<Position>)
        requires
            self@.wf(),
        ensures
            r == self@.button(mouse_button).just_down,
    {
        self.button_state(mouse_button).just_down
    }

    pub fn is_mouse_just_up(&self, mouse_button: MouseButton) -> (r: bool)
        requires
            self@.wf(),
        ensures
            r == self@.button(mouse_button).just_up is Some,
    {
        self.button_state(mouse_button).just_up.is_some()
    }

    pub fn mouse_just_up_position(&self, mouse_button: MouseButton) -> (r: Option<Position>)
        requires
            self@.wf(),
        ensures
            r == self@.button(mouse_button).just_up,
    {
        self.button_state(mouse_button).just_up
    }

    pub fn is_mouse_button_just_clicked(&self, mouse_button: MouseButton) -> (r: bool)
        requires
            self@.wf(),
        ensures
            r == self@.button(mouse_button).just_clicked is Some,
    {
        self.button_state(mouse_button).just_clicked.is_some()
    }

    pub fn mouse_button_just_clicked_position(&self, mouse_button: MouseButton) -> (r: Option<
        Position,
    >)
        requires
            self@.wf(),
        ensures
            r == self@.button(mouse_button).just_clicked,
    {
        self.button_state(mouse_button).just_clicked
    }

    pub fn mouse_button_went_down_position(&self, mouse_button: MouseButton) -> (r: Option<
        Position,
    >)
        requires
            self@.wf(),
        ensures
            r == self@.button(mouse_button).went_down_position,
    {
        self.button_state(mouse_button).went_down_position
    }

    pub fn mouse_button_went_up_position(&self, mouse_button: MouseButton) -> (r: Option<
        Position,
    >)
        requires
            self@.wf(),
        ensures
            r == self@.button(mouse_button).went_up_position,
    {
        self.button_state(mouse_button).went_up_position
    }

    pub fn is_mouse_drag_in_progress(&self, mouse_button: MouseButton) -> (r: bool)
        requires
            self@.wf(),
        ensures
            r == self@.button(mouse_button).drag_in_progress is Some,
    {
        self.button_state(mouse_button).drag_in_progress.is_some()
    }

    pub fn mouse_drag_in_progress(&self, mouse_button: MouseButton) -> (r: Option<MouseDragState>)
        requires
            self@.wf(),
        ensures
            r == self@.button(mouse_button).drag_in_progress,
    {
        self.button_state(mouse_button).drag_in_progress
    }

    pub fn is_mouse_drag_just_finished(&self, mouse_button: MouseButton) -> (r: bool)
        requires
            self@.wf(),
        ensures
            r == self@.button(mouse_button).drag_just_finished is Some,
    {
        self.button_state(mouse_button).drag_just_finished.is_some()
    }

    pub fn mouse_drag_just_finished(&self, mouse_button: MouseButton) -> (r: Option<
        MouseDragState,
    >)
        requires
            self@.wf(),
        ensures
            r == self@.button(mouse_button).drag_just_finished,
    {
        self.button_state(mouse_button).drag_just_finished
    }

    //
    // Event handlers
    //
    /// Clears every one-shot flag; a drag in progress keeps its start and
    /// total and has no motion yet in the new frame.
    pub fn end_frame(&mut self)
        requires
            old(self)@.wf(),
        ensures
            final(self)@ == old(self)@.after_frame(),
            final(self)@.wf(),
    {
        let ghost keys0 = self.keys@;
        let ghost buttons0 = self.buttons@;
        let mut i: usize = 0;
        while i < KEYBOARD_BUTTON_COUNT
            invariant
                i <= KEYBOARD_BUTTON_COUNT,
                self.keys@.len() == KEYBOARD_BUTTON_COUNT,
                keys0.len() == KEYBOARD_BUTTON_COUNT,
                forall|j: int| 0 <= j < i ==> self.keys@[j] == key_after_frame(keys0[j]),
                forall|j: int| i <= j < KEYBOARD_BUTTON_COUNT ==> self.keys@[j] == keys0[j],
                self.buttons@ == buttons0,
                self.window_size == old(self).window_size,
                self.dpi_factor == old(self).dpi_factor,
                self.mouse_position == old(self).mouse_position,
            decreases KEYBOARD_BUTTON_COUNT - i,
        {
            let is_down = self.keys[i].is_down;
            self.keys.set(i, KeyState { is_down, just_down: false, just_up: false });
            i = i + 1;
        }
        assert(self.keys@ =~= old(self)@.after_frame().keys);
        let mut i: usize = 0;
        while i < MOUSE_BUTTON_COUNT
            invariant
                i <= MOUSE_BUTTON_COUNT,
                self.buttons@.len() == MOUSE_BUTTON_COUNT,
                buttons0.len() == MOUSE_BUTTON_COUNT,
                forall|j: int| 0 <= j < i ==> self.buttons@[j] == button_after_frame(buttons0[j]),
                forall|j: int| i <= j < MOUSE_BUTTON_COUNT ==> self.buttons@[j] == buttons0[j],
                self.keys@ == old(self)@.after_frame().keys,
                self.window_size == old(self).window_size,
                self.dpi_factor == old(self).dpi_factor,
                self.mouse_position == old(self).mouse_position,
            decreases MOUSE_BUTTON_COUNT - i,
        {
            let s = self.buttons[i];
            let drag_in_progress = match s.drag_in_progress {
                Some(d) => Some(MouseDragState { previous_frame_delta: Position::zero(), ..d }),
                None => None,
            };
            self.buttons.set(
                i,
                ButtonState {
                    just_down: None,
                    just_up: None,
                    just_clicked: None,
                    drag_just_finished: None,
                    drag_in_progress,
                    ..s
                },
            );
            i = i + 1;
        }
        assert(self@.buttons =~= old(self)@.after_frame().buttons);
        assert forall|j: int| 0 <= j < self@.buttons.len() implies #[trigger] button_wf(
            self@.buttons[j],
        ) by {
            assert(button_wf(buttons0[j]));
        }
    }

    /// Scale factor, in thousandths.
    pub fn handle_hidpi_factor_changed(&mut self, dpi_factor: i64)
        requires
            old(self)@.wf(),
        ensures
            final(self)@ == old(self)@.after_scale_factor(dpi_factor),
            final(self)@.wf(),
    {
        self.dpi_factor = dpi_factor;
    }

    pub fn handle_window_size_changed(&mut self, window_size: Size)
        requires
            old(self)@.wf(),
        ensures
            final(self)@ == old(self)@.after_resize(window_size),
            final(self)@.wf(),
    {
        self.window_size = window_size;
    }

    pub fn handle_keyboard_event(&mut self, keyboard_button: KeyCode, button_state: ElementState)
        requires
            old(self)@.wf(),
        ensures
            final(self)@ == old(self)@.after_key(keyboard_button, button_state),
            final(self)@.wf(),
    {
        if let Some(kc) = Self::keyboard_button_to_index(keyboard_button) {
            let s = self.keys[kc];
            let next = match button_state {
                ElementState::Pressed => KeyState {
                    is_down: true,
                    just_down: s.just_down || !s.is_down,
                    just_up: s.just_up,
                },
                ElementState::Released => KeyState {
                    is_down: false,
                    just_down: s.just_down,
                    just_up: s.just_up || s.is_down,
                },
            };
            self.keys.set(kc, next);
        }
    }

    /// A press or release of `button` at the current pointer position. A
    /// release finishes the drag in progress, or else is a click.
    pub fn handle_mouse_button_event(&mut self, button: MouseButton, button_event: ElementState)
        requires
            old(self)@.wf(),
        ensures
            final(self)@ == old(self)@.after_button(button, button_event),
            final(self)@.wf(),
    {
        if let Some(button_index) = Self::mouse_button_to_index(button) {
            let s = self.buttons[button_index];
            let p = self.mouse_position;
            let next = match button_event {
                ElementState::Pressed => ButtonState {
                    is_down: true,
                    just_down: Some(p),
                    went_down_position: Some(p),
                    ..s
                },
                ElementState::Released => {
                    assert(button_wf(self@.buttons[button_index as int]));
                    let (just_clicked, drag_just_finished) = match s.drag_in_progress {
                        Some(in_progress) => (s.just_clicked, Some(continue_drag(in_progress, p))),
                        None => (Some(p), s.drag_just_finished),
                    };
                    ButtonState {
                        is_down: false,
                        just_up: Some(p),
                        went_up_position: Some(p),
                        just_clicked,
                        drag_just_finished,
                        drag_in_progress: None,
                        ..s
                    }
                },
            };
            self.buttons.set(button_index, next);
            proof {
                assert forall|j: int| 0 <= j < self@.buttons.len() implies #[trigger] button_wf(
                    self@.buttons[j],
                ) by {
                    if j != button_index {
                        assert(button_wf(old(self)@.buttons[j]));
                    }
                }
            }
        }
    }

    /// Moves the pointer to `position`; each held button may start or carry
    /// on a drag.
    pub fn handle_mouse_move_event(&mut self, position: Position)
        requires
            old(self)@.wf(),
            position.is_point(),
        ensures
            final(self)@ == old(self)@.after_move(position),
            final(self)@.wf(),
    {
        self.mouse_position = position;
        let ghost buttons0 = self.buttons@;
        let mut i: usize = 0;
        while i < MOUSE_BUTTON_COUNT
            invariant
                i <= MOUSE_BUTTON_COUNT,
                position.is_point(),
                self.buttons@.len() == MOUSE_BUTTON_COUNT,
                buttons0.len() == MOUSE_BUTTON_COUNT,
                forall|j: int| 0 <= j < MOUSE_BUTTON_COUNT ==> #[trigger] button_wf(buttons0[j]),
                forall|j: int|
                    0 <= j < i ==> self.buttons@[j] == button_after_move(buttons0[j], position),
                forall|j: int| i <= j < MOUSE_BUTTON_COUNT ==> self.buttons@[j] == buttons0[j],
                forall|j: int| 0 <= j < i ==> #[trigger] button_wf(self.buttons@[j]),
                self.mouse_position == position,
                self.keys@ == old(self).keys@,
                self.window_size == old(self).window_size,
                self.dpi_factor == old(self).dpi_factor,
            decreases MOUSE_BUTTON_COUNT - i,
        {
            let s = self.buttons[i];
            if s.is_down {
                assert(button_wf(buttons0[i as int]));
                let drag_in_progress = drag_for_move(&s, position);
                self.buttons.set(i, ButtonState { drag_in_progress, ..s });
            }
            i = i + 1;
        }
        assert(self@.buttons =~= old(self)@.after_move(position).buttons);
        assert forall|j: int| 0 <= j < self@.buttons.len() implies #[trigger] button_wf(
            self@.buttons[j],
        ) by {}
    }

    /// Takes one event; returns whether it asks for the window to close,
    /// which the owner of the event loop carries out.
    pub fn handle_event(&mut self, event: InputEvent) -> (close_requested: bool)
        requires
            old(self)@.wf(),
            event_admissible(event),
        ensures
            final(self)@ == old(self)@.after_event(event),
            final(self)@.wf(),
            close_requested == (event is CloseRequested),
    {
        match event {
            InputEvent::Keyboard { key, state } => {
                self.handle_keyboard_event(key, state);
                false
            },
            InputEvent::MouseButton { button, state } => {
                self.handle_mouse_button_event(button, state);
                false
            },
            InputEvent::CursorMoved(position) => {
                self.handle_mouse_move_event(position);
                false
            },
            InputEvent::Resized(size) => {
                self.handle_window_size_changed(size);
                false
            },
            InputEvent::ScaleFactorChanged(factor) => {
                self.handle_hidpi_factor_changed(factor);
                false
            },
            InputEvent::CloseRequested => true,
        }
    }

    //
    // Slot lookup
    //
    fn mouse_button_to_index(button: MouseButton) -> (r: Option<usize>)
        ensures
            button_tracked(button) ==> r == Some(button_slot(button) as usize),
            !button_tracked(button) ==> r is None,
    {
        let index: usize = match button {
            MouseButton::Left => 0,
            MouseButton::Right => 1,
            MouseButton::Middle => 2,
            MouseButton::Other(x) => (x as usize) + 3,
        };
        if index >= MOUSE_BUTTON_COUNT {
            None
        } else {
            Some(index)
        }
    }

    fn keyboard_button_to_index(key: KeyCode) -> (r: Option<usize>)
        ensures
            key_tracked(key) ==> r == Some(key_slot(key) as usize),
            !key_tracked(key) ==> r is None,
    {
        if key.0 >= KEYBOARD_BUTTON_COUNT as u32 {
            None
        } else {
            Some(key.0 as usize)
        }
    }
}

} // verus!
