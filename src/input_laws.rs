//! Facts about sequences of input events, stated over the snapshot model.
use vstd::prelude::*;
use crate::geometry::Position;
use crate::input_model::{
    button_tracked, drag_continued, key_released, key_tracked, ElementState, InputEvent,
    InputSnapshot, KeyCode, MouseButton, MIN_DRAG_DISTANCE_SQUARED,
};

verus! {

/// Pressing a key that is up makes it down and just down; after the frame
/// boundary it is no longer just down but still down.
pub proof fn lemma_key_press_then_end_frame(s: InputSnapshot, key: KeyCode)
    requires
        s.wf(),
        key_tracked(key),
        !s.key(key).is_down,
    ensures
        s.after_key(key, ElementState::Pressed).key(key).is_down,
        s.after_key(key, ElementState::Pressed).key(key).just_down,
        !s.after_key(key, ElementState::Pressed).after_frame().key(key).just_down,
        s.after_key(key, ElementState::Pressed).after_frame().key(key).is_down,
{
}

/// A key that is down stays down through any event but its own release, and
/// through a frame boundary.
pub proof fn lemma_key_held_until_release(s: InputSnapshot, key: KeyCode, event: InputEvent)
    requires
        s.wf(),
        s.key(key).is_down,
        event != (InputEvent::Keyboard { key, state: ElementState::Released }),
    ensures
        s.after_event(event).key(key).is_down,
        s.after_frame().key(key).is_down,
{
    if let InputEvent::Keyboard { key: k, state } = event {
        if key_tracked(k) && k.0 == key.0 {
            assert(k == key);
        }
    }
}

/// A key code beyond the keyboard slots changes nothing and always reads as
/// released.
pub proof fn lemma_untracked_key_ignored(s: InputSnapshot, key: KeyCode, state: ElementState)
    requires
        s.wf(),
        !key_tracked(key),
    ensures
        s.after_key(key, state) == s,
        s.key(key) == key_released(),
        s.after_frame().key(key) == key_released(),
{
}

/// A second frame boundary with no event between changes nothing; after
/// either, every down flag is as it was and no one-shot flag is set.
pub proof fn lemma_end_frame_twice(s: InputSnapshot)
    requires
        s.wf(),
    ensures
        s.after_frame().after_frame() == s.after_frame(),
        forall|k: KeyCode| {
            let t = #[trigger] s.after_frame().key(k);
            &&& t.is_down == s.key(k).is_down
            &&& !t.just_down
            &&& !t.just_up
        },
        forall|b: MouseButton| {
            let t = #[trigger] s.after_frame().button(b);
            &&& t.is_down == s.button(b).is_down
            &&& t.just_down is None
            &&& t.just_up is None
            &&& t.just_clicked is None
            &&& t.drag_just_finished is None
        },
{
    let t = s.after_frame();
    assert(t.after_frame().keys =~= t.keys);
    assert(t.after_frame().buttons =~= t.buttons);
}

/// A press and a release of a button with no motion between is a click at the
/// pointer, and finishes no drag.
pub proof fn lemma_click_without_motion(s: InputSnapshot, button: MouseButton)
    requires
        s.wf(),
        button_tracked(button),
        s.button(button).drag_in_progress is None,
        s.button(button).drag_just_finished is None,
    ensures
        ({
            let t = s.after_button(button, ElementState::Pressed).after_button(
                button,
                ElementState::Released,
            ).button(button);
            &&& t.just_clicked == Some(s.mouse_position)
            &&& t.drag_just_finished is None
            &&& t.drag_in_progress is None
        }),
{
}

/// Motion no farther than the drag threshold from where a button went down
/// starts no drag.
pub proof fn lemma_small_motion_no_drag(s: InputSnapshot, button: MouseButton, p: Position)
    requires
        s.wf(),
        button_tracked(button),
        s.button(button).drag_in_progress is None,
        p.is_point(),
        s.mouse_position.distance_squared(p) <= MIN_DRAG_DISTANCE_SQUARED,
    ensures
        s.after_button(button, ElementState::Pressed).after_move(p).button(
            button,
        ).drag_in_progress is None,
{
}

/// Motion farther than the drag threshold from where a button went down starts
/// a drag that begins there and ends at the pointer.
pub proof fn lemma_large_motion_starts_drag(s: InputSnapshot, button: MouseButton, p: Position)
    requires
        s.wf(),
        button_tracked(button),
        s.button(button).drag_in_progress is None,
        p.is_point(),
        s.mouse_position.distance_squared(p) > MIN_DRAG_DISTANCE_SQUARED,
    ensures
        ({
            let d = s.after_button(button, ElementState::Pressed).after_move(p).button(
                button,
            ).drag_in_progress;
            &&& d is Some
            &&& d->0.begin_position == s.mouse_position
            &&& d->0.end_position == p
            &&& d->0.accumulated_frame_delta == p.minus(s.mouse_position)
        }),
{
}

/// A release either finishes the drag in progress or is a click, never both
/// and never neither; no drag is in progress afterwards.
pub proof fn lemma_release_finishes_drag_or_clicks(s: InputSnapshot, button: MouseButton)
    requires
        s.wf(),
        button_tracked(button),
    ensures
        ({
            let before = s.button(button);
            let after = s.after_button(button, ElementState::Released).button(button);
            &&& after.drag_in_progress is None
            &&& !after.is_down
            &&& match before.drag_in_progress {
                Some(d) => {
                    &&& after.drag_just_finished == Some(drag_continued(d, s.mouse_position))
                    &&& after.just_clicked == before.just_clicked
                },
                None => {
                    &&& after.just_clicked == Some(s.mouse_position)
                    &&& after.drag_just_finished == before.drag_just_finished
                },
            }
        }),
{
}

/// A finished drag runs from where it began to the release position, and its
/// total is the whole travel between them.
pub proof fn lemma_finished_drag_total(s: InputSnapshot, button: MouseButton)
    requires
        s.wf(),
        button_tracked(button),
        s.button(button).drag_in_progress is Some,
    ensures
        ({
            let d = s.button(button).drag_in_progress->0;
            let f = s.after_button(button, ElementState::Released).button(
                button,
            ).drag_just_finished;
            &&& f is Some
            &&& f->0.begin_position == d.begin_position
            &&& f->0.end_position == s.mouse_position
            &&& f->0.accumulated_frame_delta == s.mouse_position.minus(d.begin_position)
            &&& f->0.accumulated_frame_delta.x == s.mouse_position.x - d.begin_position.x
            &&& f->0.accumulated_frame_delta.y == s.mouse_position.y - d.begin_position.y
        }),
{
    let i = crate::input_model::button_slot(button);
    assert(crate::input_model::button_wf(s.buttons[i]));
}

} // verus!
