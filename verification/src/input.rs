//! The pointer tracker: what the host remembers of the pointer between
//! frames, and how each input event changes it.

use vstd::prelude::*;
use crate::constants::ShaderConstants;
use crate::scalar::Scalar;

verus! {

/// Pointer state owned by the event-handling turn.
///
/// `mouse_left_clicked` is a one-shot flag: a press sets it, and the frame
/// that reports it clears it.
#[derive(Clone, Copy, Debug, PartialEq, Eq, Structural)]
pub struct InputState {
    pub cursor_x: Scalar,
    pub cursor_y: Scalar,
    pub drag_start_x: Scalar,
    pub drag_start_y: Scalar,
    pub drag_end_x: Scalar,
    pub drag_end_y: Scalar,
    pub mouse_left_pressed: bool,
    pub mouse_left_clicked: bool,
}

/// What can happen to the tracker.
#[derive(Clone, Copy, Debug, PartialEq, Eq, Structural)]
pub enum InputEvent {
    /// The primary button went down (`pressed`) or up.
    Button { pressed: bool },
    /// The pointer moved to a position in window pixels.
    CursorMoved { x: Scalar, y: Scalar },
    /// A frame was drawn from the current state.
    Frame,
}

impl InputState {
    /// The state at start: pointer at the origin, nothing held, no click.
    pub open spec fn initial() -> InputState {
        InputState {
            cursor_x: Scalar::zero(),
            cursor_y: Scalar::zero(),
            drag_start_x: Scalar::zero(),
            drag_start_y: Scalar::zero(),
            drag_end_x: Scalar::zero(),
            drag_end_y: Scalar::zero(),
            mouse_left_pressed: false,
            mouse_left_clicked: false,
        }
    }

    /// The state after the primary button changed. A press anchors the drag
    /// at the pointer and raises the one-shot flag; a release only lowers
    /// `mouse_left_pressed` and keeps the drag where it was.
    pub open spec fn after_button(self, pressed: bool) -> InputState {
        if pressed {
            InputState {
                drag_start_x: self.cursor_x,
                drag_start_y: self.cursor_y,
                drag_end_x: self.cursor_x,
                drag_end_y: self.cursor_y,
                mouse_left_pressed: true,
                mouse_left_clicked: true,
                ..self
            }
        } else {
            InputState { mouse_left_pressed: false, ..self }
        }
    }

    /// The state after the pointer moved: the position is recorded, and
    /// while the button is held the drag follows it.
    pub open spec fn after_cursor_moved(self, x: Scalar, y: Scalar) -> InputState {
        if self.mouse_left_pressed {
            InputState { cursor_x: x, cursor_y: y, drag_end_x: x, drag_end_y: y, ..self }
        } else {
            InputState { cursor_x: x, cursor_y: y, ..self }
        }
    }

    /// The state after a frame was drawn: the one-shot flag is down.
    pub open spec fn after_frame(self) -> InputState {
        InputState { mouse_left_clicked: false, ..self }
    }

    /// The state after one event.
    pub open spec fn after(self, event: InputEvent) -> InputState {
        match event {
            InputEvent::Button { pressed } => self.after_button(pressed),
            InputEvent::CursorMoved { x, y } => self.after_cursor_moved(x, y),
            InputEvent::Frame => self.after_frame(),
        }
    }

    /// The block that a frame drawn now would carry.
    pub open spec fn constants_spec(&self, width: u32, height: u32, time: Scalar) -> ShaderConstants {
        ShaderConstants {
            width,
            height,
            time,
            cursor_x: self.cursor_x,
            cursor_y: self.cursor_y,
            drag_start_x: self.drag_start_x,
            drag_start_y: self.drag_start_y,
            drag_end_x: self.drag_end_x,
            drag_end_y: self.drag_end_y,
            mouse_left_pressed: self.mouse_left_pressed,
            mouse_left_clicked: self.mouse_left_clicked,
        }
    }

    pub fn new() -> (r: InputState)
        ensures
            r == InputState::initial(),
    {
        InputState {
            cursor_x: Scalar::zero(),
            cursor_y: Scalar::zero(),
            drag_start_x: Scalar::zero(),
            drag_start_y: Scalar::zero(),
            drag_end_x: Scalar::zero(),
            drag_end_y: Scalar::zero(),
            mouse_left_pressed: false,
            mouse_left_clicked: false,
        }
    }

    /// Records a change of the primary button.
    pub fn button(&mut self, pressed: bool)
        ensures
            *final(self) == old(self).after_button(pressed),
    {
        self.mouse_left_pressed = pressed;
        if pressed {
            self.drag_start_x = self.cursor_x;
            self.drag_start_y = self.cursor_y;
            self.drag_end_x = self.cursor_x;
            self.drag_end_y = self.cursor_y;
            self.mouse_left_clicked = true;
        }
    }

    /// Records a pointer move.
    pub fn cursor_moved(&mut self, x: Scalar, y: Scalar)
        ensures
            *final(self) == old(self).after_cursor_moved(x, y),
    {
        self.cursor_x = x;
        self.cursor_y = y;
        if self.mouse_left_pressed {
            self.drag_end_x = x;
            self.drag_end_y = y;
        }
    }

    /// The block for a frame of the given size and time, from the state as
    /// it stands. The state is not changed.
    #[verifier::when_used_as_spec(constants_spec)]
    pub fn constants(&self, width: u32, height: u32, time: Scalar) -> (r: ShaderConstants)
        ensures
            r == self.constants_spec(width, height, time),
    {
        ShaderConstants {
            width,
            height,
            time,
            cursor_x: self.cursor_x,
            cursor_y: self.cursor_y,
            drag_start_x: self.drag_start_x,
            drag_start_y: self.drag_start_y,
            drag_end_x: self.drag_end_x,
            drag_end_y: self.drag_end_y,
            mouse_left_pressed: self.mouse_left_pressed,
            mouse_left_clicked: self.mouse_left_clicked,
        }
    }

    /// Takes the block for one frame and lowers the one-shot flag, so that
    /// the next frame reports a click only after another press.
    pub fn frame(&mut self, width: u32, height: u32, time: Scalar) -> (r: ShaderConstants)
        ensures
            r == old(self).constants(width, height, time),
            *final(self) == old(self).after_frame(),
    {
        let r = self.constants(width, height, time);
        self.mouse_left_clicked = false;
        r
    }

    /// Applies one event.
    pub fn apply(&mut self, event: InputEvent)
        ensures
            *final(self) == old(self).after(event),
    {
        match event {
            InputEvent::Button { pressed } => self.button(pressed),
            InputEvent::CursorMoved { x, y } => self.cursor_moved(x, y),
            InputEvent::Frame => {
                self.mouse_left_clicked = false;
            },
        }
    }
}

/// Whether the event is a press of the primary button.
pub open spec fn is_press(event: InputEvent) -> bool {
    event == (InputEvent::Button { pressed: true })
}

/// Whether the event is a drawn frame.
pub open spec fn is_frame(event: InputEvent) -> bool {
    event == InputEvent::Frame
}

/// Whether no frame was drawn at the positions `from..to` of `events`.
pub open spec fn no_frame_between(events: Seq<InputEvent>, from: int, to: int) -> bool {
    forall|k: int| from <= k < to ==> !is_frame(#[trigger] events[k])
}

/// Whether a click is still waiting to be reported after `events`: either
/// one was waiting before them and no frame was drawn, or the button was
/// pressed and no frame was drawn since.
pub open spec fn click_pending(before: bool, events: Seq<InputEvent>) -> bool {
    ||| before && no_frame_between(events, 0, events.len() as int)
    ||| exists|j: int|
        0 <= j < events.len() && is_press(#[trigger] events[j]) && no_frame_between(
            events,
            j + 1,
            events.len() as int,
        )
}

/// How many presses `events` holds.
pub open spec fn press_count(events: Seq<InputEvent>) -> nat
    decreases events.len(),
{
    if events.len() == 0 {
        0
    } else {
        press_count(events.drop_last()) + if is_press(events.last()) {
            1nat
        } else {
            0nat
        }
    }
}

impl InputState {
    /// The state after a run of events, first to last.
    pub open spec fn after_all(self, events: Seq<InputEvent>) -> InputState
        decreases events.len(),
    {
        if events.len() == 0 {
            self
        } else {
            self.after_all(events.drop_last()).after(events.last())
        }
    }

    /// Whether event `index` of `events` is a frame that reports a click:
    /// a frame reports the flag as it stands when the frame is drawn.
    pub open spec fn frame_reports_click(self, events: Seq<InputEvent>, index: int) -> bool {
        &&& 0 <= index < events.len()
        &&& is_frame(events[index])
        &&& self.after_all(events.take(index)).mouse_left_clicked
    }

    /// How many frames of `events` report a click.
    pub open spec fn clicked_frame_count(self, events: Seq<InputEvent>) -> nat
        decreases events.len(),
    {
        if events.len() == 0 {
            0
        } else {
            self.clicked_frame_count(events.drop_last()) + if self.frame_reports_click(
                events,
                events.len() - 1,
            ) {
                1nat
            } else {
                0nat
            }
        }
    }
}

/// A press, wherever the pointer is, anchors both ends of the drag at the
/// pointer, holds the button and raises the one-shot flag; nothing else
/// changes.
pub proof fn lemma_press_anchors_drag(s: InputState)
    ensures
        ({
            let p = s.after_button(true);
            &&& p.drag_start_x == s.cursor_x
            &&& p.drag_start_y == s.cursor_y
            &&& p.drag_end_x == s.cursor_x
            &&& p.drag_end_y == s.cursor_y
            &&& p.cursor_x == s.cursor_x
            &&& p.cursor_y == s.cursor_y
            &&& p.mouse_left_pressed
            &&& p.mouse_left_clicked
        }),
{
}

/// After any run of events the one-shot flag is up exactly when a click is
/// pending: a press happened and no frame was drawn since.
pub proof fn lemma_clicked_iff_pending(s: InputState, events: Seq<InputEvent>)
    ensures
        s.after_all(events).mouse_left_clicked == click_pending(s.mouse_left_clicked, events),
    decreases events.len(),
{
    let n = events.len() as int;
    if n == 0 {
    } else {
        let init = events.drop_last();
        let last = events.last();
        lemma_clicked_iff_pending(s, init);
        assert forall|k: int| 0 <= k < n - 1 implies init[k] == events[k] by {}
        if is_frame(last) {
            assert(is_frame(events[n - 1]));
            assert(!click_pending(s.mouse_left_clicked, events));
        } else if is_press(last) {
            assert(is_press(events[n - 1]));
            assert(no_frame_between(events, n, n));
            assert(click_pending(s.mouse_left_clicked, events));
        } else {
            assert(s.after_all(events).mouse_left_clicked == s.after_all(
                init,
            ).mouse_left_clicked);
            if click_pending(s.mouse_left_clicked, init) {
                if s.mouse_left_clicked && no_frame_between(init, 0, n - 1) {
                    assert(no_frame_between(events, 0, n));
                } else {
                    let j = choose|j: int|
                        0 <= j < init.len() && is_press(#[trigger] init[j]) && no_frame_between(
                            init,
                            j + 1,
                            init.len() as int,
                        );
                    assert(is_press(events[j]));
                    assert(no_frame_between(events, j + 1, n));
                }
            }
            if click_pending(s.mouse_left_clicked, events) {
                if s.mouse_left_clicked && no_frame_between(events, 0, n) {
                    assert(no_frame_between(init, 0, n - 1));
                } else {
                    let j = choose|j: int|
                        0 <= j < events.len() && is_press(#[trigger] events[j])
                            && no_frame_between(events, j + 1, events.len() as int);
                    assert(j < n - 1);
                    assert(is_press(init[j]));
                    assert(no_frame_between(init, j + 1, n - 1));
                }
            }
        }
    }
}

/// A frame reports a click exactly when a press came before it with no
/// frame in between (or a click was waiting at the start and this is the
/// first frame). Every other frame reports none.
pub proof fn lemma_frame_reports_pending_click(s: InputState, events: Seq<InputEvent>, index: int)
    requires
        0 <= index < events.len(),
        is_frame(events[index]),
    ensures
        s.frame_reports_click(events, index) == click_pending(
            s.mouse_left_clicked,
            events.take(index),
        ),
{
    lemma_clicked_iff_pending(s, events.take(index));
}

/// After a press the click is reported by the first frame that follows and,
/// unless the button is pressed again, by no later one.
pub proof fn lemma_press_clicks_one_frame(s: InputState, events: Seq<InputEvent>, index: int)
    requires
        0 <= index < events.len(),
        is_frame(events[index]),
        forall|k: int| 0 <= k < index ==> !is_press(#[trigger] events[k]),
    ensures
        s.after_button(true).frame_reports_click(events, index) == no_frame_between(
            events,
            0,
            index,
        ),
{
    let p = s.after_button(true);
    let before = events.take(index);
    lemma_clicked_iff_pending(p, before);
    assert forall|k: int| 0 <= k < index implies before[k] == events[k] by {}
    if no_frame_between(events, 0, index) {
        assert(no_frame_between(before, 0, before.len() as int));
    }
    if click_pending(true, before) {
        assert(no_frame_between(before, 0, before.len() as int));
        assert forall|k: int| 0 <= k < index implies !is_frame(#[trigger] events[k]) by {
            assert(!is_frame(before[k]));
        }
    }
}

/// Over any run of events, the frames that report a click are at most as
/// many as the presses; a click still pending at the end counts against the
/// presses too, and one pending at the start counts for them.
pub proof fn lemma_clicked_frames_bounded_by_presses(s: InputState, events: Seq<InputEvent>)
    ensures
        s.clicked_frame_count(events) + (if s.after_all(events).mouse_left_clicked {
            1nat
        } else {
            0nat
        }) <= press_count(events) + (if s.mouse_left_clicked {
            1nat
        } else {
            0nat
        }),
    decreases events.len(),
{
    if events.len() > 0 {
        let init = events.drop_last();
        lemma_clicked_frames_bounded_by_presses(s, init);
        assert(events.take(events.len() - 1) =~= init);
    }
}

} // verus!
