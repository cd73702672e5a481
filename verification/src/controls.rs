//! What the user steers: the camera, the gravity switch and the request to
//! stop, driven by input events.

use vstd::prelude::*;
use crate::camera::{
    gravity_after_button,
    gravity_after_key,
    origin,
    CameraState,
    OrbitCamera,
};
use crate::input::{Action, InputEvent, Key};

verus! {

/// Everything that input events act on.
pub struct ControlState {
    pub camera: CameraState,
    /// Whether gravity is on; read by the physics each frame.
    pub gravity: bool,
    /// Whether the user has asked the engine to stop.
    pub closing: bool,
}

impl ControlState {
    /// The state at startup: the camera at rest, gravity off, no request to
    /// stop.
    pub open spec fn initial() -> ControlState {
        ControlState { camera: CameraState::initial(), gravity: false, closing: false }
    }

    /// The state after `event`.
    ///
    /// Pointer moves, buttons and scrolls go to the camera; the right button
    /// and the `G` key set gravity; pressing `Escape` and closing the window
    /// ask the engine to stop, and nothing withdraws that request.
    pub open spec fn after(self, event: InputEvent) -> ControlState {
        match event {
            InputEvent::PointerMove { x, y } => ControlState {
                camera: self.camera.after_pointer_move(x as int, y as int),
                ..self
            },
            InputEvent::Button { button, action, x, y } => ControlState {
                camera: self.camera.after_button(button, action, x as int, y as int),
                gravity: gravity_after_button(self.gravity, button, action),
                ..self
            },
            InputEvent::Scroll { dx, dy } => ControlState {
                camera: self.camera.after_scroll(dy as int),
                ..self
            },
            InputEvent::Key { key, action } => ControlState {
                gravity: gravity_after_key(self.gravity, key, action),
                closing: self.closing || (key == Key::Escape && action == Action::Press),
                ..self
            },
            InputEvent::Close => ControlState { closing: true, ..self },
        }
    }

    /// What to tell the user after `event`: the new gravity setting where the
    /// `G` key changed it, nothing otherwise.
    pub open spec fn notice(self, event: InputEvent) -> Option<bool> {
        match event {
            InputEvent::Key { key, action } => if key == Key::G && action == Action::Press {
                Some(!self.gravity)
            } else {
                None
            },
            _ => None,
        }
    }

    /// The state after each of `events` in turn.
    pub open spec fn after_all(self, events: Seq<InputEvent>) -> ControlState
        decreases events.len(),
    {
        if events.len() == 0 {
            self
        } else {
            self.after_all(events.drop_last()).after(events.last())
        }
    }

    /// What to tell the user after each of `events` in turn, in order.
    pub open spec fn notices(self, events: Seq<InputEvent>) -> Seq<bool>
        decreases events.len(),
    {
        if events.len() == 0 {
            Seq::empty()
        } else {
            let earlier = self.notices(events.drop_last());
            match self.after_all(events.drop_last()).notice(events.last()) {
                Some(enabled) => earlier.push(enabled),
                None => earlier,
            }
        }
    }
}

/// The camera, the gravity switch and the request to stop.
#[derive(Debug)]
pub struct Controls {
    camera: OrbitCamera,
    gravity: bool,
    closing: bool,
}

impl View for Controls {
    type V = ControlState;

    closed spec fn view(&self) -> ControlState {
        ControlState { camera: self.camera@, gravity: self.gravity, closing: self.closing }
    }
}

impl Controls {
    /// The controls at startup.
    pub fn new() -> (controls: Controls)
        ensures
            controls@ == ControlState::initial(),
            controls@.camera.wf(),
    {
        Controls { camera: OrbitCamera::new(), gravity: false, closing: false }
    }

    /// The camera.
    pub fn camera(&self) -> (camera: &OrbitCamera)
        ensures
            camera@ == self@.camera,
    {
        &self.camera
    }

    /// Whether gravity is on.
    pub fn gravity_enabled(&self) -> (enabled: bool)
        ensures
            enabled == self@.gravity,
    {
        self.gravity
    }

    /// Whether the user has asked the engine to stop.
    pub fn close_requested(&self) -> (closing: bool)
        ensures
            closing == self@.closing,
    {
        self.closing
    }

    /// Takes in one event. Returns the new gravity setting where the user is
    /// to be told of it.
    pub fn handle(&mut self, event: InputEvent) -> (notice: Option<bool>)
        ensures
            final(self)@ == old(self)@.after(event),
            final(self)@.camera.wf(),
            notice == old(self)@.notice(event),
    {
        match event {
            InputEvent::PointerMove { x, y } => {
                self.camera.on_pointer_move(x, y);
                None
            },
            InputEvent::Button { button, action, x, y } => {
                self.camera.on_button(button, action, x, y, &mut self.gravity);
                None
            },
            InputEvent::Scroll { dx, dy } => {
                self.camera.on_scroll(dy);
                None
            },
            InputEvent::Key { key, action } => {
                proof {
                    use_type_invariant(&self.camera);
                }
                if key == Key::Escape && action == Action::Press {
                    self.closing = true;
                }
                OrbitCamera::on_key(key, action, &mut self.gravity)
            },
            InputEvent::Close => {
                proof {
                    use_type_invariant(&self.camera);
                }
                self.closing = true;
                None
            },
        }
    }

    /// Takes in the events of one poll, in arrival order. Returns the gravity
    /// settings that the user is to be told of, in order.
    pub fn handle_all(&mut self, events: &[InputEvent]) -> (notices: Vec<bool>)
        ensures
            final(self)@ == old(self)@.after_all(events@),
            final(self)@.camera.wf(),
            notices@ == old(self)@.notices(events@),
    {
        let mut notices: Vec<bool> = Vec::new();
        proof {
            use_type_invariant(&self.camera);
        }
        let mut taken: usize = 0;
        while taken < events.len()
            invariant
                taken <= events@.len(),
                self@ == old(self)@.after_all(events@.take(taken as int)),
                self@.camera.wf(),
                notices@ == old(self)@.notices(events@.take(taken as int)),
            decreases events@.len() - taken,
        {
            assert(events@.take(taken + 1).drop_last() == events@.take(taken as int));
            match self.handle(events[taken]) {
                Some(enabled) => {
                    notices.push(enabled);
                },
                None => {},
            }
            taken += 1;
        }
        assert(events@.take(events@.len() as int) == events@);
        notices
    }
}

/// No event takes the camera out of bounds.
pub proof fn lemma_event_keeps_bounds(state: ControlState, event: InputEvent)
    requires
        state.camera.wf(),
    ensures
        state.after(event).camera.wf(),
{
}

/// No sequence of events takes the camera out of bounds: the elevation stays
/// more than the margin away from the poles, the radius within its limits,
/// the azimuth within one turn.
pub proof fn lemma_events_keep_bounds(state: ControlState, events: Seq<InputEvent>)
    requires
        state.camera.wf(),
    ensures
        state.after_all(events).camera.wf(),
    decreases events.len(),
{
    if events.len() > 0 {
        lemma_events_keep_bounds(state, events.drop_last());
        lemma_event_keeps_bounds(state.after_all(events.drop_last()), events.last());
    }
}

/// The focus is pinned: whatever buttons are pressed and wherever the pointer
/// is dragged, the camera goes on looking at the origin.
pub proof fn lemma_focus_stays_pinned(state: ControlState, events: Seq<InputEvent>)
    requires
        state.camera.focus == origin(),
    ensures
        state.after_all(events).camera.focus == origin(),
    decreases events.len(),
{
    if events.len() > 0 {
        lemma_focus_stays_pinned(state, events.drop_last());
    }
}

/// A request to stop stands: no later event withdraws it.
pub proof fn lemma_close_request_stands(state: ControlState, events: Seq<InputEvent>)
    requires
        state.closing,
    ensures
        state.after_all(events).closing,
    decreases events.len(),
{
    if events.len() > 0 {
        lemma_close_request_stands(state, events.drop_last());
    }
}

} // verus!
