//! The viewer's state between two frames, and what each message from the
//! worker and each window event does to it.

use vstd::prelude::*;

use crate::controllers::ControllerState;
use crate::probe::ControllerMessage;

verus! {

/// Whether the viewer has a device to show.
#[derive(Debug, Clone, Copy, PartialEq, Eq, Structural)]
pub enum ViewerAppStatus {
    Running,
    Reconnecting,
    NeedsReconnection,
    Undefined,
}

/// What the display layer does after a message.
#[derive(Debug, Clone, Copy, PartialEq, Eq, Structural)]
pub enum AppStep {
    /// The snapshot changed: draw the frame anew.
    Redraw,
    /// Nothing to draw: go on with the window's events.
    Carry,
    /// Leave the main loop.
    Exit,
}

/// The viewer's state between two frames.
#[derive(Debug, Clone, Copy, PartialEq, Eq, Structural)]
pub struct ViewerApp {
    /// The snapshot last shown.
    pub state: ControllerState,
    pub status: ViewerAppStatus,
    /// The window follows the pointer once the left button goes down.
    pub is_draggable: bool,
    /// The window follows the pointer.
    pub is_dragged: bool,
}

impl Default for ViewerAppStatus {
    fn default() -> (status: ViewerAppStatus)
        ensures
            status == ViewerAppStatus::Undefined,
    {
        ViewerAppStatus::Undefined
    }
}

impl ViewerAppStatus {
    /// The viewer has no device for now, and says so over its frame.
    pub open spec fn spec_is_waiting(self) -> bool {
        self == ViewerAppStatus::Reconnecting || self == ViewerAppStatus::NeedsReconnection
    }

    /// Records that a snapshot has come in.
    pub fn set_running(&mut self)
        ensures
            *final(self) == ViewerAppStatus::Running,
    {
        if *self != ViewerAppStatus::Running {
            *self = ViewerAppStatus::Running;
        }
    }

    /// Whether the viewer has no device for now.
    #[verifier::when_used_as_spec(spec_is_waiting)]
    pub fn is_waiting(self) -> (waiting: bool)
        ensures
            waiting == self.spec_is_waiting(),
    {
        self == ViewerAppStatus::Reconnecting || self == ViewerAppStatus::NeedsReconnection
    }
}

impl Default for ViewerApp {
    fn default() -> (app: ViewerApp)
        ensures
            app == (ViewerApp {
                state: ControllerState::uniform(false),
                status: ViewerAppStatus::Undefined,
                is_draggable: false,
                is_dragged: false,
            }),
    {
        ViewerApp {
            state: ControllerState::default(),
            status: ViewerAppStatus::Undefined,
            is_draggable: false,
            is_dragged: false,
        }
    }
}

impl ViewerApp {
    /// The viewer after a message from the worker, or after none came.
    ///
    /// A snapshot is kept and the viewer runs. An error, or the word to
    /// connect again, leaves the viewer in need of reconnection. The word to
    /// give up, and no message at all, leave the viewer as it is.
    pub open spec fn after_message(self, message: Option<ControllerMessage>) -> ViewerApp {
        match message {
            Some(ControllerMessage::State(state)) => ViewerApp {
                state,
                status: ViewerAppStatus::Running,
                ..self
            },
            Some(ControllerMessage::Error(_)) | Some(ControllerMessage::Reconnect) => ViewerApp {
                status: ViewerAppStatus::NeedsReconnection,
                ..self
            },
            Some(ControllerMessage::Quit) | None => self,
        }
    }

    /// What the display layer does after a message: it draws anew where the
    /// snapshot changed, and leaves its loop on the word to give up.
    pub open spec fn step_for(self, message: Option<ControllerMessage>) -> AppStep {
        match message {
            Some(ControllerMessage::State(state)) => if state == self.state {
                AppStep::Carry
            } else {
                AppStep::Redraw
            },
            Some(ControllerMessage::Quit) => AppStep::Exit,
            _ => AppStep::Carry,
        }
    }

    /// Keeps `new_state` as the snapshot last shown. Returns whether it
    /// differs from the one kept before.
    pub fn update_state(&mut self, new_state: ControllerState) -> (changed: bool)
        ensures
            changed == (old(self).state != new_state),
            *final(self) == (ViewerApp { state: new_state, ..*old(self) }),
    {
        if self.state == new_state {
            return false;
        }
        self.state = new_state;
        true
    }

    /// Takes a message from the worker, or word that none came.
    pub fn on_message(&mut self, message: Option<ControllerMessage>) -> (step: AppStep)
        ensures
            *final(self) == old(self).after_message(message),
            step == old(self).step_for(message),
    {
        match message {
            Some(ControllerMessage::State(state)) => {
                self.status.set_running();
                if self.update_state(state) {
                    AppStep::Redraw
                } else {
                    AppStep::Carry
                }
            },
            Some(ControllerMessage::Error(_)) => {
                self.status = ViewerAppStatus::NeedsReconnection;
                AppStep::Carry
            },
            Some(ControllerMessage::Reconnect) => {
                self.status = ViewerAppStatus::NeedsReconnection;
                AppStep::Carry
            },
            Some(ControllerMessage::Quit) => AppStep::Exit,
            None => AppStep::Carry,
        }
    }

    /// Begins a reconnection where the viewer needs one: the viewer is then
    /// reconnecting until a snapshot comes in. Returns whether one is due;
    /// where none is, the viewer is left as it is.
    pub fn begin_reconnection(&mut self) -> (due: bool)
        ensures
            due == (old(self).status == ViewerAppStatus::NeedsReconnection),
            *final(self) == if due {
                ViewerApp { status: ViewerAppStatus::Reconnecting, ..*old(self) }
            } else {
                *old(self)
            },
    {
        if self.status == ViewerAppStatus::NeedsReconnection {
            self.status = ViewerAppStatus::Reconnecting;
            true
        } else {
            false
        }
    }

    /// Takes note of whether the key that makes the window draggable is
    /// held. Letting go of it lets go of the window too.
    pub fn on_modifiers(&mut self, alt: bool)
        ensures
            *final(self) == (ViewerApp {
                is_draggable: alt,
                is_dragged: alt && old(self).is_dragged,
                ..*old(self)
            }),
    {
        if alt {
            self.is_draggable = true;
        } else {
            self.is_draggable = false;
            self.is_dragged = false;
        }
    }

    /// Takes note of the left button going down or up. The window follows
    /// the pointer while the button is down, where the window is draggable.
    pub fn on_left_button(&mut self, pressed: bool)
        ensures
            *final(self) == (ViewerApp {
                is_dragged: if old(self).is_draggable {
                    pressed
                } else {
                    old(self).is_dragged
                },
                ..*old(self)
            }),
    {
        if self.is_draggable {
            self.is_dragged = pressed;
        }
    }

    /// Showing the same snapshot twice draws nothing the second time.
    pub proof fn lemma_same_state_draws_once(self, state: ControllerState)
        ensures
            self.after_message(Some(ControllerMessage::State(state))).step_for(
                Some(ControllerMessage::State(state)),
            ) == AppStep::Carry,
            self.after_message(Some(ControllerMessage::State(state))).after_message(
                Some(ControllerMessage::State(state)),
            ) == self.after_message(Some(ControllerMessage::State(state))),
    {
    }
}

} // verus!
