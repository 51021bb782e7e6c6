//! The polling-backed probe: which pad it binds to, and what its worker
//! makes of each sample of the pad.

use crossbeam_channel::Receiver;
use crossbeam_channel::Sender;
use vstd::prelude::*;

use crate::config::ViewerOptions;
use crate::controllers::pad::GamepadState;
use crate::controllers::ControllerType;
use crate::error::ViewerError;
use crate::probe::channel_capacity;
use crate::probe::deliver;
use crate::probe::message_channel;
use crate::probe::ControllerMessage;
use crate::probe::ControllerProbe;
use crate::probe::WorkerState;
use crate::probe::CHANNEL_CAPACITY;

verus! {

/// `at` is the first of `names` that is the name of a known family.
pub open spec fn first_known(names: Seq<String>, at: int) -> bool {
    &&& 0 <= at < names.len()
    &&& ControllerType::of_name(names[at]@) is Ok
    &&& forall|before: int|
        0 <= before < at ==> ControllerType::of_name((#[trigger] names[before])@) is Err
}

/// None of `names` is the name of a known family.
pub open spec fn none_known(names: Seq<String>) -> bool {
    forall|at: int| 0 <= at < names.len() ==> ControllerType::of_name((#[trigger] names[at])@) is Err
}

/// What the worker tells the display layer about one sample: the normalized
/// state of a pad that is there, and to connect again for a pad that is not.
pub open spec fn sample_message(
    family: ControllerType,
    sample: Option<GamepadState>,
) -> ControllerMessage {
    match sample {
        Some(pad) => ControllerMessage::State(family.pad_state(pad)),
        None => ControllerMessage::Reconnect,
    }
}

/// What the worker tells the display layer about one sample.
pub fn message_for_sample(family: ControllerType, sample: Option<&GamepadState>) -> (message:
    ControllerMessage)
    ensures
        message == sample_message(
            family,
            match sample {
                Some(pad) => Some(*pad),
                None => None,
            },
        ),
{
    match sample {
        Some(pad) => ControllerMessage::State(family.controller_state_from_report(pad)),
        None => ControllerMessage::Reconnect,
    }
}

/// Whether the worker samples the pad again: as long as the pad is there
/// and the display layer listens.
pub fn samples_again(present: bool, listening: bool) -> (again: bool)
    ensures
        again == (present && listening),
{
    present && listening
}

/// A probe bound to one pad of the platform's joystick interface.
#[derive(Debug, Clone)]
pub struct GilrsControllerProbe {
    gamepad: usize,
    controller_type: ControllerType,
    worker: WorkerState,
    present: bool,
}

impl GilrsControllerProbe {
    /// The place, among the pads given to discovery, of the pad the probe is
    /// bound to.
    pub open spec fn pad(&self) -> int {
        self.device() as int
    }

    /// Binds a probe to the first of the pads named `names` that discovery
    /// knows. The options have no say in it.
    pub fn new(_config: &ViewerOptions, names: &Vec<String>) -> (probe: Result<
        GilrsControllerProbe,
        ViewerError,
    >)
        ensures
            match probe {
                Ok(found) => {
                    &&& first_known(names@, found.pad())
                    &&& Ok::<ControllerType, ViewerError>(found.family()) == ControllerType::of_name(
                        names@[found.pad()]@,
                    )
                    &&& found.worker() == WorkerState::Absent
                    &&& found.device_present()
                },
                Err(e) => e == ViewerError::ControllerNotFound && none_known(names@),
            },
    {
        GilrsControllerProbe::discover(names)
    }

    /// Binds a probe to the first pad whose name is the name of a known
    /// family. No worker is started. Where no pad has such a name the result
    /// is `ControllerNotFound`.
    pub fn discover(names: &Vec<String>) -> (probe: Result<GilrsControllerProbe, ViewerError>)
        ensures
            match probe {
                Ok(found) => {
                    &&& first_known(names@, found.pad())
                    &&& Ok::<ControllerType, ViewerError>(found.family()) == ControllerType::of_name(
                        names@[found.pad()]@,
                    )
                    &&& found.worker() == WorkerState::Absent
                    &&& found.device_present()
                },
                Err(e) => e == ViewerError::ControllerNotFound && none_known(names@),
            },
    {
        let mut at: usize = 0;
        while at < names.len()
            invariant
                at <= names.len(),
                forall|before: int|
                    0 <= before < at ==> ControllerType::of_name((#[trigger] names@[before])@) is Err,
            decreases names.len() - at,
        {
            match ControllerType::from_str(names[at].as_str()) {
                Ok(controller_type) => {
                    return Ok(
                        GilrsControllerProbe {
                            gamepad: at,
                            controller_type,
                            worker: WorkerState::Absent,
                            present: true,
                        },
                    );
                },
                Err(_) => {},
            }
            at += 1;
        }
        Err(ViewerError::ControllerNotFound)
    }

    /// The place, among the pads given to discovery, of the pad the probe is
    /// bound to.
    pub fn gamepad_index(&self) -> (at: usize)
        ensures
            at == self.pad(),
    {
        self.gamepad
    }

    /// Takes note of whether the pad was there when the worker last looked.
    pub fn set_device_present(&mut self, present: bool)
        ensures
            final(self).device_present() == present,
            final(self).worker() == old(self).worker(),
            final(self).family() == old(self).family(),
            final(self).pad() == old(self).pad(),
    {
        self.present = present;
    }
}

impl ControllerProbe for GilrsControllerProbe {
    type Worker = PadWorker;

    type Device = usize;

    closed spec fn family(&self) -> ControllerType {
        self.controller_type
    }

    closed spec fn device(&self) -> usize {
        self.gamepad
    }

    closed spec fn worker(&self) -> WorkerState {
        self.worker
    }

    closed spec fn device_present(&self) -> bool {
        self.present
    }

    fn controller_type(&self) -> (family: ControllerType) {
        self.controller_type
    }

    fn is_connected(&self) -> (connected: bool) {
        self.worker == WorkerState::Running && self.present
    }

    /// The worker reads the pad as a pad of the probe's family.
    fn connect(&mut self) -> (link: (bool, PadWorker, Receiver<ControllerMessage>))
        ensures
            link.1.family() == old(self).family(),
            link.1.capacity() == Some(CHANNEL_CAPACITY as nat),
    {
        let (tx, rx) = message_channel();
        let join = self.worker.is_out();
        self.worker = WorkerState::Running;
        (join, PadWorker { controller_type: self.controller_type, tx }, rx)
    }

    fn worker_ended(&mut self) {
        self.worker = self.worker.ended();
    }

    fn disconnect(&mut self) -> (join: bool) {
        let join = self.worker.is_out();
        self.worker = WorkerState::Absent;
        join
    }
}

/// The worker of a polling probe: the family it reads its pad as, and the
/// sending end of its channel.
pub struct PadWorker {
    controller_type: ControllerType,
    tx: Sender<ControllerMessage>,
}

impl PadWorker {
    /// The family the worker reads its pad as.
    pub closed spec fn family(&self) -> ControllerType {
        self.controller_type
    }

    /// The number of messages that the worker's channel holds at most.
    pub closed spec fn capacity(&self) -> Option<nat> {
        channel_capacity(self.tx)
    }

    /// Takes one sample of the pad, or word that the pad is gone, and hands
    /// the display layer what `sample_message` says. Returns whether to
    /// sample again: never once the pad is gone, and never once the display
    /// layer no longer listens.
    pub fn poll(&self, sample: Option<&GamepadState>) -> (again: bool)
        ensures
            sample is None ==> !again,
    {
        let present = sample.is_some();
        let message = message_for_sample(self.controller_type, sample);
        let listening = deliver(&self.tx, Some(message));
        samples_again(present, listening)
    }
}

} // verus!
