//! A probe without a device: its worker reports snapshots drawn at random.

use crossbeam_channel::Receiver;
use crossbeam_channel::Sender;
use vstd::prelude::*;

use crate::config::ViewerOptions;
use crate::controllers::ControllerState;
use crate::controllers::ControllerType;
use crate::error::ViewerResult;
use crate::probe::channel_capacity;
use crate::probe::deliver;
use crate::probe::message_channel;
use crate::probe::ControllerMessage;
use crate::probe::ControllerProbe;
use crate::probe::WorkerState;
use crate::probe::CHANNEL_CAPACITY;

verus! {

/// Time between two snapshots of the worker, in microseconds.
pub const DUMMY_PERIOD_MICROS: u64 = 8700;

/// A probe that stands for a canonical device which is always there.
#[derive(Debug)]
pub struct DummyControllerProbe {
    worker: WorkerState,
}

impl DummyControllerProbe {
    /// The probe, with no worker out. There is nothing to discover,
    /// whatever the options say.
    pub fn new(_config: &ViewerOptions) -> (probe: ViewerResult<DummyControllerProbe>)
        ensures
            probe matches Ok(made) && made.worker() == WorkerState::Absent,
    {
        Ok(DummyControllerProbe { worker: WorkerState::Absent })
    }
}

impl ControllerProbe for DummyControllerProbe {
    type Worker = DummyWorker;

    type Device = ();

    open spec fn family(&self) -> ControllerType {
        ControllerType::B0XX
    }

    open spec fn device(&self) -> () {
        ()
    }

    closed spec fn worker(&self) -> WorkerState {
        self.worker
    }

    open spec fn device_present(&self) -> bool {
        true
    }

    fn controller_type(&self) -> (family: ControllerType) {
        ControllerType::B0XX
    }

    fn is_connected(&self) -> (connected: bool) {
        self.worker == WorkerState::Running
    }

    fn connect(&mut self) -> (link: (bool, DummyWorker, Receiver<ControllerMessage>))
        ensures
            link.1.capacity() == Some(CHANNEL_CAPACITY as nat),
    {
        let (tx, rx) = message_channel();
        let join = self.worker.is_out();
        self.worker = WorkerState::Running;
        (join, DummyWorker { tx }, rx)
    }

    fn worker_ended(&mut self) {
        self.worker = self.worker.ended();
    }

    fn disconnect(&mut self) -> (join: bool) {
        let join = self.worker.is_out();
        self.worker = WorkerState::Absent;
        join
    }
}

/// The worker of a dummy probe: the sending end of its channel.
pub struct DummyWorker {
    tx: Sender<ControllerMessage>,
}

impl DummyWorker {
    /// The number of messages that the worker's channel holds at most.
    pub closed spec fn capacity(&self) -> Option<nat> {
        channel_capacity(self.tx)
    }

    /// Hands the display layer a snapshot drawn at random. Returns whether
    /// the display layer still listens.
    pub fn emit(&self) -> (listening: bool) {
        deliver(&self.tx, Some(ControllerMessage::State(ControllerState::random())))
    }
}

} // verus!
