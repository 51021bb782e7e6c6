//! Probes: discovery of a device, and the decisions of the worker that
//! reads it.
//!
//! A probe is bound to a device at discovery and starts no I/O by itself.
//! `connect` hands out a worker and the receiving end of its channel; the
//! caller puts the worker on a thread of its own and carries out what the
//! worker asks for.

use backoff::backoff::Backoff;
use crossbeam_channel::Receiver;
use crossbeam_channel::Sender;
use std::time::Duration;
use vstd::prelude::*;

use crate::controllers::ControllerState;
use crate::controllers::ControllerType;
use crate::error::ViewerError;

pub mod allow_list;
pub mod dummy;
pub mod frame_reader;
pub mod gilrs;
pub mod serial;

verus! {

/// The sending end of a channel.
#[verifier::external_type_specification]
#[verifier::external_body]
#[verifier::reject_recursive_types(T)]
pub struct ExSender<T>(crossbeam_channel::Sender<T>);

/// The receiving end of a channel.
#[verifier::external_type_specification]
#[verifier::external_body]
#[verifier::reject_recursive_types(T)]
pub struct ExReceiver<T>(crossbeam_channel::Receiver<T>);

/// A source of growing, randomized delays.
#[verifier::external_type_specification]
#[verifier::external_body]
#[verifier::reject_recursive_types(C)]
pub struct ExExponentialBackoff<C>(backoff::exponential::ExponentialBackoff<C>);

/// The clock of the machine.
#[verifier::external_type_specification]
#[verifier::external_body]
pub struct ExSystemClock(backoff::SystemClock);

/// What a worker hands to the display layer.
#[derive(Debug, Clone, PartialEq, Eq)]
pub enum ControllerMessage {
    /// A freshly decoded snapshot.
    State(ControllerState),
    /// A failure of the port itself.
    Error(ViewerError),
    /// The device went away for now: connect again.
    Reconnect,
    /// The device cannot be read: give up.
    Quit,
}

/// Number of messages the channel of a worker holds. With one slot a worker
/// waits until the display layer has taken the last message, so that what
/// the display layer takes next is never older than one report.
pub const CHANNEL_CAPACITY: usize = 1;

/// The number of messages that the channel of `tx` holds at most, as
/// `Sender::capacity` gives it.
pub uninterp spec fn channel_capacity(tx: Sender<ControllerMessage>) -> Option<nat>;

/// Calls `crossbeam_channel::bounded`, which makes a channel that holds
/// `capacity` messages at most. For a capacity this small the call does not
/// panic on its arithmetic.
#[verifier::external_body]
fn bounded_channel(capacity: usize) -> (ends: (
    Sender<ControllerMessage>,
    Receiver<ControllerMessage>,
))
    requires
        capacity <= 0xFFFF,
    ensures
        channel_capacity(ends.0) == Some(capacity as nat),
{
    crossbeam_channel::bounded(capacity)
}

/// Calls `Sender::send`, which waits for a free slot and fails once every
/// receiver is gone. Returns whether the message was taken by the channel;
/// which of the two happens is up to the other side.
#[verifier::external_body]
fn send_message(tx: &Sender<ControllerMessage>, message: ControllerMessage) -> (delivered: bool) {
    tx.send(message).is_ok()
}

/// Calls `ExponentialBackoff::default`, which starts a new series of delays
/// at the current time. Nothing is claimed of the series.
#[verifier::external_body]
fn default_backoff() -> (backoff: backoff::ExponentialBackoff) {
    backoff::ExponentialBackoff::default()
}

/// Calls `Backoff::next_backoff`, which returns the next delay of the series,
/// or nothing once the series has run for longer than it allows. The delay is
/// drawn at random and the answer depends on the clock.
#[verifier::external_body]
fn next_backoff(backoff: &mut backoff::ExponentialBackoff) -> (delay: Option<Duration>) {
    backoff.next_backoff()
}

/// The channel between one worker and the display layer: it holds
/// `CHANNEL_CAPACITY` messages at most.
pub fn message_channel() -> (ends: (Sender<ControllerMessage>, Receiver<ControllerMessage>))
    ensures
        channel_capacity(ends.0) == Some(CHANNEL_CAPACITY as nat),
{
    bounded_channel(CHANNEL_CAPACITY)
}

/// Hands `message`, if there is one, to the display layer, waiting until the
/// channel has room. Returns whether the display layer still listens: with
/// nothing to hand over it is taken to.
pub fn deliver(tx: &Sender<ControllerMessage>, message: Option<ControllerMessage>) -> (listening:
    bool)
    ensures
        message is None ==> listening,
{
    match message {
        Some(message) => send_message(tx, message),
        None => true,
    }
}

/// What to do after an attempt to connect.
#[derive(Debug, Clone, Copy, PartialEq, Eq)]
pub enum ReconnectStep {
    /// The attempt succeeded: reconnection is over.
    Connected,
    /// Wait for this long, then try again.
    Wait(Duration),
    /// Try again at once.
    Retry,
}

/// What to do after an attempt to connect, given the delay that the series
/// of delays came up with: a failed attempt is followed by another, after
/// the delay if there is one.
pub open spec fn reconnect_step(connected: bool, delay: Option<Duration>) -> ReconnectStep {
    if connected {
        ReconnectStep::Connected
    } else {
        match delay {
            Some(delay) => ReconnectStep::Wait(delay),
            None => ReconnectStep::Retry,
        }
    }
}

/// What to do after an attempt to connect, given the delay that the series
/// of delays came up with.
pub fn next_reconnect_step(connected: bool, delay: Option<Duration>) -> (step: ReconnectStep)
    ensures
        step == reconnect_step(connected, delay),
{
    if connected {
        ReconnectStep::Connected
    } else {
        match delay {
            Some(delay) => ReconnectStep::Wait(delay),
            None => ReconnectStep::Retry,
        }
    }
}

/// Reconnection with exponentially growing delays. The number of attempts is
/// not limited.
pub struct ReconnectPolicy {
    backoff: backoff::ExponentialBackoff,
}

impl ReconnectPolicy {
    /// A policy whose delays start anew.
    pub fn new() -> (policy: ReconnectPolicy) {
        ReconnectPolicy { backoff: default_backoff() }
    }

    /// What to do after an attempt to connect. After a failed attempt the
    /// next delay of the series is drawn; a successful attempt draws none.
    pub fn after_attempt(&mut self, connected: bool) -> (step: ReconnectStep)
        ensures
            connected ==> step == ReconnectStep::Connected,
            !connected ==> exists|delay: Option<Duration>| step == reconnect_step(false, delay),
    {
        if connected {
            ReconnectStep::Connected
        } else {
            let delay = next_backoff(&mut self.backoff);
            next_reconnect_step(false, delay)
        }
    }
}

/// What a probe knows of the worker it handed out.
#[derive(Debug, Clone, Copy, PartialEq, Eq, Structural)]
pub enum WorkerState {
    /// No worker is out: none was handed out yet, or the last one was given
    /// up.
    Absent,
    /// A worker is out and has not been reported to have ended.
    Running,
    /// A worker is out and has ended, and is yet to be given up.
    Ended,
}

impl WorkerState {
    /// A worker is out, alive or not.
    pub open spec fn spec_is_out(self) -> bool {
        self != WorkerState::Absent
    }

    /// What is known once the worker is reported to have ended: a worker
    /// that is out has ended, and where none is out there is still none.
    pub open spec fn spec_ended(self) -> WorkerState {
        if self == WorkerState::Absent {
            WorkerState::Absent
        } else {
            WorkerState::Ended
        }
    }

    /// Whether a worker is out, alive or not.
    #[verifier::when_used_as_spec(spec_is_out)]
    pub fn is_out(self) -> (out: bool)
        ensures
            out == self.spec_is_out(),
    {
        match self {
            WorkerState::Absent => false,
            _ => true,
        }
    }

    /// A worker that has ended does not run, and stays out until it is given
    /// up; to hear of its end twice changes nothing.
    pub proof fn lemma_ended_worker_stays_out(self)
        ensures
            self.spec_ended() != WorkerState::Running,
            self.spec_ended().spec_is_out() == self.spec_is_out(),
            self.spec_ended().spec_ended() == self.spec_ended(),
    {
    }

    /// What is known once the worker is reported to have ended.
    #[verifier::when_used_as_spec(spec_ended)]
    pub fn ended(self) -> (after: WorkerState)
        ensures
            after == self.spec_ended(),
    {
        match self {
            WorkerState::Absent => WorkerState::Absent,
            _ => WorkerState::Ended,
        }
    }
}

/// What every probe offers, whatever it reads its device through.
///
/// A probe is bound to its device for good: nothing it offers binds it to
/// another. It has one worker out at most. The thread that runs the worker
/// is the caller's, so the caller tells the probe when that thread has
/// ended, and waits for it where the probe says that a worker is to be
/// waited for.
pub trait ControllerProbe: Sized {
    /// What `connect` hands to the thread that reads the device.
    type Worker;

    /// What a probe is bound to.
    type Device;

    /// The family resolved at discovery.
    spec fn family(&self) -> ControllerType;

    /// The port or pad that discovery bound the probe to.
    spec fn device(&self) -> Self::Device;

    /// What the probe knows of the worker it handed out.
    spec fn worker(&self) -> WorkerState;

    /// The device was there when last looked for.
    spec fn device_present(&self) -> bool;

    /// The family resolved at discovery.
    fn controller_type(&self) -> (family: ControllerType)
        ensures
            family == self.family(),
    ;

    /// Whether a worker is out and alive and the device is there.
    fn is_connected(&self) -> (connected: bool)
        ensures
            connected == (self.worker() == WorkerState::Running && self.device_present()),
    ;

    /// Hands out a new worker and the receiving end of its channel, in
    /// place of the worker that is out, if one is. Returns first whether
    /// there is such a worker: the caller waits for it before it starts the
    /// new one, so that one worker runs at most.
    fn connect(&mut self) -> (link: (bool, Self::Worker, Receiver<ControllerMessage>))
        ensures
            link.0 == old(self).worker().spec_is_out(),
            final(self).worker() == WorkerState::Running,
            final(self).device() == old(self).device(),
            final(self).family() == old(self).family(),
            final(self).device_present() == old(self).device_present(),
    ;

    /// Takes note that the worker has ended, by itself or because it was
    /// told to. The probe is then not connected, and the worker is still
    /// out until it is given up.
    fn worker_ended(&mut self)
        ensures
            final(self).worker() == old(self).worker().spec_ended(),
            final(self).device() == old(self).device(),
            final(self).family() == old(self).family(),
            final(self).device_present() == old(self).device_present(),
    ;

    /// Gives the worker up. Returns whether there is a worker to wait for:
    /// a probe without one is left as it is.
    fn disconnect(&mut self) -> (join: bool)
        ensures
            join == old(self).worker().spec_is_out(),
            final(self).worker() == WorkerState::Absent,
            final(self).device() == old(self).device(),
            final(self).family() == old(self).family(),
            final(self).device_present() == old(self).device_present(),
    ;

    /// Begins a reconnection: gives the worker up as `disconnect` does, and
    /// starts the series of delays that the attempts to connect again are
    /// spaced by. Returns whether there is a worker to wait for, and the
    /// policy to ask after each attempt. Discovery is not run again: the
    /// probe stays bound to its device.
    fn reconnect(&mut self) -> (begun: (bool, ReconnectPolicy))
        ensures
            begun.0 == old(self).worker().spec_is_out(),
            final(self).worker() == WorkerState::Absent,
            final(self).device() == old(self).device(),
            final(self).family() == old(self).family(),
            final(self).device_present() == old(self).device_present(),
    {
        let join = self.disconnect();
        (join, ReconnectPolicy::new())
    }
}

} // verus!
