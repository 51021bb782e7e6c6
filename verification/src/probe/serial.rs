//! The serial-backed probe: which port it binds to, and whether it runs.

use crossbeam_channel::Receiver;
use crossbeam_channel::Sender;
use vstd::prelude::*;

use crate::config::ViewerOptions;
use crate::controllers::ControllerType;
use crate::probe::channel_capacity;
use crate::probe::deliver;
use crate::probe::frame_reader::FrameReader;
use crate::probe::frame_reader::ReaderAction;
use crate::probe::frame_reader::ReaderEvent;
use crate::probe::frame_reader::ReaderPhase;
use crate::probe::message_channel;
use crate::probe::ControllerMessage;
use crate::probe::ControllerProbe;
use crate::probe::WorkerState;
use crate::probe::CHANNEL_CAPACITY;
use crate::error::ViewerError;
use crate::probe::allow_list::is_listed;
use crate::probe::allow_list::listed;
use crate::probe::allow_list::AllowLists;
use crate::text::same_text;

verus! {

/// What a USB serial port says of the device behind it.
#[derive(Debug, Clone, PartialEq, Eq)]
pub struct UsbPortInfo {
    /// Vendor identifier.
    pub vid: u16,
    /// Product identifier.
    pub pid: u16,
    /// Serial number, if the device gives one.
    pub serial_number: Option<String>,
    /// Manufacturer, if the device gives one.
    pub manufacturer: Option<String>,
    /// Product name, if the device gives one.
    pub product: Option<String>,
}

/// How a serial port is attached to the machine.
#[derive(Debug, Clone, PartialEq, Eq)]
pub enum SerialPortType {
    UsbPort(UsbPortInfo),
    PciPort,
    BluetoothPort,
    Unknown,
}

/// One serial port of the machine.
#[derive(Debug, Clone, PartialEq, Eq)]
pub struct SerialPortInfo {
    /// The name the port is opened by.
    pub port_name: String,
    pub port_type: SerialPortType,
}

/// Whether a line carries a parity bit, and which.
#[derive(Debug, Clone, Copy, PartialEq, Eq, Structural)]
pub enum Parity {
    Absent,
    Odd,
    Even,
}

/// How the two ends of a line keep each other from overrunning.
#[derive(Debug, Clone, Copy, PartialEq, Eq, Structural)]
pub enum FlowControl {
    Off,
    Software,
    Hardware,
}

/// The parameters a port is opened with.
#[derive(Debug, Clone, Copy, PartialEq, Eq, Structural)]
pub struct LineSettings {
    pub baud_rate: u32,
    pub data_bits: u8,
    pub stop_bits: u8,
    pub parity: Parity,
    pub flow_control: FlowControl,
    /// How long a read waits for bytes, in milliseconds.
    pub timeout_millis: u64,
}

/// The parameters of the device's line: 115200 baud, eight data bits, one
/// stop bit, no parity, hardware flow control, and reads that give up after
/// half a second.
pub open spec fn device_line() -> LineSettings {
    LineSettings {
        baud_rate: 115_200,
        data_bits: 8,
        stop_bits: 1,
        parity: Parity::Absent,
        flow_control: FlowControl::Hardware,
        timeout_millis: 500,
    }
}

/// The parameters of the device's line.
pub fn line_settings() -> (settings: LineSettings)
    ensures
        settings == device_line(),
{
    LineSettings {
        baud_rate: 115_200,
        data_bits: 8,
        stop_bits: 1,
        parity: Parity::Absent,
        flow_control: FlowControl::Hardware,
        timeout_millis: 500,
    }
}

/// The product name under which the canonical device announces itself.
pub open spec fn canonical_product() -> Seq<char> {
    "Arduino_Leonardo"@
}

/// The product name under which the alternate-firmware device announces
/// itself.
pub open spec fn alternate_product() -> Seq<char> {
    "Frame1"@
}

/// The family that a product name alone stands for, if any.
pub open spec fn family_of_product(product: Option<String>) -> Option<ControllerType> {
    match product {
        Some(name) => if name@ == canonical_product() {
            Some(ControllerType::B0XX)
        } else if name@ == alternate_product() {
            Some(ControllerType::Frame1)
        } else {
            None
        },
        None => None,
    }
}

/// The family that discovery resolves `port` to, if it accepts the port.
///
/// A port named by the user is taken on its name alone, as a generic
/// compatible device, and no other port is taken then. Without such a name a
/// USB port is taken, in this order: on identifiers of the exact list, as the
/// canonical device; on identifiers of the relaxed list, where relaxed
/// detection is on, as a generic compatible device; on its product name.
pub open spec fn resolve(
    port: SerialPortInfo,
    custom_tty: Option<String>,
    relaxed: bool,
    lists: AllowLists,
) -> Option<ControllerType> {
    match custom_tty {
        Some(name) => if port.port_name@ == name@ {
            Some(ControllerType::DIYB0XX)
        } else {
            None
        },
        None => match port.port_type {
            SerialPortType::UsbPort(usb) => if listed(lists.exact@, usb.vid, usb.pid) {
                Some(ControllerType::B0XX)
            } else if relaxed && listed(lists.relaxed@, usb.vid, usb.pid) {
                Some(ControllerType::DIYB0XX)
            } else {
                family_of_product(usb.product)
            },
            _ => None,
        },
    }
}

/// `at` is the first port of `ports` that discovery accepts.
pub open spec fn first_accepted(
    ports: Seq<SerialPortInfo>,
    custom_tty: Option<String>,
    relaxed: bool,
    lists: AllowLists,
    at: int,
) -> bool {
    &&& 0 <= at < ports.len()
    &&& resolve(ports[at], custom_tty, relaxed, lists) is Some
    &&& forall|before: int|
        0 <= before < at ==> resolve(#[trigger] ports[before], custom_tty, relaxed, lists) is None
}

/// Discovery accepts no port of `ports`.
pub open spec fn none_accepted(
    ports: Seq<SerialPortInfo>,
    custom_tty: Option<String>,
    relaxed: bool,
    lists: AllowLists,
) -> bool {
    forall|at: int|
        0 <= at < ports.len() ==> resolve(#[trigger] ports[at], custom_tty, relaxed, lists) is None
}

/// The family that a product name alone stands for, if any.
fn product_family(product: &Option<String>) -> (family: Option<ControllerType>)
    ensures
        family == family_of_product(*product),
{
    match product {
        Some(name) => {
            if same_text(name.as_str(), "Arduino_Leonardo") {
                Some(ControllerType::B0XX)
            } else if same_text(name.as_str(), "Frame1") {
                Some(ControllerType::Frame1)
            } else {
                None
            }
        },
        None => None,
    }
}

/// The family that discovery resolves `port` to, if it accepts the port.
pub fn resolve_port(
    port: &SerialPortInfo,
    custom_tty: &Option<String>,
    relaxed: bool,
    lists: &AllowLists,
) -> (family: Option<ControllerType>)
    ensures
        family == resolve(*port, *custom_tty, relaxed, *lists),
{
    match custom_tty {
        Some(name) => {
            if same_text(port.port_name.as_str(), name.as_str()) {
                Some(ControllerType::DIYB0XX)
            } else {
                None
            }
        },
        None => match &port.port_type {
            SerialPortType::UsbPort(usb) => {
                if is_listed(&lists.exact, usb.vid, usb.pid) {
                    Some(ControllerType::B0XX)
                } else if relaxed && is_listed(&lists.relaxed, usb.vid, usb.pid) {
                    Some(ControllerType::DIYB0XX)
                } else {
                    product_family(&usb.product)
                }
            },
            _ => None,
        },
    }
}

/// A probe bound to one serial port.
#[derive(Debug, Clone)]
pub struct SerialControllerProbe {
    serial_port_info: SerialPortInfo,
    controller_type: ControllerType,
    worker: WorkerState,
    present: bool,
}

impl SerialControllerProbe {
    /// The port the probe is bound to.
    pub closed spec fn port(&self) -> SerialPortInfo {
        self.serial_port_info
    }

    /// Binds a probe to the first of `ports` that discovery accepts under
    /// the options `config`: its named port, if it names one, and its switch
    /// for relaxed detection.
    pub fn new(config: &ViewerOptions, ports: Vec<SerialPortInfo>, lists: &AllowLists) -> (probe:
        Result<SerialControllerProbe, ViewerError>)
        ensures
            match probe {
                Ok(found) => exists|at: int|
                    {
                        &&& #[trigger] first_accepted(
                            ports@,
                            config.custom_tty,
                            config.relax_arduino_detection,
                            *lists,
                            at,
                        )
                        &&& found.port() == ports@[at]
                        &&& Some(found.family()) == resolve(
                            ports@[at],
                            config.custom_tty,
                            config.relax_arduino_detection,
                            *lists,
                        )
                        &&& found.worker() == WorkerState::Absent
                        &&& found.device_present()
                    },
                Err(e) => e == ViewerError::ControllerNotFound && none_accepted(
                    ports@,
                    config.custom_tty,
                    config.relax_arduino_detection,
                    *lists,
                ),
            },
    {
        SerialControllerProbe::discover(
            ports,
            &config.custom_tty,
            config.relax_arduino_detection,
            lists,
        )
    }

    /// Binds a probe to the first of `ports` that discovery accepts. Nothing
    /// is opened and no worker is started. Where no port is accepted the
    /// result is `ControllerNotFound`.
    pub fn discover(
        ports: Vec<SerialPortInfo>,
        custom_tty: &Option<String>,
        relaxed: bool,
        lists: &AllowLists,
    ) -> (probe: Result<SerialControllerProbe, ViewerError>)
        ensures
            match probe {
                Ok(found) => exists|at: int|
                    {
                        &&& #[trigger] first_accepted(ports@, *custom_tty, relaxed, *lists, at)
                        &&& found.port() == ports@[at]
                        &&& Some(found.family()) == resolve(ports@[at], *custom_tty, relaxed, *lists)
                        &&& found.worker() == WorkerState::Absent
                        &&& found.device_present()
                    },
                Err(e) => e == ViewerError::ControllerNotFound && none_accepted(
                    ports@,
                    *custom_tty,
                    relaxed,
                    *lists,
                ),
            },
    {
        let ghost all = ports@;
        let mut remaining = ports;
        let mut at: usize = 0;
        while at < remaining.len()
            invariant
                all == ports@,
                remaining@ == all,
                at <= all.len(),
                forall|before: int|
                    0 <= before < at ==> resolve(#[trigger] all[before], *custom_tty, relaxed, *lists)
                        is None,
            decreases all.len() - at,
        {
            match resolve_port(&remaining[at], custom_tty, relaxed, lists) {
                Some(controller_type) => {
                    let serial_port_info = remaining.remove(at);
                    let found = SerialControllerProbe {
                        serial_port_info,
                        controller_type,
                        worker: WorkerState::Absent,
                        present: true,
                    };
                    assert(first_accepted(all, *custom_tty, relaxed, *lists, at as int));
                    assert(found.port() == all[at as int]);
                    return Ok(found);
                },
                None => {},
            }
            at += 1;
        }
        Err(ViewerError::ControllerNotFound)
    }

    /// The port the probe is bound to.
    pub fn serial_port_info(&self) -> (info: &SerialPortInfo)
        ensures
            *info == self.port(),
    {
        &self.serial_port_info
    }

    /// Takes note of whether the device was there when last looked for.
    pub fn set_device_present(&mut self, present: bool)
        ensures
            final(self).device_present() == present,
            final(self).worker() == old(self).worker(),
            final(self).family() == old(self).family(),
            final(self).port() == old(self).port(),
    {
        self.present = present;
    }
}

impl ControllerProbe for SerialControllerProbe {
    type Worker = SerialWorker;

    type Device = SerialPortInfo;

    closed spec fn family(&self) -> ControllerType {
        self.controller_type
    }

    open spec fn device(&self) -> SerialPortInfo {
        self.port()
    }

    closed spec fn worker(&self) -> WorkerState {
        self.worker
    }

    closed spec fn device_present(&self) -> bool {
        self.present
    }

    fn controller_type(&self) -> (family: ControllerType) {
        self.controller_type
    }

    fn is_connected(&self) -> (connected: bool) {
        self.worker == WorkerState::Running && self.present
    }

    /// The worker starts with the port yet to be opened.
    fn connect(&mut self) -> (link: (bool, SerialWorker, Receiver<ControllerMessage>))
        ensures
            link.1.phase() == ReaderPhase::Opening,
            link.1.capacity() == Some(CHANNEL_CAPACITY as nat),
    {
        let (tx, rx) = message_channel();
        let join = self.worker.is_out();
        self.worker = WorkerState::Running;
        (join, SerialWorker { reader: FrameReader::new(), tx }, rx)
    }

    fn worker_ended(&mut self) {
        self.worker = self.worker.ended();
    }

    fn disconnect(&mut self) -> (join: bool) {
        let join = self.worker.is_out();
        self.worker = WorkerState::Absent;
        join
    }
}

/// The worker of a serial probe: the reader of its port's byte stream, and
/// the sending end of its channel.
pub struct SerialWorker {
    reader: FrameReader,
    tx: Sender<ControllerMessage>,
}

impl SerialWorker {
    /// Where the worker's reader stands.
    pub closed spec fn phase(&self) -> ReaderPhase {
        self.reader.phase()
    }

    /// The number of messages that the worker's channel holds at most.
    pub closed spec fn capacity(&self) -> Option<nat> {
        channel_capacity(self.tx)
    }

    /// What the worker asks of the port now.
    pub fn action(&self) -> (action: ReaderAction)
        ensures
            action == self.phase().spec_pending(),
    {
        self.reader.action()
    }

    /// Takes what the port did, hands to the display layer what the reader
    /// has for it, and returns what to do with the port next. With nothing
    /// to hand over the worker moves as its reader does. With something to
    /// hand over it does so too, unless the display layer no longer
    /// listens: then the worker ends.
    pub fn handle(&mut self, event: ReaderEvent) -> (action: ReaderAction)
        ensures
            action == final(self).phase().spec_pending(),
            final(self).phase() == old(self).phase().answer(event).next || final(self).phase()
                == ReaderPhase::Stopped,
            old(self).phase().answer(event).message is None ==> final(self).phase() == old(
                self,
            ).phase().answer(event).next,
            final(self).capacity() == old(self).capacity(),
    {
        let message = self.reader.step(event);
        let listening = deliver(&self.tx, message);
        self.reader.settle(listening);
        self.reader.action()
    }
}

/// Identifiers that only the relaxed list holds are taken where relaxed
/// detection is on, as a generic compatible device, and are not taken on
/// their own where it is off: the port is then resolved as its product name
/// alone says.
pub proof fn lemma_relaxed_list_needs_switch(port: SerialPortInfo, lists: AllowLists)
    requires
        port.port_type matches SerialPortType::UsbPort(usb) && listed(
            lists.relaxed@,
            usb.vid,
            usb.pid,
        ) && !listed(lists.exact@, usb.vid, usb.pid),
    ensures
        resolve(port, None, true, lists) == Some(ControllerType::DIYB0XX),
        port.port_type matches SerialPortType::UsbPort(usb) && resolve(port, None, false, lists)
            == family_of_product(usb.product),
{
}

/// A port named by the user is the only port taken, whatever its
/// identifiers and whatever the lists hold.
pub proof fn lemma_named_port_only(
    port: SerialPortInfo,
    name: String,
    relaxed: bool,
    lists: AllowLists,
)
    ensures
        resolve(port, Some(name), relaxed, lists) is Some <==> port.port_name@ == name@,
        resolve(port, Some(name), relaxed, lists) is Some ==> resolve(
            port,
            Some(name),
            relaxed,
            lists,
        ) == Some(ControllerType::DIYB0XX),
{
}

/// Identifiers of the exact list make a port the canonical device, whether
/// relaxed detection is on or off and whatever the relaxed list holds.
pub proof fn lemma_exact_list_first(port: SerialPortInfo, relaxed: bool, lists: AllowLists)
    requires
        port.port_type matches SerialPortType::UsbPort(usb) && listed(
            lists.exact@,
            usb.vid,
            usb.pid,
        ),
    ensures
        resolve(port, None, relaxed, lists) == Some(ControllerType::B0XX),
{
}

} // verus!
