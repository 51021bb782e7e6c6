//! The alternate-firmware device: its wire alphabet and its report layout.

use vstd::prelude::*;
use vstd::std_specs::convert::FromSpecImpl;
use vstd::std_specs::convert::TryFromSpecImpl;

use super::pad::axis_between;
use super::pad::axis_exceeds;
use super::pad::axis_negative;
use super::pad::axis_positive;
use super::pad::button_held;
use super::pad::button_pressed;
use super::pad::lemma_axes_push;
use super::pad::lemma_buttons_push;
use super::pad::lemma_no_readings;
use super::pad::AxisReading;
use super::pad::ButtonReading;
use super::pad::GamepadState;
use super::ControllerState;
use super::REPORT_LEN;
use crate::error::ViewerError;

verus! {

/// One symbol of the wire alphabet.
#[derive(Debug, Clone, Copy, PartialEq, Eq, Structural)]
pub enum Frame1Report {
    /// The control is released (`0x00`).
    Off,
    /// The control is held (`0x01`).
    On,
    /// End of a report (`0x02`).
    End,
    /// Any other byte.
    Invalid,
}

/// The byte that stands for a released control.
pub const OFF_BYTE: u8 = 0x00;

/// The byte that stands for a held control.
pub const ON_BYTE: u8 = 0x01;

/// The byte that ends a report.
pub const END_BYTE: u8 = 0x02;

/// The byte that `Invalid` is written as.
pub const INVALID_BYTE: u8 = 0x04;

impl Frame1Report {
    /// The symbol a wire byte stands for. Every byte stands for a symbol:
    /// what is not a known byte is `Invalid`.
    pub open spec fn of_byte(byte: u8) -> Frame1Report {
        if byte == OFF_BYTE {
            Frame1Report::Off
        } else if byte == ON_BYTE {
            Frame1Report::On
        } else if byte == END_BYTE {
            Frame1Report::End
        } else {
            Frame1Report::Invalid
        }
    }

    /// The symbols a run of wire bytes stands for, byte by byte.
    pub open spec fn of_bytes(bytes: Seq<u8>) -> Seq<Frame1Report> {
        Seq::new(bytes.len(), |i: int| Frame1Report::of_byte(bytes[i]))
    }

    /// Whether the symbol says that its control is held.
    pub open spec fn spec_is_on(self) -> bool {
        self == Frame1Report::On
    }

    /// The byte this symbol is written as.
    pub open spec fn spec_byte(self) -> u8 {
        match self {
            Frame1Report::Off => OFF_BYTE,
            Frame1Report::On => ON_BYTE,
            Frame1Report::End => END_BYTE,
            Frame1Report::Invalid => INVALID_BYTE,
        }
    }

    /// The flags a window of symbols stands for, symbol by symbol.
    pub open spec fn flags_of(window: Seq<Frame1Report>) -> Seq<bool> {
        Seq::new(window.len(), |i: int| window[i].spec_is_on())
    }

    /// What a window of symbols decodes to: the snapshot of its first
    /// `REPORT_LEN` symbols, or `MalformedSerialReport` when it holds fewer.
    pub open spec fn decode(window: Seq<Frame1Report>) -> Result<ControllerState, ViewerError> {
        if window.len() < REPORT_LEN {
            Err(ViewerError::MalformedSerialReport)
        } else {
            Ok(ControllerState::from_flags(Frame1Report::flags_of(window)))
        }
    }

    /// Whether the symbol says that its control is held.
    #[verifier::when_used_as_spec(spec_is_on)]
    pub fn is_on(self) -> (held: bool)
        ensures
            held == self.spec_is_on(),
    {
        match self {
            Frame1Report::On => true,
            _ => false,
        }
    }

    /// The byte this symbol is written as.
    #[verifier::when_used_as_spec(spec_byte)]
    pub fn byte(self) -> (byte: u8)
        ensures
            byte == self.spec_byte(),
    {
        match self {
            Frame1Report::Off => OFF_BYTE,
            Frame1Report::On => ON_BYTE,
            Frame1Report::End => END_BYTE,
            Frame1Report::Invalid => INVALID_BYTE,
        }
    }

    /// Writing a symbol as a byte and reading the byte gives the symbol back.
    pub proof fn lemma_byte_round_trip(self)
        ensures
            Frame1Report::of_byte(self.spec_byte()) == self,
    {
    }

    /// A window of `REPORT_LEN` or more symbols that are all `On` decodes to
    /// the snapshot with everything held; one whose symbols are all `Off`
    /// decodes to the snapshot with nothing held.
    pub proof fn lemma_decode_uniform(window: Seq<Frame1Report>, symbol: Frame1Report)
        requires
            window.len() >= REPORT_LEN,
            forall|i: int| 0 <= i < REPORT_LEN ==> window[i] == symbol,
        ensures
            Frame1Report::decode(window) == Ok::<ControllerState, ViewerError>(
                ControllerState::uniform(symbol == Frame1Report::On),
            ),
    {
    }

    /// Decoding reads the first `REPORT_LEN` symbols only: what follows them
    /// does not change the snapshot.
    pub proof fn lemma_decode_ignores_tail(window: Seq<Frame1Report>)
        requires
            window.len() >= REPORT_LEN,
        ensures
            Frame1Report::decode(window) is Ok,
            Frame1Report::decode(window) == Frame1Report::decode(window.take(REPORT_LEN as int)),
    {
    }

    /// Decoding fails on every window of fewer than `REPORT_LEN` symbols, and
    /// on no other.
    pub proof fn lemma_decode_total(window: Seq<Frame1Report>)
        ensures
            window.len() < REPORT_LEN <==> Frame1Report::decode(window) == Err::<
                ControllerState,
                ViewerError,
            >(ViewerError::MalformedSerialReport),
            window.len() >= REPORT_LEN <==> Frame1Report::decode(window) is Ok,
    {
    }
}

impl Default for Frame1Report {
    /// The symbol of a position nothing was read for.
    fn default() -> (symbol: Frame1Report)
        ensures
            symbol == Frame1Report::Invalid,
    {
        Frame1Report::Invalid
    }
}

impl From<u8> for Frame1Report {
    fn from(value: u8) -> (symbol: Frame1Report) {
        if value == OFF_BYTE {
            Frame1Report::Off
        } else if value == ON_BYTE {
            Frame1Report::On
        } else if value == END_BYTE {
            Frame1Report::End
        } else {
            Frame1Report::Invalid
        }
    }
}

impl FromSpecImpl<u8> for Frame1Report {
    open spec fn obeys_from_spec() -> bool {
        true
    }

    open spec fn from_spec(value: u8) -> Frame1Report {
        Frame1Report::of_byte(value)
    }
}

impl From<Frame1Report> for bool {
    fn from(value: Frame1Report) -> (held: bool) {
        value.is_on()
    }
}

impl FromSpecImpl<Frame1Report> for bool {
    open spec fn obeys_from_spec() -> bool {
        true
    }

    open spec fn from_spec(value: Frame1Report) -> bool {
        value.spec_is_on()
    }
}

/// The flag that the n-th symbol of a window stands for.
fn flag_at(window: &[Frame1Report], n: usize) -> (held: bool)
    requires
        n < window@.len(),
    ensures
        held == Frame1Report::flags_of(window@)[n as int],
{
    window[n].is_on()
}

/// The snapshot of the first `REPORT_LEN` symbols of a window.
fn state_of(window: &[Frame1Report]) -> (state: ControllerState)
    requires
        window@.len() >= REPORT_LEN,
    ensures
        state == ControllerState::from_flags(Frame1Report::flags_of(window@)),
{
    ControllerState {
        start: flag_at(window, 0),
        y: flag_at(window, 1),
        x: flag_at(window, 2),
        b: flag_at(window, 3),
        a: flag_at(window, 4),
        l: flag_at(window, 5),
        r: flag_at(window, 6),
        z: flag_at(window, 7),
        up: flag_at(window, 8),
        down: flag_at(window, 9),
        right: flag_at(window, 10),
        left: flag_at(window, 11),
        mod_x: flag_at(window, 12),
        mod_y: flag_at(window, 13),
        c_left: flag_at(window, 14),
        c_right: flag_at(window, 15),
        c_up: flag_at(window, 16),
        c_down: flag_at(window, 17),
        mod_ls: flag_at(window, 18),
        mod_ms: flag_at(window, 19),
    }
}

impl<'a> TryFrom<&'a [Frame1Report]> for ControllerState {
    type Error = ViewerError;

    fn try_from(value: &'a [Frame1Report]) -> (decoded: Result<ControllerState, ViewerError>) {
        if value.len() < REPORT_LEN {
            return Err(ViewerError::MalformedSerialReport);
        }
        Ok(state_of(value))
    }
}

impl<'a> TryFromSpecImpl<&'a [Frame1Report]> for ControllerState {
    open spec fn obeys_try_from_spec() -> bool {
        true
    }

    open spec fn try_from_spec(value: &'a [Frame1Report]) -> Result<ControllerState, ViewerError> {
        Frame1Report::decode(value@)
    }
}

impl From<[Frame1Report; 20]> for ControllerState {
    fn from(value: [Frame1Report; 20]) -> (state: ControllerState) {
        state_of(value.as_slice())
    }
}

impl FromSpecImpl<[Frame1Report; 20]> for ControllerState {
    open spec fn obeys_from_spec() -> bool {
        true
    }

    open spec fn from_spec(value: [Frame1Report; 20]) -> ControllerState {
        ControllerState::from_flags(Frame1Report::flags_of(value@))
    }
}

/// What a pad snapshot of the alternate-firmware device says of each
/// control.
///
/// Axis 0 is the stick from left to right, axis 1 the stick from down to up,
/// axis 2 the C-stick from down to up, axis 3 the C-stick from left to
/// right, and axis 4 is the shoulder. A direction is raised by a reading on
/// its side of the centre. The shoulder raises `mod_ms` above 45 and `mod_ls`
/// above 10 up to 45.
///
/// Buttons 0 to 4 are `a`, `b`, `x`, `y` and `start`: each follows its last
/// reading. Buttons 8 to 11, where pressed, raise both modifiers and the C
/// direction left, right, down and up. No other button is read, so `z`, `r`
/// and `l` are never held.
pub open spec fn frame1_pad_state(
    axes: Seq<AxisReading>,
    buttons: Seq<ButtonReading>,
) -> ControllerState {
    let chord = button_pressed(buttons, 8) || button_pressed(buttons, 9) || button_pressed(
        buttons,
        10,
    ) || button_pressed(buttons, 11);
    ControllerState {
        start: button_held(buttons, 4),
        y: button_held(buttons, 3),
        x: button_held(buttons, 2),
        b: button_held(buttons, 1),
        a: button_held(buttons, 0),
        l: false,
        r: false,
        z: false,
        up: axis_positive(axes, 1),
        down: axis_negative(axes, 1),
        right: axis_positive(axes, 0),
        left: axis_negative(axes, 0),
        mod_x: chord,
        mod_y: chord,
        c_left: axis_negative(axes, 3) || button_pressed(buttons, 8),
        c_right: axis_positive(axes, 3) || button_pressed(buttons, 9),
        c_up: axis_positive(axes, 2) || button_pressed(buttons, 11),
        c_down: axis_negative(axes, 2) || button_pressed(buttons, 10),
        mod_ls: axis_between(axes, 4, 10, 45),
        mod_ms: axis_exceeds(axes, 4, 45),
    }
}

/// The snapshot after one more axis reading.
fn frame1_with_axis(before: ControllerState, reading: AxisReading, Ghost(seen): Ghost<
    Seq<AxisReading>,
>) -> (after: ControllerState)
    requires
        before == frame1_pad_state(seen, Seq::empty()),
    ensures
        after == frame1_pad_state(seen.push(reading), Seq::empty()),
{
    proof {
        lemma_axes_push(seen, reading);
    }
    let code = reading.code;
    let value = reading.value;
    let positive = value.is_positive();
    let negative = value.is_negative();
    let half = value.exceeds(10);
    let full = value.exceeds(45);
    ControllerState {
        up: before.up || (code == 1 && positive),
        down: before.down || (code == 1 && negative),
        right: before.right || (code == 0 && positive),
        left: before.left || (code == 0 && negative),
        c_left: before.c_left || (code == 3 && negative),
        c_right: before.c_right || (code == 3 && positive),
        c_up: before.c_up || (code == 2 && positive),
        c_down: before.c_down || (code == 2 && negative),
        mod_ls: before.mod_ls || (code == 4 && half && !full),
        mod_ms: before.mod_ms || (code == 4 && full),
        ..before
    }
}

/// The snapshot after one more button reading.
fn frame1_with_button(
    before: ControllerState,
    reading: ButtonReading,
    Ghost(axes): Ghost<Seq<AxisReading>>,
    Ghost(seen): Ghost<Seq<ButtonReading>>,
) -> (after: ControllerState)
    requires
        before == frame1_pad_state(axes, seen),
    ensures
        after == frame1_pad_state(axes, seen.push(reading)),
{
    proof {
        lemma_buttons_push(seen, reading);
    }
    let code = reading.code;
    let pressed = reading.pressed;
    let chord = pressed && 8 <= code && code <= 11;
    ControllerState {
        a: if code == 0 { pressed } else { before.a },
        b: if code == 1 { pressed } else { before.b },
        x: if code == 2 { pressed } else { before.x },
        y: if code == 3 { pressed } else { before.y },
        start: if code == 4 { pressed } else { before.start },
        mod_x: before.mod_x || chord,
        mod_y: before.mod_y || chord,
        c_left: before.c_left || (code == 8 && pressed),
        c_right: before.c_right || (code == 9 && pressed),
        c_down: before.c_down || (code == 10 && pressed),
        c_up: before.c_up || (code == 11 && pressed),
        ..before
    }
}

impl ControllerState {
    /// The normalized state that a pad snapshot of the alternate-firmware device stands for.
    pub fn from_frame1_gilrs(state: &GamepadState) -> (c_state: ControllerState)
        ensures
            c_state == frame1_pad_state(state.axes@, state.buttons@),
    {
        let mut c_state = ControllerState::default();
        proof {
            lemma_no_readings();
            assert(state.axes@.take(0) == Seq::<AxisReading>::empty());
            assert(state.buttons@.take(0) == Seq::<ButtonReading>::empty());
        }
        let mut k: usize = 0;
        while k < state.axes.len()
            invariant
                k <= state.axes.len(),
                c_state == frame1_pad_state(state.axes@.take(k as int), Seq::empty()),
            decreases state.axes.len() - k,
        {
            let reading = state.axes[k];
            assert(state.axes@.take(k + 1) == state.axes@.take(k as int).push(reading));
            c_state = frame1_with_axis(c_state, reading, Ghost(state.axes@.take(k as int)));
            k += 1;
        }
        assert(state.axes@.take(k as int) == state.axes@);
        let mut k: usize = 0;
        while k < state.buttons.len()
            invariant
                k <= state.buttons.len(),
                c_state == frame1_pad_state(state.axes@, state.buttons@.take(k as int)),
            decreases state.buttons.len() - k,
        {
            let reading = state.buttons[k];
            assert(state.buttons@.take(k + 1) == state.buttons@.take(k as int).push(reading));
            c_state = frame1_with_button(
                c_state,
                reading,
                Ghost(state.axes@),
                Ghost(state.buttons@.take(k as int)),
            );
            k += 1;
        }
        assert(state.buttons@.take(k as int) == state.buttons@);
        c_state
    }
}

} // verus!
