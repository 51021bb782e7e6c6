//! The report of the canonical device as the single-device viewer reads it:
//! the wire alphabet and the snapshot of the twenty controls.

use rand::rngs::SmallRng;
use rand::RngCore;
use vstd::prelude::*;
use vstd::std_specs::convert::FromSpecImpl;
use vstd::std_specs::convert::TryFromSpecImpl;

use crate::error::ViewerError;

verus! {

/// A small, fast generator of random numbers.
#[verifier::external_type_specification]
#[verifier::external_body]
pub struct ExSmallRng(rand::rngs::SmallRng);

/// Number of controls in a snapshot, and of symbols in a report window.
pub const STATE_LEN: usize = 20;

/// One symbol of the wire alphabet.
#[derive(Debug, Clone, Copy, PartialEq, Eq, Structural)]
pub enum B0xxReport {
    /// The control is released (`'0'`).
    Off,
    /// The control is held (`'1'`).
    On,
    /// End of a report (`'\n'`).
    End,
    /// Any other byte.
    Invalid,
}

/// One sampling instant of every control of the device; `true` means held.
/// The fields are declared in wire order.
#[derive(Debug, Clone, Copy, PartialEq, Eq, Structural)]
pub struct B0xxState {
    pub start: bool,
    pub y: bool,
    pub x: bool,
    pub b: bool,
    pub a: bool,
    pub l: bool,
    pub r: bool,
    pub z: bool,
    pub up: bool,
    pub down: bool,
    pub right: bool,
    pub left: bool,
    pub mod_x: bool,
    pub mod_y: bool,
    pub c_left: bool,
    pub c_right: bool,
    pub c_up: bool,
    pub c_down: bool,
    pub mod_ls: bool,
    pub mod_ms: bool,
}

impl B0xxReport {
    /// The symbol a wire byte stands for. Every byte stands for a symbol:
    /// what is not a known byte is `Invalid`.
    pub open spec fn of_byte(byte: u8) -> B0xxReport {
        if byte == 0x30 {
            B0xxReport::Off
        } else if byte == 0x31 {
            B0xxReport::On
        } else if byte == 0x0A {
            B0xxReport::End
        } else {
            B0xxReport::Invalid
        }
    }

    /// Whether the symbol says that its control is held.
    pub open spec fn spec_is_on(self) -> bool {
        self == B0xxReport::On
    }

    /// The flags a window of symbols stands for, symbol by symbol.
    pub open spec fn flags_of(window: Seq<B0xxReport>) -> Seq<bool> {
        Seq::new(window.len(), |i: int| window[i].spec_is_on())
    }

    /// What a window of symbols decodes to: the snapshot of its first
    /// `STATE_LEN` symbols, or `MalformedSerialReport` when it holds fewer.
    pub open spec fn decode(window: Seq<B0xxReport>) -> Result<B0xxState, ViewerError> {
        if window.len() < STATE_LEN {
            Err(ViewerError::MalformedSerialReport)
        } else {
            Ok(B0xxState::from_flags(B0xxReport::flags_of(window)))
        }
    }

    /// Whether the symbol says that its control is held.
    #[verifier::when_used_as_spec(spec_is_on)]
    pub fn is_on(self) -> (held: bool)
        ensures
            held == self.spec_is_on(),
    {
        match self {
            B0xxReport::On => true,
            _ => false,
        }
    }
}

impl Default for B0xxReport {
    /// The symbol of a position nothing was read for.
    fn default() -> (symbol: B0xxReport)
        ensures
            symbol == B0xxReport::Invalid,
    {
        B0xxReport::Invalid
    }
}

impl From<u8> for B0xxReport {
    fn from(value: u8) -> (symbol: B0xxReport) {
        if value == 0x30 {
            B0xxReport::Off
        } else if value == 0x31 {
            B0xxReport::On
        } else if value == 0x0A {
            B0xxReport::End
        } else {
            B0xxReport::Invalid
        }
    }
}

impl FromSpecImpl<u8> for B0xxReport {
    open spec fn obeys_from_spec() -> bool {
        true
    }

    open spec fn from_spec(value: u8) -> B0xxReport {
        B0xxReport::of_byte(value)
    }
}

impl From<B0xxReport> for bool {
    fn from(value: B0xxReport) -> (held: bool) {
        value.is_on()
    }
}

impl FromSpecImpl<B0xxReport> for bool {
    open spec fn obeys_from_spec() -> bool {
        true
    }

    open spec fn from_spec(value: B0xxReport) -> bool {
        value.spec_is_on()
    }
}

/// Calls `RngCore::fill_bytes`, which fills the whole of `dest` with bytes
/// drawn from the generator. Nothing is claimed of the bytes.
#[verifier::external_body]
fn fill_random(rng: &mut SmallRng, dest: &mut [u8; 20]) {
    rng.fill_bytes(dest);
}

impl B0xxState {
    /// The n-th control in wire order.
    pub open spec fn flag(self, n: int) -> bool
        recommends
            0 <= n < STATE_LEN,
    {
        if n == 0 {
            self.start
        } else if n == 1 {
            self.y
        } else if n == 2 {
            self.x
        } else if n == 3 {
            self.b
        } else if n == 4 {
            self.a
        } else if n == 5 {
            self.l
        } else if n == 6 {
            self.r
        } else if n == 7 {
            self.z
        } else if n == 8 {
            self.up
        } else if n == 9 {
            self.down
        } else if n == 10 {
            self.right
        } else if n == 11 {
            self.left
        } else if n == 12 {
            self.mod_x
        } else if n == 13 {
            self.mod_y
        } else if n == 14 {
            self.c_left
        } else if n == 15 {
            self.c_right
        } else if n == 16 {
            self.c_up
        } else if n == 17 {
            self.c_down
        } else if n == 18 {
            self.mod_ls
        } else {
            self.mod_ms
        }
    }

    /// The snapshot as a sequence of `STATE_LEN` flags in wire order.
    pub open spec fn flags(self) -> Seq<bool> {
        Seq::new(STATE_LEN as nat, |n: int| self.flag(n))
    }

    /// The snapshot whose n-th control is `flags[n]`, for the first
    /// `STATE_LEN` entries of `flags`.
    pub open spec fn from_flags(flags: Seq<bool>) -> B0xxState
        recommends
            flags.len() >= STATE_LEN,
    {
        B0xxState {
            start: flags[0],
            y: flags[1],
            x: flags[2],
            b: flags[3],
            a: flags[4],
            l: flags[5],
            r: flags[6],
            z: flags[7],
            up: flags[8],
            down: flags[9],
            right: flags[10],
            left: flags[11],
            mod_x: flags[12],
            mod_y: flags[13],
            c_left: flags[14],
            c_right: flags[15],
            c_up: flags[16],
            c_down: flags[17],
            mod_ls: flags[18],
            mod_ms: flags[19],
        }
    }

    /// The flags that a run of bytes stands for when a control counts as
    /// held exactly where its byte is one.
    pub open spec fn flags_of_bytes(bytes: Seq<u8>) -> Seq<bool> {
        Seq::new(bytes.len(), |i: int| bytes[i] == 1)
    }

    /// The snapshot whose n-th control is held exactly where `bytes[n]` is
    /// one.
    pub fn from_bytes(bytes: [u8; 20]) -> (state: B0xxState)
        ensures
            state == B0xxState::from_flags(B0xxState::flags_of_bytes(bytes@)),
    {
        B0xxState {
            start: byte_flag(&bytes, 0),
            y: byte_flag(&bytes, 1),
            x: byte_flag(&bytes, 2),
            b: byte_flag(&bytes, 3),
            a: byte_flag(&bytes, 4),
            l: byte_flag(&bytes, 5),
            r: byte_flag(&bytes, 6),
            z: byte_flag(&bytes, 7),
            up: byte_flag(&bytes, 8),
            down: byte_flag(&bytes, 9),
            right: byte_flag(&bytes, 10),
            left: byte_flag(&bytes, 11),
            mod_x: byte_flag(&bytes, 12),
            mod_y: byte_flag(&bytes, 13),
            c_left: byte_flag(&bytes, 14),
            c_right: byte_flag(&bytes, 15),
            c_up: byte_flag(&bytes, 16),
            c_down: byte_flag(&bytes, 17),
            mod_ls: byte_flag(&bytes, 18),
            mod_ms: byte_flag(&bytes, 19),
        }
    }

    /// A snapshot drawn from `rng`: of the bytes it yields, the n-th decides
    /// the n-th control, which is held exactly where the byte is one.
    pub fn random(rng: &mut SmallRng) -> (state: B0xxState) {
        let mut bytes = [0u8; 20];
        fill_random(rng, &mut bytes);
        B0xxState::from_bytes(bytes)
    }
}

impl Default for B0xxState {
    /// The resting snapshot: nothing is held.
    fn default() -> (state: B0xxState)
        ensures
            state == B0xxState::from_flags(Seq::new(STATE_LEN as nat, |n: int| false)),
    {
        B0xxState {
            start: false,
            y: false,
            x: false,
            b: false,
            a: false,
            l: false,
            r: false,
            z: false,
            up: false,
            down: false,
            right: false,
            left: false,
            mod_x: false,
            mod_y: false,
            c_left: false,
            c_right: false,
            c_up: false,
            c_down: false,
            mod_ls: false,
            mod_ms: false,
        }
    }
}

/// The flag that the n-th byte of a run stands for.
fn byte_flag(bytes: &[u8; 20], n: usize) -> (held: bool)
    requires
        n < 20,
    ensures
        held == B0xxState::flags_of_bytes(bytes@)[n as int],
{
    bytes[n] == 1
}

/// The flag that the n-th symbol of a window stands for.
fn flag_at(window: &[B0xxReport], n: usize) -> (held: bool)
    requires
        n < window@.len(),
    ensures
        held == B0xxReport::flags_of(window@)[n as int],
{
    window[n].is_on()
}

/// The snapshot of the first `STATE_LEN` symbols of a window.
fn state_of(window: &[B0xxReport]) -> (state: B0xxState)
    requires
        window@.len() >= STATE_LEN,
    ensures
        state == B0xxState::from_flags(B0xxReport::flags_of(window@)),
{
    B0xxState {
        start: flag_at(window, 0),
        y: flag_at(window, 1),
        x: flag_at(window, 2),
        b: flag_at(window, 3),
        a: flag_at(window, 4),
        l: flag_at(window, 5),
        r: flag_at(window, 6),
        z: flag_at(window, 7),
        up: flag_at(window, 8),
        down: flag_at(window, 9),
        right: flag_at(window, 10),
        left: flag_at(window, 11),
        mod_x: flag_at(window, 12),
        mod_y: flag_at(window, 13),
        c_left: flag_at(window, 14),
        c_right: flag_at(window, 15),
        c_up: flag_at(window, 16),
        c_down: flag_at(window, 17),
        mod_ls: flag_at(window, 18),
        mod_ms: flag_at(window, 19),
    }
}

impl<'a> TryFrom<&'a [B0xxReport]> for B0xxState {
    type Error = ViewerError;

    fn try_from(value: &'a [B0xxReport]) -> (decoded: Result<B0xxState, ViewerError>) {
        if value.len() < STATE_LEN {
            return Err(ViewerError::MalformedSerialReport);
        }
        Ok(state_of(value))
    }
}

impl<'a> TryFromSpecImpl<&'a [B0xxReport]> for B0xxState {
    open spec fn obeys_try_from_spec() -> bool {
        true
    }

    open spec fn try_from_spec(value: &'a [B0xxReport]) -> Result<B0xxState, ViewerError> {
        B0xxReport::decode(value@)
    }
}

impl From<[B0xxReport; 20]> for B0xxState {
    fn from(value: [B0xxReport; 20]) -> (state: B0xxState) {
        state_of(value.as_slice())
    }
}

impl FromSpecImpl<[B0xxReport; 20]> for B0xxState {
    open spec fn obeys_from_spec() -> bool {
        true
    }

    open spec fn from_spec(value: [B0xxReport; 20]) -> B0xxState {
        B0xxState::from_flags(B0xxReport::flags_of(value@))
    }
}

impl From<[B0xxReport; 25]> for B0xxState {
    fn from(value: [B0xxReport; 25]) -> (state: B0xxState) {
        state_of(value.as_slice())
    }
}

impl FromSpecImpl<[B0xxReport; 25]> for B0xxState {
    open spec fn obeys_from_spec() -> bool {
        true
    }

    open spec fn from_spec(value: [B0xxReport; 25]) -> B0xxState {
        B0xxState::from_flags(B0xxReport::flags_of(value@))
    }
}

} // verus!
