//! Controller families and the normalized snapshot of their controls.

use vstd::prelude::*;

use crate::controllers::pad::GamepadState;
use crate::error::ViewerError;
use crate::text::contains;
use crate::text::is_substring;

pub mod b0xx;
pub mod f1;
pub mod pad;

verus! {

/// Number of controls in a snapshot, and of symbols in a report window.
pub const REPORT_LEN: usize = 20;

/// The device family a port or pad was resolved to at discovery time.
#[derive(Debug, Clone, Copy, PartialEq, Eq, Structural)]
pub enum ControllerType {
    /// The canonical device.
    B0XX,
    /// The alternate-firmware device.
    Frame1,
    /// A generic compatible microcontroller running the canonical firmware.
    DIYB0XX,
}

impl ControllerType {
    /// The name, or the part of a name, under which pads of this family
    /// announce themselves.
    pub open spec fn spec_device_name(self) -> Seq<char> {
        match self {
            ControllerType::B0XX => "Arduino Leonardo"@,
            ControllerType::Frame1 => "Frame1"@,
            ControllerType::DIYB0XX => "Arduino"@,
        }
    }

    /// The family that a pad announcing itself as `name` belongs to: the
    /// first of `B0XX`, `Frame1`, `DIYB0XX` whose device name stands in
    /// `name`, or `ControllerNotFound` when none does.
    pub open spec fn of_name(name: Seq<char>) -> Result<ControllerType, ViewerError> {
        if is_substring(ControllerType::B0XX.spec_device_name(), name) {
            Ok(ControllerType::B0XX)
        } else if is_substring(ControllerType::Frame1.spec_device_name(), name) {
            Ok(ControllerType::Frame1)
        } else if is_substring(ControllerType::DIYB0XX.spec_device_name(), name) {
            Ok(ControllerType::DIYB0XX)
        } else {
            Err(ViewerError::ControllerNotFound)
        }
    }

    /// The snapshot that a pad of this family reports with `pad`. A generic
    /// compatible device runs the canonical firmware and reports as the
    /// canonical device does.
    pub open spec fn pad_state(self, pad: GamepadState) -> ControllerState {
        match self {
            ControllerType::B0XX | ControllerType::DIYB0XX => b0xx::b0xx_pad_state(
                pad.axes@,
                pad.buttons@,
            ),
            ControllerType::Frame1 => f1::frame1_pad_state(pad.axes@, pad.buttons@),
        }
    }

    /// The name, or the part of a name, under which pads of this family
    /// announce themselves.
    pub fn device_name(&self) -> (name: &'static str)
        ensures
            name@ == self.spec_device_name(),
    {
        match self {
            ControllerType::B0XX => "Arduino Leonardo",
            ControllerType::Frame1 => "Frame1",
            ControllerType::DIYB0XX => "Arduino",
        }
    }

    /// The normalized state that a pad of this family reports with `state`.
    pub fn controller_state_from_report(&self, state: &GamepadState) -> (c_state: ControllerState)
        ensures
            c_state == self.pad_state(*state),
    {
        match self {
            ControllerType::B0XX => ControllerState::from_b0xx_gilrs(state),
            ControllerType::Frame1 => ControllerState::from_frame1_gilrs(state),
            ControllerType::DIYB0XX => ControllerState::from_b0xx_gilrs(state),
        }
    }

    /// Resolves the family of a pad from the name it announces itself with.
    pub fn from_str(s: &str) -> (family: Result<ControllerType, ViewerError>)
        ensures
            family == ControllerType::of_name(s@),
    {
        if contains(s, ControllerType::B0XX.device_name()) {
            Ok(ControllerType::B0XX)
        } else if contains(s, ControllerType::Frame1.device_name()) {
            Ok(ControllerType::Frame1)
        } else if contains(s, ControllerType::DIYB0XX.device_name()) {
            Ok(ControllerType::DIYB0XX)
        } else {
            Err(ViewerError::ControllerNotFound)
        }
    }

    /// A name that holds the canonical device's name holds the generic
    /// device's name too, and is still resolved to the canonical family.
    pub proof fn lemma_canonical_name_wins(name: Seq<char>)
        requires
            is_substring(ControllerType::B0XX.spec_device_name(), name),
        ensures
            is_substring(ControllerType::DIYB0XX.spec_device_name(), name),
            ControllerType::of_name(name) == Ok::<ControllerType, ViewerError>(ControllerType::B0XX),
    {
        reveal_strlit("Arduino Leonardo");
        reveal_strlit("Arduino");
        let long = ControllerType::B0XX.spec_device_name();
        let short = ControllerType::DIYB0XX.spec_device_name();
        let at = choose|at: int| crate::text::occurs_at(long, name, at);
        assert(name.subrange(at, at + short.len()) == name.subrange(at, at + long.len()).subrange(
            0,
            short.len() as int,
        ));
        assert(long.subrange(0, short.len() as int) == short);
        assert(crate::text::occurs_at(short, name, at));
    }
}

impl std::str::FromStr for ControllerType {
    type Err = ViewerError;

    /// Resolves the family of a pad from the name it announces itself with,
    /// as the function of the same name on the type does.
    fn from_str(s: &str) -> (family: Result<ControllerType, ViewerError>)
        ensures
            family == ControllerType::of_name(s@),
    {
        ControllerType::from_str(s)
    }
}

/// One sampling instant of every physical control; `true` means held.
///
/// The fields are declared in wire order: the n-th symbol of a report window
/// is the n-th field.
#[derive(Debug, Clone, Copy, PartialEq, Eq, Structural)]
pub struct ControllerState {
    pub start: bool,
    pub y: bool,
    pub x: bool,
    pub b: bool,
    pub a: bool,
    pub l: bool,
    pub r: bool,
    pub z: bool,
    pub up: bool,
    pub down: bool,
    pub right: bool,
    pub left: bool,
    pub mod_x: bool,
    pub mod_y: bool,
    pub c_left: bool,
    pub c_right: bool,
    pub c_up: bool,
    pub c_down: bool,
    pub mod_ls: bool,
    pub mod_ms: bool,
}

impl ControllerState {
    /// The n-th control in wire order.
    pub open spec fn flag(self, n: int) -> bool
        recommends
            0 <= n < REPORT_LEN,
    {
        if n == 0 {
            self.start
        } else if n == 1 {
            self.y
        } else if n == 2 {
            self.x
        } else if n == 3 {
            self.b
        } else if n == 4 {
            self.a
        } else if n == 5 {
            self.l
        } else if n == 6 {
            self.r
        } else if n == 7 {
            self.z
        } else if n == 8 {
            self.up
        } else if n == 9 {
            self.down
        } else if n == 10 {
            self.right
        } else if n == 11 {
            self.left
        } else if n == 12 {
            self.mod_x
        } else if n == 13 {
            self.mod_y
        } else if n == 14 {
            self.c_left
        } else if n == 15 {
            self.c_right
        } else if n == 16 {
            self.c_up
        } else if n == 17 {
            self.c_down
        } else if n == 18 {
            self.mod_ls
        } else {
            self.mod_ms
        }
    }

    /// The snapshot as a sequence of `REPORT_LEN` flags in wire order.
    pub open spec fn flags(self) -> Seq<bool> {
        Seq::new(REPORT_LEN as nat, |n: int| self.flag(n))
    }

    /// The snapshot whose n-th control is `flags[n]`, for the first
    /// `REPORT_LEN` entries of `flags`.
    pub open spec fn from_flags(flags: Seq<bool>) -> ControllerState
        recommends
            flags.len() >= REPORT_LEN,
    {
        ControllerState {
            start: flags[0],
            y: flags[1],
            x: flags[2],
            b: flags[3],
            a: flags[4],
            l: flags[5],
            r: flags[6],
            z: flags[7],
            up: flags[8],
            down: flags[9],
            right: flags[10],
            left: flags[11],
            mod_x: flags[12],
            mod_y: flags[13],
            c_left: flags[14],
            c_right: flags[15],
            c_up: flags[16],
            c_down: flags[17],
            mod_ls: flags[18],
            mod_ms: flags[19],
        }
    }

    /// The snapshot with every control at `held`.
    pub open spec fn uniform(held: bool) -> ControllerState {
        ControllerState::from_flags(Seq::new(REPORT_LEN as nat, |i: int| held))
    }

    /// This snapshot with the n-th control (in wire order) inverted.
    pub open spec fn toggled(self, n: int) -> ControllerState
        recommends
            0 <= n < REPORT_LEN,
    {
        ControllerState::from_flags(self.flags().update(n, !self.flags()[n]))
    }

    /// A snapshot is what its controls say, and nothing more.
    pub proof fn lemma_is_its_controls(self)
        ensures
            self == (ControllerState {
                start: self.start,
                y: self.y,
                x: self.x,
                b: self.b,
                a: self.a,
                l: self.l,
                r: self.r,
                z: self.z,
                up: self.up,
                down: self.down,
                right: self.right,
                left: self.left,
                mod_x: self.mod_x,
                mod_y: self.mod_y,
                c_left: self.c_left,
                c_right: self.c_right,
                c_up: self.c_up,
                c_down: self.c_down,
                mod_ls: self.mod_ls,
                mod_ms: self.mod_ms,
            }),
    {
    }

    /// The flags of a snapshot are its controls in wire order.
    pub proof fn lemma_flags_are_controls(self)
        ensures
            self.flags().len() == REPORT_LEN,
            self.flags()[0] == self.start,
            self.flags()[1] == self.y,
            self.flags()[2] == self.x,
            self.flags()[3] == self.b,
            self.flags()[4] == self.a,
            self.flags()[5] == self.l,
            self.flags()[6] == self.r,
            self.flags()[7] == self.z,
            self.flags()[8] == self.up,
            self.flags()[9] == self.down,
            self.flags()[10] == self.right,
            self.flags()[11] == self.left,
            self.flags()[12] == self.mod_x,
            self.flags()[13] == self.mod_y,
            self.flags()[14] == self.c_left,
            self.flags()[15] == self.c_right,
            self.flags()[16] == self.c_up,
            self.flags()[17] == self.c_down,
            self.flags()[18] == self.mod_ls,
            self.flags()[19] == self.mod_ms,
    {
    }

    /// The snapshot built from flags that agree with this snapshot's
    /// controls is this snapshot.
    proof fn lemma_built_from(self, flags: Seq<bool>)
        requires
            flags[0] == self.start,
            flags[1] == self.y,
            flags[2] == self.x,
            flags[3] == self.b,
            flags[4] == self.a,
            flags[5] == self.l,
            flags[6] == self.r,
            flags[7] == self.z,
            flags[8] == self.up,
            flags[9] == self.down,
            flags[10] == self.right,
            flags[11] == self.left,
            flags[12] == self.mod_x,
            flags[13] == self.mod_y,
            flags[14] == self.c_left,
            flags[15] == self.c_right,
            flags[16] == self.c_up,
            flags[17] == self.c_down,
            flags[18] == self.mod_ls,
            flags[19] == self.mod_ms,
        ensures
            ControllerState::from_flags(flags) == self,
    {
        self.lemma_is_its_controls();
    }

    /// A snapshot is its flags: building a snapshot from the flags of a
    /// snapshot gives the snapshot back.
    pub proof fn lemma_state_of_flags(self)
        ensures
            self.flags().len() == REPORT_LEN,
            ControllerState::from_flags(self.flags()) == self,
    {
        self.lemma_flags_are_controls();
        self.lemma_built_from(self.flags());
    }

    /// Flags are the flags of a snapshot: reading the flags of the snapshot
    /// built from `REPORT_LEN` flags gives the flags back.
    pub proof fn lemma_flags_of_state(flags: Seq<bool>)
        requires
            flags.len() == REPORT_LEN,
        ensures
            ControllerState::from_flags(flags).flags() == flags,
    {
        let state = ControllerState::from_flags(flags);
        state.lemma_flags_are_controls();
        assert(state.flags() =~= flags);
    }

    /// Two snapshots are equal exactly when they hold the same flags.
    pub proof fn lemma_equal_iff_same_flags(self, other: ControllerState)
        ensures
            (self == other) <==> (self.flags() == other.flags()),
    {
        if self.flags() == other.flags() {
            self.lemma_state_of_flags();
            other.lemma_state_of_flags();
        }
    }

    /// Inverting any single control gives a different snapshot, which differs
    /// from the first in that control alone.
    pub proof fn lemma_toggle_changes_state(self, n: int)
        requires
            0 <= n < REPORT_LEN,
        ensures
            self.toggled(n) != self,
            self.toggled(n).flags()[n] == !self.flags()[n],
            forall|m: int| 0 <= m < REPORT_LEN && m != n ==> self.toggled(n).flags()[m] == self.flags()[m],
            self.toggled(n).toggled(n) == self,
    {
        let changed = self.flags().update(n, !self.flags()[n]);
        self.lemma_state_of_flags();
        ControllerState::lemma_flags_of_state(changed);
        assert(changed.update(n, !changed[n]) =~= self.flags());
        if self.toggled(n) == self {
            assert(changed[n] == self.flags()[n]);
        }
    }
}

/// Calls `rand::random::<bool>`, which draws one flag from the generator of
/// the calling thread. Nothing is claimed of the flag.
#[verifier::external_body]
fn random_flag() -> (flag: bool) {
    rand::random::<bool>()
}

impl ControllerState {
    /// The snapshot whose n-th control, in wire order, is `flags[n]`.
    pub fn from_array(flags: [bool; 20]) -> (state: ControllerState)
        ensures
            state == ControllerState::from_flags(flags@),
    {
        ControllerState {
            start: flags[0],
            y: flags[1],
            x: flags[2],
            b: flags[3],
            a: flags[4],
            l: flags[5],
            r: flags[6],
            z: flags[7],
            up: flags[8],
            down: flags[9],
            right: flags[10],
            left: flags[11],
            mod_x: flags[12],
            mod_y: flags[13],
            c_left: flags[14],
            c_right: flags[15],
            c_up: flags[16],
            c_down: flags[17],
            mod_ls: flags[18],
            mod_ms: flags[19],
        }
    }

    /// A snapshot drawn at random, control by control. Every snapshot can
    /// come out.
    pub fn random() -> (state: ControllerState) {
        ControllerState::from_array(
            [
                random_flag(),
                random_flag(),
                random_flag(),
                random_flag(),
                random_flag(),
                random_flag(),
                random_flag(),
                random_flag(),
                random_flag(),
                random_flag(),
                random_flag(),
                random_flag(),
                random_flag(),
                random_flag(),
                random_flag(),
                random_flag(),
                random_flag(),
                random_flag(),
                random_flag(),
                random_flag(),
            ],
        )
    }
}

impl Default for ControllerState {
    /// The resting snapshot: nothing is held.
    fn default() -> (state: ControllerState)
        ensures
            state == ControllerState::uniform(false),
    {
        ControllerState {
            start: false,
            y: false,
            x: false,
            b: false,
            a: false,
            l: false,
            r: false,
            z: false,
            up: false,
            down: false,
            right: false,
            left: false,
            mod_x: false,
            mod_y: false,
            c_left: false,
            c_right: false,
            c_up: false,
            c_down: false,
            mod_ls: false,
            mod_ms: false,
        }
    }
}

} // verus!
