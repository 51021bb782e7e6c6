//! The pad snapshot that the polling backend reads: axis deflections and
//! button levels, each under the code the platform gives it.

use vstd::prelude::*;

verus! {

/// How far an axis is deflected, and to which side.
///
/// The reading is carried exactly, without a fractional number: its sign, its
/// magnitude rounded toward zero (and held at `u16::MAX` when it is larger),
/// and whether the magnitude is larger than that whole number. A reading that
/// is not a number is carried as the centre: `whole` zero, `fraction` unset.
#[derive(Debug, Clone, Copy, PartialEq, Eq, Structural)]
pub struct AxisValue {
    /// The reading is below zero.
    pub negative: bool,
    /// The magnitude, rounded toward zero, at most `u16::MAX`.
    pub whole: u16,
    /// The magnitude is larger than `whole`.
    pub fraction: bool,
}

/// One axis of the pad at the sampling instant.
#[derive(Debug, Clone, Copy, PartialEq, Eq, Structural)]
pub struct AxisReading {
    pub code: u32,
    pub value: AxisValue,
}

/// One button of the pad at the sampling instant.
#[derive(Debug, Clone, Copy, PartialEq, Eq, Structural)]
pub struct ButtonReading {
    pub code: u32,
    pub pressed: bool,
}

/// Everything the pad reports at one sampling instant.
#[derive(Debug, Clone, PartialEq, Eq)]
pub struct GamepadState {
    pub axes: Vec<AxisReading>,
    pub buttons: Vec<ButtonReading>,
}

impl AxisValue {
    /// The axis is off its centre.
    pub open spec fn spec_is_deflected(self) -> bool {
        self.whole > 0 || self.fraction
    }

    /// The reading is greater than zero.
    pub open spec fn spec_is_positive(self) -> bool {
        !self.negative && self.spec_is_deflected()
    }

    /// The reading is less than zero.
    pub open spec fn spec_is_negative(self) -> bool {
        self.negative && self.spec_is_deflected()
    }

    /// The reading is greater than `threshold`.
    pub open spec fn spec_exceeds(self, threshold: u16) -> bool {
        !self.negative && (self.whole > threshold || (self.whole == threshold && self.fraction))
    }

    /// The whole part of the magnitude lies in `low ..= high`.
    pub open spec fn spec_magnitude_within(self, low: u16, high: u16) -> bool {
        low <= self.whole <= high
    }

    /// The reading is greater than zero.
    #[verifier::when_used_as_spec(spec_is_positive)]
    pub fn is_positive(self) -> (positive: bool)
        ensures
            positive == self.spec_is_positive(),
    {
        !self.negative && (self.whole > 0 || self.fraction)
    }

    /// The reading is less than zero.
    #[verifier::when_used_as_spec(spec_is_negative)]
    pub fn is_negative(self) -> (negative: bool)
        ensures
            negative == self.spec_is_negative(),
    {
        self.negative && (self.whole > 0 || self.fraction)
    }

    /// The reading is greater than `threshold`.
    #[verifier::when_used_as_spec(spec_exceeds)]
    pub fn exceeds(self, threshold: u16) -> (beyond: bool)
        ensures
            beyond == self.spec_exceeds(threshold),
    {
        !self.negative && (self.whole > threshold || (self.whole == threshold && self.fraction))
    }

    /// The whole part of the magnitude lies in `low ..= high`.
    #[verifier::when_used_as_spec(spec_magnitude_within)]
    pub fn magnitude_within(self, low: u16, high: u16) -> (within: bool)
        ensures
            within == self.spec_magnitude_within(low, high),
    {
        low <= self.whole && self.whole <= high
    }

    /// A reading is greater than zero exactly when it exceeds zero, and a
    /// reading that exceeds a threshold exceeds every lower one.
    pub proof fn lemma_exceeds_is_monotone(self, low: u16, high: u16)
        requires
            low <= high,
        ensures
            self.spec_is_positive() == self.spec_exceeds(0),
            self.spec_exceeds(high) ==> self.spec_exceeds(low),
            !(self.spec_is_positive() && self.spec_is_negative()),
    {
    }
}

/// Some reading of axis `code` is greater than zero.
#[verifier::opaque]
pub open spec fn axis_positive(axes: Seq<AxisReading>, code: u32) -> bool {
    exists|i: int|
        0 <= i < axes.len() && (#[trigger] axes[i]).code == code && axes[i].value.spec_is_positive()
}

/// Some reading of axis `code` is less than zero.
#[verifier::opaque]
pub open spec fn axis_negative(axes: Seq<AxisReading>, code: u32) -> bool {
    exists|i: int|
        0 <= i < axes.len() && (#[trigger] axes[i]).code == code && axes[i].value.spec_is_negative()
}

/// Some reading of axis `code` has the whole part of its magnitude in
/// `low ..= high`.
#[verifier::opaque]
pub open spec fn axis_within(axes: Seq<AxisReading>, code: u32, low: u16, high: u16) -> bool {
    exists|i: int|
        0 <= i < axes.len() && (#[trigger] axes[i]).code == code
            && axes[i].value.spec_magnitude_within(low, high)
}

/// Some reading of axis `code` is greater than `threshold`.
#[verifier::opaque]
pub open spec fn axis_exceeds(axes: Seq<AxisReading>, code: u32, threshold: u16) -> bool {
    exists|i: int|
        0 <= i < axes.len() && (#[trigger] axes[i]).code == code && axes[i].value.spec_exceeds(
            threshold,
        )
}

/// Some reading of axis `code` is greater than `low` and not greater than
/// `high`.
#[verifier::opaque]
pub open spec fn axis_between(axes: Seq<AxisReading>, code: u32, low: u16, high: u16) -> bool {
    exists|i: int|
        0 <= i < axes.len() && (#[trigger] axes[i]).code == code && axes[i].value.spec_exceeds(low)
            && !axes[i].value.spec_exceeds(high)
}

/// Some reading of button `code` is pressed.
#[verifier::opaque]
pub open spec fn button_pressed(buttons: Seq<ButtonReading>, code: u32) -> bool {
    exists|i: int| 0 <= i < buttons.len() && (#[trigger] buttons[i]).code == code && buttons[i].pressed
}

/// The last reading of button `code` is pressed. A button that has no
/// reading is not held.
#[verifier::opaque]
pub open spec fn button_held(buttons: Seq<ButtonReading>, code: u32) -> bool {
    exists|i: int|
        0 <= i < buttons.len() && (#[trigger] buttons[i]).code == code && buttons[i].pressed
            && forall|j: int| i < j < buttons.len() ==> (#[trigger] buttons[j]).code != code
}

/// Of a pad that reports nothing, none of the statements above holds.
pub proof fn lemma_no_readings()
    ensures
        forall|code: u32| !#[trigger] axis_positive(Seq::empty(), code),
        forall|code: u32| !#[trigger] axis_negative(Seq::empty(), code),
        forall|code: u32, low: u16, high: u16| !#[trigger] axis_within(Seq::empty(), code, low, high),
        forall|code: u32, threshold: u16| !#[trigger] axis_exceeds(Seq::empty(), code, threshold),
        forall|code: u32, low: u16, high: u16| !#[trigger] axis_between(Seq::empty(), code, low, high),
        forall|code: u32| !#[trigger] button_pressed(Seq::empty(), code),
        forall|code: u32| !#[trigger] button_held(Seq::empty(), code),
{
    reveal(axis_positive);
    reveal(axis_negative);
    reveal(axis_within);
    reveal(axis_exceeds);
    reveal(axis_between);
    reveal(button_pressed);
    reveal(button_held);
}

/// What one more axis reading adds to each statement about the readings
/// before it.
pub proof fn lemma_axes_push(axes: Seq<AxisReading>, next: AxisReading)
    ensures
        forall|code: u32| #[trigger]
            axis_positive(axes.push(next), code) == (axis_positive(axes, code) || (next.code == code
                && next.value.spec_is_positive())),
        forall|code: u32| #[trigger]
            axis_negative(axes.push(next), code) == (axis_negative(axes, code) || (next.code == code
                && next.value.spec_is_negative())),
        forall|code: u32, low: u16, high: u16| #[trigger]
            axis_within(axes.push(next), code, low, high) == (axis_within(axes, code, low, high) || (
            next.code == code && next.value.spec_magnitude_within(low, high))),
        forall|code: u32, threshold: u16| #[trigger]
            axis_exceeds(axes.push(next), code, threshold) == (axis_exceeds(axes, code, threshold)
                || (next.code == code && next.value.spec_exceeds(threshold))),
        forall|code: u32, low: u16, high: u16| #[trigger]
            axis_between(axes.push(next), code, low, high) == (axis_between(axes, code, low, high)
                || (next.code == code && next.value.spec_exceeds(low) && !next.value.spec_exceeds(
                high,
            ))),
{
    reveal(axis_positive);
    reveal(axis_negative);
    reveal(axis_within);
    reveal(axis_exceeds);
    reveal(axis_between);
    let longer = axes.push(next);
    let last = axes.len() as int;
    assert(longer[last] == next);
    assert(forall|i: int| 0 <= i < axes.len() ==> longer[i] == axes[i]);
    assert forall|code: u32| #[trigger]
        axis_positive(longer, code) == (axis_positive(axes, code) || (next.code == code
            && next.value.spec_is_positive())) by {
        if axis_positive(axes, code) {
            let i = choose|i: int|
                0 <= i < axes.len() && (#[trigger] axes[i]).code == code
                    && axes[i].value.spec_is_positive();
            assert(longer[i].code == code);
        }
        if next.code == code && next.value.spec_is_positive() {
            assert(longer[last].code == code);
        }
    }
    assert forall|code: u32| #[trigger]
        axis_negative(longer, code) == (axis_negative(axes, code) || (next.code == code
            && next.value.spec_is_negative())) by {
        if axis_negative(axes, code) {
            let i = choose|i: int|
                0 <= i < axes.len() && (#[trigger] axes[i]).code == code
                    && axes[i].value.spec_is_negative();
            assert(longer[i].code == code);
        }
        if next.code == code && next.value.spec_is_negative() {
            assert(longer[last].code == code);
        }
    }
    assert forall|code: u32, low: u16, high: u16| #[trigger]
        axis_within(longer, code, low, high) == (axis_within(axes, code, low, high) || (next.code
            == code && next.value.spec_magnitude_within(low, high))) by {
        if axis_within(axes, code, low, high) {
            let i = choose|i: int|
                0 <= i < axes.len() && (#[trigger] axes[i]).code == code
                    && axes[i].value.spec_magnitude_within(low, high);
            assert(longer[i].code == code);
        }
        if next.code == code && next.value.spec_magnitude_within(low, high) {
            assert(longer[last].code == code);
        }
    }
    assert forall|code: u32, threshold: u16| #[trigger]
        axis_exceeds(longer, code, threshold) == (axis_exceeds(axes, code, threshold) || (next.code
            == code && next.value.spec_exceeds(threshold))) by {
        if axis_exceeds(axes, code, threshold) {
            let i = choose|i: int|
                0 <= i < axes.len() && (#[trigger] axes[i]).code == code
                    && axes[i].value.spec_exceeds(threshold);
            assert(longer[i].code == code);
        }
        if next.code == code && next.value.spec_exceeds(threshold) {
            assert(longer[last].code == code);
        }
    }
    assert forall|code: u32, low: u16, high: u16| #[trigger]
        axis_between(longer, code, low, high) == (axis_between(axes, code, low, high) || (next.code
            == code && next.value.spec_exceeds(low) && !next.value.spec_exceeds(high))) by {
        if axis_between(axes, code, low, high) {
            let i = choose|i: int|
                0 <= i < axes.len() && (#[trigger] axes[i]).code == code
                    && axes[i].value.spec_exceeds(low) && !axes[i].value.spec_exceeds(high);
            assert(longer[i].code == code);
        }
        if next.code == code && next.value.spec_exceeds(low) && !next.value.spec_exceeds(high) {
            assert(longer[last].code == code);
        }
    }
}

/// What one more button reading does to each statement about the readings
/// before it: it may raise `button_pressed`, and it decides `button_held` for
/// its own code.
pub proof fn lemma_buttons_push(buttons: Seq<ButtonReading>, next: ButtonReading)
    ensures
        forall|code: u32| #[trigger]
            button_pressed(buttons.push(next), code) == (button_pressed(buttons, code) || (next.code
                == code && next.pressed)),
        forall|code: u32| #[trigger]
            button_held(buttons.push(next), code) == (if next.code == code {
                next.pressed
            } else {
                button_held(buttons, code)
            }),
{
    reveal(button_pressed);
    reveal(button_held);
    let longer = buttons.push(next);
    let last = buttons.len() as int;
    assert(longer[last] == next);
    assert(forall|i: int| 0 <= i < buttons.len() ==> longer[i] == buttons[i]);
    assert forall|code: u32| #[trigger]
        button_pressed(longer, code) == (button_pressed(buttons, code) || (next.code == code
            && next.pressed)) by {
        if button_pressed(buttons, code) {
            let i = choose|i: int|
                0 <= i < buttons.len() && (#[trigger] buttons[i]).code == code && buttons[i].pressed;
            assert(longer[i].code == code);
        }
        if next.code == code && next.pressed {
            assert(longer[last].code == code);
        }
    }
    assert forall|code: u32| #[trigger]
        button_held(longer, code) == (if next.code == code {
            next.pressed
        } else {
            button_held(buttons, code)
        }) by {
        if next.code == code {
            if next.pressed {
                assert(longer[last].code == code && longer[last].pressed);
            }
            if button_held(longer, code) {
                let i = choose|i: int|
                    0 <= i < longer.len() && (#[trigger] longer[i]).code == code && longer[i].pressed
                        && forall|j: int| i < j < longer.len() ==> (#[trigger] longer[j]).code != code;
                if i < last {
                    assert(longer[last].code != code);
                }
            }
        } else {
            if button_held(buttons, code) {
                let i = choose|i: int|
                    0 <= i < buttons.len() && (#[trigger] buttons[i]).code == code
                        && buttons[i].pressed && forall|j: int|
                        i < j < buttons.len() ==> (#[trigger] buttons[j]).code != code;
                assert(longer[i].code == code && longer[i].pressed);
                assert forall|j: int| i < j < longer.len() implies (#[trigger] longer[j]).code
                    != code by {
                    if j < last {
                        assert(longer[j] == buttons[j]);
                    }
                }
            }
            if button_held(longer, code) {
                let i = choose|i: int|
                    0 <= i < longer.len() && (#[trigger] longer[i]).code == code && longer[i].pressed
                        && forall|j: int| i < j < longer.len() ==> (#[trigger] longer[j]).code != code;
                assert(i < last);
                assert(buttons[i].code == code && buttons[i].pressed);
                assert forall|j: int| i < j < buttons.len() implies (#[trigger] buttons[j]).code
                    != code by {
                    assert(longer[j] == buttons[j]);
                }
            }
        }
    }
}

} // verus!
