//! The viewer's options: what a configuration holds, and how options given
//! on the command line are laid over it.

use vstd::prelude::*;

use crate::colors::ViewerButtonColors;
use crate::colors::ViewerColor;
use crate::error::IntErrorKind;
use crate::error::ViewerOptionConfigError;
use crate::probe::serial::SerialPortInfo;
use crate::text::same_text;

verus! {

/// The name of the configuration that is looked for beside the program.
pub const DEFAULT_FILENAME: &'static str = "b0xx_viewer_config.toml";

/// The options of the viewer.
#[derive(Debug, Clone, PartialEq, Eq)]
pub struct ViewerOptions {
    /// Where the configuration was read from or written to last.
    pub path: String,
    /// Write a fresh configuration beside the program, and do nothing else.
    pub init_config: bool,
    /// Show the label of each button.
    pub display_labels: bool,
    /// Show the window without decorations.
    pub chromeless: bool,
    /// Leave out the two buttons that the first revision of the device lacks.
    pub is_r1_b0xx: bool,
    /// Colour the rims of buttons that are not held, not their faces.
    pub colored_rims: bool,
    /// Let discovery take any generic compatible microcontroller.
    pub relax_arduino_detection: bool,
    /// Where to read the configuration from, if not from beside the program.
    pub config_path: Option<String>,
    pub background_color: ViewerColor,
    pub button_active_colors: ViewerButtonColors,
    pub button_inactive_colors: ViewerButtonColors,
    /// The port to bind to, whatever is attached to it.
    pub custom_tty: Option<String>,
}

/// Some port of `ports` has the name `name`.
pub open spec fn port_named(ports: Seq<SerialPortInfo>, name: Seq<char>) -> bool {
    exists|i: int| 0 <= i < ports.len() && (#[trigger] ports[i]).port_name@ == name
}

/// Whether some port of `ports` has the name `name`.
pub fn has_port_named(ports: &Vec<SerialPortInfo>, name: &str) -> (found: bool)
    ensures
        found == port_named(ports@, name@),
{
    let mut i: usize = 0;
    while i < ports.len()
        invariant
            i <= ports.len(),
            forall|j: int| 0 <= j < i ==> (#[trigger] ports@[j]).port_name@ != name@,
        decreases ports.len() - i,
    {
        if same_text(ports[i].port_name.as_str(), name) {
            return true;
        }
        i += 1;
    }
    false
}

/// Reads a colour as it is written on the command line.
pub fn hex_to_color(s: &str) -> (color: Result<ViewerColor, ViewerOptionConfigError>)
    ensures
        color matches Ok(c) ==> ViewerColor::read(s@) == Ok::<ViewerColor, IntErrorKind>(c),
        color matches Err(e) ==> ViewerColor::read(s@) matches Err(kind) && e
            == ViewerOptionConfigError::HexNumberParseError(kind),
{
    ViewerColor::from_str(s)
}

/// Reads a colour as it is written on the command line, for every button.
pub fn hex_to_button_colors(s: &str) -> (colors: Result<
    ViewerButtonColors,
    ViewerOptionConfigError,
>)
    ensures
        colors matches Ok(c) ==> ViewerColor::read(s@) matches Ok(color) && c
            == ViewerButtonColors::uniform(color),
        colors matches Err(e) ==> ViewerColor::read(s@) matches Err(kind) && e
            == ViewerOptionConfigError::HexNumberParseError(kind),
{
    match hex_to_color(s) {
        Ok(color) => Ok(ViewerButtonColors::new_with_color(color)),
        Err(e) => Err(e),
    }
}

impl ViewerOptions {
    /// The options of a viewer that was told nothing.
    pub open spec fn initial(self) -> bool {
        &&& self.path@.len() == 0
        &&& !self.init_config
        &&& !self.display_labels
        &&& !self.chromeless
        &&& !self.is_r1_b0xx
        &&& !self.colored_rims
        &&& !self.relax_arduino_detection
        &&& self.config_path is None
        &&& self.background_color == ViewerColor::spec_background_default()
        &&& self.button_active_colors == ViewerButtonColors::uniform(
            ViewerColor::spec_active_default(),
        )
        &&& self.button_inactive_colors == ViewerButtonColors::uniform(
            ViewerColor::spec_inactive_default(),
        )
        &&& self.custom_tty is None
    }

    /// These options with `other` laid over them: a switch is on where it is
    /// on in either; a colour of `other` that is not the default takes the
    /// place of the colour here; the port named here stays, and the port
    /// named in `other` is taken where none is named here.
    pub open spec fn merged(self, other: ViewerOptions) -> ViewerOptions {
        ViewerOptions {
            path: self.path,
            init_config: self.init_config,
            display_labels: self.display_labels || other.display_labels,
            chromeless: self.chromeless || other.chromeless,
            is_r1_b0xx: self.is_r1_b0xx || other.is_r1_b0xx,
            colored_rims: self.colored_rims || other.colored_rims,
            relax_arduino_detection: self.relax_arduino_detection || other.relax_arduino_detection,
            config_path: self.config_path,
            background_color: if other.background_color != ViewerColor::spec_background_default() {
                other.background_color
            } else {
                self.background_color
            },
            button_active_colors: if other.button_active_colors != ViewerButtonColors::uniform(
                ViewerColor::spec_active_default(),
            ) {
                other.button_active_colors
            } else {
                self.button_active_colors
            },
            button_inactive_colors: if other.button_inactive_colors != ViewerButtonColors::uniform(
                ViewerColor::spec_inactive_default(),
            ) {
                other.button_inactive_colors
            } else {
                self.button_inactive_colors
            },
            custom_tty: match self.custom_tty {
                Some(tty) => Some(tty),
                None => other.custom_tty,
            },
        }
    }

    /// These options with the named port forgotten where no port of `ports`
    /// has that name.
    pub open spec fn with_known_tty(self, ports: Seq<SerialPortInfo>) -> ViewerOptions {
        ViewerOptions {
            custom_tty: match self.custom_tty {
                Some(tty) => if port_named(ports, tty@) {
                    Some(tty)
                } else {
                    None
                },
                None => None,
            },
            ..self
        }
    }

    /// Lays `other` over these options.
    pub fn merge(&mut self, other: ViewerOptions)
        ensures
            *final(self) == old(self).merged(other),
    {
        let display_labels = self.display_labels || other.display_labels;
        let chromeless = self.chromeless || other.chromeless;
        let is_r1_b0xx = self.is_r1_b0xx || other.is_r1_b0xx;
        let colored_rims = self.colored_rims || other.colored_rims;
        let relax_arduino_detection = self.relax_arduino_detection
            || other.relax_arduino_detection;
        let background_color = if other.background_color != ViewerColor::background_default() {
            other.background_color
        } else {
            self.background_color
        };
        let button_inactive_colors = if other.button_inactive_colors
            != ViewerButtonColors::default_inactive() {
            other.button_inactive_colors
        } else {
            self.button_inactive_colors
        };
        let button_active_colors = if other.button_active_colors
            != ViewerButtonColors::default_active() {
            other.button_active_colors
        } else {
            self.button_active_colors
        };
        self.display_labels = display_labels;
        self.chromeless = chromeless;
        self.is_r1_b0xx = is_r1_b0xx;
        self.colored_rims = colored_rims;
        self.relax_arduino_detection = relax_arduino_detection;
        self.background_color = background_color;
        self.button_inactive_colors = button_inactive_colors;
        self.button_active_colors = button_active_colors;
        if self.custom_tty.is_none() {
            self.custom_tty = other.custom_tty;
        }
    }

    /// Forgets the named port where no port of `ports` has that name.
    /// Returns whether a port was forgotten.
    pub fn keep_known_tty(&mut self, ports: &Vec<SerialPortInfo>) -> (forgotten: bool)
        ensures
            *final(self) == old(self).with_known_tty(ports@),
            forgotten == (old(self).custom_tty is Some && final(self).custom_tty is None),
    {
        let known = match &self.custom_tty {
            Some(tty) => has_port_named(ports, tty.as_str()),
            None => true,
        };
        if !known {
            self.custom_tty = None;
        }
        !known
    }
}

impl Default for ViewerOptions {
    fn default() -> (options: ViewerOptions)
        ensures
            options.initial(),
    {
        ViewerOptions {
            path: String::new(),
            init_config: false,
            display_labels: false,
            chromeless: false,
            is_r1_b0xx: false,
            colored_rims: false,
            relax_arduino_detection: false,
            config_path: None,
            background_color: ViewerColor::background_default(),
            button_active_colors: ViewerButtonColors::default_active(),
            button_inactive_colors: ViewerButtonColors::default_inactive(),
            custom_tty: None,
        }
    }
}

} // verus!
