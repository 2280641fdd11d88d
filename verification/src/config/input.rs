//! The input section of the configuration.
use vstd::prelude::*;

use crate::config::misc::{opt_text, pick, set_by, switch, switched, Flag};
use crate::config::rules::ruled;
use crate::config::same::{same_opt_text, SameView};
use crate::geometry::FloatBits;
use crate::input::binds::ModKey;
use crate::input::libinput::Mouse;
use crate::niri::pointer::{FocusFollowsMouse, WarpMouseToFocus};

verus! {

/// Whether the keyboard layout is remembered for each window.
#[derive(Clone, Copy, Debug, PartialEq, Eq, Structural)]
pub enum TrackLayout {
    Global,
    Window,
}

/// The keyboard.
#[derive(Clone, Copy, Debug, PartialEq, Eq, Structural)]
pub struct Keyboard {
    /// After how many milliseconds a held key starts to repeat.
    pub repeat_delay: u16,
    /// How many times a second it repeats.
    pub repeat_rate: u8,
    pub track_layout: TrackLayout,
}

impl Default for Keyboard {
    fn default() -> (r: Keyboard)
        ensures
            r.repeat_delay == 600,
            r.repeat_rate == 25,
            r.track_layout == TrackLayout::Global,
    {
        Keyboard { repeat_delay: 600, repeat_rate: 25, track_layout: TrackLayout::Global }
    }
}

/// The keymap: a file, or the names that it is put together from.
#[derive(Debug)]
pub struct Xkb {
    pub rules: String,
    pub model: String,
    pub layout: String,
    pub variant: String,
    pub options: Option<String>,
    pub file: Option<String>,
}

/// The keymap in the abstract.
#[verifier::ext_equal]
pub struct XkbView {
    pub rules: Seq<char>,
    pub model: Seq<char>,
    pub layout: Seq<char>,
    pub variant: Seq<char>,
    pub options: Option<Seq<char>>,
    pub file: Option<Seq<char>>,
}

impl View for Xkb {
    type V = XkbView;

    open spec fn view(&self) -> XkbView {
        XkbView {
            rules: self.rules@,
            model: self.model@,
            layout: self.layout@,
            variant: self.variant@,
            options: opt_text(self.options),
            file: opt_text(self.file),
        }
    }
}

impl SameView for Xkb {
    fn same(&self, other: &Xkb) -> (r: bool) {
        self.rules == other.rules && self.model == other.model && self.layout == other.layout
            && self.variant == other.variant && same_opt_text(&self.options, &other.options)
            && same_opt_text(&self.file, &other.file)
    }
}

/// The keymap if none is configured.
pub open spec fn default_xkb() -> XkbView {
    XkbView {
        rules: Seq::empty(),
        model: Seq::empty(),
        layout: Seq::empty(),
        variant: Seq::empty(),
        options: None,
        file: None,
    }
}

impl Default for Xkb {
    fn default() -> (r: Xkb)
        ensures
            r@ == default_xkb(),
    {
        let xkb = Xkb {
            rules: String::new(),
            model: String::new(),
            layout: String::new(),
            variant: String::new(),
            options: None,
            file: None,
        };
        assert(xkb@ =~= default_xkb());
        xkb
    }
}

impl Xkb {
    /// Whether nothing is configured but a file, which is then not looked at: without it the settings of
    /// the system count.
    pub fn names_nothing(&self) -> (r: bool)
        ensures
            r == (XkbView { file: None, ..self@ } == default_xkb()),
    {
        let unset = Xkb::default();
        let r = self.rules == unset.rules && self.model == unset.model && self.layout
            == unset.layout && self.variant == unset.variant && self.options.is_none();
        assert(r == (XkbView { file: None, ..self@ } == default_xkb()));
        r
    }
}

/// Input devices, and how input is handled.
#[derive(Clone, Copy, Debug, PartialEq, Eq, Structural)]
pub struct Input {
    pub keyboard: Keyboard,
    pub mouse: Mouse,
    pub disable_power_key_handling: bool,
    pub warp_mouse_to_focus: Option<WarpMouseToFocus>,
    pub focus_follows_mouse: Option<FocusFollowsMouse>,
    pub workspace_auto_back_and_forth: bool,
    pub mod_key: Option<ModKey>,
    pub mod_key_nested: Option<ModKey>,
}

/// Input before anything is configured.
pub open spec fn default_input() -> Input {
    Input {
        keyboard: Keyboard {
            repeat_delay: 600,
            repeat_rate: 25,
            track_layout: TrackLayout::Global,
        },
        mouse: Mouse {
            off: false,
            natural_scroll: false,
            accel_speed: FloatBits { bits: 0 },
            accel_profile: None,
            scroll_method: None,
            scroll_button: None,
            scroll_button_lock: false,
            left_handed: false,
            middle_emulation: false,
            scroll_factor: None,
        },
        disable_power_key_handling: false,
        warp_mouse_to_focus: None,
        focus_follows_mouse: None,
        workspace_auto_back_and_forth: false,
        mod_key: None,
        mod_key_nested: None,
    }
}

impl Default for Input {
    fn default() -> (r: Input)
        ensures
            r == default_input(),
    {
        Input {
            keyboard: Keyboard::default(),
            mouse: Mouse {
                off: false,
                natural_scroll: false,
                accel_speed: FloatBits { bits: 0 },
                accel_profile: None,
                scroll_method: None,
                scroll_button: None,
                scroll_button_lock: false,
                left_handed: false,
                middle_emulation: false,
                scroll_factor: None,
            },
            disable_power_key_handling: false,
            warp_mouse_to_focus: None,
            focus_follows_mouse: None,
            workspace_auto_back_and_forth: false,
            mod_key: None,
            mod_key_nested: None,
        }
    }
}

/// A part of the input section. The settings of a device are set all at once.
#[derive(Debug)]
pub struct InputPart {
    pub xkb: Option<Xkb>,
    pub repeat_delay: Option<u16>,
    pub repeat_rate: Option<u8>,
    pub track_layout: Option<TrackLayout>,
    pub mouse: Option<Mouse>,
    pub disable_power_key_handling: Option<Flag>,
    pub warp_mouse_to_focus: Option<WarpMouseToFocus>,
    pub focus_follows_mouse: Option<FocusFollowsMouse>,
    pub workspace_auto_back_and_forth: Option<Flag>,
    pub mod_key: Option<ModKey>,
    pub mod_key_nested: Option<ModKey>,
}

/// A setting that can be missing after a part that may set it.
fn pick_option<T: Copy>(current: Option<T>, part: Option<T>) -> (r: Option<T>)
    ensures
        r == ruled(current, part),
{
    match part {
        Some(value) => Some(value),
        None => current,
    }
}

impl Input {
    /// The section after a part was merged into it.
    pub open spec fn merged(self, part: InputPart) -> Input {
        Input {
            keyboard: Keyboard {
                repeat_delay: set_by(self.keyboard.repeat_delay, part.repeat_delay),
                repeat_rate: set_by(self.keyboard.repeat_rate, part.repeat_rate),
                track_layout: set_by(self.keyboard.track_layout, part.track_layout),
            },
            mouse: set_by(self.mouse, part.mouse),
            disable_power_key_handling: switched(
                self.disable_power_key_handling,
                part.disable_power_key_handling,
            ),
            warp_mouse_to_focus: ruled(self.warp_mouse_to_focus, part.warp_mouse_to_focus),
            focus_follows_mouse: ruled(self.focus_follows_mouse, part.focus_follows_mouse),
            workspace_auto_back_and_forth: switched(
                self.workspace_auto_back_and_forth,
                part.workspace_auto_back_and_forth,
            ),
            mod_key: ruled(self.mod_key, part.mod_key),
            mod_key_nested: ruled(self.mod_key_nested, part.mod_key_nested),
        }
    }

    /// Merges a part into the section, but for the keymap.
    pub fn merge_with(&mut self, part: &InputPart)
        ensures
            *final(self) == old(self).merged(*part),
    {
        *self = Input {
            keyboard: Keyboard {
                repeat_delay: pick(self.keyboard.repeat_delay, part.repeat_delay),
                repeat_rate: pick(self.keyboard.repeat_rate, part.repeat_rate),
                track_layout: pick(self.keyboard.track_layout, part.track_layout),
            },
            mouse: pick(self.mouse, part.mouse),
            disable_power_key_handling: switch(
                self.disable_power_key_handling,
                part.disable_power_key_handling,
            ),
            warp_mouse_to_focus: pick_option(self.warp_mouse_to_focus, part.warp_mouse_to_focus),
            focus_follows_mouse: pick_option(self.focus_follows_mouse, part.focus_follows_mouse),
            workspace_auto_back_and_forth: switch(
                self.workspace_auto_back_and_forth,
                part.workspace_auto_back_and_forth,
            ),
            mod_key: pick_option(self.mod_key, part.mod_key),
            mod_key_nested: pick_option(self.mod_key_nested, part.mod_key_nested),
        };
    }
}

} // verus!
