//! Settings of input devices.
use vstd::prelude::*;

use crate::geometry::FloatBits;

verus! {

/// How the speed of the pointer depends on that of the device.
#[derive(Clone, Copy, Debug, PartialEq, Eq, Structural)]
pub enum AccelProfile {
    Adaptive,
    Flat,
    /// A profile of the device's own, which cannot be configured.
    Custom,
}

/// How a device scrolls.
#[derive(Clone, Copy, Debug, PartialEq, Eq, Structural)]
pub enum ScrollMethod {
    NoScroll,
    TwoFinger,
    Edge,
    OnButtonDown,
}

/// How much faster scrolling is, in general and along each axis.
#[derive(Clone, Copy, Debug, PartialEq, Eq, Structural)]
pub struct ScrollFactor {
    pub base: Option<FloatBits>,
    pub horizontal: Option<FloatBits>,
    pub vertical: Option<FloatBits>,
}

/// The configured settings of mice.
#[derive(Clone, Copy, Debug, PartialEq, Eq, Structural)]
pub struct Mouse {
    pub off: bool,
    pub natural_scroll: bool,
    pub accel_speed: FloatBits,
    pub accel_profile: Option<AccelProfile>,
    pub scroll_method: Option<ScrollMethod>,
    pub scroll_button: Option<u32>,
    pub scroll_button_lock: bool,
    pub left_handed: bool,
    pub middle_emulation: bool,
    pub scroll_factor: Option<ScrollFactor>,
}

/// What an input device says of itself.
#[derive(Clone, Copy, Debug, PartialEq, Eq, Structural)]
pub struct InputDevice {
    /// How many fingers it can tell apart in a tap. Only touchpads can tell any.
    pub tap_finger_count: u32,
    pub is_pointer: bool,
    pub is_keyboard: bool,
    pub default_accel_profile: Option<AccelProfile>,
    pub default_scroll_method: Option<ScrollMethod>,
}

/// A setting for a device.
#[derive(Clone, Copy, Debug, PartialEq, Eq, Structural)]
pub enum DeviceSetting {
    SendEvents(bool),
    NaturalScroll(bool),
    AccelSpeed(FloatBits),
    LeftHanded(bool),
    MiddleEmulation(bool),
    AccelProfile(AccelProfile),
    ScrollMethod(ScrollMethod),
    ScrollButton(u32),
    ScrollButtonLock(bool),
}

impl InputDevice {
    /// Whether the device is a mouse: a pointing device that is no touchpad.
    pub open spec fn is_mouse(self) -> bool {
        self.is_pointer && self.tap_finger_count == 0
    }
}

/// What is configured, or else what the device has by default.
pub open spec fn or_default<T>(configured: Option<T>, default: Option<T>) -> Option<T> {
    match configured {
        Some(_) => configured,
        None => default,
    }
}

/// The settings that go with a way to scroll.
pub open spec fn scroll_settings(config: Mouse, method: ScrollMethod) -> Seq<DeviceSetting> {
    seq![DeviceSetting::ScrollMethod(method)] + (if method == ScrollMethod::OnButtonDown {
        (match config.scroll_button {
            Some(button) => seq![DeviceSetting::ScrollButton(button)],
            None => Seq::empty(),
        }) + seq![DeviceSetting::ScrollButtonLock(config.scroll_button_lock)]
    } else {
        Seq::empty()
    })
}

/// The settings that every mouse gets.
pub open spec fn plain_settings(config: Mouse) -> Seq<DeviceSetting> {
    seq![
        DeviceSetting::SendEvents(!config.off),
        DeviceSetting::NaturalScroll(config.natural_scroll),
        DeviceSetting::AccelSpeed(config.accel_speed),
        DeviceSetting::LeftHanded(config.left_handed),
        DeviceSetting::MiddleEmulation(config.middle_emulation),
    ]
}

/// The settings that a device gets. Only mice get any.
pub open spec fn device_settings(config: Mouse, device: InputDevice) -> Seq<DeviceSetting> {
    if device.is_mouse() {
        plain_settings(config) + (match or_default(
            config.accel_profile,
            device.default_accel_profile,
        ) {
            Some(profile) => seq![DeviceSetting::AccelProfile(profile)],
            None => Seq::empty(),
        }) + (match or_default(config.scroll_method, device.default_scroll_method) {
            Some(method) => scroll_settings(config, method),
            None => Seq::empty(),
        })
    } else {
        Seq::empty()
    }
}

/// Adds the settings that go with a way to scroll.
fn push_scroll_settings(settings: &mut Vec<DeviceSetting>, config: &Mouse, method: ScrollMethod)
    ensures
        final(settings)@ == old(settings)@ + scroll_settings(*config, method),
{
    settings.push(DeviceSetting::ScrollMethod(method));
    if method == ScrollMethod::OnButtonDown {
        if let Some(button) = config.scroll_button {
            settings.push(DeviceSetting::ScrollButton(button));
        }
        settings.push(DeviceSetting::ScrollButtonLock(config.scroll_button_lock));
    }
    assert(settings@ =~= old(settings)@ + scroll_settings(*config, method));
}

/// The settings for a device, in the order in which they are made.
pub fn apply_libinput_settings(config: &Mouse, device: &InputDevice) -> (r: Vec<DeviceSetting>)
    ensures
        r@ == device_settings(*config, *device),
{
    let mut settings: Vec<DeviceSetting> = Vec::new();
    let is_touchpad = device.tap_finger_count > 0;
    let is_mouse = device.is_pointer && !is_touchpad;
    if is_mouse {
        settings.push(DeviceSetting::SendEvents(!config.off));
        settings.push(DeviceSetting::NaturalScroll(config.natural_scroll));
        settings.push(DeviceSetting::AccelSpeed(config.accel_speed));
        settings.push(DeviceSetting::LeftHanded(config.left_handed));
        settings.push(DeviceSetting::MiddleEmulation(config.middle_emulation));
        assert(settings@ =~= plain_settings(*config));
        if let Some(accel_profile) = config.accel_profile {
            settings.push(DeviceSetting::AccelProfile(accel_profile));
        } else if let Some(default) = device.default_accel_profile {
            settings.push(DeviceSetting::AccelProfile(default));
        }
        if let Some(method) = config.scroll_method {
            push_scroll_settings(&mut settings, config, method);
        } else if let Some(default) = device.default_scroll_method {
            push_scroll_settings(&mut settings, config, default);
        }
    }
    assert(settings@ =~= device_settings(*config, *device));
    settings
}

/// A mouse is set up as it is configured, or as it comes where nothing is configured. Other devices are left
/// alone.
pub proof fn law_mouse_is_set_up(config: Mouse, device: InputDevice)
    ensures
        ({
            let settings = device_settings(config, device);
            let mouse = device.is_pointer && device.tap_finger_count == 0;
            let method = if config.scroll_method is Some {
                config.scroll_method
            } else {
                device.default_scroll_method
            };
            let profile = if config.accel_profile is Some {
                config.accel_profile
            } else {
                device.default_accel_profile
            };
            &&& !mouse ==> settings.len() == 0
            &&& mouse ==> settings.contains(DeviceSetting::SendEvents(!config.off))
            &&& mouse ==> settings.contains(DeviceSetting::NaturalScroll(config.natural_scroll))
            &&& mouse ==> settings.contains(DeviceSetting::AccelSpeed(config.accel_speed))
            &&& mouse ==> settings.contains(DeviceSetting::LeftHanded(config.left_handed))
            &&& mouse ==> settings.contains(DeviceSetting::MiddleEmulation(config.middle_emulation))
            &&& mouse ==> (profile matches Some(p) ==> settings.contains(
                DeviceSetting::AccelProfile(p),
            ))
            &&& mouse ==> (method matches Some(m) ==> settings.contains(
                DeviceSetting::ScrollMethod(m),
            ))
            &&& mouse && method == Some(ScrollMethod::OnButtonDown) ==> settings.contains(
                DeviceSetting::ScrollButtonLock(config.scroll_button_lock),
            ) && (config.scroll_button matches Some(button) ==> settings.contains(
                DeviceSetting::ScrollButton(button),
            ))
        }),
{
    let settings = device_settings(config, device);
    if device.is_pointer && device.tap_finger_count == 0 {
        assert(settings[0] == DeviceSetting::SendEvents(!config.off));
        assert(settings[1] == DeviceSetting::NaturalScroll(config.natural_scroll));
        assert(settings[2] == DeviceSetting::AccelSpeed(config.accel_speed));
        assert(settings[3] == DeviceSetting::LeftHanded(config.left_handed));
        assert(settings[4] == DeviceSetting::MiddleEmulation(config.middle_emulation));
        let profile = or_default(config.accel_profile, device.default_accel_profile);
        let method = or_default(config.scroll_method, device.default_scroll_method);
        let n: int = if profile is Some {
            assert(settings[5] == DeviceSetting::AccelProfile(profile->0));
            6
        } else {
            5
        };
        if method is Some {
            assert(settings[n] == DeviceSetting::ScrollMethod(method->0));
            if method == Some(ScrollMethod::OnButtonDown) {
                let m: int = if config.scroll_button is Some {
                    assert(settings[n + 1] == DeviceSetting::ScrollButton(config.scroll_button->0));
                    n + 2
                } else {
                    n + 1
                };
                assert(settings[m] == DeviceSetting::ScrollButtonLock(config.scroll_button_lock));
            }
        }
    }
}

/// A device gets no setting that is neither configured nor its own default.
pub proof fn law_nothing_else_is_set(config: Mouse, device: InputDevice, i: int)
    requires
        0 <= i < device_settings(config, device).len(),
    ensures
        ({
            let method = if config.scroll_method is Some {
                config.scroll_method
            } else {
                device.default_scroll_method
            };
            let profile = if config.accel_profile is Some {
                config.accel_profile
            } else {
                device.default_accel_profile
            };
            match device_settings(config, device)[i] {
                DeviceSetting::SendEvents(on) => on == !config.off,
                DeviceSetting::NaturalScroll(on) => on == config.natural_scroll,
                DeviceSetting::AccelSpeed(speed) => speed == config.accel_speed,
                DeviceSetting::LeftHanded(on) => on == config.left_handed,
                DeviceSetting::MiddleEmulation(on) => on == config.middle_emulation,
                DeviceSetting::AccelProfile(p) => profile == Some(p),
                DeviceSetting::ScrollMethod(m) => method == Some(m),
                DeviceSetting::ScrollButton(button) => config.scroll_button == Some(button) && method
                    == Some(ScrollMethod::OnButtonDown),
                DeviceSetting::ScrollButtonLock(on) => on == config.scroll_button_lock && method
                    == Some(ScrollMethod::OnButtonDown),
            }
        }),
{
    let profile = or_default(config.accel_profile, device.default_accel_profile);
    let method = or_default(config.scroll_method, device.default_scroll_method);
    let a = plain_settings(config);
    let b = match profile {
        Some(profile) => seq![DeviceSetting::AccelProfile(profile)],
        None => Seq::empty(),
    };
    let c = match method {
        Some(method) => scroll_settings(config, method),
        None => Seq::empty(),
    };
    assert(device_settings(config, device) == a + b + c);
    if i < a.len() {
        assert((a + b + c)[i] == a[i]);
    } else if i < a.len() + b.len() {
        assert((a + b + c)[i] == b[i - a.len()]);
    } else {
        assert((a + b + c)[i] == c[i - a.len() - b.len()]);
    }
}

} // verus!
