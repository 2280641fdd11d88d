//! What displays the frames and owns the devices.
use vstd::prelude::*;

use crate::input::binds::ModKey;
use crate::utils::id::{id_after, IdCounter};

verus! {

/// How rendering an output ended.
#[derive(Clone, Copy, Debug, PartialEq, Eq, Structural)]
pub enum RenderResult {
    /// The frame was submitted to the backend for presentation.
    Submitted,
    /// Rendering succeeded, but there was no damage.
    NoDamage,
    /// The frame was not rendered and submitted, due to an error or otherwise.
    Skipped,
}

/// Identifies an output for clients of the control socket.
#[derive(Clone, Copy, Debug, PartialEq, Eq, Structural, Hash)]
pub struct OutputId(u64);

impl OutputId {
    /// The identifier as a number.
    pub closed spec fn value(self) -> u64 {
        self.0
    }

    /// An identifier that no other output has.
    pub fn next(counter: &mut IdCounter) -> (r: OutputId)
        ensures
            r.value() == old(counter).value,
            final(counter).value == id_after(old(counter).value),
    {
        OutputId(counter.next())
    }

    /// The identifier as a number.
    pub fn get(self) -> (r: u64)
        ensures
            r == self.value(),
    {
        self.0
    }
}

/// Something that the session on a virtual terminal is asked for.
#[derive(Clone, Copy, Debug, PartialEq, Eq, Structural)]
pub enum TtyRequest {
    ChangeVt(i32),
    Suspend,
    SetMonitorsActive(bool),
    EarlyImport(u64),
    OutputConfigChanged,
}

/// The session on a virtual terminal.
#[derive(Debug)]
pub struct Tty {
    pub seat_name: String,
    /// What was asked for and has not been done yet.
    pub requests: Vec<TtyRequest>,
}

/// A backend without outputs or devices.
#[derive(Debug)]
pub struct Headless {
    pub seat_name: String,
}

/// Where the compositor runs.
#[derive(Debug)]
pub enum Backend {
    Tty(Tty),
    Headless(Headless),
}

impl Tty {
    /// Notes one more request.
    fn request(&mut self, request: TtyRequest)
        ensures
            final(self).requests@ == old(self).requests@.push(request),
            final(self).seat_name == old(self).seat_name,
    {
        self.requests.push(request);
    }
}

/// The modifier key that stands for the compositor's own.
pub open spec fn mod_key_or_default(configured: Option<ModKey>) -> ModKey {
    match configured {
        Some(key) => key,
        None => ModKey::Super,
    }
}

impl Backend {
    /// Whether a backend has taken note of one more request, where it takes any.
    pub open spec fn asked(self, after: Backend, request: TtyRequest) -> bool {
        match (self, after) {
            (Backend::Tty(before), Backend::Tty(now)) => {
                &&& now.requests@ == before.requests@.push(request)
                &&& now.seat_name == before.seat_name
            },
            (Backend::Headless(_), _) => after == self,
            _ => false,
        }
    }

    /// The name of the seat.
    pub fn seat_name(&self) -> (r: String)
        ensures
            r == match self {
                Backend::Tty(tty) => tty.seat_name,
                Backend::Headless(headless) => headless.seat_name,
            },
    {
        match self {
            Backend::Tty(tty) => tty.seat_name.clone(),
            Backend::Headless(headless) => headless.seat_name.clone(),
        }
    }

    /// The modifier key that stands for the compositor's own.
    pub fn mod_key(&self, configured: Option<ModKey>) -> (r: ModKey)
        ensures
            r == mod_key_or_default(configured),
    {
        match configured {
            Some(key) => key,
            None => ModKey::Super,
        }
    }

    /// Switches to another virtual terminal.
    pub fn change_vt(&mut self, vt: i32)
        ensures
            old(self).asked(*final(self), TtyRequest::ChangeVt(vt)),
    {
        match self {
            Backend::Tty(tty) => tty.request(TtyRequest::ChangeVt(vt)),
            Backend::Headless(_) => (),
        }
    }

    /// Suspends the machine.
    pub fn suspend(&mut self)
        ensures
            old(self).asked(*final(self), TtyRequest::Suspend),
    {
        match self {
            Backend::Tty(tty) => tty.request(TtyRequest::Suspend),
            Backend::Headless(_) => (),
        }
    }

    /// Uploads a surface's buffer before it is drawn.
    pub fn early_import(&mut self, surface: u64)
        ensures
            old(self).asked(*final(self), TtyRequest::EarlyImport(surface)),
    {
        match self {
            Backend::Tty(tty) => tty.request(TtyRequest::EarlyImport(surface)),
            Backend::Headless(_) => (),
        }
    }

    /// Powers the monitors on or off.
    pub fn set_monitors_active(&mut self, active: bool)
        ensures
            old(self).asked(*final(self), TtyRequest::SetMonitorsActive(active)),
    {
        match self {
            Backend::Tty(tty) => tty.request(TtyRequest::SetMonitorsActive(active)),
            Backend::Headless(_) => (),
        }
    }

    /// Applies changed output settings.
    pub fn on_output_config_changed(&mut self)
        ensures
            old(self).asked(*final(self), TtyRequest::OutputConfigChanged),
    {
        match self {
            Backend::Tty(tty) => tty.request(TtyRequest::OutputConfigChanged),
            Backend::Headless(_) => (),
        }
    }

    /// The session on a virtual terminal, if there is one.
    pub fn tty_checked(&mut self) -> (r: Option<&mut Tty>)
        ensures
            match *old(self) {
                Backend::Tty(tty) => r matches Some(t) && *t == tty && *final(self) == Backend::Tty(
                    *final(t),
                ),
                Backend::Headless(_) => r is None && *final(self) == *old(self),
            },
    {
        match self {
            Backend::Tty(tty) => Some(tty),
            Backend::Headless(_) => None,
        }
    }

    /// The session on a virtual terminal.
    pub fn tty(&mut self) -> (r: &mut Tty)
        requires
            *old(self) is Tty,
        ensures
            *old(self) == Backend::Tty(*r),
            *final(self) == Backend::Tty(*final(r)),
    {
        match self {
            Backend::Tty(tty) => tty,
            Backend::Headless(_) => vstd::pervasive::unreached(),
        }
    }

    /// The backend without outputs or devices.
    pub fn headless(&mut self) -> (r: &mut Headless)
        requires
            *old(self) is Headless,
        ensures
            *old(self) == Backend::Headless(*r),
            *final(self) == Backend::Headless(*final(r)),
    {
        match self {
            Backend::Headless(headless) => headless,
            Backend::Tty(_) => vstd::pervasive::unreached(),
        }
    }
}

} // verus!
