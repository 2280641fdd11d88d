//! A test that drives a display through another graphics interface: it clears the screen to one color
//! for some frames, and then ends.
use vstd::prelude::*;

verus! {

/// The test ends after this many frames.
pub const FRAME_COUNT: u32 = 300;

/// How long it is waited for the session to become active, in milliseconds.
pub const SESSION_ACTIVATION_TIMEOUT_MS: u64 = 5000;

/// The whole test is ended by force after this many milliseconds.
pub const WATCHDOG_TIMEOUT_MS: u64 = 60000;

/// How the pixels of a buffer are laid out.
#[derive(Clone, Copy, Debug, PartialEq, Eq, Structural)]
pub enum Fourcc {
    Argb8888,
    Xrgb8888,
    Abgr8888,
    Xbgr8888,
    Other(u32),
}

/// How the pixels of a texture are laid out.
#[derive(Clone, Copy, Debug, PartialEq, Eq, Structural)]
pub enum TextureFormat {
    Bgra8Unorm,
    Rgba8Unorm,
}

/// Why a buffer cannot be drawn to.
#[derive(Clone, Copy, Debug, PartialEq, Eq, Structural)]
pub enum DmabufFault {
    /// It has this many planes, and not one.
    NotSinglePlane(usize),
    NoStrides,
    NoFd,
    FdNotDuplicated,
    UnsupportedFormat(Fourcc),
}

#[derive(Clone, Copy, Debug, PartialEq, Eq, Structural)]
pub enum WgpuRendererError {
    Dmabuf(DmabufFault),
}

/// The file descriptor of a buffer.
#[derive(Clone, Copy, Debug, PartialEq, Eq, Structural)]
pub enum BufferFd {
    Missing,
    /// There is one, but it could not be duplicated.
    NotDuplicated,
    Duplicated,
}

/// A buffer that is to be drawn to.
#[derive(Clone, Copy, Debug, PartialEq, Eq, Structural)]
pub struct DmabufView {
    pub num_planes: usize,
    pub width: u32,
    pub height: u32,
    pub code: Fourcc,
    pub modifier: u64,
    /// The stride of the first plane.
    pub stride: Option<u32>,
    /// The offset of the first plane.
    pub offset: Option<u32>,
    pub fd: BufferFd,
}

/// The texture that a buffer is imported as.
#[derive(Clone, Copy, Debug, PartialEq, Eq, Structural)]
pub struct WgpuTexture {
    pub width: u32,
    pub height: u32,
    pub format: TextureFormat,
    pub modifier: u64,
    pub stride: u64,
    pub offset: u64,
}

/// The texture format with the same bytes in the same order. What fills up the fourth byte does not
/// matter.
pub open spec fn same_bytes(fourcc: Fourcc) -> Option<TextureFormat> {
    match fourcc {
        Fourcc::Argb8888 | Fourcc::Xrgb8888 => Some(TextureFormat::Bgra8Unorm),
        Fourcc::Abgr8888 | Fourcc::Xbgr8888 => Some(TextureFormat::Rgba8Unorm),
        Fourcc::Other(_) => None,
    }
}

/// The texture format with the same bytes in the same order, if there is one.
pub fn fourcc_to_wgpu_format(fourcc: Fourcc) -> (r: Option<TextureFormat>)
    ensures
        r == same_bytes(fourcc),
{
    match fourcc {
        Fourcc::Argb8888 | Fourcc::Xrgb8888 => Some(TextureFormat::Bgra8Unorm),
        Fourcc::Abgr8888 | Fourcc::Xbgr8888 => Some(TextureFormat::Rgba8Unorm),
        Fourcc::Other(_) => None,
    }
}

/// The first thing that keeps a buffer from being drawn to.
pub open spec fn buffer_fault(dmabuf: DmabufView) -> Option<DmabufFault> {
    if dmabuf.num_planes != 1 {
        Some(DmabufFault::NotSinglePlane(dmabuf.num_planes))
    } else if dmabuf.stride is None {
        Some(DmabufFault::NoStrides)
    } else if dmabuf.fd is Missing {
        Some(DmabufFault::NoFd)
    } else if dmabuf.fd is NotDuplicated {
        Some(DmabufFault::FdNotDuplicated)
    } else if same_bytes(dmabuf.code) is None {
        Some(DmabufFault::UnsupportedFormat(dmabuf.code))
    } else {
        None
    }
}

/// Decides how a buffer is imported to be drawn to.
pub fn import_dmabuf_as_color_target(dmabuf: &DmabufView) -> (r: Result<WgpuTexture, WgpuRendererError>)
    ensures
        r == (match buffer_fault(*dmabuf) {
            Some(fault) => Err(WgpuRendererError::Dmabuf(fault)),
            None => Ok(
                WgpuTexture {
                    width: dmabuf.width,
                    height: dmabuf.height,
                    format: same_bytes(dmabuf.code)->0,
                    modifier: dmabuf.modifier,
                    stride: dmabuf.stride->0 as u64,
                    offset: (match dmabuf.offset {
                        Some(offset) => offset,
                        None => 0,
                    }) as u64,
                },
            ),
        }),
{
    if dmabuf.num_planes != 1 {
        return Err(WgpuRendererError::Dmabuf(DmabufFault::NotSinglePlane(dmabuf.num_planes)));
    }
    let Some(stride) = dmabuf.stride else {
        return Err(WgpuRendererError::Dmabuf(DmabufFault::NoStrides));
    };
    let offset: u32 = match dmabuf.offset {
        Some(offset) => offset,
        None => 0,
    };
    match dmabuf.fd {
        BufferFd::Missing => {
            return Err(WgpuRendererError::Dmabuf(DmabufFault::NoFd));
        },
        BufferFd::NotDuplicated => {
            return Err(WgpuRendererError::Dmabuf(DmabufFault::FdNotDuplicated));
        },
        BufferFd::Duplicated => {},
    }
    let Some(format) = fourcc_to_wgpu_format(dmabuf.code) else {
        return Err(WgpuRendererError::Dmabuf(DmabufFault::UnsupportedFormat(dmabuf.code)));
    };
    Ok(
        WgpuTexture {
            width: dmabuf.width,
            height: dmabuf.height,
            format,
            modifier: dmabuf.modifier,
            stride: stride as u64,
            offset: offset as u64,
        },
    )
}

/// What a device can do with a modifier.
#[derive(Clone, Copy, Debug, PartialEq, Eq, Structural)]
pub struct ModifierProperties {
    pub drm_format_modifier: u64,
    /// Whether a buffer with the modifier can be drawn to.
    pub color_attachment: bool,
}

/// Whether a device can draw to buffers with a modifier.
pub open spec fn can_draw_to(properties: Seq<ModifierProperties>, modifier: u64) -> bool {
    exists|i: int|
        0 <= i < properties.len() && (#[trigger] properties[i]).drm_format_modifier == modifier
            && properties[i].color_attachment
}

/// Whether a device can draw to buffers with a modifier.
pub fn check_color_attachment_support(properties: &Vec<ModifierProperties>, modifier: u64) -> (r: bool)
    ensures
        r == can_draw_to(properties@, modifier),
{
    let mut i: usize = 0;
    while i < properties.len()
        invariant
            i <= properties@.len(),
            forall|k: int|
                0 <= k < i ==> !((#[trigger] properties@[k]).drm_format_modifier == modifier
                    && properties@[k].color_attachment),
        decreases properties@.len() - i,
    {
        if properties[i].drm_format_modifier == modifier && properties[i].color_attachment {
            return true;
        }
        i = i + 1;
    }
    false
}

/// What a device must be able to do to import buffers.
#[derive(Clone, Copy, Debug, PartialEq, Eq, Structural)]
pub enum DeviceExtension {
    ExternalMemoryFd,
    ExternalMemoryDmaBuf,
    ImageDrmFormatModifier,
}

/// A graphics device.
#[derive(Debug)]
pub struct PhysicalDeviceView {
    /// The node that it is drawn through, if it has one.
    pub render_node: Option<u64>,
    pub external_memory_fd: bool,
    pub external_memory_dma_buf: bool,
    pub image_drm_format_modifier: bool,
    pub modifiers: Vec<ModifierProperties>,
}

/// Why no device can be used.
#[derive(Clone, Copy, Debug, PartialEq, Eq, Structural)]
pub enum MatchError {
    NoDevice,
    MissingExtension(DeviceExtension),
    NoColorAttachment,
}

/// The first thing that a device must be able to do but is not.
pub open spec fn missing_extension(device: PhysicalDeviceView) -> Option<DeviceExtension> {
    if !device.external_memory_fd {
        Some(DeviceExtension::ExternalMemoryFd)
    } else if !device.external_memory_dma_buf {
        Some(DeviceExtension::ExternalMemoryDmaBuf)
    } else if !device.image_drm_format_modifier {
        Some(DeviceExtension::ImageDrmFormatModifier)
    } else {
        None
    }
}

/// Whether a device is the first one that draws through a node.
pub open spec fn is_first_through(devices: Seq<PhysicalDeviceView>, node: u64, i: int) -> bool {
    &&& 0 <= i < devices.len()
    &&& devices[i].render_node == Some(node)
    &&& forall|k: int| 0 <= k < i ==> (#[trigger] devices[k]).render_node != Some(node)
}

/// Picks the device that draws through a node, if it can do what it must.
pub fn match_physical_device(
    devices: &Vec<PhysicalDeviceView>,
    render_node: u64,
    modifier: u64,
) -> (r: Result<usize, MatchError>)
    ensures
        match r {
            Ok(i) => {
                &&& is_first_through(devices@, render_node, i as int)
                &&& missing_extension(devices@[i as int]) is None
                &&& can_draw_to(devices@[i as int].modifiers@, modifier)
            },
            Err(MatchError::NoDevice) => forall|k: int|
                0 <= k < devices@.len() ==> (#[trigger] devices@[k]).render_node != Some(render_node),
            Err(MatchError::MissingExtension(extension)) => exists|i: int|
                #[trigger] is_first_through(devices@, render_node, i) && missing_extension(devices@[i])
                    == Some(extension),
            Err(MatchError::NoColorAttachment) => exists|i: int|
                #[trigger] is_first_through(devices@, render_node, i) && missing_extension(devices@[i])
                    is None && !can_draw_to(devices@[i].modifiers@, modifier),
        },
{
    let mut i: usize = 0;
    while i < devices.len()
        invariant
            i <= devices@.len(),
            forall|k: int|
                0 <= k < i ==> (#[trigger] devices@[k]).render_node != Some(render_node),
        decreases devices@.len() - i,
    {
        let device = &devices[i];
        if device.render_node == Some(render_node) {
            assert(is_first_through(devices@, render_node, i as int));
            if !device.external_memory_fd {
                return Err(MatchError::MissingExtension(DeviceExtension::ExternalMemoryFd));
            }
            if !device.external_memory_dma_buf {
                return Err(MatchError::MissingExtension(DeviceExtension::ExternalMemoryDmaBuf));
            }
            if !device.image_drm_format_modifier {
                return Err(MatchError::MissingExtension(DeviceExtension::ImageDrmFormatModifier));
            }
            if !check_color_attachment_support(&device.modifiers, modifier) {
                return Err(MatchError::NoColorAttachment);
            }
            return Ok(i);
        }
        i = i + 1;
    }
    Err(MatchError::NoDevice)
}

/// A mode of a display.
#[derive(Clone, Copy, Debug, PartialEq, Eq, Structural)]
pub struct ModeView {
    pub width: u16,
    pub height: u16,
    /// The refresh rate in hertz.
    pub vrefresh: u32,
    pub preferred: bool,
}

/// A display.
#[derive(Debug)]
pub struct ConnectorView {
    /// Whether it was found to be connected.
    pub connected: bool,
    /// What can drive it, if something is free.
    pub crtc: Option<u32>,
    pub modes: Vec<ModeView>,
}

/// The display that is used and how.
#[derive(Clone, Copy, Debug, PartialEq, Eq, Structural)]
pub struct DisplaySetup {
    pub connector: usize,
    pub crtc: u32,
    /// The mode, by its place among those of the display.
    pub mode: usize,
    pub width: i32,
    pub height: i32,
    /// The refresh rate in millihertz.
    pub refresh: i32,
}

/// Why no display can be used.
#[derive(Clone, Copy, Debug, PartialEq, Eq, Structural)]
pub enum OpenError {
    NoDisplay,
    NoModes,
}

impl ConnectorView {
    /// Whether the display can be used.
    pub open spec fn usable(self) -> bool {
        self.connected && self.crtc is Some
    }
}

/// Whether a display is the first one that can be used.
pub open spec fn is_first_usable(connectors: Seq<ConnectorView>, i: int) -> bool {
    &&& 0 <= i < connectors.len()
    &&& connectors[i].usable()
    &&& forall|k: int| 0 <= k < i ==> !(#[trigger] connectors[k]).usable()
}

/// Whether a mode is the one to use: the first preferred one, or the first one if none is preferred.
pub open spec fn is_best_mode(modes: Seq<ModeView>, i: int) -> bool {
    &&& 0 <= i < modes.len()
    &&& {
        ||| modes[i].preferred && forall|k: int| 0 <= k < i ==> !(#[trigger] modes[k]).preferred
        ||| i == 0 && forall|k: int| 0 <= k < modes.len() ==> !(#[trigger] modes[k]).preferred
    }
}

/// Picks a mode.
fn best_mode(modes: &Vec<ModeView>) -> (r: Option<usize>)
    ensures
        match r {
            Some(i) => is_best_mode(modes@, i as int),
            None => modes@.len() == 0,
        },
{
    let mut i: usize = 0;
    while i < modes.len()
        invariant
            i <= modes@.len(),
            forall|k: int| 0 <= k < i ==> !(#[trigger] modes@[k]).preferred,
        decreases modes@.len() - i,
    {
        if modes[i].preferred {
            return Some(i);
        }
        i = i + 1;
    }
    if modes.len() == 0 {
        None
    } else {
        Some(0)
    }
}

/// A number of 32 bits taken as a signed one.
pub open spec fn as_signed(x: u32) -> int {
    if x <= i32::MAX {
        x as int
    } else {
        x - 0x1_0000_0000
    }
}

/// Takes a number of 32 bits as a signed one.
fn to_signed(x: u32) -> (r: i32)
    ensures
        r == as_signed(x),
{
    if x <= 0x7fff_ffff {
        x as i32
    } else {
        let wide: i64 = x as i64 - 0x1_0000_0000;
        wide as i32
    }
}

/// Whether the refresh rate of the mode that will be used can be given in millihertz.
pub open spec fn refresh_fits(connectors: Seq<ConnectorView>) -> bool {
    forall|i: int, k: int|
        #[trigger] is_first_usable(connectors, i) && #[trigger] is_best_mode(
            connectors[i].modes@,
            k,
        ) ==> i32::MIN <= as_signed(connectors[i].modes@[k].vrefresh) * 1000 <= i32::MAX
}

/// Picks the first display that is connected and can be driven, in its preferred mode.
pub fn open_compositor(connectors: &Vec<ConnectorView>) -> (r: Result<DisplaySetup, OpenError>)
    requires
        refresh_fits(connectors@),
    ensures
        match r {
            Ok(setup) => {
                let connector = connectors@[setup.connector as int];
                let mode = connector.modes@[setup.mode as int];
                &&& is_first_usable(connectors@, setup.connector as int)
                &&& connector.crtc == Some(setup.crtc)
                &&& is_best_mode(connector.modes@, setup.mode as int)
                &&& setup.width == mode.width
                &&& setup.height == mode.height
                &&& setup.refresh == as_signed(mode.vrefresh) * 1000
            },
            Err(OpenError::NoDisplay) => forall|i: int|
                0 <= i < connectors@.len() ==> !(#[trigger] connectors@[i]).usable(),
            Err(OpenError::NoModes) => exists|i: int|
                #[trigger] is_first_usable(connectors@, i) && connectors@[i].modes@.len() == 0,
        },
{
    let mut i: usize = 0;
    while i < connectors.len()
        invariant
            i <= connectors@.len(),
            forall|k: int| 0 <= k < i ==> !(#[trigger] connectors@[k]).usable(),
            refresh_fits(connectors@),
        decreases connectors@.len() - i,
    {
        let connector = &connectors[i];
        if connector.connected {
            if let Some(crtc) = connector.crtc {
                assert(is_first_usable(connectors@, i as int));
                let Some(chosen) = best_mode(&connector.modes) else {
                    return Err(OpenError::NoModes);
                };
                let mode = connector.modes[chosen];
                assert(is_best_mode(connectors@[i as int].modes@, chosen as int));
                return Ok(
                    DisplaySetup {
                        connector: i,
                        crtc,
                        mode: chosen,
                        width: mode.width as i32,
                        height: mode.height as i32,
                        refresh: to_signed(mode.vrefresh) * 1000,
                    },
                );
            }
        }
        i = i + 1;
    }
    Err(OpenError::NoDisplay)
}

/// What is done while the session is not active yet.
#[derive(Clone, Copy, Debug, PartialEq, Eq, Structural)]
pub enum ActivationStep {
    Ready,
    GiveUp,
    /// Handle events for a while, and look again.
    Dispatch,
}

/// Decides what is done after having waited for some time for the session to become active.
pub fn wait_for_activation(is_active: bool, waited_ms: u64) -> (r: ActivationStep)
    ensures
        r == (if is_active {
            ActivationStep::Ready
        } else if waited_ms >= SESSION_ACTIVATION_TIMEOUT_MS {
            ActivationStep::GiveUp
        } else {
            ActivationStep::Dispatch
        }),
{
    if is_active {
        ActivationStep::Ready
    } else if waited_ms >= SESSION_ACTIVATION_TIMEOUT_MS {
        ActivationStep::GiveUp
    } else {
        ActivationStep::Dispatch
    }
}

/// Something that happens while the test runs.
#[derive(Clone, Copy, Debug, PartialEq, Eq, Structural)]
pub enum RunEvent {
    /// The display has shown a frame. Also says whether that could be noted.
    VBlank { submitted: bool },
    /// The display reports an error.
    DrmError,
    /// The session was paused.
    PauseSession,
}

/// What is done next.
#[derive(Clone, Copy, Debug, PartialEq, Eq, Structural)]
pub enum RunStep {
    /// Draw a frame. If that fails the test ends.
    Render,
    Stop,
}

/// The test while it runs.
#[derive(Clone, Copy, Debug, PartialEq, Eq, Structural)]
pub struct Run {
    pub frames_left: u32,
}

impl Run {
    /// Starts the test. The first frame is drawn without anything having happened.
    pub fn new() -> (r: Run)
        ensures
            r.frames_left == FRAME_COUNT,
    {
        Run { frames_left: FRAME_COUNT }
    }

    /// The test after something has happened.
    pub open spec fn after(self, event: RunEvent) -> Run {
        match event {
            RunEvent::VBlank { submitted: true } => Run { frames_left: (self.frames_left - 1) as u32 },
            _ => self,
        }
    }

    /// What is done after something has happened: another frame is drawn after one was shown, unless
    /// that was the last one.
    pub open spec fn step(self, event: RunEvent) -> RunStep {
        match event {
            RunEvent::VBlank { submitted: true } if self.frames_left != 1 => RunStep::Render,
            _ => RunStep::Stop,
        }
    }

    /// Decides what is done after something has happened.
    pub fn handle(&mut self, event: RunEvent) -> (r: RunStep)
        requires
            old(self).frames_left > 0,
        ensures
            r == old(self).step(event),
            *final(self) == old(self).after(event),
    {
        match event {
            RunEvent::VBlank { submitted } => {
                if !submitted {
                    return RunStep::Stop;
                }
                self.frames_left = self.frames_left - 1;
                if self.frames_left == 0 {
                    return RunStep::Stop;
                }
                RunStep::Render
            },
            RunEvent::DrmError | RunEvent::PauseSession => RunStep::Stop,
        }
    }

    /// How many frames are drawn from now on if nothing fails.
    pub open spec fn frames_to_draw(self) -> nat
        decreases self.frames_left,
    {
        if self.frames_left <= 0 {
            0
        } else if self.step(RunEvent::VBlank { submitted: true }) is Render {
            1 + self.after(RunEvent::VBlank { submitted: true }).frames_to_draw()
        } else {
            0
        }
    }
}

/// If nothing fails, a test draws one frame for each that it has left after the one that is shown, and
/// then ends. With the first one, which is drawn at the start, that makes as many as were asked for.
pub proof fn law_frames_drawn(run: Run)
    requires
        run.frames_left > 0,
    ensures
        1 + run.frames_to_draw() == run.frames_left,
    decreases run.frames_left,
{
    if run.frames_left > 1 {
        law_frames_drawn(run.after(RunEvent::VBlank { submitted: true }));
    }
}

} // verus!
