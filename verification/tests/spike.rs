use niri::spike::{
    check_color_attachment_support, fourcc_to_wgpu_format, import_dmabuf_as_color_target,
    match_physical_device, open_compositor, wait_for_activation, ActivationStep, BufferFd,
    ConnectorView, DeviceExtension, DmabufFault, DmabufView, Fourcc, MatchError, ModeView,
    ModifierProperties, OpenError, PhysicalDeviceView, Run, RunEvent, RunStep, TextureFormat,
    WgpuRendererError, FRAME_COUNT, SESSION_ACTIVATION_TIMEOUT_MS, WATCHDOG_TIMEOUT_MS,
};

fn buffer() -> DmabufView {
    DmabufView {
        num_planes: 1,
        width: 640,
        height: 480,
        code: Fourcc::Xrgb8888,
        modifier: 0,
        stride: Some(2560),
        offset: None,
        fd: BufferFd::Duplicated,
    }
}

#[test]
fn formats_have_the_same_bytes() {
    assert_eq!(fourcc_to_wgpu_format(Fourcc::Argb8888), Some(TextureFormat::Bgra8Unorm));
    assert_eq!(fourcc_to_wgpu_format(Fourcc::Xbgr8888), Some(TextureFormat::Rgba8Unorm));
    assert_eq!(fourcc_to_wgpu_format(Fourcc::Other(1)), None);
}

#[test]
fn buffers_are_imported() {
    let texture = import_dmabuf_as_color_target(&buffer()).unwrap();
    assert_eq!((texture.width, texture.height), (640, 480));
    assert_eq!((texture.stride, texture.offset), (2560, 0));
    assert_eq!(texture.format, TextureFormat::Bgra8Unorm);
    let fault = |view| match import_dmabuf_as_color_target(&view) {
        Err(WgpuRendererError::Dmabuf(fault)) => fault,
        Ok(_) => panic!(),
    };
    assert_eq!(fault(DmabufView { num_planes: 2, ..buffer() }), DmabufFault::NotSinglePlane(2));
    assert_eq!(fault(DmabufView { stride: None, ..buffer() }), DmabufFault::NoStrides);
    assert_eq!(fault(DmabufView { fd: BufferFd::Missing, ..buffer() }), DmabufFault::NoFd);
    assert_eq!(
        fault(DmabufView { fd: BufferFd::NotDuplicated, ..buffer() }),
        DmabufFault::FdNotDuplicated
    );
    assert_eq!(
        fault(DmabufView { code: Fourcc::Other(5), ..buffer() }),
        DmabufFault::UnsupportedFormat(Fourcc::Other(5))
    );
}

fn device(render_node: Option<u64>) -> PhysicalDeviceView {
    PhysicalDeviceView {
        render_node,
        external_memory_fd: true,
        external_memory_dma_buf: true,
        image_drm_format_modifier: true,
        modifiers: vec![
            ModifierProperties { drm_format_modifier: 3, color_attachment: true },
            ModifierProperties { drm_format_modifier: 0, color_attachment: true },
        ],
    }
}

#[test]
fn devices_are_matched() {
    let devices = vec![device(None), device(Some(128)), device(Some(129))];
    assert_eq!(match_physical_device(&devices, 129, 0), Ok(2));
    assert_eq!(match_physical_device(&devices, 130, 0), Err(MatchError::NoDevice));
    assert_eq!(match_physical_device(&devices, 128, 7), Err(MatchError::NoColorAttachment));
    let mut lacking = device(Some(1));
    lacking.external_memory_dma_buf = false;
    lacking.image_drm_format_modifier = false;
    assert_eq!(
        match_physical_device(&vec![lacking], 1, 0),
        Err(MatchError::MissingExtension(DeviceExtension::ExternalMemoryDmaBuf))
    );
    let none = vec![ModifierProperties { drm_format_modifier: 0, color_attachment: false }];
    assert!(!check_color_attachment_support(&none, 0));
}

#[test]
fn displays_are_opened_in_their_preferred_mode() {
    let mode = |width, preferred| ModeView { width, height: 480, vrefresh: 60, preferred };
    let connector = |connected, crtc, modes| ConnectorView { connected, crtc, modes };
    let connectors = vec![
        connector(false, Some(1), vec![mode(1, true)]),
        connector(true, None, vec![mode(2, true)]),
        connector(true, Some(3), vec![mode(640, false), mode(800, true), mode(900, true)]),
    ];
    let setup = open_compositor(&connectors).unwrap();
    assert_eq!((setup.connector, setup.crtc, setup.mode), (2, 3, 1));
    assert_eq!((setup.width, setup.height, setup.refresh), (800, 480, 60_000));
    let plain = vec![connector(true, Some(3), vec![mode(640, false), mode(800, false)])];
    assert_eq!(open_compositor(&plain).unwrap().mode, 0);
    let bare = vec![connector(true, Some(3), vec![])];
    assert_eq!(open_compositor(&bare), Err(OpenError::NoModes));
    assert_eq!(open_compositor(&vec![]), Err(OpenError::NoDisplay));
}

#[test]
fn the_session_has_some_time_to_become_active() {
    assert_eq!(wait_for_activation(true, 9999), ActivationStep::Ready);
    assert_eq!(wait_for_activation(false, 4999), ActivationStep::Dispatch);
    assert_eq!(
        wait_for_activation(false, SESSION_ACTIVATION_TIMEOUT_MS),
        ActivationStep::GiveUp
    );
    assert_eq!(WATCHDOG_TIMEOUT_MS, 60_000);
}

#[test]
fn the_test_draws_its_frames() {
    let mut run = Run::new();
    let mut drawn = 1;
    while run.handle(RunEvent::VBlank { submitted: true }) == RunStep::Render {
        drawn += 1;
    }
    assert_eq!(drawn, FRAME_COUNT);
    assert_eq!(run.frames_left, 0);
    let mut run = Run::new();
    assert_eq!(run.handle(RunEvent::VBlank { submitted: false }), RunStep::Stop);
    assert_eq!(run.handle(RunEvent::DrmError), RunStep::Stop);
    assert_eq!(run.handle(RunEvent::PauseSession), RunStep::Stop);
    assert_eq!(run.frames_left, FRAME_COUNT);
}
