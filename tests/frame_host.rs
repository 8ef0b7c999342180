use frame_host::host::{HostAction, HostEvent, HostPhase, WindowHost};
use frame_host::settings::{window_settings, PowerPreference, PresentMode, WindowSettings};
use frame_host::state::{FrameCommand, GraphicsState, SurfaceError};
use frame_host::surface::{
    build_config, choose_format_index, select_format, select_present_mode, srgb_flags,
    SurfaceCapabilities, SurfaceConfig, SurfaceSize,
};
use wgpu::{CompositeAlphaMode, TextureFormat};

fn size(width: u32, height: u32) -> SurfaceSize {
    SurfaceSize { width, height }
}

fn caps(formats: Vec<TextureFormat>, present_modes: Vec<PresentMode>) -> SurfaceCapabilities {
    SurfaceCapabilities {
        formats,
        present_modes,
        alpha_modes: vec![CompositeAlphaMode::Opaque, CompositeAlphaMode::PreMultiplied],
    }
}

fn standard_caps() -> SurfaceCapabilities {
    caps(
        vec![TextureFormat::Rgba8Unorm, TextureFormat::Bgra8UnormSrgb, TextureFormat::Rgba16Float],
        vec![PresentMode::Fifo, PresentMode::Immediate],
    )
}

fn frame_draws() -> Vec<HostAction> {
    vec![
        HostAction::Draw(FrameCommand::CreateView),
        HostAction::Draw(FrameCommand::BeginEncoder),
        HostAction::Draw(FrameCommand::ClearPass),
        HostAction::Draw(FrameCommand::Submit),
        HostAction::Draw(FrameCommand::Present),
        HostAction::RequestRedraw,
    ]
}

fn running_host(window: SurfaceSize) -> WindowHost {
    let mut host = WindowHost::new();
    assert_eq!(host.handle_event(HostEvent::Resumed), vec![HostAction::Initialize]);
    let state = GraphicsState::initialize(window, &standard_caps(), &window_settings());
    assert!(state.is_some());
    assert_eq!(host.initialized(state), vec![HostAction::RequestRedraw]);
    assert_eq!(host.phase(), HostPhase::Running);
    host
}

#[test]
fn default_settings() {
    let s = window_settings();
    assert_eq!(
        s,
        WindowSettings {
            power_preference: PowerPreference::NoPreference,
            present_mode: PresentMode::Immediate,
            desired_max_buffer: 2,
        }
    );
}

#[test]
fn format_index_picks_first_srgb() {
    assert_eq!(choose_format_index(&vec![false, true, true]), Some(1));
    assert_eq!(choose_format_index(&vec![true, false]), Some(0));
}

#[test]
fn format_index_falls_back_to_first() {
    assert_eq!(choose_format_index(&vec![false, false, false]), Some(0));
    assert_eq!(choose_format_index(&vec![]), None);
}

#[test]
fn srgb_flags_follow_formats() {
    let flags = srgb_flags(&vec![
        TextureFormat::Rgba8Unorm,
        TextureFormat::Bgra8UnormSrgb,
        TextureFormat::Rgba8UnormSrgb,
    ]);
    assert_eq!(flags, vec![false, true, true]);
}

#[test]
fn select_format_prefers_srgb() {
    let formats =
        vec![TextureFormat::Rgba8Unorm, TextureFormat::Bgra8UnormSrgb, TextureFormat::Rgba16Float];
    assert_eq!(select_format(&formats), Some(TextureFormat::Bgra8UnormSrgb));
}

#[test]
fn select_format_without_srgb_takes_first() {
    let formats =
        vec![TextureFormat::Rgba8Unorm, TextureFormat::Bgra8Unorm, TextureFormat::Rgba16Float];
    assert_eq!(select_format(&formats), Some(TextureFormat::Rgba8Unorm));
    assert_eq!(select_format(&vec![]), None);
}

#[test]
fn present_mode_desired_when_supported() {
    let modes = vec![PresentMode::Fifo, PresentMode::Immediate];
    assert_eq!(select_present_mode(&modes, PresentMode::Immediate), Some(PresentMode::Immediate));
}

#[test]
fn present_mode_falls_back_to_first() {
    let modes = vec![PresentMode::Fifo, PresentMode::Mailbox];
    assert_eq!(select_present_mode(&modes, PresentMode::Immediate), Some(PresentMode::Fifo));
    assert_eq!(select_present_mode(&vec![], PresentMode::Immediate), None);
}

#[test]
fn build_config_fills_every_field() {
    let settings = window_settings();
    let c = build_config(size(640, 480), TextureFormat::Bgra8UnormSrgb, &standard_caps(), &settings);
    assert_eq!(
        c,
        Some(SurfaceConfig {
            format: TextureFormat::Bgra8UnormSrgb,
            width: 640,
            height: 480,
            present_mode: PresentMode::Immediate,
            alpha_mode: CompositeAlphaMode::Opaque,
            desired_maximum_frame_latency: 2,
        })
    );
}

#[test]
fn build_config_needs_every_capability() {
    let settings = window_settings();
    let mut c = standard_caps();
    c.alpha_modes = vec![];
    assert_eq!(build_config(size(1, 1), TextureFormat::Rgba8Unorm, &c, &settings), None);
    let mut c = standard_caps();
    c.present_modes = vec![];
    assert_eq!(build_config(size(1, 1), TextureFormat::Rgba8Unorm, &c, &settings), None);
    let mut c = standard_caps();
    c.formats = vec![];
    assert!(GraphicsState::initialize(size(1, 1), &c, &settings).is_none());
}

#[test]
fn initialize_negotiates_configuration() {
    let settings = WindowSettings {
        power_preference: PowerPreference::HighPerformance,
        present_mode: PresentMode::Mailbox,
        desired_max_buffer: 3,
    };
    let c = caps(
        vec![TextureFormat::Rgba8Unorm, TextureFormat::Bgra8Unorm],
        vec![PresentMode::Fifo, PresentMode::Immediate],
    );
    let state = GraphicsState::initialize(size(1024, 768), &c, &settings).unwrap();
    assert_eq!(state.size(), size(1024, 768));
    let config = state.config();
    assert_eq!(config.format, TextureFormat::Rgba8Unorm);
    assert_eq!(config.present_mode, PresentMode::Fifo);
    assert_eq!(config.alpha_mode, CompositeAlphaMode::Opaque);
    assert_eq!(config.desired_maximum_frame_latency, 3);
    assert_eq!((config.width, config.height), (1024, 768));
}

#[test]
fn resize_updates_size_and_config() {
    let mut state = GraphicsState::initialize(size(800, 600), &standard_caps(), &window_settings()).unwrap();
    assert!(state.resize(size(1920, 1080)));
    assert_eq!(state.size(), size(1920, 1080));
    assert_eq!((state.config().width, state.config().height), (1920, 1080));
}

#[test]
fn resize_twice_is_idempotent() {
    let mut state = GraphicsState::initialize(size(800, 600), &standard_caps(), &window_settings()).unwrap();
    state.resize(size(300, 200));
    let first = state.config();
    state.resize(size(300, 200));
    assert_eq!(state.config(), first);
    assert_eq!(state.size(), size(300, 200));
}

#[test]
fn resize_to_zero_area_is_ignored() {
    let mut state = GraphicsState::initialize(size(800, 600), &standard_caps(), &window_settings()).unwrap();
    let before = state.config();
    assert!(!state.resize(size(0, 600)));
    assert!(!state.resize(size(800, 0)));
    assert!(!state.resize(size(0, 0)));
    assert_eq!(state.config(), before);
    assert_eq!(state.size(), size(800, 600));
}

#[test]
fn render_frame_plans_one_submit_and_present() {
    let state = GraphicsState::initialize(size(800, 600), &standard_caps(), &window_settings()).unwrap();
    let plan = state.render_frame(Ok(())).unwrap();
    assert_eq!(
        plan,
        vec![
            FrameCommand::CreateView,
            FrameCommand::BeginEncoder,
            FrameCommand::ClearPass,
            FrameCommand::Submit,
            FrameCommand::Present,
        ]
    );
    assert_eq!(plan.iter().filter(|c| **c == FrameCommand::Submit).count(), 1);
    assert_eq!(plan.iter().filter(|c| **c == FrameCommand::Present).count(), 1);
}

#[test]
fn render_frame_hands_back_acquire_errors() {
    let state = GraphicsState::initialize(size(800, 600), &standard_caps(), &window_settings()).unwrap();
    for e in [SurfaceError::Timeout, SurfaceError::Outdated, SurfaceError::Lost, SurfaceError::OutOfMemory] {
        assert_eq!(state.render_frame(Err(e)), Err(e));
    }
}

#[test]
fn host_ignores_events_before_initialization() {
    let mut host = WindowHost::new();
    assert_eq!(host.phase(), HostPhase::Uninitialized);
    assert!(host.state().is_none());
    assert!(host.handle_event(HostEvent::RedrawRequested).is_empty());
    assert!(host.handle_event(HostEvent::Resized(size(10, 10))).is_empty());
    assert!(host.frame_acquired(Ok(())).is_empty());
    assert_eq!(host.phase(), HostPhase::Uninitialized);
}

#[test]
fn failed_initialization_terminates() {
    let mut host = WindowHost::new();
    assert_eq!(host.initialized(None), vec![HostAction::Exit]);
    assert_eq!(host.phase(), HostPhase::Terminated);
}

#[test]
fn second_resume_does_not_reinitialize() {
    let mut host = running_host(size(800, 600));
    assert!(host.handle_event(HostEvent::Resumed).is_empty());
    let other = GraphicsState::initialize(size(5, 5), &standard_caps(), &window_settings());
    assert!(host.initialized(other).is_empty());
    assert_eq!(host.state().unwrap().size(), size(800, 600));
}

#[test]
fn redraw_renders_and_requests_next() {
    let mut host = running_host(size(800, 600));
    assert_eq!(host.handle_event(HostEvent::RedrawRequested), vec![HostAction::RenderFrame]);
    assert_eq!(host.frame_acquired(Ok(())), frame_draws());
    assert_eq!(host.phase(), HostPhase::Running);
}

#[test]
fn host_resize_reconfigures() {
    let mut host = running_host(size(800, 600));
    let actions = host.handle_event(HostEvent::Resized(size(1280, 720)));
    let config = host.state().unwrap().config();
    assert_eq!((config.width, config.height), (1280, 720));
    assert_eq!(actions, vec![HostAction::Reconfigure(config)]);
    assert!(host.handle_event(HostEvent::Resized(size(0, 0))).is_empty());
    assert_eq!(host.state().unwrap().size(), size(1280, 720));
    assert!(host.handle_event(HostEvent::Other).is_empty());
}

#[test]
fn surface_lost_reconfigures_with_cached_size() {
    let mut host = running_host(size(800, 600));
    host.handle_event(HostEvent::Resized(size(640, 360)));
    let config = host.state().unwrap().config();
    let actions = host.frame_acquired(Err(SurfaceError::Lost));
    assert_eq!(actions, vec![HostAction::Reconfigure(config), HostAction::RequestRedraw]);
    assert_eq!((config.width, config.height), (640, 360));
    assert_eq!(host.phase(), HostPhase::Running);
}

#[test]
fn out_of_memory_terminates() {
    let mut host = running_host(size(800, 600));
    assert_eq!(host.frame_acquired(Err(SurfaceError::OutOfMemory)), vec![HostAction::Exit]);
    assert_eq!(host.phase(), HostPhase::Terminated);
    assert!(host.handle_event(HostEvent::RedrawRequested).is_empty());
    assert!(host.frame_acquired(Ok(())).is_empty());
}

#[test]
fn other_acquire_errors_skip_the_frame() {
    let mut host = running_host(size(800, 600));
    for e in [SurfaceError::Timeout, SurfaceError::Outdated] {
        assert_eq!(host.frame_acquired(Err(e)), vec![HostAction::Report(e), HostAction::RequestRedraw]);
        assert_eq!(host.phase(), HostPhase::Running);
    }
}

#[test]
fn close_request_terminates() {
    let mut host = running_host(size(800, 600));
    assert_eq!(host.handle_event(HostEvent::CloseRequested), vec![HostAction::Exit]);
    assert_eq!(host.phase(), HostPhase::Terminated);
    assert!(host.handle_event(HostEvent::RedrawRequested).is_empty());
    assert!(host.handle_event(HostEvent::Resized(size(100, 100))).is_empty());
    assert!(host.handle_event(HostEvent::CloseRequested).is_empty());
    assert!(host.frame_acquired(Err(SurfaceError::Lost)).is_empty());
    assert_eq!(host.state().unwrap().size(), size(800, 600));
}

#[test]
fn close_before_initialization_terminates() {
    let mut host = WindowHost::new();
    assert_eq!(host.handle_event(HostEvent::CloseRequested), vec![HostAction::Exit]);
    assert_eq!(host.phase(), HostPhase::Terminated);
    assert!(host.handle_event(HostEvent::Resumed).is_empty());
}

#[test]
fn end_to_end_immediate_800_by_600() {
    let mut host = running_host(size(800, 600));
    let config = host.state().unwrap().config();
    assert_eq!(config.present_mode, PresentMode::Immediate);
    assert_eq!((config.width, config.height), (800, 600));
    let actions = host.handle_event(HostEvent::Resized(size(400, 300)));
    let config = host.state().unwrap().config();
    assert_eq!((config.width, config.height), (400, 300));
    assert_eq!(actions, vec![HostAction::Reconfigure(config)]);
    assert_eq!(host.handle_event(HostEvent::RedrawRequested), vec![HostAction::RenderFrame]);
    assert_eq!(host.frame_acquired(Ok(())), frame_draws());
    assert_eq!(host.state().unwrap().size(), size(400, 300));
}
