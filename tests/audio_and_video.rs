use beryllium::audio::{
    change_flags, AudioError, AudioFormat, AudioQueue, DefaultAudioQueueRequest, ObtainedSpec,
};
use beryllium::lifetime::{ResourceKind, ResourceTree};
use beryllium::pixel::PixelFormatEnum;
use beryllium::video::{
    driver_index_arg, DisplayMode, FullscreenStyle, MessageBox, RendererFlags, SurfaceFormat,
    SurfaceParams, WindowFlags, WINDOW_POSITION_CENTERED, WINDOW_POSITION_UNDEFINED,
};

fn request(freq: bool, format: bool, channels: bool) -> DefaultAudioQueueRequest {
    DefaultAudioQueueRequest {
        frequency: 44100,
        format: AudioFormat(0x8010),
        channels: 2,
        samples: 4096,
        allow_frequency_change: freq,
        allow_format_change: format,
        allow_channels_change: channels,
    }
}

fn obtained(frequency: i32, format: u16, channels: u8) -> ObtainedSpec {
    ObtainedSpec { frequency, format: AudioFormat(format), channels, silence: 0, samples: 4096, size: 16384 }
}

#[test]
fn format_change_keeps_frequency() {
    let req = request(false, true, false);
    let q = AudioQueue::from_open(&req, 2, &obtained(44100, 0x8120, 2)).unwrap();
    assert_eq!(q.frequency(), 44100);
    assert_eq!(q.format(), AudioFormat(0x8120));
    assert!(q.is_paused());
    assert_eq!(q.device_id(), 2);
    assert_eq!(q.sample_count(), 4096);
    assert_eq!(q.buffer_size(), 16384);
    assert_eq!(q.silence(), 0);
    assert_eq!(q.channels(), 2);
    let bad = AudioQueue::from_open(&req, 2, &obtained(48000, 0x8120, 2));
    assert_eq!(bad.unwrap_err(), AudioError::FrequencyChanged);
}

#[test]
fn audio_errors() {
    let req = request(false, false, false);
    assert_eq!(AudioQueue::from_open(&req, 0, &obtained(44100, 0x8010, 2)).unwrap_err(), AudioError::OpenFailed);
    assert_eq!(AudioQueue::from_open(&req, 1, &obtained(44100, 0x8120, 2)).unwrap_err(), AudioError::FormatChanged);
    assert_eq!(AudioQueue::from_open(&req, 1, &obtained(44100, 0x8010, 1)).unwrap_err(), AudioError::ChannelsChanged);
    let any = request(true, true, true);
    let mut q = AudioQueue::from_open(&any, 1, &obtained(48000, 0x8120, 6)).unwrap();
    assert_eq!(q.frequency(), 48000);
    q.set_paused(false);
    assert!(!q.is_paused());
}

#[test]
fn audio_change_flags() {
    assert_eq!(change_flags(&request(false, false, false)), 0);
    assert_eq!(change_flags(&request(true, false, false)), 1);
    assert_eq!(change_flags(&request(false, true, false)), 2);
    assert_eq!(change_flags(&request(false, false, true)), 4);
    assert_eq!(change_flags(&request(true, true, true)), 7);
}

#[test]
fn window_flags_bits() {
    let f = WindowFlags::empty().with_shown(true).with_resizable(true);
    assert_eq!(f.0, 4 | 32);
    assert!(f.shown());
    assert!(f.resizable());
    assert!(!f.hidden());
    let g = f.with_shown(false);
    assert_eq!(g.0, 32);
    assert!(WindowFlags::empty().with_vulkan(true).vulkan());
    assert_eq!(WindowFlags::empty().with_fullscreen_desktop(true).0, 4097);
    assert!(WindowFlags(1).fullscreen_desktop());
    let r = RendererFlags::empty().with_accelerated(true).with_present_vsync(true);
    assert_eq!(r.0, 6);
    assert!(!r.software());
}

#[test]
fn native_codes() {
    assert_eq!(MessageBox::Error.flag(), 0x10);
    assert_eq!(MessageBox::Warning.flag(), 0x20);
    assert_eq!(MessageBox::Information.flag(), 0x40);
    assert_eq!(FullscreenStyle::Fullscreen.flag(), 1);
    assert_eq!(FullscreenStyle::FullscreenDesktop.flag(), 4097);
    assert_eq!(FullscreenStyle::Windowed.flag(), 0);
    assert_eq!(WINDOW_POSITION_CENTERED, 0x2FFF0000);
    assert_eq!(WINDOW_POSITION_UNDEFINED, 0x1FFF0000);
    assert_eq!(driver_index_arg(None), -1);
    assert_eq!(driver_index_arg(Some(2)), 2);
}

#[test]
fn display_mode_driver_data() {
    let m = DisplayMode::new(PixelFormatEnum::RGB888, 800, 600, 60);
    assert_eq!(m.driver_data(), 0);
    assert_eq!(m.native_format(), 370546692);
    let n = DisplayMode::from_native(373694468, 1024, 768, 0, 0xdead);
    assert_eq!(n.format, PixelFormatEnum::RGBA8888);
    assert_eq!(n.width, 1024);
    assert_eq!(n.driver_data(), 0xdead);
    let u = DisplayMode::from_native(5, 1, 1, 0, 0);
    assert_eq!(u.format, PixelFormatEnum::Unknown);
}

#[test]
fn surface_params() {
    assert_eq!(
        SurfaceFormat::Indexed8.params(),
        SurfaceParams { depth: 8, r_mask: 0, g_mask: 0, b_mask: 0, a_mask: 0 }
    );
    assert_eq!(SurfaceFormat::Indexed4.params().depth, 4);
    let d = SurfaceFormat::Direct32 { r_mask: 0xFF, g_mask: 0xFF00, b_mask: 0xFF0000, a_mask: 0xFF000000 };
    assert_eq!(
        d.params(),
        SurfaceParams { depth: 32, r_mask: 0xFF, g_mask: 0xFF00, b_mask: 0xFF0000, a_mask: 0xFF000000 }
    );
}

#[test]
fn texture_release_keeps_renderer() {
    let mut t = ResourceTree::new();
    let tok = t.init_token().unwrap();
    let win = t.acquire(tok, ResourceKind::Window).unwrap();
    let surf = t.acquire(tok, ResourceKind::Surface).unwrap();
    let ren = t.acquire(win, ResourceKind::Renderer).unwrap();
    let tex = t.acquire(ren, ResourceKind::Texture).unwrap();
    assert_eq!(SurfaceFormat::Indexed8.params().depth, 8);
    t.release(tex).unwrap();
    assert!(t.is_live(ren));
    assert!(t.is_live(surf));
    assert!(t.acquire(ren, ResourceKind::Texture).is_ok());
}
