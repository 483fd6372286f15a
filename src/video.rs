//! Plain values handed to and taken from the native video layer: window and
//! renderer flags, message box and fullscreen codes, display modes, surface
//! formats, colors and rectangles.

use vstd::prelude::*;
use crate::pixel::PixelFormatEnum;

verus! {

/// Window x or y that centers the window along that axis.
pub const WINDOW_POSITION_CENTERED: i32 = 0x2FFF0000;

/// Window x or y that leaves the position along that axis undefined.
pub const WINDOW_POSITION_UNDEFINED: i32 = 0x1FFF0000;

/// Flags that a window may have, as the native bit mask.
#[derive(Debug, Clone, Copy, PartialEq, Eq, Structural)]
pub struct WindowFlags(pub u32);

impl WindowFlags {
    /// Flags with no bit set.
    pub fn empty() -> (r: Self)
        ensures
            r.0 == 0,
    {
        WindowFlags(0)
    }

    /// Whether any bit of `mask` is set.
    pub fn has(self, mask: u32) -> (r: bool)
        ensures
            r == (self.0 & mask != 0),
    {
        self.0 & mask != 0
    }

    /// The same flags with every bit of `mask` set (`bit`) or cleared.
    pub fn with(self, mask: u32, bit: bool) -> (r: Self)
        ensures
            r.0 == (if bit {
                self.0 | mask
            } else {
                self.0 & !mask
            }),
    {
        if bit {
            WindowFlags(self.0 | mask)
        } else {
            WindowFlags(self.0 & !mask)
        }
    }

    /// Whether the `fullscreen` flag is set.
    pub fn fullscreen(self) -> (r: bool)
        ensures
            r == (self.0 & 1u32 != 0),
    {
        self.has(1u32)
    }

    /// The same flags with `fullscreen` set or cleared.
    pub fn with_fullscreen(self, bit: bool) -> (r: Self)
        ensures
            r.0 == (if bit {
                self.0 | 1u32
            } else {
                self.0 & !1u32
            }),
    {
        self.with(1u32, bit)
    }

    /// Whether the `opengl` flag is set.
    pub fn opengl(self) -> (r: bool)
        ensures
            r == (self.0 & 2u32 != 0),
    {
        self.has(2u32)
    }

    /// The same flags with `opengl` set or cleared.
    pub fn with_opengl(self, bit: bool) -> (r: Self)
        ensures
            r.0 == (if bit {
                self.0 | 2u32
            } else {
                self.0 & !2u32
            }),
    {
        self.with(2u32, bit)
    }

    /// Whether the `shown` flag is set.
    pub fn shown(self) -> (r: bool)
        ensures
            r == (self.0 & 4u32 != 0),
    {
        self.has(4u32)
    }

    /// The same flags with `shown` set or cleared.
    pub fn with_shown(self, bit: bool) -> (r: Self)
        ensures
            r.0 == (if bit {
                self.0 | 4u32
            } else {
                self.0 & !4u32
            }),
    {
        self.with(4u32, bit)
    }

    /// Whether the `hidden` flag is set.
    pub fn hidden(self) -> (r: bool)
        ensures
            r == (self.0 & 8u32 != 0),
    {
        self.has(8u32)
    }

    /// The same flags with `hidden` set or cleared.
    pub fn with_hidden(self, bit: bool) -> (r: Self)
        ensures
            r.0 == (if bit {
                self.0 | 8u32
            } else {
                self.0 & !8u32
            }),
    {
        self.with(8u32, bit)
    }

    /// Whether the `borderless` flag is set.
    pub fn borderless(self) -> (r: bool)
        ensures
            r == (self.0 & 16u32 != 0),
    {
        self.has(16u32)
    }

    /// The same flags with `borderless` set or cleared.
    pub fn with_borderless(self, bit: bool) -> (r: Self)
        ensures
            r.0 == (if bit {
                self.0 | 16u32
            } else {
                self.0 & !16u32
            }),
    {
        self.with(16u32, bit)
    }

    /// Whether the `resizable` flag is set.
    pub fn resizable(self) -> (r: bool)
        ensures
            r == (self.0 & 32u32 != 0),
    {
        self.has(32u32)
    }

    /// The same flags with `resizable` set or cleared.
    pub fn with_resizable(self, bit: bool) -> (r: Self)
        ensures
            r.0 == (if bit {
                self.0 | 32u32
            } else {
                self.0 & !32u32
            }),
    {
        self.with(32u32, bit)
    }

    /// Whether the `minimized` flag is set.
    pub fn minimized(self) -> (r: bool)
        ensures
            r == (self.0 & 64u32 != 0),
    {
        self.has(64u32)
    }

    /// The same flags with `minimized` set or cleared.
    pub fn with_minimized(self, bit: bool) -> (r: Self)
        ensures
            r.0 == (if bit {
                self.0 | 64u32
            } else {
                self.0 & !64u32
            }),
    {
        self.with(64u32, bit)
    }

    /// Whether the `maximized` flag is set.
    pub fn maximized(self) -> (r: bool)
        ensures
            r == (self.0 & 128u32 != 0),
    {
        self.has(128u32)
    }

    /// The same flags with `maximized` set or cleared.
    pub fn with_maximized(self, bit: bool) -> (r: Self)
        ensures
            r.0 == (if bit {
                self.0 | 128u32
            } else {
                self.0 & !128u32
            }),
    {
        self.with(128u32, bit)
    }

    /// Whether the `input_grabbed` flag is set.
    pub fn input_grabbed(self) -> (r: bool)
        ensures
            r == (self.0 & 256u32 != 0),
    {
        self.has(256u32)
    }

    /// The same flags with `input_grabbed` set or cleared.
    pub fn with_input_grabbed(self, bit: bool) -> (r: Self)
        ensures
            r.0 == (if bit {
                self.0 | 256u32
            } else {
                self.0 & !256u32
            }),
    {
        self.with(256u32, bit)
    }

    /// Whether the `input_focus` flag is set.
    pub fn input_focus(self) -> (r: bool)
        ensures
            r == (self.0 & 512u32 != 0),
    {
        self.has(512u32)
    }

    /// The same flags with `input_focus` set or cleared.
    pub fn with_input_focus(self, bit: bool) -> (r: Self)
        ensures
            r.0 == (if bit {
                self.0 | 512u32
            } else {
                self.0 & !512u32
            }),
    {
        self.with(512u32, bit)
    }

    /// Whether the `mouse_focus` flag is set.
    pub fn mouse_focus(self) -> (r: bool)
        ensures
            r == (self.0 & 1024u32 != 0),
    {
        self.has(1024u32)
    }

    /// The same flags with `mouse_focus` set or cleared.
    pub fn with_mouse_focus(self, bit: bool) -> (r: Self)
        ensures
            r.0 == (if bit {
                self.0 | 1024u32
            } else {
                self.0 & !1024u32
            }),
    {
        self.with(1024u32, bit)
    }

    /// Whether the `fullscreen_desktop` flag is set.
    pub fn fullscreen_desktop(self) -> (r: bool)
        ensures
            r == (self.0 & 4097u32 != 0),
    {
        self.has(4097u32)
    }

    /// The same flags with `fullscreen_desktop` set or cleared.
    pub fn with_fullscreen_desktop(self, bit: bool) -> (r: Self)
        ensures
            r.0 == (if bit {
                self.0 | 4097u32
            } else {
                self.0 & !4097u32
            }),
    {
        self.with(4097u32, bit)
    }

    /// Whether the `foreign` flag is set.
    pub fn foreign(self) -> (r: bool)
        ensures
            r == (self.0 & 2048u32 != 0),
    {
        self.has(2048u32)
    }

    /// The same flags with `foreign` set or cleared.
    pub fn with_foreign(self, bit: bool) -> (r: Self)
        ensures
            r.0 == (if bit {
                self.0 | 2048u32
            } else {
                self.0 & !2048u32
            }),
    {
        self.with(2048u32, bit)
    }

    /// Whether the `allow_high_dpi` flag is set.
    /// Window should be created in high-DPI mode if supported.
    pub fn allow_high_dpi(self) -> (r: bool)
        ensures
            r == (self.0 & 8192u32 != 0),
    {
        self.has(8192u32)
    }

    /// The same flags with `allow_high_dpi` set or cleared.
    pub fn with_allow_high_dpi(self, bit: bool) -> (r: Self)
        ensures
            r.0 == (if bit {
                self.0 | 8192u32
            } else {
                self.0 & !8192u32
            }),
    {
        self.with(8192u32, bit)
    }

    /// Whether the `mouse_capture` flag is set.
    /// Distinct from "input grabbed".
    pub fn mouse_capture(self) -> (r: bool)
        ensures
            r == (self.0 & 16384u32 != 0),
    {
        self.has(16384u32)
    }

    /// The same flags with `mouse_capture` set or cleared.
    pub fn with_mouse_capture(self, bit: bool) -> (r: Self)
        ensures
            r.0 == (if bit {
                self.0 | 16384u32
            } else {
                self.0 & !16384u32
            }),
    {
        self.with(16384u32, bit)
    }

    /// Whether the `always_on_top` flag is set.
    pub fn always_on_top(self) -> (r: bool)
        ensures
            r == (self.0 & 32768u32 != 0),
    {
        self.has(32768u32)
    }

    /// The same flags with `always_on_top` set or cleared.
    pub fn with_always_on_top(self, bit: bool) -> (r: Self)
        ensures
            r.0 == (if bit {
                self.0 | 32768u32
            } else {
                self.0 & !32768u32
            }),
    {
        self.with(32768u32, bit)
    }

    /// Whether the `skip_taskbar` flag is set.
    /// Window should not be added to the taskbar list (a dialog box, for example).
    pub fn skip_taskbar(self) -> (r: bool)
        ensures
            r == (self.0 & 65536u32 != 0),
    {
        self.has(65536u32)
    }

    /// The same flags with `skip_taskbar` set or cleared.
    pub fn with_skip_taskbar(self, bit: bool) -> (r: Self)
        ensures
            r.0 == (if bit {
                self.0 | 65536u32
            } else {
                self.0 & !65536u32
            }),
    {
        self.with(65536u32, bit)
    }

    /// Whether the `utility` flag is set.
    pub fn utility(self) -> (r: bool)
        ensures
            r == (self.0 & 131072u32 != 0),
    {
        self.has(131072u32)
    }

    /// The same flags with `utility` set or cleared.
    pub fn with_utility(self, bit: bool) -> (r: Self)
        ensures
            r.0 == (if bit {
                self.0 | 131072u32
            } else {
                self.0 & !131072u32
            }),
    {
        self.with(131072u32, bit)
    }

    /// Whether the `tooltip` flag is set.
    pub fn tooltip(self) -> (r: bool)
        ensures
            r == (self.0 & 262144u32 != 0),
    {
        self.has(262144u32)
    }

    /// The same flags with `tooltip` set or cleared.
    pub fn with_tooltip(self, bit: bool) -> (r: Self)
        ensures
            r.0 == (if bit {
                self.0 | 262144u32
            } else {
                self.0 & !262144u32
            }),
    {
        self.with(262144u32, bit)
    }

    /// Whether the `popup_menu` flag is set.
    pub fn popup_menu(self) -> (r: bool)
        ensures
            r == (self.0 & 524288u32 != 0),
    {
        self.has(524288u32)
    }

    /// The same flags with `popup_menu` set or cleared.
    pub fn with_popup_menu(self, bit: bool) -> (r: Self)
        ensures
            r.0 == (if bit {
                self.0 | 524288u32
            } else {
                self.0 & !524288u32
            }),
    {
        self.with(524288u32, bit)
    }

    /// Whether the `vulkan` flag is set.
    pub fn vulkan(self) -> (r: bool)
        ensures
            r == (self.0 & 268435456u32 != 0),
    {
        self.has(268435456u32)
    }

    /// The same flags with `vulkan` set or cleared.
    pub fn with_vulkan(self, bit: bool) -> (r: Self)
        ensures
            r.0 == (if bit {
                self.0 | 268435456u32
            } else {
                self.0 & !268435456u32
            }),
    {
        self.with(268435456u32, bit)
    }

}

/// Flags for renderer creation, as the native bit mask.
#[derive(Debug, Clone, Copy, PartialEq, Eq, Structural)]
pub struct RendererFlags(pub u32);

impl RendererFlags {
    /// Flags with no bit set.
    pub fn empty() -> (r: Self)
        ensures
            r.0 == 0,
    {
        RendererFlags(0)
    }

    /// Whether any bit of `mask` is set.
    pub fn has(self, mask: u32) -> (r: bool)
        ensures
            r == (self.0 & mask != 0),
    {
        self.0 & mask != 0
    }

    /// The same flags with every bit of `mask` set (`bit`) or cleared.
    pub fn with(self, mask: u32, bit: bool) -> (r: Self)
        ensures
            r.0 == (if bit {
                self.0 | mask
            } else {
                self.0 & !mask
            }),
    {
        if bit {
            RendererFlags(self.0 | mask)
        } else {
            RendererFlags(self.0 & !mask)
        }
    }

    /// Whether the `accelerated` flag is set.
    pub fn accelerated(self) -> (r: bool)
        ensures
            r == (self.0 & 2u32 != 0),
    {
        self.has(2u32)
    }

    /// The same flags with `accelerated` set or cleared.
    pub fn with_accelerated(self, bit: bool) -> (r: Self)
        ensures
            r.0 == (if bit {
                self.0 | 2u32
            } else {
                self.0 & !2u32
            }),
    {
        self.with(2u32, bit)
    }

    /// Whether the `present_vsync` flag is set.
    pub fn present_vsync(self) -> (r: bool)
        ensures
            r == (self.0 & 4u32 != 0),
    {
        self.has(4u32)
    }

    /// The same flags with `present_vsync` set or cleared.
    pub fn with_present_vsync(self, bit: bool) -> (r: Self)
        ensures
            r.0 == (if bit {
                self.0 | 4u32
            } else {
                self.0 & !4u32
            }),
    {
        self.with(4u32, bit)
    }

    /// Whether the `software` flag is set.
    pub fn software(self) -> (r: bool)
        ensures
            r == (self.0 & 1u32 != 0),
    {
        self.has(1u32)
    }

    /// The same flags with `software` set or cleared.
    pub fn with_software(self, bit: bool) -> (r: Self)
        ensures
            r.0 == (if bit {
                self.0 | 1u32
            } else {
                self.0 & !1u32
            }),
    {
        self.with(1u32, bit)
    }

    /// Whether the `target_texture` flag is set.
    pub fn target_texture(self) -> (r: bool)
        ensures
            r == (self.0 & 8u32 != 0),
    {
        self.has(8u32)
    }

    /// The same flags with `target_texture` set or cleared.
    pub fn with_target_texture(self, bit: bool) -> (r: Self)
        ensures
            r.0 == (if bit {
                self.0 | 8u32
            } else {
                self.0 & !8u32
            }),
    {
        self.with(8u32, bit)
    }

}

/// The kind of a message box.
#[derive(Debug, Clone, Copy, PartialEq, Eq, Structural)]
pub enum MessageBox {
    Error,
    Warning,
    Information,
}

impl MessageBox {
    pub open spec fn spec_flag(self) -> u32 {
        match self {
            MessageBox::Error => 0x10,
            MessageBox::Warning => 0x20,
            MessageBox::Information => 0x40,
        }
    }

    /// The native severity flag.
    pub fn flag(self) -> (r: u32)
        ensures
            r == self.spec_flag(),
    {
        match self {
            MessageBox::Error => 0x10,
            MessageBox::Warning => 0x20,
            MessageBox::Information => 0x40,
        }
    }
}

/// A window's fullscreen style.
#[derive(Debug, Clone, Copy, PartialEq, Eq, Structural)]
pub enum FullscreenStyle {
    /// Performs an actual video mode change.
    Fullscreen,
    /// Full resolution without a video mode change.
    FullscreenDesktop,
    /// No fullscreen.
    Windowed,
}

impl FullscreenStyle {
    pub open spec fn spec_flag(self) -> u32 {
        match self {
            FullscreenStyle::Fullscreen => 1,
            FullscreenStyle::FullscreenDesktop => 4097,
            FullscreenStyle::Windowed => 0,
        }
    }

    /// The native window flags of this style.
    pub fn flag(self) -> (r: u32)
        ensures
            r == self.spec_flag(),
    {
        match self {
            FullscreenStyle::Fullscreen => 1,
            FullscreenStyle::FullscreenDesktop => 4097,
            FullscreenStyle::Windowed => 0,
        }
    }
}

/// A fullscreen display mode.
///
/// It carries the driver's own data as an address that callers cannot set:
/// zero for a mode built with `new`, and whatever the native layer gave for a
/// mode read from it, handed back unchanged.
#[derive(Debug, Clone, Copy, PartialEq, Eq, Structural)]
pub struct DisplayMode {
    /// The screen's format.
    pub format: PixelFormatEnum,
    /// Width, in logical units.
    pub width: i32,
    /// Height, in logical units.
    pub height: i32,
    /// Refresh rate in Hz, or 0 if unspecified.
    pub refresh_rate: i32,
    driver_data: usize,
}

impl DisplayMode {
    pub closed spec fn spec_format(self) -> PixelFormatEnum {
        self.format
    }

    pub closed spec fn spec_width(self) -> i32 {
        self.width
    }

    pub closed spec fn spec_height(self) -> i32 {
        self.height
    }

    pub closed spec fn spec_refresh_rate(self) -> i32 {
        self.refresh_rate
    }

    pub closed spec fn spec_driver_data(self) -> usize {
        self.driver_data
    }

    /// A display mode as given, with no driver data.
    pub fn new(format: PixelFormatEnum, width: i32, height: i32, refresh_rate: i32) -> (r: Self)
        ensures
            r.spec_format() == format,
            r.spec_width() == width,
            r.spec_height() == height,
            r.spec_refresh_rate() == refresh_rate,
            r.spec_driver_data() == 0,
    {
        DisplayMode { format, width, height, refresh_rate, driver_data: 0 }
    }

    /// A display mode as the native layer gave it.
    pub fn from_native(format: u32, width: i32, height: i32, refresh_rate: i32, driver_data: usize) -> (r:
        Self)
        ensures
            r.spec_format().spec_code() == format || (r.spec_format() == PixelFormatEnum::Unknown && forall|
                f: PixelFormatEnum,
            | f.spec_code() != format),
            r.spec_width() == width,
            r.spec_height() == height,
            r.spec_refresh_rate() == refresh_rate,
            r.spec_driver_data() == driver_data,
    {
        DisplayMode {
            format: PixelFormatEnum::from_code(format),
            width,
            height,
            refresh_rate,
            driver_data,
        }
    }

    /// The native format code of this mode.
    pub fn native_format(&self) -> (r: u32)
        ensures
            r == self.spec_format().spec_code(),
    {
        self.format.code()
    }

    /// The driver data to hand back to the native layer.
    pub fn driver_data(&self) -> (r: usize)
        ensures
            r == self.spec_driver_data(),
    {
        self.driver_data
    }
}

/// The layout of a new surface: indexed formats give a depth alone, direct
/// formats a depth and one bit mask per channel.
#[derive(Debug, Clone, Copy, PartialEq, Eq, Structural)]
pub enum SurfaceFormat {
    Indexed4,
    Indexed8,
    Direct16 { r_mask: u32, g_mask: u32, b_mask: u32, a_mask: u32 },
    Direct24 { r_mask: u32, g_mask: u32, b_mask: u32, a_mask: u32 },
    Direct32 { r_mask: u32, g_mask: u32, b_mask: u32, a_mask: u32 },
}

/// What the native surface constructor takes for a format: the depth in
/// bits, then the red, green, blue and alpha masks.
#[derive(Debug, Clone, Copy, PartialEq, Eq, Structural)]
pub struct SurfaceParams {
    pub depth: i32,
    pub r_mask: u32,
    pub g_mask: u32,
    pub b_mask: u32,
    pub a_mask: u32,
}

impl SurfaceFormat {
    pub open spec fn spec_params(self) -> SurfaceParams {
        match self {
            SurfaceFormat::Indexed4 => SurfaceParams {
                depth: 4,
                r_mask: 0,
                g_mask: 0,
                b_mask: 0,
                a_mask: 0,
            },
            SurfaceFormat::Indexed8 => SurfaceParams {
                depth: 8,
                r_mask: 0,
                g_mask: 0,
                b_mask: 0,
                a_mask: 0,
            },
            SurfaceFormat::Direct16 { r_mask, g_mask, b_mask, a_mask } => SurfaceParams {
                depth: 16,
                r_mask,
                g_mask,
                b_mask,
                a_mask,
            },
            SurfaceFormat::Direct24 { r_mask, g_mask, b_mask, a_mask } => SurfaceParams {
                depth: 24,
                r_mask,
                g_mask,
                b_mask,
                a_mask,
            },
            SurfaceFormat::Direct32 { r_mask, g_mask, b_mask, a_mask } => SurfaceParams {
                depth: 32,
                r_mask,
                g_mask,
                b_mask,
                a_mask,
            },
        }
    }

    /// The depth and channel masks of this format.
    pub fn params(self) -> (r: SurfaceParams)
        ensures
            r == self.spec_params(),
    {
        match self {
            SurfaceFormat::Indexed4 => SurfaceParams {
                depth: 4,
                r_mask: 0,
                g_mask: 0,
                b_mask: 0,
                a_mask: 0,
            },
            SurfaceFormat::Indexed8 => SurfaceParams {
                depth: 8,
                r_mask: 0,
                g_mask: 0,
                b_mask: 0,
                a_mask: 0,
            },
            SurfaceFormat::Direct16 { r_mask, g_mask, b_mask, a_mask } => SurfaceParams {
                depth: 16,
                r_mask,
                g_mask,
                b_mask,
                a_mask,
            },
            SurfaceFormat::Direct24 { r_mask, g_mask, b_mask, a_mask } => SurfaceParams {
                depth: 24,
                r_mask,
                g_mask,
                b_mask,
                a_mask,
            },
            SurfaceFormat::Direct32 { r_mask, g_mask, b_mask, a_mask } => SurfaceParams {
                depth: 32,
                r_mask,
                g_mask,
                b_mask,
                a_mask,
            },
        }
    }
}

/// The native renderer driver index: the index asked for, or -1 to take the
/// first driver that supports the flags.
pub fn driver_index_arg(driver_index: Option<usize>) -> (r: i32)
    ensures
        driver_index is None ==> r == -1,
        driver_index is Some ==> r == driver_index->Some_0 as i32,
{
    match driver_index {
        Some(u) => u as i32,
        None => -1,
    }
}

/// A color, independent of any pixel format.
#[derive(Debug, Clone, Copy, PartialEq, Eq, Structural)]
pub struct Color {
    pub r: u8,
    pub g: u8,
    pub b: u8,
    pub a: u8,
}

/// A rectangle, with its origin at the upper left.
#[derive(Debug, Clone, Copy, PartialEq, Eq, Structural)]
pub struct Rect {
    pub x: i32,
    pub y: i32,
    pub w: i32,
    pub h: i32,
}

/// A version number.
#[derive(Debug, Clone, Copy, PartialEq, Eq, Structural)]
pub struct Version {
    pub major: u8,
    pub minor: u8,
    pub patch: u8,
}

} // verus!
