//! Which window-system surface the window gets: Metal on macOS, Win32 on
//! Windows, Xlib on Linux. Wayland is not supported yet.

use vstd::prelude::*;

verus! {

/// The generic surface extension every platform needs.
pub const SURFACE_EXTENSION: &'static str = "VK_KHR_surface";

#[derive(Clone, Copy, Debug, PartialEq, Eq, Structural)]
pub enum Platform {
    MacOs,
    Windows,
    Linux,
}

/// The kind of native handle the window system gave for the window.
#[derive(Clone, Copy, Debug, PartialEq, Eq, Structural)]
pub enum WindowHandleKind {
    AppKit,
    Win32,
    Xlib,
    Other,
}

/// The kind of native handle of the display an X11 window lives on.
#[derive(Clone, Copy, Debug, PartialEq, Eq, Structural)]
pub enum DisplayHandleKind {
    Xlib,
    Other,
}

/// How the surface is created.
#[derive(Clone, Copy, Debug, PartialEq, Eq, Structural)]
pub enum SurfaceRoute {
    /// Attach a `CAMetalLayer` to the view and call `vkCreateMetalSurfaceEXT`.
    Metal,
    /// `vkCreateWin32SurfaceKHR`.
    Win32,
    /// `vkCreateXlibSurfaceKHR`, once the display handle is known to be Xlib.
    Xlib,
}

#[derive(Clone, Copy, Debug, PartialEq, Eq, Structural)]
pub enum SurfaceError {
    /// The window is on X11 but the display handle is not Xlib (Wayland?).
    DisplayNotXlib,
    /// This kind of window is not supported on this platform.
    UnsupportedWindow,
}

impl SurfaceError {
    pub fn message(&self) -> (text: String)
        ensures
            *self == SurfaceError::DisplayNotXlib ==> text@
                == "окно на X11, но хендл дисплея не Xlib (Wayland?) — пока не поддержано"@,
            *self == SurfaceError::UnsupportedWindow ==> text@
                == "этот тип окна на данной платформе не поддержан (нужен AppKit/Win32/Xlib)"@,
    {
        match self {
            SurfaceError::DisplayNotXlib => String::from_str(
                "окно на X11, но хендл дисплея не Xlib (Wayland?) — пока не поддержано",
            ),
            SurfaceError::UnsupportedWindow => String::from_str(
                "этот тип окна на данной платформе не поддержан (нужен AppKit/Win32/Xlib)",
            ),
        }
    }
}

/// The platform's surface extension.
pub fn platform_extension(platform: Platform) -> (name: &'static str)
    ensures
        platform == Platform::MacOs ==> name@ == "VK_EXT_metal_surface"@,
        platform == Platform::Windows ==> name@ == "VK_KHR_win32_surface"@,
        platform == Platform::Linux ==> name@ == "VK_KHR_xlib_surface"@,
{
    match platform {
        Platform::MacOs => "VK_EXT_metal_surface",
        Platform::Windows => "VK_KHR_win32_surface",
        Platform::Linux => "VK_KHR_xlib_surface",
    }
}

/// The route for a window: the platform's own kind of window, and on Linux an
/// Xlib display (asked for only then: `display` is `None` when it was not
/// needed or not obtained).
pub fn surface_route(
    platform: Platform,
    window: WindowHandleKind,
    display: Option<DisplayHandleKind>,
) -> (route: Result<SurfaceRoute, SurfaceError>)
    ensures
        platform == Platform::MacOs && window == WindowHandleKind::AppKit ==> route
            == Ok::<SurfaceRoute, SurfaceError>(SurfaceRoute::Metal),
        platform == Platform::Windows && window == WindowHandleKind::Win32 ==> route
            == Ok::<SurfaceRoute, SurfaceError>(SurfaceRoute::Win32),
        platform == Platform::Linux && window == WindowHandleKind::Xlib ==> route == if display
            == Some(DisplayHandleKind::Xlib) {
            Ok::<SurfaceRoute, SurfaceError>(SurfaceRoute::Xlib)
        } else {
            Err::<SurfaceRoute, SurfaceError>(SurfaceError::DisplayNotXlib)
        },
        !(platform == Platform::MacOs && window == WindowHandleKind::AppKit) && !(platform
            == Platform::Windows && window == WindowHandleKind::Win32) && !(platform == Platform::Linux
            && window == WindowHandleKind::Xlib) ==> route == Err::<SurfaceRoute, SurfaceError>(
            SurfaceError::UnsupportedWindow,
        ),
{
    match (platform, window) {
        (Platform::MacOs, WindowHandleKind::AppKit) => Ok(SurfaceRoute::Metal),
        (Platform::Windows, WindowHandleKind::Win32) => Ok(SurfaceRoute::Win32),
        (Platform::Linux, WindowHandleKind::Xlib) => match display {
            Some(DisplayHandleKind::Xlib) => Ok(SurfaceRoute::Xlib),
            _ => Err(SurfaceError::DisplayNotXlib),
        },
        _ => Err(SurfaceError::UnsupportedWindow),
    }
}

} // verus!
