use xd_engine::surface::{
    platform_extension, surface_route, DisplayHandleKind, Platform, SurfaceError, SurfaceRoute,
    WindowHandleKind, SURFACE_EXTENSION,
};

#[test]
fn every_platform_has_its_surface_extension() {
    assert_eq!(SURFACE_EXTENSION, "VK_KHR_surface");
    assert_eq!(platform_extension(Platform::MacOs), "VK_EXT_metal_surface");
    assert_eq!(platform_extension(Platform::Windows), "VK_KHR_win32_surface");
    assert_eq!(platform_extension(Platform::Linux), "VK_KHR_xlib_surface");
}

#[test]
fn native_windows_get_their_own_route() {
    assert_eq!(surface_route(Platform::MacOs, WindowHandleKind::AppKit, None), Ok(SurfaceRoute::Metal));
    assert_eq!(surface_route(Platform::Windows, WindowHandleKind::Win32, None), Ok(SurfaceRoute::Win32));
    assert_eq!(
        surface_route(Platform::Linux, WindowHandleKind::Xlib, Some(DisplayHandleKind::Xlib)),
        Ok(SurfaceRoute::Xlib)
    );
}

#[test]
fn an_x11_window_needs_an_xlib_display() {
    assert_eq!(
        surface_route(Platform::Linux, WindowHandleKind::Xlib, Some(DisplayHandleKind::Other)),
        Err(SurfaceError::DisplayNotXlib)
    );
    assert_eq!(surface_route(Platform::Linux, WindowHandleKind::Xlib, None), Err(SurfaceError::DisplayNotXlib));
}

#[test]
fn a_foreign_window_is_refused() {
    assert_eq!(surface_route(Platform::Linux, WindowHandleKind::Other, None), Err(SurfaceError::UnsupportedWindow));
    assert_eq!(surface_route(Platform::MacOs, WindowHandleKind::Win32, None), Err(SurfaceError::UnsupportedWindow));
    assert_eq!(
        SurfaceError::UnsupportedWindow.message(),
        "этот тип окна на данной платформе не поддержан (нужен AppKit/Win32/Xlib)"
    );
    assert_eq!(
        SurfaceError::DisplayNotXlib.message(),
        "окно на X11, но хендл дисплея не Xlib (Wayland?) — пока не поддержано"
    );
}
