//! Telling whether the foreground window is a full-screen application.

use vstd::prelude::*;

verus! {

/// Window style bit of a pop-up window.
pub const WS_POPUP: u32 = 0x8000_0000;

/// Window style bits of a title bar.
pub const WS_CAPTION: u32 = 0x00C0_0000;

/// Extended window style bit of a tool window.
pub const WS_EX_TOOLWINDOW: u32 = 0x0000_0080;

/// How far, in pixels, a pop-up window may fall short of the screen and
/// still count as covering it.
pub const BORDERLESS_SLACK: i32 = 10;

/// A full-screen application in the foreground.
#[derive(Debug, Clone, Copy, PartialEq, Eq, Structural)]
pub struct FullscreenApp {
    /// Handle of its window.
    pub hwnd: isize,
    /// Id of its process.
    pub process_id: u32,
    /// Width of its window, in pixels.
    pub width: i32,
    /// Height of its window, in pixels.
    pub height: i32,
}

/// The edges of a window, in screen coordinates.
#[derive(Debug, Clone, Copy, PartialEq, Eq, Structural)]
pub struct WindowRect {
    pub left: i32,
    pub top: i32,
    pub right: i32,
    pub bottom: i32,
}

impl WindowRect {
    /// Distance from the left edge to the right edge.
    pub open spec fn width(self) -> int {
        self.right - self.left
    }

    /// Distance from the top edge to the bottom edge.
    pub open spec fn height(self) -> int {
        self.bottom - self.top
    }

    /// Whether width and height are numbers that an `i32` holds.
    pub open spec fn has_i32_extent(self) -> bool {
        i32::MIN <= self.width() <= i32::MAX && i32::MIN <= self.height() <= i32::MAX
    }
}

/// Whether a window with the edges `rect` and the style `style` is
/// full-screen on a screen of the given size. It is if it covers the whole
/// screen from the top left corner on; or is a pop-up that falls short of
/// the screen by no more than `BORDERLESS_SLACK`; or has no title bar and
/// exactly the size of the screen.
pub open spec fn covers_screen(
    rect: WindowRect,
    screen_width: i32,
    screen_height: i32,
    style: u32,
) -> bool {
    ||| (rect.width() >= screen_width && rect.height() >= screen_height && rect.left <= 0
        && rect.top <= 0)
    ||| ((style & WS_POPUP) != 0 && rect.width() >= screen_width - BORDERLESS_SLACK
        && rect.height() >= screen_height - BORDERLESS_SLACK)
    ||| ((style & WS_CAPTION) == 0 && rect.width() == screen_width && rect.height()
        == screen_height)
}

/// Tells whether a window is full-screen on a screen of the given size.
pub fn is_window_fullscreen(
    rect: &WindowRect,
    screen_width: i32,
    screen_height: i32,
    style: u32,
) -> (fullscreen: bool)
    ensures
        fullscreen == covers_screen(*rect, screen_width, screen_height, style),
{
    let width: i64 = rect.right as i64 - rect.left as i64;
    let height: i64 = rect.bottom as i64 - rect.top as i64;
    let screen_w: i64 = screen_width as i64;
    let screen_h: i64 = screen_height as i64;
    if width >= screen_w && height >= screen_h && rect.left <= 0 && rect.top <= 0 {
        return true;
    }
    if (style & WS_POPUP) != 0 && width >= screen_w - BORDERLESS_SLACK as i64 && height
        >= screen_h - BORDERLESS_SLACK as i64 {
        return true;
    }
    (style & WS_CAPTION) == 0 && width == screen_w && height == screen_h
}

/// What was found out about the foreground window.
#[derive(Debug, Clone, Copy, PartialEq, Eq, Structural)]
pub struct WindowProbe {
    /// Handle of the window; 0 where there is no foreground window.
    pub hwnd: isize,
    /// Whether the window is visible.
    pub visible: bool,
    /// Whether the window is cloaked, as one on another virtual desktop is.
    pub cloaked: bool,
    /// Its window style.
    pub style: u32,
    /// Its extended window style.
    pub ex_style: u32,
    /// Its edges, where they could be had.
    pub rect: Option<WindowRect>,
    /// Width of the primary screen.
    pub screen_width: i32,
    /// Height of the primary screen.
    pub screen_height: i32,
    /// Id of the process that owns the window.
    pub process_id: u32,
}

impl WindowProbe {
    /// Whether the probed window is a full-screen application: a visible
    /// window that is not cloaked and no tool window, whose edges are known
    /// and cover the screen.
    pub open spec fn is_fullscreen_app(self) -> bool {
        &&& self.hwnd != 0
        &&& self.visible
        &&& !self.cloaked
        &&& (self.ex_style & WS_EX_TOOLWINDOW) == 0
        &&& self.rect matches Some(rect) && covers_screen(
            rect,
            self.screen_width,
            self.screen_height,
            self.style,
        )
    }
}

/// Returns the full-screen application that the probe shows, if it shows
/// one, with the size of its window.
pub fn get_fullscreen_app(probe: &WindowProbe) -> (app: Option<FullscreenApp>)
    requires
        probe.rect matches Some(rect) ==> rect.has_i32_extent(),
    ensures
        app is Some <==> probe.is_fullscreen_app(),
        app matches Some(found) ==> probe.rect matches Some(rect) && found == (FullscreenApp {
            hwnd: probe.hwnd,
            process_id: probe.process_id,
            width: rect.width() as i32,
            height: rect.height() as i32,
        }),
{
    if probe.hwnd == 0 || !probe.visible || probe.cloaked {
        return None;
    }
    if (probe.ex_style & WS_EX_TOOLWINDOW) != 0 {
        return None;
    }
    match probe.rect {
        None => None,
        Some(rect) => {
            if is_window_fullscreen(&rect, probe.screen_width, probe.screen_height, probe.style) {
                Some(
                    FullscreenApp {
                        hwnd: probe.hwnd,
                        process_id: probe.process_id,
                        width: rect.right - rect.left,
                        height: rect.bottom - rect.top,
                    },
                )
            } else {
                None
            }
        },
    }
}

} // verus!
