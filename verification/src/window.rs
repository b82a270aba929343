//! The window object: a fixed-size native window's state as the application
//! sees it, with edge-triggered close/redraw request flags and the routing
//! rules for window-system messages.
//!
//! The window system delivers messages by native handle; the association of
//! handles with [`WindowInner`] values lives in
//! [`crate::bridge::WindowHandleBridge`]. Creating, showing and destroying
//! the native window are platform calls made by the surrounding application;
//! this module holds the state those calls read and update.

use vstd::prelude::*;

use crate::geom::Size2D;

verus! {

/// Window-paint notification. Sets the redraw request; still forwarded.
pub const WM_PAINT: u32 = 0x000F;

/// Window-close notification. Sets the close request; consumed.
pub const WM_CLOSE: u32 = 0x0010;

/// First structural creation notification, delivered while the native
/// window is being created. The bridge stores the association when it
/// arrives.
pub const WM_NCCREATE: u32 = 0x0081;

/// Final destruction notification. The bridge clears the stored
/// association exactly once when it arrives.
pub const WM_NCDESTROY: u32 = 0x0082;

/// The system theme a window's title bar follows.
#[derive(Clone, Copy, Debug, PartialEq, Eq, Structural)]
pub enum Theme {
    /// Dark title bar.
    DarkMode,
    /// Light title bar.
    LightMode,
}

/// Spec-level summary of a window object.
pub ghost struct WindowView {
    /// The native window handle; `0` once the window has been destroyed on
    /// the platform side (or before a handle has been attached).
    pub hwnd: int,
    /// Fixed size of the window's client area.
    pub size: Size2D,
    /// The window's title.
    pub title: Seq<char>,
    /// The theme the title bar follows.
    pub theme: Theme,
    /// An outstanding close request from the platform side.
    pub close_request: bool,
    /// An outstanding paint request from the platform side.
    pub redraw_request: bool,
}

/// What a message does to a window: the new window state, and whether the
/// message is consumed (`true`) or must still be forwarded to the default
/// window procedure (`false`).
///
/// `input_claimed` reports whether the keyboard/input adapter recognized
/// the message; a claimed message is consumed without touching the window
/// state here.
pub open spec fn route_message(w: WindowView, umsg: u32, input_claimed: bool) -> (WindowView, bool) {
    if input_claimed {
        (w, true)
    } else if umsg == WM_PAINT {
        ((WindowView { redraw_request: true, ..w }), false)
    } else if umsg == WM_CLOSE {
        ((WindowView { close_request: true, ..w }), true)
    } else if umsg == WM_NCDESTROY {
        ((WindowView { hwnd: 0, ..w }), false)
    } else {
        (w, false)
    }
}

/// What reading the close-request flag does: hands back the pending
/// request and clears it.
pub open spec fn clear_close_model(w: WindowView) -> (WindowView, bool) {
    ((WindowView { close_request: false, ..w }), w.close_request)
}

/// What reading the redraw-request flag does: hands back the pending
/// request and clears it.
pub open spec fn clear_redraw_model(w: WindowView) -> (WindowView, bool) {
    ((WindowView { redraw_request: false, ..w }), w.redraw_request)
}

/// The request flags are edge-triggered and idempotent to read: of two
/// consecutive reads with no notification in between, the first hands
/// back the pending request and clears it, so the second always reads
/// `false`.
pub proof fn lemma_request_flags_idempotent_read(w: WindowView)
    ensures
        clear_close_model(clear_close_model(w).0).1 == false,
        clear_redraw_model(clear_redraw_model(w).0).1 == false,
        clear_close_model(w).1 == w.close_request,
        clear_redraw_model(w).1 == w.redraw_request,
{
}

/// A window object: the safe state behind one native window.
pub struct WindowInner {
    /// Handle to the corresponding native window. `0` means the window has
    /// been destroyed on the platform side.
    hwnd: isize,
    /// Fixed size of the window's client area.
    size: Size2D,
    /// The window's title, as it appears in the title bar.
    title: String,
    /// The theme in use by the window.
    theme: Theme,
    /// An outstanding close request from the platform side. Either the
    /// window is dropped in response, or the request is cleared and
    /// ignored.
    close_request: bool,
    /// An outstanding paint request from the platform side.
    redraw_request: bool,
}

impl View for WindowInner {
    type V = WindowView;

    closed spec fn view(&self) -> WindowView {
        WindowView {
            hwnd: self.hwnd as int,
            size: self.size,
            title: self.title@,
            theme: self.theme,
            close_request: self.close_request,
            redraw_request: self.redraw_request,
        }
    }
}

impl WindowInner {
    /// Constructs the state for a window that is about to be created on the
    /// platform side: no handle yet, no close request, and an immediate
    /// redraw request so the first frame is drawn without waiting for a
    /// paint notification.
    pub fn new(size: Size2D, title: String, theme: Theme) -> (w: WindowInner)
        ensures
            w@ == (WindowView {
                hwnd: 0,
                size,
                title: title@,
                theme,
                close_request: false,
                redraw_request: true,
            }),
    {
        WindowInner { hwnd: 0, size, title, theme, close_request: false, redraw_request: true }
    }

    /// Attaches the native handle the platform returned for this window.
    pub fn set_hwnd(&mut self, hwnd: isize)
        requires
            hwnd != 0,
            old(self)@.hwnd == 0,
        ensures
            final(self)@ == (WindowView { hwnd: hwnd as int, ..old(self)@ }),
    {
        self.hwnd = hwnd;
    }

    /// The size of the client area of the native window. The window chrome
    /// is in addition to this size.
    pub fn size(&self) -> (s: Size2D)
        ensures
            s == self@.size,
    {
        self.size
    }

    /// The window's title.
    pub fn title(&self) -> (t: &str)
        ensures
            t@ == self@.title,
    {
        self.title.as_str()
    }

    /// The native window handle, required when interacting with other
    /// platform calls. The handle must not be read once the window has been
    /// destroyed on the platform side.
    pub fn hwnd(&self) -> (h: isize)
        requires
            self@.hwnd != 0,
        ensures
            h as int == self@.hwnd,
            h != 0,
    {
        self.hwnd
    }

    /// The theme currently in use by the window.
    pub fn current_theme(&self) -> (t: Theme)
        ensures
            t == self@.theme,
    {
        self.theme
    }

    /// Records the theme the window's title bar should follow. The caller
    /// applies it on the platform side by writing
    /// [`dark_mode_attribute`] to the window's immersive-dark-mode
    /// attribute.
    pub fn set_theme(&mut self, theme: Theme)
        ensures
            final(self)@ == (WindowView { theme, ..old(self)@ }),
    {
        self.theme = theme;
    }

    /// Returns whether the window has requested to close, and immediately
    /// clears the request. The window is not actually closed until it is
    /// dropped, so the request can be ignored if needed.
    pub fn clear_close_request(&mut self) -> (r: bool)
        ensures
            (final(self)@, r) == clear_close_model(old(self)@),
            r == old(self)@.close_request,
            final(self)@ == (WindowView { close_request: false, ..old(self)@ }),
    {
        let r = self.close_request;
        self.close_request = false;
        r
    }

    /// Returns whether the window has requested a redraw, and immediately
    /// clears the request. The window is only repainted when higher-level
    /// code draws it, so the request can be ignored if needed.
    pub fn clear_redraw_request(&mut self) -> (r: bool)
        ensures
            (final(self)@, r) == clear_redraw_model(old(self)@),
            r == old(self)@.redraw_request,
            final(self)@ == (WindowView { redraw_request: false, ..old(self)@ }),
    {
        let r = self.redraw_request;
        self.redraw_request = false;
        r
    }

    /// Handles a window-system message, exactly as [`route_message`]
    /// describes: a message claimed by the input adapter is consumed
    /// untouched, a paint notification sets the redraw request and is still
    /// forwarded, a close notification sets the close request and is
    /// consumed, a destruction notification clears the handle and is still
    /// forwarded, and everything else is forwarded unchanged.
    ///
    /// Returns `true` if the message was fully handled and must not be
    /// forwarded to the default window procedure.
    pub fn handle_message(&mut self, umsg: u32, input_claimed: bool) -> (consumed: bool)
        ensures
            (final(self)@, consumed) == route_message(old(self)@, umsg, input_claimed),
    {
        if input_claimed {
            return true;
        }
        if umsg == WM_PAINT {
            self.redraw_request = true;
            false
        } else if umsg == WM_CLOSE {
            self.close_request = true;
            true
        } else if umsg == WM_NCDESTROY {
            // The native window is gone: clear the handle so it is never
            // dereferenced again.
            self.hwnd = 0;
            false
        } else {
            false
        }
    }
}

/// The value written to a window's immersive-dark-mode attribute for each
/// theme: dark mode maps to `1`, light mode to `0`.
pub fn dark_mode_attribute(theme: Theme) -> (v: i32)
    ensures
        v == (match theme {
            Theme::DarkMode => 1i32,
            Theme::LightMode => 0i32,
        }),
{
    match theme {
        Theme::DarkMode => 1,
        Theme::LightMode => 0,
    }
}

} // verus!
