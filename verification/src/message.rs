//! The messages of the operating system, told apart and decoded.

use vstd::prelude::*;
use crate::command::{
    AZ_GPU_SCROLL_RENDER, AZ_REDO_HIT_TEST, AZ_REGENERATE_DISPLAY_LIST, AZ_REGENERATE_DOM,
    AZ_THREAD_TICK, AZ_TICK_REGENERATE_DOM,
};
use crate::geometry::{
    get_high_word, get_low_word, get_x_lparam, get_y_lparam, high_word, low_word, signed,
};

verus! {

/// The numbers of the messages of the operating system that the shell
/// knows.
pub const WM_CREATE: u32 = 0x0001;
pub const WM_DESTROY: u32 = 0x0002;
pub const WM_SIZE: u32 = 0x0005;
pub const WM_ACTIVATE: u32 = 0x0006;
pub const WM_PAINT: u32 = 0x000F;
pub const WM_QUIT: u32 = 0x0012;
pub const WM_ERASEBKGND: u32 = 0x0014;
pub const WM_NCCREATE: u32 = 0x0081;
pub const WM_NCHITTEST: u32 = 0x0084;
pub const WM_COMMAND: u32 = 0x0111;
pub const WM_TIMER: u32 = 0x0113;
pub const WM_MOUSEMOVE: u32 = 0x0200;
pub const WM_LBUTTONDOWN: u32 = 0x0201;
pub const WM_LBUTTONUP: u32 = 0x0202;
pub const WM_RBUTTONDOWN: u32 = 0x0204;
pub const WM_RBUTTONUP: u32 = 0x0205;
pub const WM_MOUSEWHEEL: u32 = 0x020A;
pub const WM_MOUSELEAVE: u32 = 0x02A3;
pub const WM_DPICHANGED: u32 = 0x02E0;

/// The ways a window comes to a new size, as the first parameter of the
/// message names them.
pub const SIZE_RESTORED: usize = 0;
pub const SIZE_MINIMIZED: usize = 1;
pub const SIZE_MAXIMIZED: usize = 2;

/// How a window came to its new size.
#[derive(Debug, Copy, Clone, PartialEq, Eq, Structural)]
pub enum SizeKind {
    Restored,
    Minimized,
    Maximized,
    /// Another window was restored or maximized.
    Other,
}

/// Which timer fired.
#[derive(Debug, Copy, Clone, PartialEq, Eq, Structural)]
pub enum TimerKind {
    /// The timer that polls the background tasks.
    ThreadTick,
    /// The timer that rebuilds the interface tree periodically.
    RegenerateDom,
    /// The system timer of a logical timer.
    User { id: usize },
}

/// A mouse button.
#[derive(Debug, Copy, Clone, PartialEq, Eq, Structural)]
pub enum MouseButton {
    Left,
    Right,
}

/// A message to a window, after decoding.
#[allow(inconsistent_fields)]
#[derive(Debug, Copy, Clone, PartialEq, Eq, Structural)]
pub enum Message {
    NcCreate,
    Create,
    Activate,
    EraseBackground,
    /// The pointer moved to a position of the client area, in physical
    /// pixels.
    MouseMove { x: i32, y: i32 },
    MouseLeave,
    ButtonDown { button: MouseButton },
    ButtonUp { button: MouseButton },
    MouseWheel,
    DpiChanged,
    /// The client area has a new size, in physical pixels.
    Size { width: u32, height: u32, kind: SizeKind },
    NcHitTest,
    Paint,
    Timer { kind: TimerKind },
    Command,
    Quit,
    Destroy,
    RegenerateDom,
    RedoHitTest,
    RegenerateDisplayList,
    GpuScrollRender,
    /// Any message that the shell does not know.
    Other { msg: u32 },
}

/// The timer that an identifier names.
pub open spec fn timer_kind(id: usize) -> TimerKind {
    if id == AZ_THREAD_TICK {
        TimerKind::ThreadTick
    } else if id == AZ_TICK_REGENERATE_DOM {
        TimerKind::RegenerateDom
    } else {
        TimerKind::User { id }
    }
}

/// How the window came to its size, from the first parameter of the message.
pub open spec fn size_kind(wparam: usize) -> SizeKind {
    if wparam == SIZE_MAXIMIZED {
        SizeKind::Maximized
    } else if wparam == SIZE_MINIMIZED {
        SizeKind::Minimized
    } else if wparam == SIZE_RESTORED {
        SizeKind::Restored
    } else {
        SizeKind::Other
    }
}

/// The message that a message number and its two parameters stand for.
/// `lparam` holds the bits of the second parameter.
///
/// A pointer position is the two words of `lparam` read as signed numbers,
/// a size the same two words read as unsigned ones, and the timer is
/// named by `wparam`.
pub open spec fn classified(msg: u32, wparam: usize, lparam: usize) -> Message {
    if msg == WM_NCCREATE {
        Message::NcCreate
    } else if msg == AZ_REGENERATE_DOM {
        Message::RegenerateDom
    } else if msg == AZ_REDO_HIT_TEST {
        Message::RedoHitTest
    } else if msg == AZ_REGENERATE_DISPLAY_LIST {
        Message::RegenerateDisplayList
    } else if msg == AZ_GPU_SCROLL_RENDER {
        Message::GpuScrollRender
    } else if msg == WM_CREATE {
        Message::Create
    } else if msg == WM_ACTIVATE {
        Message::Activate
    } else if msg == WM_ERASEBKGND {
        Message::EraseBackground
    } else if msg == WM_MOUSEMOVE {
        Message::MouseMove { x: signed(low_word(lparam)), y: signed(high_word(lparam)) }
    } else if msg == WM_MOUSELEAVE {
        Message::MouseLeave
    } else if msg == WM_RBUTTONDOWN {
        Message::ButtonDown { button: MouseButton::Right }
    } else if msg == WM_RBUTTONUP {
        Message::ButtonUp { button: MouseButton::Right }
    } else if msg == WM_LBUTTONDOWN {
        Message::ButtonDown { button: MouseButton::Left }
    } else if msg == WM_LBUTTONUP {
        Message::ButtonUp { button: MouseButton::Left }
    } else if msg == WM_MOUSEWHEEL {
        Message::MouseWheel
    } else if msg == WM_DPICHANGED {
        Message::DpiChanged
    } else if msg == WM_SIZE {
        Message::Size {
            width: low_word(lparam) as u32,
            height: high_word(lparam) as u32,
            kind: size_kind(wparam),
        }
    } else if msg == WM_NCHITTEST {
        Message::NcHitTest
    } else if msg == WM_PAINT {
        Message::Paint
    } else if msg == WM_TIMER {
        Message::Timer { kind: timer_kind(wparam) }
    } else if msg == WM_COMMAND {
        Message::Command
    } else if msg == WM_QUIT {
        Message::Quit
    } else if msg == WM_DESTROY {
        Message::Destroy
    } else {
        Message::Other { msg }
    }
}

/// Tells which timer an identifier names.
pub fn classify_timer(id: usize) -> (kind: TimerKind)
    ensures
        kind == timer_kind(id),
{
    if id == AZ_THREAD_TICK {
        TimerKind::ThreadTick
    } else if id == AZ_TICK_REGENERATE_DOM {
        TimerKind::RegenerateDom
    } else {
        TimerKind::User { id }
    }
}

/// Decodes a message.
pub fn classify_message(msg: u32, wparam: usize, lparam: usize) -> (message: Message)
    ensures
        message == classified(msg, wparam, lparam),
{
    if msg == WM_NCCREATE {
        Message::NcCreate
    } else if msg == AZ_REGENERATE_DOM {
        Message::RegenerateDom
    } else if msg == AZ_REDO_HIT_TEST {
        Message::RedoHitTest
    } else if msg == AZ_REGENERATE_DISPLAY_LIST {
        Message::RegenerateDisplayList
    } else if msg == AZ_GPU_SCROLL_RENDER {
        Message::GpuScrollRender
    } else if msg == WM_CREATE {
        Message::Create
    } else if msg == WM_ACTIVATE {
        Message::Activate
    } else if msg == WM_ERASEBKGND {
        Message::EraseBackground
    } else if msg == WM_MOUSEMOVE {
        Message::MouseMove { x: get_x_lparam(lparam), y: get_y_lparam(lparam) }
    } else if msg == WM_MOUSELEAVE {
        Message::MouseLeave
    } else if msg == WM_RBUTTONDOWN {
        Message::ButtonDown { button: MouseButton::Right }
    } else if msg == WM_RBUTTONUP {
        Message::ButtonUp { button: MouseButton::Right }
    } else if msg == WM_LBUTTONDOWN {
        Message::ButtonDown { button: MouseButton::Left }
    } else if msg == WM_LBUTTONUP {
        Message::ButtonUp { button: MouseButton::Left }
    } else if msg == WM_MOUSEWHEEL {
        Message::MouseWheel
    } else if msg == WM_DPICHANGED {
        Message::DpiChanged
    } else if msg == WM_SIZE {
        let kind = if wparam == SIZE_MAXIMIZED {
            SizeKind::Maximized
        } else if wparam == SIZE_MINIMIZED {
            SizeKind::Minimized
        } else if wparam == SIZE_RESTORED {
            SizeKind::Restored
        } else {
            SizeKind::Other
        };
        Message::Size {
            width: get_low_word(lparam) as u32,
            height: get_high_word(lparam) as u32,
            kind,
        }
    } else if msg == WM_NCHITTEST {
        Message::NcHitTest
    } else if msg == WM_PAINT {
        Message::Paint
    } else if msg == WM_TIMER {
        Message::Timer { kind: classify_timer(wparam) }
    } else if msg == WM_COMMAND {
        Message::Command
    } else if msg == WM_QUIT {
        Message::Quit
    } else if msg == WM_DESTROY {
        Message::Destroy
    } else {
        Message::Other { msg }
    }
}

/// Every size that a message carries fits 16 bits, and every pointer
/// position 16 bits with a sign.
pub proof fn lemma_classified_ranges(msg: u32, wparam: usize, lparam: usize)
    ensures
        classified(msg, wparam, lparam) matches Message::Size { width, height, .. } ==> width
            < 0x10000 && height < 0x10000,
        classified(msg, wparam, lparam) matches Message::MouseMove { x, y } ==> -0x8000 <= x
            < 0x8000 && -0x8000 <= y < 0x8000,
{
}

/// Only the message number decides which kind of message it is: a message
/// that is not known stays unknown whatever its parameters are, and a known
/// one is never taken for an unknown one.
pub proof fn lemma_classified_by_number(msg: u32, w1: usize, l1: usize, w2: usize, l2: usize)
    ensures
        classified(msg, w1, l1) is Other <==> classified(msg, w2, l2) is Other,
        classified(msg, w1, l1) matches Message::Other { msg: m } ==> m == msg,
{
}

} // verus!
