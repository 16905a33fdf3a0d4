//! The operations that the shell asks its caller to carry out.
//!
//! A handler never touches the operating system, the graphics driver or the
//! renderer. It returns the operations to perform, in the order in which
//! they have to happen.

use vstd::prelude::*;
use crate::state::WindowCreateOptions;

verus! {

/// Message that asks a window to rebuild its interface tree.
pub const AZ_REGENERATE_DOM: u32 = 0x8001;

/// Message that asks a window to rebuild its display list.
pub const AZ_REGENERATE_DISPLAY_LIST: u32 = 0x8002;

/// Message that asks a window to run the callbacks of the last event.
pub const AZ_REDO_HIT_TEST: u32 = 0x8003;

/// Message that asks a window for a new frame of the scene it has.
pub const AZ_GPU_SCROLL_RENDER: u32 = 0x8004;

/// Identifier of the timer that polls the background tasks.
pub const AZ_THREAD_TICK: usize = 1;

/// Identifier of the timer that rebuilds the interface tree periodically.
pub const AZ_TICK_REGENERATE_DOM: usize = 2;

/// Period of the timer that polls the background tasks, in milliseconds.
pub const THREAD_TICK_MILLIS: u32 = 16;

/// Period of the timer that rebuilds the interface tree, in milliseconds.
pub const HOT_RELOAD_MILLIS: u32 = 200;

/// One operation on the operating system, the graphics driver, the renderer
/// or the layout engine. `hwnd` names the window it applies to.
#[allow(inconsistent_fields)]
#[derive(Debug, Copy, Clone, PartialEq, Eq, Structural)]
pub enum Command {
    /// Queue a message for a window, with both parameters zero.
    PostMessage { hwnd: usize, message: u32 },
    /// Arm, or arm anew, the periodic timer `id` of a window.
    SetTimer { hwnd: usize, id: usize, millis: u32 },
    /// Cancel the periodic timer `id` of a window.
    KillTimer { hwnd: usize, id: usize },
    /// Ask to be told when the pointer leaves the window.
    TrackMouseLeave { hwnd: usize },
    /// Show a system cursor over the window.
    SetCursor { hwnd: usize, cursor: u16 },
    /// Mark the whole client area as in need of painting.
    InvalidateRect { hwnd: usize },
    /// Destroy the native window.
    DestroyWindow { hwnd: usize },
    /// Tell the message loop to end.
    PostQuitMessage { exit_code: i32 },
    /// Give back the device context of the window.
    ReleaseDc { hwnd: usize },
    /// Make a rendering context current on the window's device context.
    MakeCurrent { hwnd: usize, context: usize },
    /// Leave no rendering context current.
    ReleaseCurrent,
    /// Delete a rendering context.
    DeleteContext { context: usize },
    /// Present the back buffer.
    SwapBuffers { hwnd: usize },
    /// Bind the default framebuffer and set the viewport, remembering the
    /// program in use.
    PrepareFramebuffer { width: i32, height: i32 },
    /// Unbind framebuffer and texture and use the remembered program again.
    RestoreGlState,
    /// Build the interface tree, style it and lay it out from scratch.
    RegenerateStyledDom { hwnd: usize },
    /// Lay the window's content out again for a new size.
    QuickResize { hwnd: usize, width: u32, height: u32 },
    /// Tell the renderer the extent of the document.
    SetDocumentView { hwnd: usize, width: i32, height: i32 },
    /// Build the display list and submit it to the renderer.
    RebuildDisplayList { hwnd: usize },
    /// Wait until the renderer has built every scene submitted so far.
    FlushSceneBuilder { hwnd: usize },
    /// Ask the renderer for a hit-tester of the newest scene.
    RequestHitTester { hwnd: usize },
    /// Wait for the hit-tester that was asked for.
    ResolveHitTester { hwnd: usize },
    /// Hit-test the pointer position against the resolved hit-tester.
    HitTest { hwnd: usize },
    /// Ask the renderer for a frame.
    GenerateFrame { hwnd: usize, display_list_rebuilt: bool },
    /// Let the renderer draw the frame it has into the framebuffer.
    Render { hwnd: usize, width: i32, height: i32 },
    /// Shut the renderer down.
    DeinitRenderer { hwnd: usize },
    /// Style the nodes under the pointer for being hovered.
    RestyleHoveredNodes { hwnd: usize },
    /// Free the textures of the epochs before the oldest that the renderer
    /// reports as finished.
    ReclaimTextures { hwnd: usize },
    /// Scroll the content under the pointer.
    SystemScroll { hwnd: usize, dx: i32, dy: i32 },
    /// Open a window.
    CreateWindow { options: WindowCreateOptions },
    /// Create the native window with a client area of this size, in
    /// physical pixels, and report its handle.
    CreateNativeWindow { width: i32, height: i32 },
    /// Report the horizontal and vertical resolution of the display.
    QueryDpi { hwnd: usize },
    /// Negotiate a hardware-accelerated rendering context and report how it
    /// ended.
    CreateGlContext { hwnd: usize },
    /// Get the device context of the window.
    GetDc { hwnd: usize },
    /// Load the functions of the graphics library for the current context.
    LoadGlFunctions { hwnd: usize },
    /// Compile the shaders that the interface needs.
    CompileShaders { hwnd: usize },
    /// Construct the renderer and report whether it is there.
    CreateRenderer { hwnd: usize },
    /// Connect to the renderer: set its image handler and open its
    /// interface.
    CreateRenderApi { hwnd: usize },
    /// Report the client area of the window.
    QueryClientRect { hwnd: usize },
    /// Add the document of the window to the renderer.
    AddDocument { hwnd: usize, width: i32, height: i32 },
    /// Take the application data for exclusive use and report whether it
    /// was free.
    AcquireApplicationData,
    /// Give the application data back.
    ReleaseApplicationData,
    /// Build, style and lay out the interface tree for the first time, and
    /// report the menu it asks for.
    BuildInitialLayout { hwnd: usize },
    /// Give the window the menu that was built for it.
    SetMenu { hwnd: usize },
    /// Give the window the size of its content.
    ResizeToContent { hwnd: usize },
    /// Show, hide, minimize or maximize the window.
    ShowWindow { hwnd: usize, flags: i32 },
    /// Report the position of the pointer relative to the client area.
    QueryCursorPosition { hwnd: usize },
    /// Record that a window asked to run a pass again more often in a row
    /// than a sound layout can.
    ReportReprocessLimit { hwnd: usize },
}

/// What a window procedure answers to the operating system.
#[derive(Debug, Copy, Clone, PartialEq, Eq, Structural)]
pub enum Reply {
    /// The message was handled; this is its result.
    Handled(isize),
    /// The message is left to the default window procedure.
    Default,
}

} // verus!
