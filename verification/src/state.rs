//! The state of one window, as far as the shell's decisions read it.
//!
//! Lengths and positions are physical pixels. Everything here is a plain
//! value: a snapshot of a window is a copy of it.

use vstd::prelude::*;
use crate::cursor::MouseCursorType;

verus! {

/// Identifier of a logical timer.
pub type TimerId = usize;

/// Identifier of a background task.
pub type ThreadId = usize;

/// A node of the interface tree: the tree it belongs to and its index there.
#[derive(Debug, Copy, Clone, PartialEq, Eq, Structural)]
pub struct DomNodeId {
    pub dom: usize,
    pub node: usize,
}

/// Where the pointer is, relative to the window's client area.
#[derive(Debug, Copy, Clone, PartialEq, Eq, Structural)]
pub enum CursorPosition {
    OutOfWindow,
    Uninitialized,
    InWindow { x: i32, y: i32 },
}

/// How the window's frame is shown.
#[derive(Debug, Copy, Clone, PartialEq, Eq, Structural)]
pub enum WindowFrame {
    Normal,
    Minimized,
    Maximized,
    Fullscreen,
}

/// What a callback asks to be rebuilt.
#[derive(Debug, Copy, Clone, PartialEq, Eq, Structural)]
pub enum Update {
    DoNothing,
    RegenerateStyledDomForCurrentWindow,
    RegenerateStyledDomForAllWindows,
}

/// Whether hardware acceleration is wanted.
#[derive(Debug, Copy, Clone, PartialEq, Eq, Structural)]
pub enum HwAcceleration {
    Enabled,
    Disabled,
    DontCare,
}

/// The two ways to rasterize.
#[derive(Debug, Copy, Clone, PartialEq, Eq, Structural)]
pub enum RendererType {
    Hardware,
    Software,
}

/// Size of the client area in physical pixels, and the display's dots per inch.
#[derive(Debug, Copy, Clone, PartialEq, Eq, Structural)]
pub struct WindowSize {
    pub width: u32,
    pub height: u32,
    pub dpi: u32,
}

impl WindowSize {
    /// The extent that layout works with: width and height, whatever the
    /// resolution.
    pub open spec fn layout_size(self) -> (u32, u32) {
        (self.width, self.height)
    }

    /// Width and height of the area that is laid out.
    pub fn get_layout_size(&self) -> (size: (u32, u32))
        ensures
            size == self.layout_size(),
    {
        (self.width, self.height)
    }
}

#[derive(Debug, Copy, Clone, PartialEq, Eq, Structural)]
/// How a window is shown, and whether it is about to be closed.
pub struct WindowFlags {
    pub frame: WindowFrame,
    pub is_about_to_close: bool,
    pub is_visible: bool,
}

/// Buttons, position, cursor shape and pending wheel movement of the pointer.
#[derive(Debug, Copy, Clone, PartialEq, Eq, Structural)]
pub struct MouseState {
    pub mouse_cursor_type: Option<MouseCursorType>,
    pub cursor_position: CursorPosition,
    pub left_down: bool,
    pub right_down: bool,
    pub middle_down: bool,
    pub scroll_x: Option<i32>,
    pub scroll_y: Option<i32>,
}

impl MouseState {
    /// Whether any button is held.
    pub open spec fn any_down(self) -> bool {
        self.left_down || self.right_down || self.middle_down
    }

    /// The wheel movement that has not been applied yet: none if neither axis
    /// moved, else both axes with 0 for the one that did not.
    pub open spec fn pending_scroll(self) -> Option<(i32, i32)> {
        match (self.scroll_x, self.scroll_y) {
            (None, None) => None,
            (Some(x), None) => Some((x, 0i32)),
            (None, Some(y)) => Some((0i32, y)),
            (Some(x), Some(y)) => Some((x, y)),
        }
    }

    /// The state with the wheel movement cleared and all else kept.
    pub open spec fn without_scroll(self) -> MouseState {
        MouseState { scroll_x: None, scroll_y: None, ..self }
    }

    /// Whether any button is held.
    pub fn mouse_down(&self) -> (down: bool)
        ensures
            down == self.any_down(),
    {
        self.left_down || self.right_down || self.middle_down
    }

    /// The wheel movement that has not been applied yet.
    pub fn get_scroll_amount(&self) -> (amount: Option<(i32, i32)>)
        ensures
            amount == self.pending_scroll(),
    {
        match (self.scroll_x, self.scroll_y) {
            (None, None) => None,
            (Some(x), None) => Some((x, 0i32)),
            (None, Some(y)) => Some((0i32, y)),
            (Some(x), Some(y)) => Some((x, y)),
        }
    }

    /// Clears the wheel movement.
    pub fn reset_scroll_to_zero(&mut self)
        ensures
            *final(self) == old(self).without_scroll(),
    {
        self.scroll_x = None;
        self.scroll_y = None;
    }
}

/// The result of the last hit test: the focus it was made under and the
/// generation of the hit-tester that answered. An empty result, which no
/// hit-tester answered, has no generation.
#[derive(Debug, Copy, Clone, PartialEq, Eq, Structural)]
pub struct FullHitTest {
    pub focused_node: Option<DomNodeId>,
    pub generation: Option<u64>,
}

impl FullHitTest {
    /// The hit test that hits nothing, made under the given focus.
    pub open spec fn empty_for(focused_node: Option<DomNodeId>) -> FullHitTest {
        FullHitTest { focused_node, generation: None }
    }

    /// The hit test that hits nothing.
    pub fn empty(focused_node: Option<DomNodeId>) -> (hit: FullHitTest)
        ensures
            hit == Self::empty_for(focused_node),
    {
        FullHitTest { focused_node, generation: None }
    }
}

/// The part of a window's state that callbacks may replace.
#[derive(Debug, Copy, Clone, PartialEq, Eq, Structural)]
pub struct WindowState {
    pub size: WindowSize,
    pub flags: WindowFlags,
    pub mouse_state: MouseState,
    /// Identity of the function that builds the interface tree.
    pub layout_callback: usize,
}

/// The whole state of a window.
#[derive(Debug, Copy, Clone, PartialEq, Eq, Structural)]
pub struct FullWindowState {
    pub size: WindowSize,
    pub flags: WindowFlags,
    pub mouse_state: MouseState,
    pub layout_callback: usize,
    pub focused_node: Option<DomNodeId>,
    pub last_hit_test: FullHitTest,
}

impl FullWindowState {
    /// The full state that takes size, flags, pointer and layout callback from
    /// `state` and the rest from the arguments.
    pub open spec fn merged(
        state: WindowState,
        focused_node: Option<DomNodeId>,
        last_hit_test: FullHitTest,
    ) -> FullWindowState {
        FullWindowState {
            size: state.size,
            flags: state.flags,
            mouse_state: state.mouse_state,
            layout_callback: state.layout_callback,
            focused_node,
            last_hit_test,
        }
    }

    /// Whether the function that builds the interface tree differs from the
    /// one of an earlier state. Against no earlier state nothing has changed.
    pub open spec fn layout_changed_since(self, other: Option<FullWindowState>) -> bool {
        match other {
            Some(o) => o.layout_callback != self.layout_callback,
            None => false,
        }
    }

    /// The state that asks for no scrolling any more.
    pub open spec fn scroll_applied(self) -> FullWindowState {
        FullWindowState { mouse_state: self.mouse_state.without_scroll(), ..self }
    }

    /// The part that callbacks may replace.
    pub open spec fn user_part(self) -> WindowState {
        WindowState {
            size: self.size,
            flags: self.flags,
            mouse_state: self.mouse_state,
            layout_callback: self.layout_callback,
        }
    }

    /// Makes a full state from the part that callbacks may replace, a focus
    /// and a last hit test.
    pub fn from_window_state(
        state: &WindowState,
        focused_node: Option<DomNodeId>,
        last_hit_test: FullHitTest,
    ) -> (full: FullWindowState)
        ensures
            full == Self::merged(*state, focused_node, last_hit_test),
    {
        FullWindowState {
            size: state.size,
            flags: state.flags,
            mouse_state: state.mouse_state,
            layout_callback: state.layout_callback,
            focused_node,
            last_hit_test,
        }
    }

    /// Whether the function that builds the interface tree differs from the
    /// one of an earlier state.
    pub fn layout_callback_changed(&self, other: &Option<FullWindowState>) -> (changed: bool)
        ensures
            changed == self.layout_changed_since(*other),
    {
        match other {
            Some(o) => o.layout_callback != self.layout_callback,
            None => false,
        }
    }

    /// The pending wheel movement, if there is any to apply in this pass.
    pub fn process_system_scroll(&self) -> (scroll: Option<ScrollResult>)
        ensures
            scroll == (match self.mouse_state.pending_scroll() {
                Some(d) => Some(ScrollResult { dx: d.0, dy: d.1 }),
                None => None,
            }),
    {
        match self.mouse_state.get_scroll_amount() {
            Some(d) => Some(ScrollResult { dx: d.0, dy: d.1 }),
            None => None,
        }
    }

    /// The part that callbacks may replace.
    pub fn to_window_state(&self) -> (state: WindowState)
        ensures
            state == self.user_part(),
    {
        WindowState {
            size: self.size,
            flags: self.flags,
            mouse_state: self.mouse_state,
            layout_callback: self.layout_callback,
        }
    }
}

/// How far the content under the pointer is to be scrolled.
#[derive(Debug, Copy, Clone, PartialEq, Eq, Structural)]
pub struct ScrollResult {
    pub dx: i32,
    pub dy: i32,
}

/// A logical timer, as far as the shell reads it: its period.
#[derive(Debug, Copy, Clone, PartialEq, Eq, Structural)]
pub struct Timer {
    pub interval_millis: u64,
}

impl Timer {
    /// The period in milliseconds.
    pub fn tick_millis(&self) -> (millis: u64)
        ensures
            millis == self.interval_millis,
    {
        self.interval_millis
    }
}

/// What is asked of the renderer when a window is created.
#[derive(Debug, Copy, Clone, PartialEq, Eq, Structural)]
pub struct RendererOptions {
    pub hw_accel: HwAcceleration,
}

/// The request to open a window.
#[derive(Debug, Copy, Clone, PartialEq, Eq, Structural)]
pub struct WindowCreateOptions {
    pub state: WindowState,
    /// Size the window after its content instead of `state.size`.
    pub size_to_content: bool,
    pub renderer: Option<RendererOptions>,
    /// Rebuild the interface tree periodically.
    pub hot_reload: bool,
}

/// A change of the keyboard focus.
#[derive(Debug, Copy, Clone, PartialEq, Eq, Structural)]
pub struct FocusChange {
    pub old: Option<DomNodeId>,
    pub new: Option<DomNodeId>,
}

/// What restyling and laying out the nodes touched by an event found.
#[derive(Debug, Copy, Clone, PartialEq, Eq, Structural)]
pub struct StyleAndLayoutChanges {
    pub focus_change: Option<FocusChange>,
    /// The box of at least one node changed.
    pub nodes_resized: bool,
    /// A style changed that the retained scene holds.
    pub display_list_changed: bool,
    /// Something changed that only the next frame has to show.
    pub gpu_values_changed: bool,
}

impl StyleAndLayoutChanges {
    /// The report of a recomputation that found nothing.
    pub open spec fn nothing() -> StyleAndLayoutChanges {
        StyleAndLayoutChanges {
            focus_change: None,
            nodes_resized: false,
            display_list_changed: false,
            gpu_values_changed: false,
        }
    }

    /// The report of a recomputation that found nothing.
    pub fn empty() -> (changes: StyleAndLayoutChanges)
        ensures
            changes == Self::nothing(),
    {
        StyleAndLayoutChanges {
            focus_change: None,
            nodes_resized: false,
            display_list_changed: false,
            gpu_values_changed: false,
        }
    }

    /// Whether the box of at least one node changed.
    pub fn did_resize_nodes(&self) -> (b: bool)
        ensures
            b == self.nodes_resized,
    {
        self.nodes_resized
    }

    /// Whether the retained scene is out of date.
    pub fn need_regenerate_display_list(&self) -> (b: bool)
        ensures
            b == self.display_list_changed,
    {
        self.display_list_changed
    }

    /// Whether something has to be drawn again without a new scene.
    pub fn need_redraw(&self) -> (b: bool)
        ensures
            b == self.gpu_values_changed,
    {
        self.gpu_values_changed
    }
}

/// Width of a window that asks for none.
pub const DEFAULT_WIDTH: u32 = 800;

/// Height of a window that asks for none.
pub const DEFAULT_HEIGHT: u32 = 600;

/// Resolution of a display that reports none.
pub const DEFAULT_DPI: u32 = 96;

impl MouseState {
    /// The pointer before anything is known of it: no button held, no
    /// wheel movement, neither position nor shape.
    pub open spec fn unknown() -> MouseState {
        MouseState {
            mouse_cursor_type: None,
            cursor_position: CursorPosition::Uninitialized,
            left_down: false,
            right_down: false,
            middle_down: false,
            scroll_x: None,
            scroll_y: None,
        }
    }

    /// The pointer before anything is known of it.
    pub fn new() -> (mouse: MouseState)
        ensures
            mouse == Self::unknown(),
    {
        MouseState {
            mouse_cursor_type: None,
            cursor_position: CursorPosition::Uninitialized,
            left_down: false,
            right_down: false,
            middle_down: false,
            scroll_x: None,
            scroll_y: None,
        }
    }
}

impl WindowState {
    /// The state that a window has unless something else is asked for: of
    /// default size and resolution, visible in a normal frame, with a
    /// pointer of which nothing is known.
    pub open spec fn initial(layout_callback: usize) -> WindowState {
        WindowState {
            size: WindowSize { width: DEFAULT_WIDTH, height: DEFAULT_HEIGHT, dpi: DEFAULT_DPI },
            flags: WindowFlags {
                frame: WindowFrame::Normal,
                is_about_to_close: false,
                is_visible: true,
            },
            mouse_state: MouseState::unknown(),
            layout_callback,
        }
    }

    /// The default state of a window whose interface tree `layout_callback`
    /// builds.
    pub fn new(layout_callback: usize) -> (state: WindowState)
        ensures
            state == Self::initial(layout_callback),
    {
        WindowState {
            size: WindowSize { width: DEFAULT_WIDTH, height: DEFAULT_HEIGHT, dpi: DEFAULT_DPI },
            flags: WindowFlags {
                frame: WindowFrame::Normal,
                is_about_to_close: false,
                is_visible: true,
            },
            mouse_state: MouseState::new(),
            layout_callback,
        }
    }
}

impl WindowCreateOptions {
    /// The request for a window in its default state, with whatever
    /// renderer there is.
    pub fn new(layout_callback: usize) -> (options: WindowCreateOptions)
        ensures
            options == (WindowCreateOptions {
                state: WindowState::initial(layout_callback),
                size_to_content: false,
                renderer: None,
                hot_reload: false,
            }),
    {
        WindowCreateOptions {
            state: WindowState::new(layout_callback),
            size_to_content: false,
            renderer: None,
            hot_reload: false,
        }
    }
}

} // verus!
