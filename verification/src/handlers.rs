//! How one window answers the messages that concern it alone.
//!
//! Every handler stages the state first: what was current becomes the
//! previous state, and the change that the message reports is made to the
//! current one. The callbacks that compare the two run later, when the
//! follow-up message that the handler posts arrives.

use vstd::prelude::*;
use crate::command::{Command, AZ_REDO_HIT_TEST, AZ_REGENERATE_DISPLAY_LIST};
use crate::cursor::{system_cursor, win32_translate_cursor, MouseCursorType, IDC_ARROW};
use crate::geometry::{device_pixels, to_device_pixels, Rect};
use crate::hit_test::AsyncHitTester;
use crate::message::{MouseButton, SizeKind};
use crate::state::{
    CursorPosition, FullHitTest, FullWindowState, MouseState, WindowFlags, WindowFrame, WindowSize,
};
use crate::window::{Window, WindowInternal};

verus! {

/// The frame of a window after it came to a new size.
pub open spec fn frame_after(frame: WindowFrame, kind: SizeKind) -> WindowFrame {
    match kind {
        SizeKind::Maximized => WindowFrame::Maximized,
        SizeKind::Minimized => WindowFrame::Minimized,
        SizeKind::Restored => WindowFrame::Normal,
        SizeKind::Other => frame,
    }
}

/// The oldest of the epochs that the renderer has finished: the least one.
pub open spec fn is_oldest(epochs: Seq<u32>, oldest: u32) -> bool {
    &&& epochs.contains(oldest)
    &&& forall|i: int| 0 <= i < epochs.len() ==> oldest <= epochs[i]
}

/// Finds the epoch before which no texture is in use any more, among the
/// epochs that the renderer reports after a frame. Without any report
/// nothing may be freed.
pub fn oldest_epoch(epochs: &Vec<u32>) -> (oldest: Option<u32>)
    ensures
        epochs@.len() == 0 <==> oldest is None,
        oldest matches Some(e) ==> is_oldest(epochs@, e),
{
    if epochs.len() == 0 {
        return None;
    }
    let mut least: u32 = epochs[0];
    let mut i: usize = 1;
    while i < epochs.len()
        invariant
            1 <= i <= epochs.len(),
            exists|k: int| 0 <= k < i && epochs@[k] == least,
            forall|k: int| 0 <= k < i ==> least <= epochs@[k],
        decreases epochs.len() - i,
    {
        if epochs[i] < least {
            least = epochs[i];
        }
        i = i + 1;
    }
    Some(least)
}

impl Window {
    /// The state in which a message finds the window: what is current now.
    pub open spec fn staged(self, current: FullWindowState) -> WindowInternal {
        WindowInternal {
            current_window_state: current,
            previous_window_state: Some(self.internal.current_window_state),
            ..self.internal
        }
    }

    /// The window after its display list was submitted once more and a
    /// hit-tester for it was asked for.
    pub open spec fn resubmitted(self) -> Window {
        Window {
            internal: WindowInternal { epoch: (self.internal.epoch + 1) as u64, ..self.internal },
            hit_tester: AsyncHitTester::Requested { generation: (self.internal.epoch + 1) as u64 },
            ..self
        }
    }

    /// Counts a display list that is submitted and asks for its hit-tester.
    /// The hit-tester that the window held belongs to an older display list
    /// and is given up.
    pub fn resubmit_display_list(&mut self)
        requires
            old(self).internal.epoch < u64::MAX,
        ensures
            *final(self) == old(self).resubmitted(),
            old(self).wf() ==> final(self).wf(),
            final(self).hit_tester.generation() > old(self).internal.epoch,
    {
        self.internal.epoch = self.internal.epoch + 1;
        self.hit_tester = AsyncHitTester::request(self.internal.epoch);
    }

    // ---------------------------------------------------------------- tree

    /// The window after its interface tree was built anew.
    pub open spec fn after_regenerate_dom(self) -> Window {
        let epoch = (self.internal.epoch + 1) as u64;
        Window {
            internal: WindowInternal {
                current_window_state: FullWindowState {
                    focused_node: None,
                    last_hit_test: FullHitTest { focused_node: None, generation: Some(epoch) },
                    ..self.internal.current_window_state
                },
                previous_window_state: None,
                epoch,
            },
            hit_tester: AsyncHitTester::Resolved { generation: epoch },
            ..self
        }
    }

    /// What building the interface tree anew asks for.
    pub open spec fn regenerate_dom_commands(self) -> Seq<Command> {
        seq![
            Command::RegenerateStyledDom { hwnd: self.hwnd },
            Command::RebuildDisplayList { hwnd: self.hwnd },
            Command::FlushSceneBuilder { hwnd: self.hwnd },
            Command::RequestHitTester { hwnd: self.hwnd },
            Command::ResolveHitTester { hwnd: self.hwnd },
            Command::HitTest { hwnd: self.hwnd },
            Command::RestyleHoveredNodes { hwnd: self.hwnd },
            Command::PostMessage { hwnd: self.hwnd, message: AZ_REGENERATE_DISPLAY_LIST },
        ]
    }

    /// Builds the interface tree anew. The focus is dropped, the display
    /// list is submitted again, the hit-tester of that display list is
    /// waited for, the pointer is hit-tested against it, and there is no
    /// previous state any more. The display list follows in a message of its
    /// own.
    pub fn regenerate_dom(&mut self) -> (commands: Vec<Command>)
        requires
            old(self).internal.epoch < u64::MAX,
        ensures
            *final(self) == old(self).after_regenerate_dom(),
            commands@ == old(self).regenerate_dom_commands(),
            old(self).wf() ==> final(self).wf(),
    {
        let hwnd = self.hwnd;
        self.internal.current_window_state.focused_node = None;
        self.resubmit_display_list();
        let generation = self.hit_tester.resolve();
        self.internal.previous_window_state = None;
        self.internal.current_window_state.last_hit_test = FullHitTest {
            focused_node: None,
            generation: Some(generation),
        };
        let commands = vec![
            Command::RegenerateStyledDom { hwnd },
            Command::RebuildDisplayList { hwnd },
            Command::FlushSceneBuilder { hwnd },
            Command::RequestHitTester { hwnd },
            Command::ResolveHitTester { hwnd },
            Command::HitTest { hwnd },
            Command::RestyleHoveredNodes { hwnd },
            Command::PostMessage { hwnd, message: AZ_REGENERATE_DISPLAY_LIST },
        ];
        commands
    }

    // -------------------------------------------------------- display list

    /// What building the display list anew asks for.
    pub open spec fn regenerate_display_list_commands(self) -> Seq<Command> {
        seq![
            Command::RebuildDisplayList { hwnd: self.hwnd },
            Command::RequestHitTester { hwnd: self.hwnd },
            Command::GenerateFrame { hwnd: self.hwnd, display_list_rebuilt: true },
            Command::InvalidateRect { hwnd: self.hwnd },
        ]
    }

    /// Builds the display list anew from the styled tree, asks for the
    /// hit-tester of the new display list and for a frame.
    pub fn regenerate_display_list(&mut self) -> (commands: Vec<Command>)
        requires
            old(self).internal.epoch < u64::MAX,
        ensures
            *final(self) == old(self).resubmitted(),
            commands@ == old(self).regenerate_display_list_commands(),
            old(self).wf() ==> final(self).wf(),
    {
        let hwnd = self.hwnd;
        self.resubmit_display_list();
        let commands = vec![
            Command::RebuildDisplayList { hwnd },
            Command::RequestHitTester { hwnd },
            Command::GenerateFrame { hwnd, display_list_rebuilt: true },
            Command::InvalidateRect { hwnd },
        ];
        commands
    }

    /// What a new frame of the same scene asks for.
    pub open spec fn gpu_scroll_render_commands(self) -> Seq<Command> {
        seq![
            Command::GenerateFrame { hwnd: self.hwnd, display_list_rebuilt: false },
            Command::InvalidateRect { hwnd: self.hwnd },
        ]
    }

    /// Asks for a frame of the scene that the renderer has.
    pub fn gpu_scroll_render(&self) -> (commands: Vec<Command>)
        ensures
            commands@ == self.gpu_scroll_render_commands(),
    {
        let commands = vec![
            Command::GenerateFrame { hwnd: self.hwnd, display_list_rebuilt: false },
            Command::InvalidateRect { hwnd: self.hwnd },
        ];
        commands
    }

    // ------------------------------------------------------------- pointer

    /// Whether a pointer at this position is not known to be inside the
    /// window, so that its leaving is not watched for yet.
    pub open spec fn outside(position: CursorPosition) -> bool {
        position is OutOfWindow || position is Uninitialized
    }

    /// The window after the pointer moved to `(x, y)`: the position and the
    /// shape are taken over, and the last hit test is the one that the
    /// window's hit-tester, now resolved, answered.
    pub open spec fn after_mouse_move(self, x: i32, y: i32, cursor_icon: MouseCursorType) -> Window {
        let current = self.internal.current_window_state;
        Window {
            internal: self.staged(
                FullWindowState {
                    mouse_state: MouseState {
                        cursor_position: CursorPosition::InWindow { x, y },
                        mouse_cursor_type: Some(cursor_icon),
                        ..current.mouse_state
                    },
                    last_hit_test: FullHitTest {
                        focused_node: current.focused_node,
                        generation: Some(self.hit_tester.generation()),
                    },
                    ..current
                },
            ),
            hit_tester: self.hit_tester.resolved(),
            ..self
        }
    }

    /// What a pointer movement asks for: watching for the pointer leaving if
    /// it came from outside, the system cursor if the shape changes, and the
    /// callbacks.
    pub open spec fn mouse_move_commands(self, cursor_icon: MouseCursorType) -> Seq<Command> {
        let mouse = self.internal.current_window_state.mouse_state;
        let track = if Self::outside(mouse.cursor_position) {
            seq![Command::TrackMouseLeave { hwnd: self.hwnd }]
        } else {
            Seq::empty()
        };
        let cursor = if mouse.mouse_cursor_type != Some(cursor_icon) {
            seq![Command::SetCursor { hwnd: self.hwnd, cursor: system_cursor(cursor_icon) }]
        } else {
            Seq::empty()
        };
        track + cursor + seq![Command::PostMessage { hwnd: self.hwnd, message: AZ_REDO_HIT_TEST }]
    }

    /// The pointer moved to `(x, y)`. `cursor_icon` is the shape that the
    /// node under that position asks for, as the hit test against the
    /// window's hit-tester found it.
    ///
    /// If the pointer comes in from outside, its leaving is watched for from
    /// now on: each time anew. The system cursor is set only if the shape
    /// changes.
    pub fn mouse_move(&mut self, x: i32, y: i32, cursor_icon: MouseCursorType) -> (commands: Vec<
        Command,
    >)
        ensures
            *final(self) == old(self).after_mouse_move(x, y, cursor_icon),
            commands@ == old(self).mouse_move_commands(cursor_icon),
            old(self).wf() ==> final(self).wf(),
    {
        let hwnd = self.hwnd;
        let mut commands: Vec<Command> = Vec::new();
        let previous = self.internal.current_window_state;
        match previous.mouse_state.cursor_position {
            CursorPosition::OutOfWindow | CursorPosition::Uninitialized => {
                commands.push(Command::TrackMouseLeave { hwnd });
            },
            CursorPosition::InWindow { .. } => {},
        }
        self.internal.previous_window_state = Some(previous);
        self.internal.current_window_state.mouse_state.cursor_position = CursorPosition::InWindow {
            x,
            y,
        };
        let generation = self.hit_tester.resolve();
        self.internal.current_window_state.last_hit_test = FullHitTest {
            focused_node: previous.focused_node,
            generation: Some(generation),
        };
        let shape_changed = match previous.mouse_state.mouse_cursor_type {
            Some(shape) => shape != cursor_icon,
            None => true,
        };
        self.internal.current_window_state.mouse_state.mouse_cursor_type = Some(cursor_icon);
        if shape_changed {
            commands.push(Command::SetCursor { hwnd, cursor: win32_translate_cursor(cursor_icon) });
        }
        commands.push(Command::PostMessage { hwnd, message: AZ_REDO_HIT_TEST });
        commands
    }

    /// The window after the pointer left it.
    pub open spec fn after_mouse_leave(self) -> Window {
        let current = self.internal.current_window_state;
        Window {
            internal: self.staged(
                FullWindowState {
                    mouse_state: MouseState {
                        cursor_position: CursorPosition::OutOfWindow,
                        mouse_cursor_type: None,
                        ..current.mouse_state
                    },
                    last_hit_test: FullHitTest::empty_for(current.focused_node),
                    ..current
                },
            ),
            ..self
        }
    }

    /// What the pointer leaving asks for: the arrow cursor and the callbacks.
    pub open spec fn mouse_leave_commands(self) -> Seq<Command> {
        seq![
            Command::SetCursor { hwnd: self.hwnd, cursor: IDC_ARROW },
            Command::PostMessage { hwnd: self.hwnd, message: AZ_REDO_HIT_TEST },
        ]
    }

    /// The pointer left the window: it hits nothing any more and the system
    /// cursor is the arrow again.
    pub fn mouse_leave(&mut self) -> (commands: Vec<Command>)
        ensures
            *final(self) == old(self).after_mouse_leave(),
            commands@ == old(self).mouse_leave_commands(),
            old(self).wf() ==> final(self).wf(),
    {
        let hwnd = self.hwnd;
        let previous = self.internal.current_window_state;
        self.internal.previous_window_state = Some(previous);
        self.internal.current_window_state.mouse_state.cursor_position =
            CursorPosition::OutOfWindow;
        self.internal.current_window_state.last_hit_test = FullHitTest::empty(
            previous.focused_node,
        );
        self.internal.current_window_state.mouse_state.mouse_cursor_type = None;
        let commands = vec![
            Command::SetCursor { hwnd, cursor: win32_translate_cursor(MouseCursorType::Default) },
            Command::PostMessage { hwnd, message: AZ_REDO_HIT_TEST },
        ];
        commands
    }

    /// The window after a mouse button went down or up.
    pub open spec fn after_button(self, button: MouseButton, down: bool) -> Window {
        let current = self.internal.current_window_state;
        let mouse = match button {
            MouseButton::Left => MouseState { left_down: down, ..current.mouse_state },
            MouseButton::Right => MouseState { right_down: down, ..current.mouse_state },
        };
        Window {
            internal: self.staged(FullWindowState { mouse_state: mouse, ..current }),
            ..self
        }
    }

    /// What a mouse button asks for: the callbacks.
    pub open spec fn button_commands(self) -> Seq<Command> {
        seq![Command::PostMessage { hwnd: self.hwnd, message: AZ_REDO_HIT_TEST }]
    }

    /// A mouse button went down or up.
    pub fn button(&mut self, button: MouseButton, down: bool) -> (commands: Vec<Command>)
        ensures
            *final(self) == old(self).after_button(button, down),
            commands@ == old(self).button_commands(),
            old(self).wf() ==> final(self).wf(),
    {
        let previous = self.internal.current_window_state;
        self.internal.previous_window_state = Some(previous);
        match button {
            MouseButton::Left => {
                self.internal.current_window_state.mouse_state.left_down = down;
            },
            MouseButton::Right => {
                self.internal.current_window_state.mouse_state.right_down = down;
            },
        }
        let commands = vec![Command::PostMessage { hwnd: self.hwnd, message: AZ_REDO_HIT_TEST }];
        commands
    }

    // ---------------------------------------------------------------- size

    /// The window after its client area came to a new size: size and frame
    /// are taken over and the display list is submitted again.
    pub open spec fn after_resize(self, width: u32, height: u32, kind: SizeKind) -> Window {
        let current = self.internal.current_window_state;
        let resized = FullWindowState {
            size: WindowSize { width, height, ..current.size },
            flags: WindowFlags { frame: frame_after(current.flags.frame, kind), ..current.flags },
            ..current
        };
        Window { internal: self.staged(resized), ..self }.resubmitted()
    }

    /// What a new size asks for.
    pub open spec fn resize_commands(self, width: u32, height: u32) -> Seq<Command> {
        seq![
            Command::QuickResize { hwnd: self.hwnd, width, height },
            Command::SetDocumentView {
                hwnd: self.hwnd,
                width: device_pixels(width),
                height: device_pixels(height),
            },
            Command::RebuildDisplayList { hwnd: self.hwnd },
            Command::RequestHitTester { hwnd: self.hwnd },
            Command::GenerateFrame { hwnd: self.hwnd, display_list_rebuilt: true },
        ]
    }

    /// The client area has a new size. The content is laid out for it, the
    /// renderer is told the new extent, the display list is submitted again
    /// and its hit-tester asked for.
    pub fn resize(&mut self, width: u32, height: u32, kind: SizeKind) -> (commands: Vec<Command>)
        requires
            old(self).internal.epoch < u64::MAX,
        ensures
            *final(self) == old(self).after_resize(width, height, kind),
            commands@ == old(self).resize_commands(width, height),
            old(self).wf() ==> final(self).wf(),
    {
        let hwnd = self.hwnd;
        let previous = self.internal.current_window_state;
        let mut new_window_state = previous;
        new_window_state.size.width = width;
        new_window_state.size.height = height;
        match kind {
            SizeKind::Maximized => {
                new_window_state.flags.frame = WindowFrame::Maximized;
            },
            SizeKind::Minimized => {
                new_window_state.flags.frame = WindowFrame::Minimized;
            },
            SizeKind::Restored => {
                new_window_state.flags.frame = WindowFrame::Normal;
            },
            SizeKind::Other => {},
        }
        self.internal.previous_window_state = Some(previous);
        self.internal.current_window_state = new_window_state;
        self.resubmit_display_list();
        let commands = vec![
            Command::QuickResize { hwnd, width, height },
            Command::SetDocumentView {
                hwnd,
                width: to_device_pixels(width),
                height: to_device_pixels(height),
            },
            Command::RebuildDisplayList { hwnd },
            Command::RequestHitTester { hwnd },
            Command::GenerateFrame { hwnd, display_list_rebuilt: true },
        ];
        commands
    }

    // --------------------------------------------------------------- paint

    /// The operations that paint the window. Without a device context there
    /// is nothing to do. Without a rendering context nothing is painted and
    /// the device context is given back. Else the context is made current,
    /// the scene is waited for, the renderer draws and frees the textures of
    /// finished epochs, the buffers are swapped, and context and device
    /// context are released.
    pub open spec fn paint_commands(self, has_device_context: bool, client: Rect) -> Seq<Command> {
        if !has_device_context {
            Seq::empty()
        } else {
            match self.gl_context {
                None => seq![Command::ReleaseDc { hwnd: self.hwnd }],
                Some(context) => {
                    let width = device_pixels(client.extent().width);
                    let height = device_pixels(client.extent().height);
                    let render = if self.renderer is Some {
                        seq![
                            Command::Render { hwnd: self.hwnd, width, height },
                            Command::ReclaimTextures { hwnd: self.hwnd },
                        ]
                    } else {
                        Seq::empty()
                    };
                    seq![
                        Command::MakeCurrent { hwnd: self.hwnd, context },
                        Command::FlushSceneBuilder { hwnd: self.hwnd },
                        Command::PrepareFramebuffer { width, height },
                    ] + render + seq![
                        Command::SwapBuffers { hwnd: self.hwnd },
                        Command::RestoreGlState,
                        Command::ReleaseCurrent,
                        Command::ReleaseDc { hwnd: self.hwnd },
                    ]
                },
            }
        }
    }

    /// Paints the window into the client area `client`.
    pub fn paint(&self, has_device_context: bool, client: Rect) -> (commands: Vec<Command>)
        ensures
            commands@ == self.paint_commands(has_device_context, client),
    {
        let hwnd = self.hwnd;
        let mut commands: Vec<Command> = Vec::new();
        if !has_device_context {
            return commands;
        }
        let context = match self.gl_context {
            Some(context) => context,
            None => {
                commands.push(Command::ReleaseDc { hwnd });
                return commands;
            },
        };
        let size = client.size();
        let width = to_device_pixels(size.width);
        let height = to_device_pixels(size.height);
        commands.push(Command::MakeCurrent { hwnd, context });
        commands.push(Command::FlushSceneBuilder { hwnd });
        commands.push(Command::PrepareFramebuffer { width, height });
        if self.renderer.is_some() {
            commands.push(Command::Render { hwnd, width, height });
            commands.push(Command::ReclaimTextures { hwnd });
        }
        commands.push(Command::SwapBuffers { hwnd });
        commands.push(Command::RestoreGlState);
        commands.push(Command::ReleaseCurrent);
        commands.push(Command::ReleaseDc { hwnd });
        commands
    }
}

/// The rendering context that is current after `commands` were carried out,
/// if `current` was before.
pub open spec fn current_context_after(current: Option<usize>, commands: Seq<Command>) -> Option<
    usize,
>
    decreases commands.len(),
{
    if commands.len() == 0 {
        current
    } else {
        match commands.last() {
            Command::MakeCurrent { context, .. } => Some(context),
            Command::ReleaseCurrent => None,
            _ => current_context_after(current, commands.drop_last()),
        }
    }
}

/// Whether no operation that draws is carried out without a current
/// context: each `Render`, `SwapBuffers` and `PrepareFramebuffer` finds one.
pub open spec fn draws_with_context(current: Option<usize>, commands: Seq<Command>) -> bool {
    forall|i: int|
        0 <= i < commands.len() && (#[trigger] commands[i] is Render || commands[i] is SwapBuffers
            || commands[i] is PrepareFramebuffer) ==> current_context_after(
            current,
            commands.take(i),
        ) is Some
}

/// Painting leaves no rendering context current, whatever the window has
/// and whether or not there is a device context; and it draws only while
/// the window's own context is current.
pub proof fn lemma_paint_releases_context(window: Window, has_device_context: bool, client: Rect)
    ensures
        current_context_after(None, window.paint_commands(has_device_context, client)) is None,
        draws_with_context(None, window.paint_commands(has_device_context, client)),
{
    let commands = window.paint_commands(has_device_context, client);
    reveal_with_fuel(current_context_after, 10);
    if has_device_context && window.gl_context is Some {
        let n = commands.len() as int;
        assert(commands.drop_last().last() is ReleaseCurrent);
        assert forall|i: int|
            0 <= i < commands.len() && (#[trigger] commands[i] is Render || commands[i] is SwapBuffers
                || commands[i] is PrepareFramebuffer) implies current_context_after(
            None,
            commands.take(i),
        ) is Some by {
            let prefix = commands.take(i);
            assert(prefix.len() == i);
            assert(i >= 2);
            assert(prefix[0] is MakeCurrent);
            lemma_context_stays(None, prefix, 0);
        }
    }
}

/// A context that was made current stays current as long as none is
/// released or made current after it.
pub proof fn lemma_context_stays(current: Option<usize>, commands: Seq<Command>, at: int)
    requires
        0 <= at < commands.len(),
        commands[at] is MakeCurrent,
        forall|i: int| at < i < commands.len() ==> !(#[trigger] commands[i] is MakeCurrent) && !(
        commands[i] is ReleaseCurrent),
    ensures
        current_context_after(current, commands) is Some,
    decreases commands.len(),
{
    if at < commands.len() - 1 {
        let front = commands.drop_last();
        assert(front[at] == commands[at]);
        assert forall|i: int| at < i < front.len() implies !(#[trigger] front[i] is MakeCurrent)
            && !(front[i] is ReleaseCurrent) by {
            assert(front[i] == commands[i]);
        }
        lemma_context_stays(current, front, at);
    }
}

/// After a display list was submitted again, the hit-tester that the window
/// resolves is the one of that display list: it is newer than the
/// hit-tester that the window held before and than the one that answered
/// the last hit test.
pub proof fn lemma_resolve_after_resubmission_in_window(window: Window)
    requires
        window.wf(),
        window.internal.epoch < u64::MAX,
    ensures
        window.resubmitted().wf(),
        window.resubmitted().hit_tester.resolved().generation()
            == window.resubmitted().internal.epoch,
        window.resubmitted().hit_tester.resolved().generation() > window.hit_tester.generation(),
        window.internal.current_window_state.last_hit_test.generation matches Some(g)
            ==> window.resubmitted().hit_tester.resolved().generation() > g,
{
}

/// Every message that changes what the pointer does stages the state: what
/// was current before the message is the previous state after it.
pub proof fn lemma_pointer_messages_stage_state(
    window: Window,
    x: i32,
    y: i32,
    cursor_icon: MouseCursorType,
    button: MouseButton,
    down: bool,
    width: u32,
    height: u32,
    kind: SizeKind,
)
    ensures
        window.after_mouse_move(x, y, cursor_icon).internal.previous_window_state == Some(
            window.internal.current_window_state,
        ),
        window.after_mouse_leave().internal.previous_window_state == Some(
            window.internal.current_window_state,
        ),
        window.after_button(button, down).internal.previous_window_state == Some(
            window.internal.current_window_state,
        ),
        window.after_resize(width, height, kind).internal.previous_window_state == Some(
            window.internal.current_window_state,
        ),
{
}

/// Leaving is watched for each time the pointer comes into the window, not
/// only the first time: the first move after the pointer left asks for it
/// again, and a move inside the window does not.
pub proof fn lemma_leave_tracking_is_rearmed(
    window: Window,
    x: i32,
    y: i32,
    cursor_icon: MouseCursorType,
)
    ensures
        window.after_mouse_leave().mouse_move_commands(cursor_icon)[0] == (
        Command::TrackMouseLeave { hwnd: window.hwnd }),
        !window.after_mouse_move(x, y, cursor_icon).mouse_move_commands(cursor_icon).contains(
            Command::TrackMouseLeave { hwnd: window.hwnd },
        ),
{
    let inside = window.after_mouse_move(x, y, cursor_icon);
    let commands = inside.mouse_move_commands(cursor_icon);
    assert(commands == seq![Command::PostMessage { hwnd: window.hwnd, message: AZ_REDO_HIT_TEST }]);
}

} // verus!
