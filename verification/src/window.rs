//! One window of the shell and the resources it owns.

use std::collections::BTreeMap;
use std::collections::BTreeSet;
use vstd::prelude::*;
use crate::command::Command;
use crate::hit_test::AsyncHitTester;
use crate::menu::MenuCallback;
use crate::state::{FullWindowState, RendererType, ThreadId, TimerId};

verus! {

/// The interface state of a window: what it shows now, what it showed before
/// the last event, and how many display lists it has submitted.
#[derive(Debug, Copy, Clone, PartialEq, Eq, Structural)]
pub struct WindowInternal {
    pub current_window_state: FullWindowState,
    /// Absent until the first event after the interface tree was built.
    pub previous_window_state: Option<FullWindowState>,
    /// Number of display lists submitted to the renderer so far.
    pub epoch: u64,
}

/// A native window with its rendering context, its renderer, its hit-tester,
/// its timers and its background tasks.
#[derive(Debug)]
pub struct Window {
    /// Handle of the native window.
    pub hwnd: usize,
    pub internal: WindowInternal,
    /// Handle of the rendering context; none when rasterizing in software.
    pub gl_context: Option<usize>,
    /// The renderer, by the way it rasterizes; none once it is shut down.
    pub renderer: Option<RendererType>,
    pub hit_tester: AsyncHitTester,
    /// Menu command to the callback it runs.
    pub menu_callbacks: BTreeMap<u16, MenuCallback>,
    /// Logical timer to the period, in milliseconds, of the system timer
    /// that is armed for it.
    pub timers: BTreeMap<TimerId, u32>,
    /// The background tasks that are alive.
    pub threads: BTreeSet<ThreadId>,
    /// Identifier of the system timer that polls the background tasks, while
    /// it is armed.
    pub thread_timer_running: Option<usize>,
    /// Hash of the menu that the native window shows.
    pub menu_hash: Option<u64>,
    /// How many passes in a row asked to be run again.
    pub reprocess_depth: u32,
}

/// The number of passes in a row that may ask to be run again. One more is a
/// defect of the layout: it is reported and the pass is not run again.
pub const MAX_REPROCESS_DEPTH: u32 = 16;

impl Window {
    /// What holds of a window between any two messages: it has its renderer,
    /// its hit-tester is the one of the newest display list, the last hit
    /// test was not answered by a later hit-tester than that, the timer that
    /// polls the background tasks is armed exactly while there are any, and
    /// no more passes in a row asked to be run again than may.
    pub open spec fn wf(self) -> bool {
        &&& self.renderer is Some
        &&& self.hit_tester.generation() == self.internal.epoch
        &&& (self.internal.current_window_state.last_hit_test.generation matches Some(g) ==> g
            <= self.internal.epoch)
        &&& (self.thread_timer_running is Some <==> !self.threads@.is_empty())
        &&& self.reprocess_depth <= MAX_REPROCESS_DEPTH
    }

    /// Everything but the timer table is the same in both windows.
    pub open spec fn same_but_timers(self, other: Window) -> bool {
        &&& self.hwnd == other.hwnd
        &&& self.internal == other.internal
        &&& self.gl_context == other.gl_context
        &&& self.renderer == other.renderer
        &&& self.hit_tester == other.hit_tester
        &&& self.menu_callbacks == other.menu_callbacks
        &&& self.threads == other.threads
        &&& self.thread_timer_running == other.thread_timer_running
        &&& self.menu_hash == other.menu_hash
        &&& self.reprocess_depth == other.reprocess_depth
    }

    /// Everything but the background tasks and their timer is the same in
    /// both windows.
    pub open spec fn same_but_threads(self, other: Window) -> bool {
        &&& self.hwnd == other.hwnd
        &&& self.internal == other.internal
        &&& self.gl_context == other.gl_context
        &&& self.renderer == other.renderer
        &&& self.hit_tester == other.hit_tester
        &&& self.menu_callbacks == other.menu_callbacks
        &&& self.timers == other.timers
        &&& self.menu_hash == other.menu_hash
        &&& self.reprocess_depth == other.reprocess_depth
    }

    /// Native handle, rendering context, renderer, menu, timers and
    /// background tasks are the same in both windows: they differ at most in
    /// the interface state and the hit-tester.
    pub open spec fn same_resources(self, other: Window) -> bool {
        &&& self.hwnd == other.hwnd
        &&& self.gl_context == other.gl_context
        &&& self.renderer == other.renderer
        &&& self.menu_callbacks == other.menu_callbacks
        &&& self.timers == other.timers
        &&& self.threads == other.threads
        &&& self.thread_timer_running == other.thread_timer_running
        &&& self.menu_hash == other.menu_hash
        &&& self.reprocess_depth == other.reprocess_depth
    }

    /// The key of the window in the table of windows.
    pub fn get_id(&self) -> (id: usize)
        ensures
            id == self.hwnd,
    {
        self.hwnd
    }

    /// The operations that release what the window owns, in order: the
    /// renderer is shut down first, then no context is left current, then
    /// the window's own context is deleted.
    pub open spec fn release_commands(self) -> Seq<Command> {
        let renderer = if self.renderer is Some {
            seq![Command::DeinitRenderer { hwnd: self.hwnd }]
        } else {
            Seq::empty()
        };
        let context = match self.gl_context {
            Some(context) => seq![Command::DeleteContext { context }],
            None => Seq::empty(),
        };
        renderer + seq![Command::ReleaseCurrent] + context
    }

    /// Releases the resources of the window, which must not be used for
    /// rendering afterwards: it has neither renderer nor context any more.
    /// A second call releases nothing again.
    pub fn release(&mut self) -> (commands: Vec<Command>)
        ensures
            commands@ == old(self).release_commands(),
            final(self).renderer is None,
            final(self).gl_context is None,
            final(self).hwnd == old(self).hwnd,
            final(self).internal == old(self).internal,
            final(self).hit_tester == old(self).hit_tester,
            final(self).menu_callbacks == old(self).menu_callbacks,
            final(self).timers == old(self).timers,
            final(self).threads == old(self).threads,
            final(self).thread_timer_running == old(self).thread_timer_running,
            final(self).menu_hash == old(self).menu_hash,
            final(self).reprocess_depth == old(self).reprocess_depth,
    {
        let mut commands: Vec<Command> = Vec::new();
        if self.renderer.is_some() {
            commands.push(Command::DeinitRenderer { hwnd: self.hwnd });
            self.renderer = None;
        }
        commands.push(Command::ReleaseCurrent);
        if let Some(context) = self.gl_context {
            commands.push(Command::DeleteContext { context });
            self.gl_context = None;
        }
        commands
    }
}

/// How many of the operations delete a rendering context.
pub open spec fn count_context_deletions(commands: Seq<Command>) -> nat
    decreases commands.len(),
{
    if commands.len() == 0 {
        0
    } else {
        count_context_deletions(commands.drop_last()) + (if commands.last() is DeleteContext {
            1nat
        } else {
            0nat
        })
    }
}

/// Releasing a window deletes its rendering context once if it has one, and
/// none otherwise.
pub proof fn lemma_release_deletes_context_once(window: Window)
    ensures
        count_context_deletions(window.release_commands()) == (if window.gl_context is Some {
            1nat
        } else {
            0nat
        }),
{
    let cmds = window.release_commands();
    reveal_with_fuel(count_context_deletions, 4);
    if window.renderer is Some {
        if window.gl_context is Some {
            assert(cmds.len() == 3);
            assert(cmds.drop_last().drop_last().drop_last().len() == 0);
        } else {
            assert(cmds.len() == 2);
            assert(cmds.drop_last().drop_last().len() == 0);
        }
    } else {
        if window.gl_context is Some {
            assert(cmds.len() == 2);
            assert(cmds.drop_last().drop_last().len() == 0);
        } else {
            assert(cmds.len() == 1);
            assert(cmds.drop_last().len() == 0);
        }
    }
}

} // verus!
