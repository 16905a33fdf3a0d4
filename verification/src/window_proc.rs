//! The window procedure: what the application does with one message.
//!
//! The caller decodes the message, gathers what the message needs from the
//! hit-tester, the callbacks and the layout engine, and hands it over as a
//! [`WindowEvent`]. The procedure changes the table of windows and answers
//! with the operations to carry out and the reply for the operating system.
//! The application data is free again when the operations are carried out,
//! so that none of them can find it in use.

use vstd::prelude::*;
use crate::app::{
    create_windows, creating, destroy_windows, posts_to_each, shutdown, ApplicationData,
};
use crate::command::{
    Command, Reply, AZ_GPU_SCROLL_RENDER, AZ_REDO_HIT_TEST, AZ_REGENERATE_DISPLAY_LIST,
    AZ_REGENERATE_DOM,
};
use crate::cursor::MouseCursorType;
use crate::decision::{
    append_commands, pass_applied, pass_closes, pass_commands, pass_outcome, process_event,
    process_timer, CallCallbacksResult, ProcessEventResult,
};
use crate::geometry::Rect;
use crate::message::{Message, TimerKind};
use crate::state::{StyleAndLayoutChanges, WindowCreateOptions};
use crate::window::{Window, MAX_REPROCESS_DEPTH};

verus! {

broadcast use {vstd::std_specs::btree::group_btree_axioms, vstd::laws_cmp::group_laws_cmp};

/// A message together with what handling it needs.
#[derive(Debug)]
pub enum WindowEvent {
    /// A message that needs nothing but itself.
    Plain { message: Message },
    /// The pointer moved; `cursor_icon` is the shape that the node under the
    /// new position asks for.
    MouseMove { x: i32, y: i32, cursor_icon: MouseCursorType },
    /// The window is to be painted; `client` is its client area.
    Paint { has_device_context: bool, client: Rect },
    /// The callbacks of the last input event have run; `changes` is what
    /// restyling and laying out the touched nodes found.
    RedoHitTest { results: CallCallbacksResult, changes: StyleAndLayoutChanges },
    /// The callback of a logical timer has run.
    TimerFired { results: CallCallbacksResult, changes: StyleAndLayoutChanges },
}

/// The answer of the window procedure.
#[derive(Debug)]
pub struct WindowProcResult {
    pub reply: Reply,
    /// What has to be carried out, in order, before the next message is
    /// taken from the queue.
    pub commands: Vec<Command>,
}

/// The window after an event that concerns it alone.
pub open spec fn window_after(window: Window, event: WindowEvent) -> Window {
    match event {
        WindowEvent::Plain { message } => match message {
            Message::RegenerateDom => window.after_regenerate_dom(),
            Message::RegenerateDisplayList => window.resubmitted(),
            Message::MouseLeave => window.after_mouse_leave(),
            Message::ButtonDown { button } => window.after_button(button, true),
            Message::ButtonUp { button } => window.after_button(button, false),
            Message::Size { width, height, kind } => window.after_resize(width, height, kind),
            _ => window,
        },
        WindowEvent::MouseMove { x, y, cursor_icon } => window.after_mouse_move(x, y, cursor_icon),
        _ => window,
    }
}

/// The operations that an event asks of the window that it concerns.
pub open spec fn window_commands(window: Window, event: WindowEvent) -> Seq<Command> {
    match event {
        WindowEvent::Plain { message } => match message {
            Message::RegenerateDom => window.regenerate_dom_commands(),
            Message::RegenerateDisplayList => window.regenerate_display_list_commands(),
            Message::GpuScrollRender => window.gpu_scroll_render_commands(),
            Message::MouseLeave => window.mouse_leave_commands(),
            Message::ButtonDown { .. } => window.button_commands(),
            Message::ButtonUp { .. } => window.button_commands(),
            Message::Size { width, height, .. } => window.resize_commands(width, height),
            Message::Timer { kind: TimerKind::RegenerateDom } => seq![
                Command::PostMessage { hwnd: window.hwnd, message: AZ_REGENERATE_DOM },
            ],
            _ => Seq::empty(),
        },
        WindowEvent::MouseMove { cursor_icon, .. } => window.mouse_move_commands(cursor_icon),
        WindowEvent::Paint { has_device_context, client } => window.paint_commands(
            has_device_context,
            client,
        ),
        _ => Seq::empty(),
    }
}

/// The operations that an event asks for when no window is filed under the
/// handle it came for.
pub open spec fn stray_commands(hwnd: usize, event: WindowEvent) -> Seq<Command> {
    match event {
        WindowEvent::Plain { message: Message::Timer { kind: TimerKind::RegenerateDom } } => seq![
            Command::PostMessage { hwnd, message: AZ_REGENERATE_DOM },
        ],
        WindowEvent::Paint { has_device_context, .. } => if has_device_context {
            seq![Command::ReleaseDc { hwnd }]
        } else {
            Seq::empty()
        },
        _ => Seq::empty(),
    }
}

/// The reply to an event. `present` says whether a window is filed under the
/// handle it came for.
///
/// Handled are the messages of the shell itself and those whose default
/// handling would interfere: erasing the background, which the renderer
/// makes needless, pointer movement, and a new size.
pub open spec fn reply_to(event: WindowEvent, present: bool) -> Reply {
    match event {
        WindowEvent::Plain { message } => match message {
            Message::RegenerateDom => Reply::Handled(0),
            Message::RegenerateDisplayList => if present {
                Reply::Handled(0)
            } else {
                Reply::Handled(-1isize)
            },
            Message::EraseBackground => Reply::Handled(1),
            Message::MouseLeave => if present {
                Reply::Handled(0)
            } else {
                Reply::Default
            },
            Message::Size { .. } => if present {
                Reply::Handled(0)
            } else {
                Reply::Default
            },
            _ => Reply::Default,
        },
        WindowEvent::MouseMove { .. } => Reply::Handled(0),
        WindowEvent::Paint { .. } => Reply::Default,
        WindowEvent::RedoHitTest { .. } => if present {
            Reply::Handled(0)
        } else {
            Reply::Default
        },
        WindowEvent::TimerFired { .. } => if present {
            Reply::Handled(0)
        } else {
            Reply::Default
        },
    }
}

/// Whether the event submits a display list.
pub open spec fn submits_display_list(event: WindowEvent) -> bool {
    event matches WindowEvent::Plain { message } && (message is RegenerateDom
        || message is RegenerateDisplayList || message is Size)
}

/// How many passes in a row asked to be run again, after one more pass.
pub open spec fn depth_after(depth: u32, outcome: ProcessEventResult) -> u32 {
    if outcome == ProcessEventResult::UpdateHitTesterAndProcessAgain && depth
        < MAX_REPROCESS_DEPTH {
        (depth + 1) as u32
    } else {
        0
    }
}

/// The message that carries out the outcome of a pass, for the outcomes
/// that concern the window of the pass alone.
pub open spec fn follow_up_message(outcome: ProcessEventResult) -> Option<u32> {
    match outcome {
        ProcessEventResult::DoNothing => None,
        ProcessEventResult::ShouldRegenerateDomCurrentWindow => Some(AZ_REGENERATE_DOM),
        ProcessEventResult::ShouldRegenerateDomAllWindows => None,
        ProcessEventResult::ShouldUpdateDisplayListCurrentWindow => Some(
            AZ_REGENERATE_DISPLAY_LIST,
        ),
        ProcessEventResult::UpdateHitTesterAndProcessAgain => Some(AZ_REDO_HIT_TEST),
        ProcessEventResult::ShouldReRenderCurrentWindow => Some(AZ_GPU_SCROLL_RENDER),
    }
}

/// Whether `commands` carry out the outcome of a pass over the window
/// `hwnd`, which had asked `depth` times in a row to be run again, when
/// `windows` are open after the pass.
///
/// A new interface tree for all windows is asked of each open window. Every
/// other outcome is asked of the window of the pass, if it is still open.
/// A pass that wants to be run again once too often is reported instead.
pub open spec fn carries_out(
    commands: Seq<Command>,
    outcome: ProcessEventResult,
    hwnd: usize,
    depth: u32,
    windows: Set<usize>,
) -> bool {
    if outcome == ProcessEventResult::ShouldRegenerateDomAllWindows {
        posts_to_each(commands, windows, AZ_REGENERATE_DOM) && commands.len() == windows.len()
    } else if outcome == ProcessEventResult::UpdateHitTesterAndProcessAgain && depth
        >= MAX_REPROCESS_DEPTH {
        commands == seq![Command::ReportReprocessLimit { hwnd }]
    } else {
        match follow_up_message(outcome) {
            Some(message) => if windows.contains(hwnd) {
                commands == seq![Command::PostMessage { hwnd, message }]
            } else {
                commands == Seq::<Command>::empty()
            },
            None => commands == Seq::<Command>::empty(),
        }
    }
}

/// What the window procedure does for an event that concerns one window
/// alone.
pub open spec fn local_post(
    before: ApplicationData,
    after: ApplicationData,
    hwnd: usize,
    event: WindowEvent,
    out: WindowProcResult,
) -> bool {
    if before.windows@.contains_key(hwnd) {
        &&& after.windows@ == before.windows@.insert(
            hwnd,
            window_after(before.windows@[hwnd], event),
        )
        &&& out.commands@ == window_commands(before.windows@[hwnd], event)
        &&& out.reply == reply_to(event, true)
    } else {
        &&& after.windows@ == before.windows@
        &&& out.commands@ == stray_commands(hwnd, event)
        &&& out.reply == reply_to(event, false)
    }
}

/// What the window procedure does when a window is destroyed: the window
/// leaves the table and its resources are released; if the table becomes
/// empty, the message loop is told to end.
pub open spec fn destroy_post(
    before: ApplicationData,
    after: ApplicationData,
    hwnd: usize,
    out: WindowProcResult,
) -> bool {
    &&& after.windows@ == before.windows@.remove(hwnd)
    &&& out.reply == Reply::Default
    &&& out.commands@ == (if before.windows@.contains_key(hwnd) {
        before.windows@[hwnd].release_commands()
    } else {
        Seq::empty()
    }) + shutdown(before.windows@, after.windows@)
}

/// What the window procedure does after callbacks have run: one pass over
/// the window, then the windows that the callbacks asked for are opened,
/// the window is destroyed if a callback asked for it, and the outcome of
/// the pass is carried out. Every other window stays as it is.
pub open spec fn pass_post(
    before: ApplicationData,
    after: ApplicationData,
    hwnd: usize,
    results: CallCallbacksResult,
    changes: StyleAndLayoutChanges,
    out: WindowProcResult,
) -> bool {
    if !before.windows@.contains_key(hwnd) {
        &&& after.windows@ == before.windows@
        &&& out.commands@ == Seq::<Command>::empty()
        &&& out.reply == Reply::Default
    } else {
        let window = before.windows@[hwnd];
        let outcome = pass_outcome(window.internal, results.input(changes));
        let closes = pass_closes(hwnd, results.modified_window_state).len() > 0;
        &&& out.reply == Reply::Handled(0)
        &&& after.windows@.dom() == (if closes {
            before.windows@.dom().remove(hwnd)
        } else {
            before.windows@.dom()
        })
        &&& forall|other: usize|
            other != hwnd && #[trigger] before.windows@.contains_key(other) ==> after.windows@[other]
                == before.windows@[other]
        &&& !closes ==> {
            &&& pass_applied(
                Window {
                    reprocess_depth: depth_after(window.reprocess_depth, outcome),
                    ..window
                },
                after.windows@[hwnd],
                results,
                changes,
            )
        }
        &&& exists|follow_up: Seq<Command>|
            {
                &&& #[trigger] carries_out(
                    follow_up,
                    outcome,
                    hwnd,
                    window.reprocess_depth,
                    after.windows@.dom(),
                )
                &&& out.commands@ == pass_commands(window, results, changes) + creating(
                    results.windows_created@,
                ) + (if closes {
                    window.release_commands() + seq![Command::DestroyWindow { hwnd }]
                } else {
                    Seq::empty()
                }) + shutdown(before.windows@, after.windows@) + follow_up
            }
    }
}

/// What the window procedure does for an event.
pub open spec fn window_proc_post(
    before: ApplicationData,
    after: ApplicationData,
    hwnd: usize,
    event: WindowEvent,
    out: WindowProcResult,
) -> bool {
    &&& after.hinstance == before.hinstance
    &&& after.dwm == before.dwm
    &&& match event {
        WindowEvent::RedoHitTest { results, changes } => pass_post(
            before,
            after,
            hwnd,
            results,
            changes,
            out,
        ),
        WindowEvent::TimerFired { results, changes } => pass_post(
            before,
            after,
            hwnd,
            results,
            changes,
            out,
        ),
        WindowEvent::Plain { message: Message::Destroy } => destroy_post(before, after, hwnd, out),
        _ => local_post(before, after, hwnd, event, out),
    }
}

impl Window {
    /// Handles an event that concerns this window alone.
    pub fn apply(&mut self, event: &WindowEvent) -> (commands: Vec<Command>)
        requires
            submits_display_list(*event) ==> old(self).internal.epoch < u64::MAX,
        ensures
            *final(self) == window_after(*old(self), *event),
            commands@ == window_commands(*old(self), *event),
            old(self).wf() ==> final(self).wf(),
    {
        match event {
            WindowEvent::Plain { message } => match message {
                Message::RegenerateDom => self.regenerate_dom(),
                Message::RegenerateDisplayList => self.regenerate_display_list(),
                Message::GpuScrollRender => self.gpu_scroll_render(),
                Message::MouseLeave => self.mouse_leave(),
                Message::ButtonDown { button } => self.button(*button, true),
                Message::ButtonUp { button } => self.button(*button, false),
                Message::Size { width, height, kind } => self.resize(*width, *height, *kind),
                Message::Timer { kind: TimerKind::RegenerateDom } => {
                    let commands = vec![
                        Command::PostMessage { hwnd: self.hwnd, message: AZ_REGENERATE_DOM },
                    ];
                    commands
                },
                _ => Vec::new(),
            },
            WindowEvent::MouseMove { x, y, cursor_icon } => self.mouse_move(*x, *y, *cursor_icon),
            WindowEvent::Paint { has_device_context, client } => self.paint(
                *has_device_context,
                *client,
            ),
            _ => Vec::new(),
        }
    }
}

/// Answers an event that came for a handle under which no window is filed.
pub fn stray_event(hwnd: usize, event: &WindowEvent) -> (out: WindowProcResult)
    ensures
        out.commands@ == stray_commands(hwnd, *event),
        out.reply == reply_to(*event, false),
{
    let mut commands: Vec<Command> = Vec::new();
    let reply = match event {
        WindowEvent::Plain { message } => match message {
            Message::RegenerateDom => Reply::Handled(0),
            Message::RegenerateDisplayList => Reply::Handled(-1),
            Message::EraseBackground => Reply::Handled(1),
            Message::Timer { kind: TimerKind::RegenerateDom } => {
                commands.push(Command::PostMessage { hwnd, message: AZ_REGENERATE_DOM });
                Reply::Default
            },
            _ => Reply::Default,
        },
        WindowEvent::MouseMove { .. } => Reply::Handled(0),
        WindowEvent::Paint { has_device_context, .. } => {
            if *has_device_context {
                commands.push(Command::ReleaseDc { hwnd });
            }
            Reply::Default
        },
        WindowEvent::RedoHitTest { .. } => Reply::Default,
        WindowEvent::TimerFired { .. } => Reply::Default,
    };
    WindowProcResult { reply, commands }
}

/// Computes the reply to an event that found its window.
pub fn reply_for(event: &WindowEvent) -> (reply: Reply)
    ensures
        reply == reply_to(*event, true),
{
    match event {
        WindowEvent::Plain { message } => match message {
            Message::RegenerateDom => Reply::Handled(0),
            Message::RegenerateDisplayList => Reply::Handled(0),
            Message::EraseBackground => Reply::Handled(1),
            Message::MouseLeave => Reply::Handled(0),
            Message::Size { .. } => Reply::Handled(0),
            _ => Reply::Default,
        },
        WindowEvent::MouseMove { .. } => Reply::Handled(0),
        WindowEvent::Paint { .. } => Reply::Default,
        WindowEvent::RedoHitTest { .. } => Reply::Handled(0),
        WindowEvent::TimerFired { .. } => Reply::Handled(0),
    }
}

/// The reply to a message that arrives while the application data is in
/// use: the message is dropped and left to the default window procedure.
pub fn window_proc_busy() -> (out: WindowProcResult)
    ensures
        out.reply == Reply::Default,
        out.commands@ == Seq::<Command>::empty(),
{
    WindowProcResult { reply: Reply::Default, commands: Vec::new() }
}

impl ApplicationData {
    /// Whether the event may be handled: a window that is to submit a
    /// display list has not run out of epochs.
    pub open spec fn can_handle(self, hwnd: usize, event: WindowEvent) -> bool {
        submits_display_list(event) && self.windows@.contains_key(hwnd)
            ==> self.windows@[hwnd].internal.epoch < u64::MAX
    }

    /// Carries out the outcome of a pass.
    fn follow_up(&self, outcome: ProcessEventResult, hwnd: usize, depth: u32) -> (commands: Vec<
        Command,
    >)
        ensures
            carries_out(commands@, outcome, hwnd, depth, self.windows@.dom()),
    {
        let message = match outcome {
            ProcessEventResult::DoNothing => {
                return Vec::new();
            },
            ProcessEventResult::ShouldRegenerateDomAllWindows => {
                return self.post_to_all(AZ_REGENERATE_DOM);
            },
            ProcessEventResult::ShouldRegenerateDomCurrentWindow => AZ_REGENERATE_DOM,
            ProcessEventResult::ShouldUpdateDisplayListCurrentWindow => AZ_REGENERATE_DISPLAY_LIST,
            ProcessEventResult::UpdateHitTesterAndProcessAgain => {
                if depth >= MAX_REPROCESS_DEPTH {
                    let mut commands: Vec<Command> = Vec::new();
                    commands.push(Command::ReportReprocessLimit { hwnd });
                    assert(commands@ == seq![Command::ReportReprocessLimit { hwnd }]);
                    return commands;
                }
                AZ_REDO_HIT_TEST
            },
            ProcessEventResult::ShouldReRenderCurrentWindow => AZ_GPU_SCROLL_RENDER,
        };
        let mut commands: Vec<Command> = Vec::new();
        if self.windows.contains_key(&hwnd) {
            commands.push(Command::PostMessage { hwnd, message });
            assert(commands@ == seq![Command::PostMessage { hwnd, message }]);
        }
        assert(follow_up_message(outcome) == Some(message));
        commands
    }

    /// Runs a pass over the window `hwnd` and carries out what it asks for.
    #[verifier::rlimit(60)]
    fn pass(
        &mut self,
        hwnd: usize,
        results: CallCallbacksResult,
        changes: StyleAndLayoutChanges,
        timer: bool,
    ) -> (out: WindowProcResult)
        requires
            old(self).wf(),
        ensures
            final(self).wf(),
            final(self).hinstance == old(self).hinstance,
            final(self).dwm == old(self).dwm,
            pass_post(*old(self), *final(self), hwnd, results, changes, out),
    {
        let mut window = match self.windows.remove(&hwnd) {
            Some(window) => window,
            None => {
                proof {
                    assert(self.windows@ == old(self).windows@);
                }
                return WindowProcResult { reply: Reply::Default, commands: Vec::new() };
            },
        };
        let ghost before = *old(self);
        let ghost found = window;
        assert(found == before.windows@[hwnd]);
        assert(found.hwnd == hwnd && found.wf());
        let mut commands: Vec<Command> = Vec::new();
        let mut new_windows: Vec<WindowCreateOptions> = Vec::new();
        let mut destroyed_windows: Vec<usize> = Vec::new();
        let depth = window.reprocess_depth;
        let outcome = if timer {
            process_timer(
                &mut window,
                results,
                &changes,
                &mut new_windows,
                &mut destroyed_windows,
                &mut commands,
            )
        } else {
            process_event(
                &mut window,
                results,
                &changes,
                &mut new_windows,
                &mut destroyed_windows,
                &mut commands,
            )
        };
        window.reprocess_depth = match outcome {
            ProcessEventResult::UpdateHitTesterAndProcessAgain => if depth < MAX_REPROCESS_DEPTH {
                depth + 1
            } else {
                0
            },
            _ => 0,
        };
        let ghost passed = window;
        proof {
            assert(new_windows@ == results.windows_created@);
            assert(destroyed_windows@ == pass_closes(hwnd, results.modified_window_state));
            assert(commands@ == pass_commands(found, results, changes));
            assert(passed.wf());
        }
        self.windows.insert(hwnd, window);
        let ghost filed = self.windows@;
        assert(filed == before.windows@.insert(hwnd, passed));
        let created = create_windows(self, new_windows);
        append_commands(&mut commands, created);
        let destroyed = destroy_windows(self, destroyed_windows);
        append_commands(&mut commands, destroyed);
        let ghost head = commands@;
        proof {
            let closes = pass_closes(hwnd, results.modified_window_state);
            reveal_with_fuel(crate::app::table_after_destroying, 3);
            reveal_with_fuel(crate::app::destroying, 3);
            if closes.len() > 0 {
                assert(closes == seq![hwnd]);
                assert(closes.drop_last() == Seq::<usize>::empty());
                assert(closes.last() == hwnd);
                assert(self.windows@ == filed.remove(hwnd));
                assert(passed.release_commands() == found.release_commands());
                assert(self.windows@.dom() == before.windows@.dom().remove(hwnd));
                assert(filed.dom().is_empty() == before.windows@.dom().is_empty());
            } else {
                assert(closes == Seq::<usize>::empty());
                assert(self.windows@ == filed);
                assert(self.windows@.dom() == before.windows@.dom());
            }
            assert(shutdown(filed, self.windows@) == shutdown(before.windows@, self.windows@));
        }
        let follow_up = self.follow_up(outcome, hwnd, depth);
        append_commands(&mut commands, follow_up);
        let out = WindowProcResult { reply: Reply::Handled(0), commands };
        proof {
            let all = out.commands@;
            let closes = pass_closes(hwnd, results.modified_window_state).len() > 0;
            let outcome_spec = pass_outcome(found.internal, results.input(changes));
            assert(outcome == outcome_spec);
            assert(all == head + follow_up@);
            assert(head == pass_commands(found, results, changes) + creating(
                results.windows_created@,
            ) + (if closes {
                found.release_commands() + seq![Command::DestroyWindow { hwnd }]
            } else {
                Seq::empty()
            }) + shutdown(before.windows@, self.windows@));
            assert(carries_out(
                follow_up@,
                outcome_spec,
                hwnd,
                found.reprocess_depth,
                self.windows@.dom(),
            ));
            assert forall|other: usize|
                other != hwnd && #[trigger] before.windows@.contains_key(
                    other,
                ) implies self.windows@[other] == before.windows@[other] by {
                assert(filed[other] == before.windows@[other]);
            }
            if !closes {
                assert(self.windows@[hwnd] == passed);
                assert(pass_applied(
                    Window {
                        reprocess_depth: depth_after(found.reprocess_depth, outcome_spec),
                        ..found
                    },
                    passed,
                    results,
                    changes,
                ));
            }
        }
        out
    }

    /// Takes the window `hwnd` out of the table after the operating system
    /// has destroyed it.
    fn destroyed(&mut self, hwnd: usize) -> (out: WindowProcResult)
        requires
            old(self).wf(),
        ensures
            final(self).wf(),
            final(self).hinstance == old(self).hinstance,
            final(self).dwm == old(self).dwm,
            destroy_post(*old(self), *final(self), hwnd, out),
    {
        let mut commands: Vec<Command> = Vec::new();
        let mut removed = false;
        match self.windows.remove(&hwnd) {
            Some(mut window) => {
                commands = window.release();
                removed = true;
            },
            None => {},
        }
        let ghost released = commands@;
        proof {
            if !removed {
                assert(self.windows@ == old(self).windows@);
                assert(shutdown(old(self).windows@, self.windows@) == Seq::<Command>::empty());
            } else {
                assert(old(self).windows@.dom().contains(hwnd));
                assert(!old(self).windows@.dom().is_empty());
            }
        }
        if removed && self.windows.is_empty() {
            commands.push(Command::PostQuitMessage { exit_code: 0 });
        }
        proof {
            assert(commands@ == released + shutdown(old(self).windows@, self.windows@));
        }
        WindowProcResult { reply: Reply::Default, commands }
    }

    /// Handles one event for the window `hwnd`.
    pub fn window_proc(&mut self, hwnd: usize, event: WindowEvent) -> (out: WindowProcResult)
        requires
            old(self).wf(),
            old(self).can_handle(hwnd, event),
        ensures
            final(self).wf(),
            window_proc_post(*old(self), *final(self), hwnd, event, out),
    {
        match event {
            WindowEvent::RedoHitTest { results, changes } => self.pass(
                hwnd,
                results,
                changes,
                false,
            ),
            WindowEvent::TimerFired { results, changes } => self.pass(hwnd, results, changes, true),
            WindowEvent::Plain { message: Message::Destroy } => self.destroyed(hwnd),
            local => {
                proof {
                    assert(local == event);
                    assert(!(local is RedoHitTest) && !(local is TimerFired));
                }
                match self.windows.remove(&hwnd) {
                    Some(mut window) => {
                        let ghost found = window;
                        let commands = window.apply(&local);
                        self.windows.insert(hwnd, window);
                        let out = WindowProcResult { reply: reply_for(&local), commands };
                        proof {
                            assert(found == old(self).windows@[hwnd]);
                            assert(self.windows@ == old(self).windows@.insert(
                                hwnd,
                                window_after(found, local),
                            ));
                            assert(local_post(*old(self), *self, hwnd, local, out));
                        }
                        out
                    },
                    None => {
                        proof {
                            assert(self.windows@ == old(self).windows@);
                        }
                        let out = stray_event(hwnd, &local);
                        proof {
                            assert(local_post(*old(self), *self, hwnd, local, out));
                        }
                        out
                    },
                }
            },
        }
    }
}

/// No event that concerns one window alone leaves a rendering context
/// current: whatever the window and the event, once the operations are
/// carried out none is.
pub proof fn lemma_handlers_release_context(window: Window, event: WindowEvent)
    ensures
        crate::handlers::current_context_after(None, window_commands(window, event)) is None,
{
    match event {
        WindowEvent::Paint { has_device_context, client } => {
            crate::handlers::lemma_paint_releases_context(window, has_device_context, client);
        },
        _ => {
            let commands = window_commands(window, event);
            assert forall|i: int| 0 <= i < commands.len() implies !(
            #[trigger] commands[i] is MakeCurrent) by {}
            lemma_no_context_made(None, commands);
        },
    }
}

/// Operations of which none makes a context current leave none current if
/// none was.
pub proof fn lemma_no_context_made(current: Option<usize>, commands: Seq<Command>)
    requires
        current is None,
        forall|i: int| 0 <= i < commands.len() ==> !(#[trigger] commands[i] is MakeCurrent),
    ensures
        crate::handlers::current_context_after(current, commands) is None,
    decreases commands.len(),
{
    if commands.len() > 0 {
        let front = commands.drop_last();
        assert(!(commands[commands.len() - 1] is MakeCurrent));
        assert forall|i: int| 0 <= i < front.len() implies !(#[trigger] front[i] is MakeCurrent) by {
            assert(front[i] == commands[i]);
        }
        lemma_no_context_made(current, front);
    }
}

/// A pass is posted again only while fewer passes in a row than may have
/// asked for it, and each time the count grows by one.
pub proof fn lemma_repost_counts(
    commands: Seq<Command>,
    outcome: ProcessEventResult,
    hwnd: usize,
    depth: u32,
    windows: Set<usize>,
)
    requires
        depth <= MAX_REPROCESS_DEPTH,
        carries_out(commands, outcome, hwnd, depth, windows),
        commands.contains(Command::PostMessage { hwnd, message: AZ_REDO_HIT_TEST }),
    ensures
        outcome == ProcessEventResult::UpdateHitTesterAndProcessAgain,
        depth < MAX_REPROCESS_DEPTH,
        depth_after(depth, outcome) == depth + 1,
{
    let post = Command::PostMessage { hwnd, message: AZ_REDO_HIT_TEST };
    let i = choose|i: int| 0 <= i < commands.len() && commands[i] == post;
    if outcome == ProcessEventResult::ShouldRegenerateDomAllWindows {
        assert(commands[i] matches Command::PostMessage { message: m, .. } && m
            == AZ_REGENERATE_DOM);
        assert(AZ_REGENERATE_DOM != AZ_REDO_HIT_TEST);
    }
}

/// Passes that are posted again form no endless chain: if each count of a
/// chain is the one before plus one, as it is when a pass is posted again,
/// and none exceeds the bound, the chain has at most as many links as the
/// bound leaves room for.
pub proof fn lemma_reprocessing_is_bounded(depths: Seq<u32>)
    requires
        depths.len() > 0,
        forall|i: int| 0 <= i < depths.len() ==> #[trigger] depths[i] <= MAX_REPROCESS_DEPTH,
        forall|i: int| 0 <= i < depths.len() - 1 ==> #[trigger] depths[i + 1] == depths[i] + 1,
    ensures
        depths.len() <= MAX_REPROCESS_DEPTH - depths[0] + 1,
    decreases depths.len(),
{
    if depths.len() > 1 {
        let rest = depths.subrange(1, depths.len() as int);
        assert forall|i: int| 0 <= i < rest.len() - 1 implies #[trigger] rest[i + 1] == rest[i]
            + 1 by {
            assert(depths[(i + 1) + 1] == depths[i + 1] + 1);
        }
        assert(depths[0int + 1] == depths[0] + 1);
        assert(rest[0] == depths[1]);
        lemma_reprocessing_is_bounded(rest);
    }
}

/// Whether none of the operations makes a rendering context current.
pub open spec fn makes_no_context_current(commands: Seq<Command>) -> bool {
    forall|i: int| 0 <= i < commands.len() ==> !(#[trigger] commands[i] is MakeCurrent)
}

/// Cancelling timers makes no rendering context current.
pub proof fn lemma_cancelling_makes_no_context_current(
    hwnd: usize,
    table: Map<usize, u32>,
    removed: Seq<usize>,
)
    ensures
        makes_no_context_current(crate::timers::cancelling(hwnd, table, removed)),
    decreases removed.len(),
{
    if removed.len() > 0 {
        lemma_cancelling_makes_no_context_current(hwnd, table, removed.drop_last());
    }
}

/// A pass over a window makes no rendering context current.
pub proof fn lemma_pass_makes_no_context_current(
    window: Window,
    results: CallCallbacksResult,
    changes: StyleAndLayoutChanges,
)
    ensures
        makes_no_context_current(pass_commands(window, results, changes)),
{
    let entered = crate::timers::table_with(
        window.timers@,
        crate::decision::listed(results.timers),
    );
    lemma_cancelling_makes_no_context_current(
        window.hwnd,
        entered,
        crate::decision::listed(results.timers_removed),
    );
}

/// Whatever message arrives: once the operations that the window procedure
/// asks for are carried out, no rendering context is current. Only painting
/// makes one current, and it releases it before it ends.
pub proof fn lemma_window_proc_releases_context(
    before: ApplicationData,
    after: ApplicationData,
    hwnd: usize,
    event: WindowEvent,
    out: WindowProcResult,
)
    requires
        window_proc_post(before, after, hwnd, event, out),
    ensures
        crate::handlers::current_context_after(None, out.commands@) is None,
{
    let commands = out.commands@;
    match event {
        WindowEvent::RedoHitTest { results, changes } => {
            lemma_pass_post_makes_no_context_current(before, after, hwnd, results, changes, out);
            lemma_no_context_made(None, commands);
        },
        WindowEvent::TimerFired { results, changes } => {
            lemma_pass_post_makes_no_context_current(before, after, hwnd, results, changes, out);
            lemma_no_context_made(None, commands);
        },
        WindowEvent::Plain { message: Message::Destroy } => {
            assert(makes_no_context_current(commands));
            lemma_no_context_made(None, commands);
        },
        _ => {
            if before.windows@.contains_key(hwnd) {
                lemma_handlers_release_context(before.windows@[hwnd], event);
            } else {
                assert(makes_no_context_current(commands));
                lemma_no_context_made(None, commands);
            }
        },
    }
}

/// What the window procedure asks for after callbacks have run makes no
/// rendering context current.
pub proof fn lemma_pass_post_makes_no_context_current(
    before: ApplicationData,
    after: ApplicationData,
    hwnd: usize,
    results: CallCallbacksResult,
    changes: StyleAndLayoutChanges,
    out: WindowProcResult,
)
    requires
        pass_post(before, after, hwnd, results, changes, out),
    ensures
        makes_no_context_current(out.commands@),
{
    let commands = out.commands@;
    if before.windows@.contains_key(hwnd) {
        let window = before.windows@[hwnd];
        let outcome = pass_outcome(window.internal, results.input(changes));
        let closes = pass_closes(hwnd, results.modified_window_state).len() > 0;
        let head = pass_commands(window, results, changes) + creating(
            results.windows_created@,
        ) + (if closes {
            window.release_commands() + seq![Command::DestroyWindow { hwnd }]
        } else {
            Seq::empty()
        }) + shutdown(before.windows@, after.windows@);
        let follow_up = choose|follow_up: Seq<Command>|
            {
                &&& #[trigger] carries_out(
                    follow_up,
                    outcome,
                    hwnd,
                    window.reprocess_depth,
                    after.windows@.dom(),
                )
                &&& commands == head + follow_up
            };
        lemma_pass_makes_no_context_current(window, results, changes);
        assert(makes_no_context_current(head));
        assert(makes_no_context_current(follow_up)) by {
            assert forall|i: int| 0 <= i < follow_up.len() implies !(
            #[trigger] follow_up[i] is MakeCurrent) by {
                if outcome == ProcessEventResult::ShouldRegenerateDomAllWindows {
                    assert(follow_up[i] is PostMessage);
                }
            }
        }
    }
}

/// The count of display lists of a window never goes back: an event that
/// submits a display list advances it by one, and every other event and
/// every pass leaves it as it is. The hit-tester of the window is of the
/// same generation after each of them.
pub proof fn lemma_epoch_is_monotonic(
    window: Window,
    event: WindowEvent,
    results: CallCallbacksResult,
    changes: StyleAndLayoutChanges,
)
    requires
        window.wf(),
        window.internal.epoch < u64::MAX,
    ensures
        submits_display_list(event) ==> window_after(window, event).internal.epoch
            == window.internal.epoch + 1,
        !submits_display_list(event) ==> window_after(window, event).internal.epoch
            == window.internal.epoch,
        window_after(window, event).hit_tester.generation() == window_after(
            window,
            event,
        ).internal.epoch,
        crate::decision::pass_internal(window.internal, results.input(changes)).epoch
            == window.internal.epoch,
{
}

} // verus!
