//! What to do after an event: nothing, a new frame, a new display list, a
//! new hit-tester, or a new interface tree.
//!
//! One pass takes the state of a window, what the callbacks of the event
//! asked for, and what restyling and laying out the touched nodes found. It
//! applies the requests to the window and returns exactly one outcome.

use vstd::prelude::*;
use crate::command::Command;
use crate::state::{
    FullWindowState, ScrollResult, StyleAndLayoutChanges, ThreadId, Timer, TimerId, Update,
    WindowCreateOptions, WindowState,
};
use crate::timers::{
    arming, cancelling, polling_commands, polling_timer_after, reconciled_tasks, table_with,
    table_without,
};
use crate::window::{Window, WindowInternal};

verus! {

/// The outcome of one pass. Each names the cheapest step that brings the
/// screen up to date.
#[derive(Debug, Copy, Clone, PartialEq, Eq, Structural)]
pub enum ProcessEventResult {
    DoNothing,
    /// Build the interface tree of this window anew.
    ShouldRegenerateDomCurrentWindow,
    /// Build the interface tree of every window anew.
    ShouldRegenerateDomAllWindows,
    /// Build the display list anew from the styled tree that is there.
    ShouldUpdateDisplayListCurrentWindow,
    /// Boxes changed: get a hit-tester for them and run this pass again.
    UpdateHitTesterAndProcessAgain,
    /// Draw the scene that is there once more.
    ShouldReRenderCurrentWindow,
}

impl ProcessEventResult {
    /// Position of the outcome when outcomes are ordered from the cheapest to
    /// the most expensive.
    pub open spec fn cost(self) -> nat {
        match self {
            ProcessEventResult::DoNothing => 0,
            ProcessEventResult::ShouldReRenderCurrentWindow => 1,
            ProcessEventResult::ShouldUpdateDisplayListCurrentWindow => 2,
            ProcessEventResult::UpdateHitTesterAndProcessAgain => 3,
            ProcessEventResult::ShouldRegenerateDomCurrentWindow => 4,
            ProcessEventResult::ShouldRegenerateDomAllWindows => 5,
        }
    }

    /// Whether the outcome asks for a new interface tree.
    pub open spec fn regenerates_dom(self) -> bool {
        self is ShouldRegenerateDomCurrentWindow || self is ShouldRegenerateDomAllWindows
    }

    /// The position of the outcome in the order of cost.
    pub fn cost_rank(&self) -> (rank: u8)
        ensures
            rank == self.cost(),
    {
        match self {
            ProcessEventResult::DoNothing => 0,
            ProcessEventResult::ShouldReRenderCurrentWindow => 1,
            ProcessEventResult::ShouldUpdateDisplayListCurrentWindow => 2,
            ProcessEventResult::UpdateHitTesterAndProcessAgain => 3,
            ProcessEventResult::ShouldRegenerateDomCurrentWindow => 4,
            ProcessEventResult::ShouldRegenerateDomAllWindows => 5,
        }
    }
}

/// What the callbacks of one event asked for.
#[derive(Debug)]
pub struct CallCallbacksResult {
    pub callbacks_update_screen: Update,
    /// The window state that a callback wants to replace the current one.
    pub modified_window_state: Option<WindowState>,
    pub timers: Option<Vec<(TimerId, Timer)>>,
    pub timers_removed: Option<Vec<TimerId>>,
    pub threads: Option<Vec<ThreadId>>,
    pub threads_removed: Option<Vec<ThreadId>>,
    pub windows_created: Vec<WindowCreateOptions>,
}

/// What one pass decides on, apart from the state of the window.
pub struct PassInput {
    pub modified_window_state: Option<WindowState>,
    pub callbacks_update_screen: Update,
    pub changes: StyleAndLayoutChanges,
}

/// The elements of an optional list; none if there is no list.
pub open spec fn listed<T>(list: Option<Vec<T>>) -> Seq<T> {
    match list {
        Some(v) => v@,
        None => Seq::empty(),
    }
}

impl CallCallbacksResult {
    /// What the pass decides on.
    pub open spec fn input(self, changes: StyleAndLayoutChanges) -> PassInput {
        PassInput {
            modified_window_state: self.modified_window_state,
            callbacks_update_screen: self.callbacks_update_screen,
            changes,
        }
    }

    /// The result of callbacks that asked for nothing.
    pub fn empty() -> (results: CallCallbacksResult)
        ensures
            results.callbacks_update_screen == Update::DoNothing,
            results.modified_window_state is None,
            results.timers is None,
            results.timers_removed is None,
            results.threads is None,
            results.threads_removed is None,
            results.windows_created@.len() == 0,
    {
        CallCallbacksResult {
            callbacks_update_screen: Update::DoNothing,
            modified_window_state: None,
            timers: None,
            timers_removed: None,
            threads: None,
            threads_removed: None,
            windows_created: Vec::new(),
        }
    }
}

/// What a replaced window state asks for by itself, to be returned if no
/// rule asks for more: a new hit-tester if it changes the size that is laid
/// out, else a new frame unless a scroll asks for one anyway.
pub open spec fn fallback_request(
    current: FullWindowState,
    modified: Option<WindowState>,
    need_scroll_render: bool,
) -> ProcessEventResult {
    match modified {
        Some(m) => {
            if m.size.layout_size() != current.size.layout_size() {
                ProcessEventResult::UpdateHitTesterAndProcessAgain
            } else if !need_scroll_render {
                ProcessEventResult::ShouldReRenderCurrentWindow
            } else {
                ProcessEventResult::DoNothing
            }
        },
        None => ProcessEventResult::DoNothing,
    }
}

/// The rules of the decision, in order; the first that applies gives the
/// outcome.
///
/// 1. The function that builds the interface tree changed: build the tree
///    of this window anew.
/// 2. A callback asked for a new tree: build it, for this window or for all.
/// 3. A box changed its geometry: get a new hit-tester and run again.
/// 4. The retained scene is out of date: build the display list anew.
/// 5. A scroll was applied or something has to be redrawn: draw a frame.
/// 6. Otherwise nothing, or what an earlier change of the window state asked
///    for.
pub open spec fn decision(
    layout_callback_changed: bool,
    directive: Update,
    changes: StyleAndLayoutChanges,
    need_scroll_render: bool,
    fallback: ProcessEventResult,
) -> ProcessEventResult {
    if layout_callback_changed {
        ProcessEventResult::ShouldRegenerateDomCurrentWindow
    } else if directive == Update::RegenerateStyledDomForCurrentWindow {
        ProcessEventResult::ShouldRegenerateDomCurrentWindow
    } else if directive == Update::RegenerateStyledDomForAllWindows {
        ProcessEventResult::ShouldRegenerateDomAllWindows
    } else if changes.nodes_resized {
        ProcessEventResult::UpdateHitTesterAndProcessAgain
    } else if changes.display_list_changed {
        ProcessEventResult::ShouldUpdateDisplayListCurrentWindow
    } else if need_scroll_render || changes.gpu_values_changed {
        ProcessEventResult::ShouldReRenderCurrentWindow
    } else {
        fallback
    }
}

/// Applies the rules of the decision.
pub fn decide(
    layout_callback_changed: bool,
    directive: Update,
    changes: &StyleAndLayoutChanges,
    need_scroll_render: bool,
    fallback: ProcessEventResult,
) -> (outcome: ProcessEventResult)
    ensures
        outcome == decision(
            layout_callback_changed,
            directive,
            *changes,
            need_scroll_render,
            fallback,
        ),
{
    if layout_callback_changed {
        return ProcessEventResult::ShouldRegenerateDomCurrentWindow;
    }
    match directive {
        Update::RegenerateStyledDomForCurrentWindow => {
            return ProcessEventResult::ShouldRegenerateDomCurrentWindow;
        },
        Update::RegenerateStyledDomForAllWindows => {
            return ProcessEventResult::ShouldRegenerateDomAllWindows;
        },
        Update::DoNothing => {},
    }
    if changes.did_resize_nodes() {
        ProcessEventResult::UpdateHitTesterAndProcessAgain
    } else if changes.need_regenerate_display_list() {
        ProcessEventResult::ShouldUpdateDisplayListCurrentWindow
    } else if need_scroll_render || changes.need_redraw() {
        ProcessEventResult::ShouldReRenderCurrentWindow
    } else {
        fallback
    }
}

/// The current state once a replaced window state is taken over: focus and
/// last hit test stay, all else comes from the replacement.
pub open spec fn state_with_modified(
    current: FullWindowState,
    modified: Option<WindowState>,
) -> FullWindowState {
    match modified {
        Some(m) => FullWindowState::merged(m, current.focused_node, current.last_hit_test),
        None => current,
    }
}

/// Whether one of the first two rules gives the outcome, so that restyling
/// and layout are not consulted.
pub open spec fn regenerates_at_once(internal: WindowInternal, input: PassInput) -> bool {
    state_with_modified(
        internal.current_window_state,
        input.modified_window_state,
    ).layout_changed_since(internal.previous_window_state) || input.callbacks_update_screen
        != Update::DoNothing
}

/// The outcome of a pass over a window in state `internal`.
pub open spec fn pass_outcome(internal: WindowInternal, input: PassInput) -> ProcessEventResult {
    let current = internal.current_window_state;
    let need_scroll_render = current.mouse_state.pending_scroll() is Some;
    decision(
        state_with_modified(current, input.modified_window_state).layout_changed_since(
            internal.previous_window_state,
        ),
        input.callbacks_update_screen,
        input.changes,
        need_scroll_render,
        fallback_request(current, input.modified_window_state, need_scroll_render),
    )
}

/// The state of the window after a pass. A replaced window state is taken
/// over, a change of focus is written back whichever rule gave the outcome,
/// and a pending scroll is cleared unless one of the first two rules did.
pub open spec fn pass_internal(internal: WindowInternal, input: PassInput) -> WindowInternal {
    let taken = state_with_modified(internal.current_window_state, input.modified_window_state);
    let focused = match input.changes.focus_change {
        Some(change) => FullWindowState { focused_node: change.new, ..taken },
        None => taken,
    };
    let scrolled = if regenerates_at_once(internal, input) {
        focused
    } else if internal.current_window_state.mouse_state.pending_scroll() is Some {
        focused.scroll_applied()
    } else {
        focused
    };
    WindowInternal { current_window_state: scrolled, ..internal }
}

/// The scroll to carry out in a pass: the pending one, unless one of the
/// first two rules gives the outcome.
pub open spec fn pass_scroll_commands(hwnd: usize, internal: WindowInternal, input: PassInput) -> Seq<
    Command,
> {
    match internal.current_window_state.mouse_state.pending_scroll() {
        Some(d) => {
            if regenerates_at_once(internal, input) {
                Seq::empty()
            } else {
                seq![Command::SystemScroll { hwnd, dx: d.0, dy: d.1 }]
            }
        },
        None => Seq::empty(),
    }
}

/// The window that is to be closed after a pass, if a callback asked for it.
pub open spec fn pass_closes(hwnd: usize, modified: Option<WindowState>) -> Seq<usize> {
    match modified {
        Some(m) => if m.flags.is_about_to_close {
            seq![hwnd]
        } else {
            Seq::empty()
        },
        None => Seq::empty(),
    }
}

/// All operations of a pass over `window`, in order: timers armed, timers
/// cancelled, the polling timer brought in line with the tasks, the scroll.
pub open spec fn pass_commands(
    window: Window,
    results: CallCallbacksResult,
    changes: StyleAndLayoutChanges,
) -> Seq<Command> {
    let entered = table_with(window.timers@, listed(results.timers));
    let tasks = reconciled_tasks(
        window.threads@,
        listed(results.threads),
        listed(results.threads_removed),
    );
    arming(window.hwnd, listed(results.timers)) + cancelling(
        window.hwnd,
        entered,
        listed(results.timers_removed),
    ) + polling_commands(window.hwnd, window.thread_timer_running, tasks) + pass_scroll_commands(
        window.hwnd,
        window.internal,
        results.input(changes),
    )
}

/// How a pass leaves the window: interface state, timers and tasks as the
/// requests of the callbacks say, all resources as they were.
pub open spec fn pass_applied(
    before: Window,
    after: Window,
    results: CallCallbacksResult,
    changes: StyleAndLayoutChanges,
) -> bool {
    &&& after.internal == pass_internal(before.internal, results.input(changes))
    &&& after.timers@ == table_without(
        table_with(before.timers@, listed(results.timers)),
        listed(results.timers_removed),
    )
    &&& after.threads@ == reconciled_tasks(
        before.threads@,
        listed(results.threads),
        listed(results.threads_removed),
    )
    &&& after.thread_timer_running == polling_timer_after(
        before.thread_timer_running,
        after.threads@,
    )
    &&& after.hwnd == before.hwnd
    &&& after.gl_context == before.gl_context
    &&& after.renderer == before.renderer
    &&& after.hit_tester == before.hit_tester
    &&& after.menu_callbacks == before.menu_callbacks
    &&& after.menu_hash == before.menu_hash
    &&& after.reprocess_depth == before.reprocess_depth
}

/// The list itself, or an empty one.
fn unwrap_or_default<T>(list: Option<Vec<T>>) -> (out: Vec<T>)
    ensures
        out@ == listed(list),
{
    match list {
        Some(v) => v,
        None => Vec::new(),
    }
}

/// Appends `more` to `commands`.
pub fn append_commands(commands: &mut Vec<Command>, more: Vec<Command>)
    ensures
        final(commands)@ == old(commands)@ + more@,
{
    let mut i: usize = 0;
    while i < more.len()
        invariant
            i <= more.len(),
            commands@ == old(commands)@ + more@.take(i as int),
        decreases more.len() - i,
    {
        proof {
            assert(more@.take(i as int + 1) == more@.take(i as int).push(more@[i as int]));
        }
        commands.push(more[i]);
        i = i + 1;
    }
    proof {
        assert(more@.take(more.len() as int) == more@);
    }
}

/// Whether restyling and layout have to be consulted for this pass: they
/// have unless one of the first two rules gives the outcome already.
pub fn needs_style_and_layout(window: &Window, results: &CallCallbacksResult) -> (needed: bool)
    ensures
        needed == !regenerates_at_once(
            window.internal,
            results.input(StyleAndLayoutChanges::nothing()),
        ),
{
    let current = window.internal.current_window_state;
    let taken = match &results.modified_window_state {
        Some(m) => FullWindowState::from_window_state(
            m,
            current.focused_node,
            current.last_hit_test,
        ),
        None => current,
    };
    let changed = taken.layout_callback_changed(&window.internal.previous_window_state);
    !changed && results.callbacks_update_screen == Update::DoNothing
}

/// The size that the window is laid out with in this pass: the one of the
/// replaced window state if there is one, else the current one.
pub fn pass_layout_size(window: &Window, results: &CallCallbacksResult) -> (size: (u32, u32))
    ensures
        size == state_with_modified(
            window.internal.current_window_state,
            results.modified_window_state,
        ).size.layout_size(),
{
    match &results.modified_window_state {
        Some(m) => m.size.get_layout_size(),
        None => window.internal.current_window_state.size.get_layout_size(),
    }
}

/// The pass itself, for both kinds of callers.
fn run_pass(
    window: &mut Window,
    results: CallCallbacksResult,
    changes: &StyleAndLayoutChanges,
    destroyed_windows: &mut Vec<usize>,
    commands: &mut Vec<Command>,
) -> (out: (ProcessEventResult, Vec<WindowCreateOptions>))
    ensures
        out.0 == pass_outcome(old(window).internal, results.input(*changes)),
        out.1@ == results.windows_created@,
        pass_applied(*old(window), *final(window), results, *changes),
        final(destroyed_windows)@ == old(destroyed_windows)@ + pass_closes(
            old(window).hwnd,
            results.modified_window_state,
        ),
        final(commands)@ == old(commands)@ + pass_commands(*old(window), results, *changes),
{
    let ghost input = results.input(*changes);
    let ghost before = *window;
    let CallCallbacksResult {
        callbacks_update_screen,
        modified_window_state,
        timers,
        timers_removed,
        threads,
        threads_removed,
        windows_created,
    } = results;

    let timer_commands = window.start_stop_timers(
        unwrap_or_default(timers),
        unwrap_or_default(timers_removed),
    );
    append_commands(commands, timer_commands);
    let thread_commands = window.start_stop_threads(
        unwrap_or_default(threads),
        unwrap_or_default(threads_removed),
    );
    append_commands(commands, thread_commands);

    let current = window.internal.current_window_state;
    let scroll: Option<ScrollResult> = current.process_system_scroll();
    let need_scroll_render = scroll.is_some();

    let mut result = ProcessEventResult::DoNothing;
    if let Some(modified) = modified_window_state {
        if modified.flags.is_about_to_close {
            destroyed_windows.push(window.hwnd);
        }
        let old_size = current.size.get_layout_size();
        let new_size = modified.size.get_layout_size();
        window.internal.current_window_state = FullWindowState::from_window_state(
            &modified,
            current.focused_node,
            current.last_hit_test,
        );
        if new_size.0 != old_size.0 || new_size.1 != old_size.1 {
            result = ProcessEventResult::UpdateHitTesterAndProcessAgain;
        } else if !need_scroll_render {
            result = ProcessEventResult::ShouldReRenderCurrentWindow;
        }
    }
    proof {
        assert(destroyed_windows@ == old(destroyed_windows)@ + pass_closes(
            before.hwnd,
            modified_window_state,
        ));
        assert(result == fallback_request(current, modified_window_state, need_scroll_render));
    }

    let layout_callback_changed = window.internal.current_window_state.layout_callback_changed(
        &window.internal.previous_window_state,
    );

    if let Some(focus_change) = changes.focus_change {
        window.internal.current_window_state.focused_node = focus_change.new;
    }

    let at_once = layout_callback_changed || callbacks_update_screen != Update::DoNothing;
    if !at_once {
        if let Some(scroll) = scroll {
            commands.push(Command::SystemScroll { hwnd: window.hwnd, dx: scroll.dx, dy: scroll.dy });
            window.internal.current_window_state.mouse_state.reset_scroll_to_zero();
        }
    }
    proof {
        assert(at_once == regenerates_at_once(before.internal, input));
        assert(window.internal == pass_internal(before.internal, input));
        assert(commands@ == old(commands)@ + pass_commands(before, results, *changes));
    }

    let outcome = decide(
        layout_callback_changed,
        callbacks_update_screen,
        changes,
        need_scroll_render,
        result,
    );
    (outcome, windows_created)
}

/// Runs one pass after an input event. `results` is what the callbacks of
/// the event asked for and `changes` what restyling and laying out the
/// touched nodes found.
///
/// Timers and tasks are reconciled, the windows that the callbacks asked to
/// open are appended to `new_windows`, this window is appended to
/// `destroyed_windows` if a callback asked to close it, and the operations
/// to carry out are appended to `commands`.
#[must_use]
pub fn process_event(
    window: &mut Window,
    results: CallCallbacksResult,
    changes: &StyleAndLayoutChanges,
    new_windows: &mut Vec<WindowCreateOptions>,
    destroyed_windows: &mut Vec<usize>,
    commands: &mut Vec<Command>,
) -> (outcome: ProcessEventResult)
    ensures
        outcome == pass_outcome(old(window).internal, results.input(*changes)),
        pass_applied(*old(window), *final(window), results, *changes),
        final(new_windows)@ == old(new_windows)@ + results.windows_created@,
        final(destroyed_windows)@ == old(destroyed_windows)@ + pass_closes(
            old(window).hwnd,
            results.modified_window_state,
        ),
        final(commands)@ == old(commands)@ + pass_commands(*old(window), results, *changes),
{
    let (outcome, windows_created) = run_pass(
        window,
        results,
        changes,
        destroyed_windows,
        commands,
    );
    let mut i: usize = 0;
    while i < windows_created.len()
        invariant
            i <= windows_created.len(),
            new_windows@ == old(new_windows)@ + windows_created@.take(i as int),
        decreases windows_created.len() - i,
    {
        proof {
            assert(windows_created@.take(i as int + 1) == windows_created@.take(i as int).push(
                windows_created@[i as int],
            ));
        }
        new_windows.push(windows_created[i]);
        i = i + 1;
    }
    proof {
        assert(windows_created@.take(windows_created.len() as int) == windows_created@);
    }
    outcome
}

/// Runs one pass after a timer ran its callback. It differs from
/// [`process_event`] in one point: the windows that the callback asked to
/// open replace what `new_windows` held.
#[must_use]
pub fn process_timer(
    window: &mut Window,
    results: CallCallbacksResult,
    changes: &StyleAndLayoutChanges,
    new_windows: &mut Vec<WindowCreateOptions>,
    destroyed_windows: &mut Vec<usize>,
    commands: &mut Vec<Command>,
) -> (outcome: ProcessEventResult)
    ensures
        outcome == pass_outcome(old(window).internal, results.input(*changes)),
        pass_applied(*old(window), *final(window), results, *changes),
        final(new_windows)@ == results.windows_created@,
        final(destroyed_windows)@ == old(destroyed_windows)@ + pass_closes(
            old(window).hwnd,
            results.modified_window_state,
        ),
        final(commands)@ == old(commands)@ + pass_commands(*old(window), results, *changes),
{
    let (outcome, windows_created) = run_pass(
        window,
        results,
        changes,
        destroyed_windows,
        commands,
    );
    *new_windows = windows_created;
    outcome
}

/// A pass is quiet if nothing about it is dirty: the function that builds
/// the interface tree is the same as before, no callback asked for a new
/// tree, a replaced window state keeps the size that is laid out, no box
/// changed and the retained scene is up to date.
pub open spec fn quiet(internal: WindowInternal, input: PassInput) -> bool {
    &&& !state_with_modified(
        internal.current_window_state,
        input.modified_window_state,
    ).layout_changed_since(internal.previous_window_state)
    &&& input.callbacks_update_screen == Update::DoNothing
    &&& !input.changes.nodes_resized
    &&& !input.changes.display_list_changed
    &&& (input.modified_window_state matches Some(m) ==> m.size.layout_size()
        == internal.current_window_state.size.layout_size())
}

/// A quiet pass ends in nothing or in a new frame.
pub proof fn lemma_quiet_pass(internal: WindowInternal, input: PassInput)
    requires
        quiet(internal, input),
    ensures
        pass_outcome(internal, input) == ProcessEventResult::DoNothing || pass_outcome(
            internal,
            input,
        ) == ProcessEventResult::ShouldReRenderCurrentWindow,
        !pass_outcome(internal, input).regenerates_dom(),
{
}

/// However many events come and whatever state each finds the window in: as
/// long as every pass is quiet, every outcome is nothing or a new frame, and
/// never a new interface tree.
pub proof fn lemma_quiet_passes(states: Seq<WindowInternal>, inputs: Seq<PassInput>)
    requires
        states.len() == inputs.len(),
        forall|i: int| 0 <= i < inputs.len() ==> quiet(#[trigger] states[i], inputs[i]),
    ensures
        forall|i: int|
            0 <= i < inputs.len() ==> {
                let outcome = pass_outcome(#[trigger] states[i], inputs[i]);
                &&& outcome.cost() <= 1
                &&& !outcome.regenerates_dom()
            },
{
    assert forall|i: int| 0 <= i < inputs.len() implies {
        let outcome = pass_outcome(#[trigger] states[i], inputs[i]);
        &&& outcome.cost() <= 1
        &&& !outcome.regenerates_dom()
    } by {
        lemma_quiet_pass(states[i], inputs[i]);
    }
}

/// Only a change of geometry makes a pass run again: a box that changed, or
/// a replaced window state with another size.
pub proof fn lemma_reprocess_needs_geometry_change(internal: WindowInternal, input: PassInput)
    requires
        pass_outcome(internal, input) == ProcessEventResult::UpdateHitTesterAndProcessAgain,
    ensures
        input.changes.nodes_resized || (input.modified_window_state matches Some(m)
            && m.size.layout_size() != internal.current_window_state.size.layout_size()),
{
}

/// Running a pass again comes to an end once the geometry is stable: if the
/// same requests are processed a second time and no box changed in between,
/// the second outcome does not ask for a third pass.
pub proof fn lemma_reprocess_converges(internal: WindowInternal, input: PassInput)
    requires
        !input.changes.nodes_resized,
    ensures
        pass_outcome(pass_internal(internal, input), input)
            != ProcessEventResult::UpdateHitTesterAndProcessAgain,
{
}

/// A window state that only resizes the window makes the pass run again
/// exactly once: the first pass asks for a new hit-tester, the second, over
/// the same requests and with stable geometry, for a new frame or nothing.
pub proof fn lemma_resize_reprocesses_once(internal: WindowInternal, input: PassInput)
    requires
        input.modified_window_state matches Some(m) && m.size.layout_size()
            != internal.current_window_state.size.layout_size(),
        !regenerates_at_once(internal, input),
        !input.changes.nodes_resized,
        !input.changes.display_list_changed,
        !input.changes.gpu_values_changed,
        internal.current_window_state.mouse_state.pending_scroll() is None,
    ensures
        pass_outcome(internal, input) == ProcessEventResult::UpdateHitTesterAndProcessAgain,
        pass_outcome(pass_internal(internal, input), input)
            == ProcessEventResult::ShouldReRenderCurrentWindow || pass_outcome(
            pass_internal(internal, input),
            input,
        ) == ProcessEventResult::DoNothing,
{
}

/// The first two rules win over everything that restyling and layout find.
pub proof fn lemma_regeneration_wins(internal: WindowInternal, input: PassInput)
    requires
        regenerates_at_once(internal, input),
    ensures
        pass_outcome(internal, input).regenerates_dom(),
        pass_outcome(internal, input) == pass_outcome(
            internal,
            PassInput { changes: StyleAndLayoutChanges::nothing(), ..input },
        ),
{
}

/// A pass never loses what restyling and layout found: its outcome costs at
/// least as much as the step the findings ask for.
pub proof fn lemma_outcome_covers_changes(internal: WindowInternal, input: PassInput)
    ensures
        input.changes.nodes_resized ==> pass_outcome(internal, input).cost() >= 3,
        input.changes.display_list_changed ==> pass_outcome(internal, input).cost() >= 2,
        input.changes.gpu_values_changed ==> pass_outcome(internal, input).cost() >= 1,
        internal.current_window_state.mouse_state.pending_scroll() is Some ==> pass_outcome(
            internal,
            input,
        ).cost() >= 1,
{
}

} // verus!
