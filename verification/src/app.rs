//! The windows of the application, and the message loop that serves them.

use std::collections::BTreeMap;
use vstd::prelude::*;
use vstd::std_specs::cmp::OrdSpec;
use vstd::std_specs::iter::IteratorSpec;
use crate::command::Command;
use crate::decision::append_commands;
use crate::error::{WindowsStartupError, WindowsWindowCreateError};
use crate::platform::DwmFunctions;
use crate::state::WindowCreateOptions;
use crate::window::Window;

verus! {

broadcast use {vstd::std_specs::btree::group_btree_axioms, vstd::laws_cmp::group_laws_cmp};

/// What all windows of the application share.
#[derive(Debug)]
pub struct ApplicationData {
    /// Handle of the running program.
    pub hinstance: usize,
    /// The windows that are open, by their native handle.
    pub windows: BTreeMap<usize, Window>,
    /// Entry points of the desktop window manager, if it is there.
    pub dwm: Option<DwmFunctions>,
}

/// A display.
#[derive(Debug, Copy, Clone, PartialEq, Eq, Structural)]
pub struct Monitor {
    pub id: usize,
    pub is_primary: bool,
}

/// The table after the windows named by `ids` were taken out, one after the
/// other.
pub open spec fn table_after_destroying(table: Map<usize, Window>, ids: Seq<usize>) -> Map<
    usize,
    Window,
>
    decreases ids.len(),
{
    if ids.len() == 0 {
        table
    } else {
        table_after_destroying(table, ids.drop_last()).remove(ids.last())
    }
}

/// The operations that destroy the windows named by `ids`: for each one
/// that is in the table when its turn comes, what releases its resources,
/// and then the destruction of the native window.
pub open spec fn destroying(table: Map<usize, Window>, ids: Seq<usize>) -> Seq<Command>
    decreases ids.len(),
{
    if ids.len() == 0 {
        Seq::empty()
    } else {
        let before = destroying(table, ids.drop_last());
        let left = table_after_destroying(table, ids.drop_last());
        if left.contains_key(ids.last()) {
            before + left[ids.last()].release_commands() + seq![
                Command::DestroyWindow { hwnd: ids.last() },
            ]
        } else {
            before
        }
    }
}

/// The signal to end the message loop, given when the table of windows
/// becomes empty.
pub open spec fn shutdown(before: Map<usize, Window>, after: Map<usize, Window>) -> Seq<Command> {
    if after.dom().is_empty() && !before.dom().is_empty() {
        seq![Command::PostQuitMessage { exit_code: 0 }]
    } else {
        Seq::empty()
    }
}

/// One request to open a window for each of the options, in order.
pub open spec fn creating(new: Seq<WindowCreateOptions>) -> Seq<Command> {
    Seq::new(new.len(), |i: int| Command::CreateWindow { options: new[i] })
}

/// Whether `commands` post `message` to each window of `table` once, in the
/// order of the handles.
pub open spec fn posts_to_each(commands: Seq<Command>, windows: Set<usize>, message: u32) -> bool {
    &&& forall|i: int|
        0 <= i < commands.len() ==> (#[trigger] commands[i] matches Command::PostMessage {
            hwnd,
            message: m,
        } && m == message && windows.contains(hwnd))
    &&& forall|i: int, j: int|
        0 <= i < j < commands.len() ==> posted_to(#[trigger] commands[i]) < posted_to(
            #[trigger] commands[j],
        )
    &&& forall|hwnd: usize| #[trigger]
        windows.contains(hwnd) ==> commands.contains(Command::PostMessage { hwnd, message })
}

/// The window that a message is posted to.
pub open spec fn posted_to(command: Command) -> usize {
    match command {
        Command::PostMessage { hwnd, .. } => hwnd,
        _ => 0,
    }
}

impl ApplicationData {
    /// Every window is filed under its own handle and is in order.
    pub open spec fn wf(self) -> bool {
        forall|hwnd: usize| #[trigger]
            self.windows@.contains_key(hwnd) ==> self.windows@[hwnd].hwnd == hwnd
                && self.windows@[hwnd].wf()
    }

    /// The data of an application without windows.
    pub fn new(hinstance: usize, dwm: Option<DwmFunctions>) -> (app: ApplicationData)
        ensures
            app.hinstance == hinstance,
            app.dwm == dwm,
            app.windows@ == Map::<usize, Window>::empty(),
            app.wf(),
    {
        ApplicationData { hinstance, windows: BTreeMap::new(), dwm }
    }

    /// Files a window under its handle. A window that was filed under the
    /// same handle is replaced.
    pub fn insert_window(&mut self, window: Window)
        ensures
            final(self).windows@ == old(self).windows@.insert(window.hwnd, window),
            final(self).hinstance == old(self).hinstance,
            final(self).dwm == old(self).dwm,
            old(self).wf() && window.wf() ==> final(self).wf(),
    {
        let id = window.get_id();
        self.windows.insert(id, window);
    }

    /// How many windows are open.
    pub fn window_count(&self) -> (n: usize)
        ensures
            n == self.windows@.len(),
    {
        self.windows.len()
    }

    /// The handles of the open windows, in ascending order.
    pub fn window_ids(&self) -> (ids: Vec<usize>)
        ensures
            ids@.to_set() == self.windows@.dom(),
            ids@.len() == self.windows@.len(),
            forall|i: int, j: int| 0 <= i < j < ids@.len() ==> ids@[i] < ids@[j],
    {
        let mut ids: Vec<usize> = Vec::new();
        for hwnd in it: self.windows.keys()
            invariant
                ids@.len() == it.index(),
                forall|i: int| 0 <= i < ids@.len() ==> ids@[i] == *it.seq()[i],
                it.seq() == self.windows.keys().remaining(),
        {
            ids.push(*hwnd);
        }
        proof {
            let keys = self.windows.keys().remaining();
            assert(ids@ =~= keys.unref());
            assert(vstd::std_specs::btree::increasing_seq(keys));
            assert(vstd::laws_cmp::obeys_cmp::<usize>());
            assert(vstd::laws_cmp::obeys_cmp::<&usize>());
            vstd::std_specs::btree::axiom_increasing_seq_meaning::<&usize>(keys);
            assert forall|i: int, j: int| 0 <= i < j < ids@.len() implies ids@[i] < ids@[j] by {
                assert(OrdSpec::cmp_spec(&keys[i], &keys[j]) is Less);
            }
        }
        ids
    }

    /// Posts `message` to every open window, in the order of the handles.
    pub fn post_to_all(&self, message: u32) -> (commands: Vec<Command>)
        ensures
            posts_to_each(commands@, self.windows@.dom(), message),
            commands@.len() == self.windows@.len(),
    {
        let ids = self.window_ids();
        let mut commands: Vec<Command> = Vec::new();
        let mut i: usize = 0;
        while i < ids.len()
            invariant
                i <= ids.len(),
                commands@.len() == i,
                forall|k: int|
                    0 <= k < i ==> #[trigger] commands@[k] == (Command::PostMessage {
                        hwnd: ids@[k],
                        message,
                    }),
            decreases ids.len() - i,
        {
            commands.push(Command::PostMessage { hwnd: ids[i], message });
            i = i + 1;
        }
        proof {
            assert forall|k: int| 0 <= k < commands@.len() implies self.windows@.dom().contains(
                ids@[k],
            ) by {
                assert(ids@.to_set().contains(ids@[k]));
            }
            assert forall|hwnd: usize| #[trigger]
                self.windows@.dom().contains(hwnd) implies commands@.contains(
                Command::PostMessage { hwnd, message },
            ) by {
                assert(ids@.to_set().contains(hwnd));
                let k = choose|k: int| 0 <= k < ids@.len() && ids@[k] == hwnd;
                assert(commands@[k] == Command::PostMessage { hwnd, message });
            }
            assert forall|a: int, b: int| 0 <= a < b < commands@.len() implies posted_to(
                #[trigger] commands@[a],
            ) < posted_to(#[trigger] commands@[b]) by {
                assert(commands@[a] == Command::PostMessage { hwnd: ids@[a], message });
                assert(commands@[b] == Command::PostMessage { hwnd: ids@[b], message });
            }
        }
        commands
    }
}

/// Asks to open a window for each of the options. The windows enter the
/// table when they are there.
pub fn create_windows(app: &mut ApplicationData, new: Vec<WindowCreateOptions>) -> (commands: Vec<
    Command,
>)
    ensures
        commands@ == creating(new@),
        *final(app) == *old(app),
{
    let mut commands: Vec<Command> = Vec::new();
    let mut i: usize = 0;
    while i < new.len()
        invariant
            i <= new.len(),
            commands@ == creating(new@.take(i as int)),
        decreases new.len() - i,
    {
        proof {
            assert(creating(new@.take(i as int + 1)) == creating(new@.take(i as int)).push(
                Command::CreateWindow { options: new@[i as int] },
            ));
        }
        commands.push(Command::CreateWindow { options: new[i] });
        i = i + 1;
    }
    proof {
        assert(new@.take(new.len() as int) == new@);
    }
    commands
}

/// Destroys the windows named by `old_windows`: each leaves the table, its
/// renderer is shut down, its rendering context released and its native
/// window destroyed. A handle that names no window is passed over. If the
/// table becomes empty, the message loop is told to end.
pub fn destroy_windows(app: &mut ApplicationData, old_windows: Vec<usize>) -> (commands: Vec<
    Command,
>)
    ensures
        final(app).windows@ == table_after_destroying(old(app).windows@, old_windows@),
        commands@ == destroying(old(app).windows@, old_windows@) + shutdown(
            old(app).windows@,
            final(app).windows@,
        ),
        final(app).hinstance == old(app).hinstance,
        final(app).dwm == old(app).dwm,
        old(app).wf() ==> final(app).wf(),
{
    let mut commands: Vec<Command> = Vec::new();
    let was_empty = app.windows.is_empty();
    let mut i: usize = 0;
    while i < old_windows.len()
        invariant
            i <= old_windows.len(),
            app.windows@ == table_after_destroying(old(app).windows@, old_windows@.take(i as int)),
            commands@ == destroying(old(app).windows@, old_windows@.take(i as int)),
            app.hinstance == old(app).hinstance,
            app.dwm == old(app).dwm,
            old(app).wf() ==> app.wf(),
        decreases old_windows.len() - i,
    {
        let hwnd = old_windows[i];
        proof {
            let next = old_windows@.take(i as int + 1);
            assert(next.drop_last() == old_windows@.take(i as int));
            assert(next.last() == hwnd);
        }
        match app.windows.remove(&hwnd) {
            Some(mut window) => {
                let released = window.release();
                append_commands(&mut commands, released);
                commands.push(Command::DestroyWindow { hwnd });
            },
            None => {},
        }
        i = i + 1;
    }
    proof {
        assert(old_windows@.take(old_windows.len() as int) == old_windows@);
    }
    if app.windows.is_empty() && !was_empty {
        commands.push(Command::PostQuitMessage { exit_code: 0 });
    }
    commands
}

/// How the message loop waits for the next message.
#[derive(Debug, Copy, Clone, PartialEq, Eq, Structural)]
pub enum MessagePump {
    /// Block until the one window has a message.
    Blocking,
    /// Look at each window in turn without blocking, then sleep until one
    /// of them has a message.
    Polling,
}

/// What the message loop does next.
#[derive(Debug)]
pub struct PumpPlan {
    /// The windows to take a message from, in order.
    pub hwnds: Vec<usize>,
    pub pump: MessagePump,
}

/// How to wait for messages of this many windows.
pub open spec fn pump_for(windows: nat) -> MessagePump {
    if windows > 1 {
        MessagePump::Polling
    } else {
        MessagePump::Blocking
    }
}

/// Whether the message loop goes on after an iteration that served
/// `windows` windows and got `results` from retrieving messages: it does
/// while there is a window and every retrieval gave a positive result.
pub open spec fn loop_goes_on(windows: nat, results: Seq<i32>) -> bool {
    windows > 0 && forall|i: int| 0 <= i < results.len() ==> results[i] > 0
}

/// Starts the application: there must be a handle of the running program.
/// `last_error` is the last error of the operating system.
pub fn startup(hinstance: usize, last_error: u32, dwm: Option<DwmFunctions>) -> (started: Result<
    ApplicationData,
    WindowsStartupError,
>)
    ensures
        hinstance == 0 ==> started == Err::<ApplicationData, WindowsStartupError>(
            WindowsStartupError::NoAppInstance(last_error),
        ),
        hinstance != 0 ==> (started matches Ok(app) && app.hinstance == hinstance && app.dwm == dwm
            && app.windows@ == Map::<usize, Window>::empty() && app.wf()),
{
    if hinstance == 0 {
        return Err(WindowsStartupError::NoAppInstance(last_error));
    }
    Ok(ApplicationData::new(hinstance, dwm))
}

impl ApplicationData {
    /// Files a window that was created, and passes over one that was not:
    /// a window that cannot be created does not stop the application.
    pub fn register_created(
        &mut self,
        created: Result<Window, WindowsWindowCreateError>,
    ) -> (filed: bool)
        ensures
            filed == created is Ok,
            created matches Ok(window) ==> final(self).windows@ == old(self).windows@.insert(
                window.hwnd,
                window,
            ),
            created is Err ==> final(self).windows@ == old(self).windows@,
            final(self).hinstance == old(self).hinstance,
            final(self).dwm == old(self).dwm,
            old(self).wf() && (created matches Ok(window) ==> window.wf()) ==> final(self).wf(),
    {
        match created {
            Ok(window) => {
                self.insert_window(window);
                true
            },
            Err(_) => false,
        }
    }

    /// Plans an iteration of the message loop: which windows to serve, and
    /// how to wait. With one window the loop blocks on it; with more it
    /// must not, or the other windows would starve.
    pub fn pump_plan(&self) -> (plan: PumpPlan)
        ensures
            plan.hwnds@.to_set() == self.windows@.dom(),
            plan.hwnds@.len() == self.windows@.len(),
            forall|i: int, j: int| 0 <= i < j < plan.hwnds@.len() ==> plan.hwnds@[i] < plan.hwnds@[j],
            plan.pump == pump_for(self.windows@.len()),
    {
        let hwnds = self.window_ids();
        let pump = if hwnds.len() > 1 {
            MessagePump::Polling
        } else {
            MessagePump::Blocking
        };
        PumpPlan { hwnds, pump }
    }
}

/// Decides whether the message loop goes on after an iteration.
pub fn message_loop_continues(windows: usize, results: &Vec<i32>) -> (goes_on: bool)
    ensures
        goes_on == loop_goes_on(windows as nat, results@),
{
    let mut i: usize = 0;
    while i < results.len()
        invariant
            i <= results.len(),
            forall|k: int| 0 <= k < i ==> results@[k] > 0,
        decreases results.len() - i,
    {
        if !(results[i] > 0) {
            return false;
        }
        i = i + 1;
    }
    windows > 0
}

/// The displays of the system. None is reported yet.
pub fn get_monitors(app: &ApplicationData) -> (monitors: Vec<Monitor>)
    ensures
        monitors@.len() == 0,
{
    Vec::new()
}

/// Polls the background tasks. There is nothing to carry out for it yet.
pub fn run_all_threads() -> (commands: Vec<Command>)
    ensures
        commands@.len() == 0,
{
    Vec::new()
}

/// Destroying no window changes nothing and asks for nothing.
pub proof fn lemma_destroy_nothing(table: Map<usize, Window>)
    ensures
        table_after_destroying(table, Seq::empty()) == table,
        destroying(table, Seq::empty()) + shutdown(table, table) == Seq::<Command>::empty(),
{
}

/// A window that was destroyed is not in the table any more, and a window
/// that was not named stays as it is.
pub proof fn lemma_destroyed_windows_are_gone(table: Map<usize, Window>, ids: Seq<usize>)
    ensures
        forall|hwnd: usize|
            #![trigger table_after_destroying(table, ids).contains_key(hwnd)]
            table_after_destroying(table, ids).contains_key(hwnd) <==> table.contains_key(hwnd)
                && !ids.contains(hwnd),
        forall|hwnd: usize|
            #![trigger table_after_destroying(table, ids)[hwnd]]
            table_after_destroying(table, ids).contains_key(hwnd) ==> table_after_destroying(
                table,
                ids,
            )[hwnd] == table[hwnd],
    decreases ids.len(),
{
    if ids.len() > 0 {
        let front = ids.drop_last();
        lemma_destroyed_windows_are_gone(table, front);
        assert forall|hwnd: usize|
            #![trigger table_after_destroying(table, ids).contains_key(hwnd)]
            table_after_destroying(table, ids).contains_key(hwnd) <==> table.contains_key(hwnd)
                && !ids.contains(hwnd) by {
            if ids.contains(hwnd) {
                let i = choose|i: int| 0 <= i < ids.len() && ids[i] == hwnd;
                if i < ids.len() - 1 {
                    assert(front[i] == hwnd);
                }
            }
            if front.contains(hwnd) {
                let i = choose|i: int| 0 <= i < front.len() && front[i] == hwnd;
                assert(ids[i] == hwnd);
            }
            if hwnd == ids.last() {
                assert(ids[ids.len() - 1] == hwnd);
            }
            assert(table_after_destroying(table, front).contains_key(hwnd) <==> table.contains_key(
                hwnd,
            ) && !front.contains(hwnd));
        }
        assert forall|hwnd: usize|
            #![trigger table_after_destroying(table, ids)[hwnd]]
            table_after_destroying(table, ids).contains_key(
                hwnd,
            ) implies table_after_destroying(table, ids)[hwnd] == table[hwnd] by {
            assert(table_after_destroying(table, front).contains_key(hwnd));
            assert(table_after_destroying(table, front)[hwnd] == table[hwnd]);
        }
    }
}

/// Destroying the only window of the application empties the table and
/// tells the message loop to end, once.
pub proof fn lemma_destroying_last_window_shuts_down(table: Map<usize, Window>, hwnd: usize)
    requires
        table.dom() == set![hwnd],
    ensures
        table_after_destroying(table, seq![hwnd]).dom().is_empty(),
        destroying(table, seq![hwnd]) + shutdown(table, table_after_destroying(table, seq![hwnd]))
            == table[hwnd].release_commands() + seq![
            Command::DestroyWindow { hwnd },
            Command::PostQuitMessage { exit_code: 0 },
        ],
{
    let ids = seq![hwnd];
    assert(ids.drop_last() == Seq::<usize>::empty());
    assert(ids.last() == hwnd);
    reveal_with_fuel(table_after_destroying, 3);
    reveal_with_fuel(destroying, 3);
    assert(table_after_destroying(table, ids) == table.remove(hwnd));
    assert(table.remove(hwnd).dom() =~= Set::<usize>::empty());
    assert(table.dom().contains(hwnd));
}

} // verus!
