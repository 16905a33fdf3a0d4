//! Timers and background tasks of a window, and the system timers that
//! serve them.
//!
//! Every logical timer has one system timer of its own, with the same
//! identifier. All background tasks of a window share one system timer,
//! which is armed while there is any task and at no other time.

use vstd::prelude::*;
use crate::command::{Command, AZ_THREAD_TICK, THREAD_TICK_MILLIS};
use crate::state::{ThreadId, Timer, TimerId};
use crate::window::Window;

verus! {

broadcast use {vstd::std_specs::btree::group_btree_axioms, vstd::laws_cmp::group_laws_cmp};

/// The longest period a system timer can have, in milliseconds.
pub const MAX_TIMER_MILLIS: u32 = 0xffff_ffff;

/// The period a system timer is armed with for a logical period: the same,
/// but no more than the longest there is.
pub open spec fn clamped_interval(millis: u64) -> u32 {
    if millis > MAX_TIMER_MILLIS {
        MAX_TIMER_MILLIS
    } else {
        millis as u32
    }
}

/// Computes the period a system timer is armed with.
pub fn clamp_interval(millis: u64) -> (clamped: u32)
    ensures
        clamped == clamped_interval(millis),
{
    if millis > MAX_TIMER_MILLIS as u64 {
        MAX_TIMER_MILLIS
    } else {
        millis as u32
    }
}

/// The timer table after the timers of `added` were entered one after the
/// other. A later entry for an identifier replaces an earlier one.
pub open spec fn table_with(table: Map<TimerId, u32>, added: Seq<(TimerId, Timer)>) -> Map<
    TimerId,
    u32,
>
    decreases added.len(),
{
    if added.len() == 0 {
        table
    } else {
        table_with(table, added.drop_last()).insert(
            added.last().0,
            clamped_interval(added.last().1.interval_millis),
        )
    }
}

/// The timer table after the timers of `removed` were taken out.
pub open spec fn table_without(table: Map<TimerId, u32>, removed: Seq<TimerId>) -> Map<
    TimerId,
    u32,
>
    decreases removed.len(),
{
    if removed.len() == 0 {
        table
    } else {
        table_without(table, removed.drop_last()).remove(removed.last())
    }
}

/// One operation for each added timer, in order: arm the system timer with
/// the timer's identifier and its clamped period.
pub open spec fn arming(hwnd: usize, added: Seq<(TimerId, Timer)>) -> Seq<Command> {
    Seq::new(
        added.len(),
        |i: int|
            Command::SetTimer {
                hwnd,
                id: added[i].0,
                millis: clamped_interval(added[i].1.interval_millis),
            },
    )
}

/// One operation for each removed timer that is in the table when its turn
/// comes, in order: cancel its system timer.
pub open spec fn cancelling(hwnd: usize, table: Map<TimerId, u32>, removed: Seq<TimerId>) -> Seq<
    Command,
>
    decreases removed.len(),
{
    if removed.len() == 0 {
        Seq::empty()
    } else {
        let before = cancelling(hwnd, table, removed.drop_last());
        if table_without(table, removed.drop_last()).contains_key(removed.last()) {
            before.push(Command::KillTimer { hwnd, id: removed.last() })
        } else {
            before
        }
    }
}

/// The set of tasks after the tasks of `added` were entered.
pub open spec fn tasks_with(tasks: Set<ThreadId>, added: Seq<ThreadId>) -> Set<ThreadId>
    decreases added.len(),
{
    if added.len() == 0 {
        tasks
    } else {
        tasks_with(tasks, added.drop_last()).insert(added.last())
    }
}

/// The set of tasks after the tasks of `removed` were taken out.
pub open spec fn tasks_without(tasks: Set<ThreadId>, removed: Seq<ThreadId>) -> Set<ThreadId>
    decreases removed.len(),
{
    if removed.len() == 0 {
        tasks
    } else {
        tasks_without(tasks, removed.drop_last()).remove(removed.last())
    }
}

/// The tasks of a window after a reconciliation: the added ones enter first,
/// then the removed ones leave.
pub open spec fn reconciled_tasks(
    tasks: Set<ThreadId>,
    added: Seq<ThreadId>,
    removed: Seq<ThreadId>,
) -> Set<ThreadId> {
    tasks_without(tasks_with(tasks, added), removed)
}

/// The system timer that polls the tasks, after a reconciliation that left
/// the tasks `tasks`: none without tasks; the one that was armed, if one
/// was; a new one otherwise.
pub open spec fn polling_timer_after(running: Option<usize>, tasks: Set<ThreadId>) -> Option<
    usize,
> {
    if tasks.is_empty() {
        None
    } else if running is None {
        Some(AZ_THREAD_TICK)
    } else {
        running
    }
}

/// What has to happen to the system timer that polls the tasks: it is
/// cancelled when the last task is gone, armed when the first task has come,
/// and left alone otherwise.
pub open spec fn polling_commands(hwnd: usize, running: Option<usize>, tasks: Set<ThreadId>) -> Seq<
    Command,
> {
    if tasks.is_empty() {
        match running {
            Some(id) => seq![Command::KillTimer { hwnd, id }],
            None => Seq::empty(),
        }
    } else if running is None {
        seq![Command::SetTimer { hwnd, id: AZ_THREAD_TICK, millis: THREAD_TICK_MILLIS }]
    } else {
        Seq::empty()
    }
}

/// The identifiers of the system timers that are armed after `commands` were
/// carried out, if those in `armed` were armed before.
pub open spec fn armed_after(armed: Set<usize>, commands: Seq<Command>) -> Set<usize>
    decreases commands.len(),
{
    if commands.len() == 0 {
        armed
    } else {
        let before = armed_after(armed, commands.drop_last());
        match commands.last() {
            Command::SetTimer { id, .. } => before.insert(id),
            Command::KillTimer { id, .. } => before.remove(id),
            _ => before,
        }
    }
}

impl Window {
    /// Enters the added timers and arms a system timer for each, then takes
    /// the removed timers out and cancels theirs. Removing a timer that is
    /// not in the table does nothing.
    pub fn start_stop_timers(
        &mut self,
        added: Vec<(TimerId, Timer)>,
        removed: Vec<TimerId>,
    ) -> (commands: Vec<Command>)
        ensures
            final(self).timers@ == table_without(table_with(old(self).timers@, added@), removed@),
            commands@ == arming(old(self).hwnd, added@) + cancelling(
                old(self).hwnd,
                table_with(old(self).timers@, added@),
                removed@,
            ),
            final(self).same_but_timers(*old(self)),
    {
        let mut commands: Vec<Command> = Vec::new();
        let hwnd = self.hwnd;
        let mut i: usize = 0;
        while i < added.len()
            invariant
                i <= added.len(),
                hwnd == old(self).hwnd,
                self.same_but_timers(*old(self)),
                self.timers@ == table_with(old(self).timers@, added@.take(i as int)),
                commands@ == arming(hwnd, added@.take(i as int)),
            decreases added.len() - i,
        {
            let (id, timer) = added[i];
            let millis = clamp_interval(timer.tick_millis());
            proof {
                let next = added@.take(i as int + 1);
                assert(next.drop_last() == added@.take(i as int));
                assert(next.last() == added@[i as int]);
                assert(arming(hwnd, next) == arming(hwnd, added@.take(i as int)).push(
                    Command::SetTimer { hwnd, id, millis },
                ));
            }
            commands.push(Command::SetTimer { hwnd, id, millis });
            self.timers.insert(id, millis);
            i = i + 1;
        }
        proof {
            assert(added@.take(added.len() as int) == added@);
        }
        let ghost entered = self.timers@;
        let ghost armed = commands@;
        let mut j: usize = 0;
        while j < removed.len()
            invariant
                j <= removed.len(),
                hwnd == old(self).hwnd,
                self.same_but_timers(*old(self)),
                self.timers@ == table_without(entered, removed@.take(j as int)),
                commands@ == armed + cancelling(hwnd, entered, removed@.take(j as int)),
            decreases removed.len() - j,
        {
            let id = removed[j];
            proof {
                let next = removed@.take(j as int + 1);
                assert(next.drop_last() == removed@.take(j as int));
                assert(next.last() == id);
            }
            if self.timers.remove(&id).is_some() {
                commands.push(Command::KillTimer { hwnd, id });
            }
            j = j + 1;
        }
        proof {
            assert(removed@.take(removed.len() as int) == removed@);
        }
        commands
    }

    /// Enters the added tasks and takes the removed ones out, then sees to
    /// it that the system timer that polls the tasks is armed if and only if
    /// a task is left. A timer that is armed already is never armed again.
    pub fn start_stop_threads(
        &mut self,
        added: Vec<ThreadId>,
        removed: Vec<ThreadId>,
    ) -> (commands: Vec<Command>)
        ensures
            final(self).threads@ == reconciled_tasks(old(self).threads@, added@, removed@),
            final(self).thread_timer_running == polling_timer_after(
                old(self).thread_timer_running,
                final(self).threads@,
            ),
            commands@ == polling_commands(
                old(self).hwnd,
                old(self).thread_timer_running,
                final(self).threads@,
            ),
            final(self).thread_timer_running is Some <==> !final(self).threads@.is_empty(),
            final(self).same_but_threads(*old(self)),
    {
        let mut i: usize = 0;
        while i < added.len()
            invariant
                i <= added.len(),
                self.same_but_threads(*old(self)),
                self.thread_timer_running == old(self).thread_timer_running,
                self.threads@ == tasks_with(old(self).threads@, added@.take(i as int)),
            decreases added.len() - i,
        {
            let id = added[i];
            proof {
                let next = added@.take(i as int + 1);
                assert(next.drop_last() == added@.take(i as int));
                assert(next.last() == id);
            }
            self.threads.insert(id);
            i = i + 1;
        }
        proof {
            assert(added@.take(added.len() as int) == added@);
        }
        let ghost entered = self.threads@;
        let mut j: usize = 0;
        while j < removed.len()
            invariant
                j <= removed.len(),
                self.same_but_threads(*old(self)),
                self.thread_timer_running == old(self).thread_timer_running,
                self.threads@ == tasks_without(entered, removed@.take(j as int)),
            decreases removed.len() - j,
        {
            let id = removed[j];
            proof {
                let next = removed@.take(j as int + 1);
                assert(next.drop_last() == removed@.take(j as int));
                assert(next.last() == id);
            }
            self.threads.remove(&id);
            j = j + 1;
        }
        proof {
            assert(removed@.take(removed.len() as int) == removed@);
        }
        let mut commands: Vec<Command> = Vec::new();
        if self.threads.is_empty() {
            if let Some(id) = self.thread_timer_running {
                commands.push(Command::KillTimer { hwnd: self.hwnd, id });
            }
            self.thread_timer_running = None;
        } else if self.thread_timer_running.is_none() {
            commands.push(
                Command::SetTimer { hwnd: self.hwnd, id: AZ_THREAD_TICK, millis: THREAD_TICK_MILLIS },
            );
            self.thread_timer_running = Some(AZ_THREAD_TICK);
        }
        commands
    }
}

/// Reconciling with nothing added and nothing removed changes nothing: the
/// timer table and the tasks stay as they are and no system timer is armed
/// or cancelled. For the tasks this holds of a window whose polling timer is
/// armed exactly while it has tasks.
pub proof fn lemma_reconcile_nothing(
    hwnd: usize,
    table: Map<TimerId, u32>,
    tasks: Set<ThreadId>,
    running: Option<usize>,
)
    requires
        running is Some <==> !tasks.is_empty(),
    ensures
        table_without(table_with(table, Seq::empty()), Seq::empty()) == table,
        arming(hwnd, Seq::empty()) + cancelling(hwnd, table, Seq::empty()) == Seq::<
            Command,
        >::empty(),
        reconciled_tasks(tasks, Seq::empty(), Seq::empty()) == tasks,
        polling_timer_after(running, tasks) == running,
        polling_commands(hwnd, running, tasks) == Seq::<Command>::empty(),
{
}

/// After any reconciliation the timer that polls the tasks is armed if and
/// only if there is a task.
pub proof fn lemma_polling_timer_iff_tasks(running: Option<usize>, tasks: Set<ThreadId>)
    ensures
        polling_timer_after(running, tasks) is Some <==> !tasks.is_empty(),
{
}

/// The timer that polls the tasks is never armed while it is armed, and
/// never cancelled while it is not.
pub proof fn lemma_polling_timer_not_rearmed(
    hwnd: usize,
    running: Option<usize>,
    tasks: Set<ThreadId>,
)
    ensures
        running is Some ==> forall|i: int|
            0 <= i < polling_commands(hwnd, running, tasks).len() ==> !(
            #[trigger] polling_commands(hwnd, running, tasks)[i] is SetTimer),
        running is None ==> forall|i: int|
            0 <= i < polling_commands(hwnd, running, tasks).len() ==> !(
            #[trigger] polling_commands(hwnd, running, tasks)[i] is KillTimer),
{
}

/// Carrying out two runs of operations one after the other arms what the
/// second run arms, starting from what the first has armed.
pub proof fn lemma_armed_after_concat(armed: Set<usize>, first: Seq<Command>, second: Seq<Command>)
    ensures
        armed_after(armed, first + second) == armed_after(armed_after(armed, first), second),
    decreases second.len(),
{
    if second.len() == 0 {
        assert(first + second == first);
    } else {
        assert((first + second).drop_last() == first + second.drop_last());
        assert((first + second).last() == second.last());
        lemma_armed_after_concat(armed, first, second.drop_last());
    }
}

/// Arming the added timers leaves armed exactly the timers of the table.
pub proof fn lemma_arming_tracks_table(
    hwnd: usize,
    table: Map<TimerId, u32>,
    added: Seq<(TimerId, Timer)>,
)
    ensures
        armed_after(table.dom(), arming(hwnd, added)) == table_with(table, added).dom(),
    decreases added.len(),
{
    if added.len() > 0 {
        lemma_arming_tracks_table(hwnd, table, added.drop_last());
        assert(arming(hwnd, added).drop_last() == arming(hwnd, added.drop_last()));
        assert(table_with(table, added).dom() == table_with(table, added.drop_last()).dom().insert(
            added.last().0,
        ));
    }
}

/// Cancelling the removed timers leaves armed exactly the timers of the
/// table.
pub proof fn lemma_cancelling_tracks_table(
    hwnd: usize,
    table: Map<TimerId, u32>,
    removed: Seq<TimerId>,
)
    ensures
        armed_after(table.dom(), cancelling(hwnd, table, removed)) == table_without(
            table,
            removed,
        ).dom(),
    decreases removed.len(),
{
    if removed.len() > 0 {
        lemma_cancelling_tracks_table(hwnd, table, removed.drop_last());
        let before = table_without(table, removed.drop_last());
        if before.contains_key(removed.last()) {
            assert(cancelling(hwnd, table, removed).drop_last() == cancelling(
                hwnd,
                table,
                removed.drop_last(),
            ));
        }
        assert(table_without(table, removed).dom() == before.dom().remove(removed.last()));
    }
}

/// Every logical timer has exactly one system timer: if the armed system
/// timers were those of the table before a reconciliation, then, once its
/// operations are carried out, they are those of the table after it.
pub proof fn lemma_one_system_timer_per_timer(
    hwnd: usize,
    table: Map<TimerId, u32>,
    added: Seq<(TimerId, Timer)>,
    removed: Seq<TimerId>,
)
    ensures
        armed_after(
            table.dom(),
            arming(hwnd, added) + cancelling(hwnd, table_with(table, added), removed),
        ) == table_without(table_with(table, added), removed).dom(),
{
    lemma_arming_tracks_table(hwnd, table, added);
    lemma_cancelling_tracks_table(hwnd, table_with(table, added), removed);
    lemma_armed_after_concat(
        table.dom(),
        arming(hwnd, added),
        cancelling(hwnd, table_with(table, added), removed),
    );
}

/// The identifiers that occur in a list of added timers.
pub open spec fn added_ids(added: Seq<(TimerId, Timer)>) -> Set<TimerId> {
    Set::new(|id: TimerId| exists|i: int| 0 <= i < added.len() && #[trigger] added[i].0 == id)
}

/// After a reconciliation the table holds the timers that it held or that
/// were added, but for those that were removed.
pub proof fn lemma_reconciled_timers(
    table: Map<TimerId, u32>,
    added: Seq<(TimerId, Timer)>,
    removed: Seq<TimerId>,
)
    ensures
        forall|id: TimerId|
            #![trigger table_without(table_with(table, added), removed).contains_key(id)]
            table_without(table_with(table, added), removed).contains_key(id) <==> (
            table.contains_key(id) || added_ids(added).contains(id)) && !removed.contains(id),
{
    lemma_table_with_dom(table, added);
    lemma_table_without_dom(table_with(table, added), removed);
}

/// Entering timers adds their identifiers to the table and takes none out.
pub proof fn lemma_table_with_dom(table: Map<TimerId, u32>, added: Seq<(TimerId, Timer)>)
    ensures
        forall|id: TimerId|
            #![trigger table_with(table, added).contains_key(id)]
            table_with(table, added).contains_key(id) <==> table.contains_key(id) || added_ids(
                added,
            ).contains(id),
    decreases added.len(),
{
    if added.len() > 0 {
        let front = added.drop_last();
        lemma_table_with_dom(table, front);
        assert forall|id: TimerId|
            #![trigger table_with(table, added).contains_key(id)]
            table_with(table, added).contains_key(id) <==> table.contains_key(id) || added_ids(
                added,
            ).contains(id) by {
            if added_ids(added).contains(id) {
                let i = choose|i: int| 0 <= i < added.len() && #[trigger] added[i].0 == id;
                if i < added.len() - 1 {
                    assert(front[i].0 == id);
                    assert(added_ids(front).contains(id));
                }
            }
            if added_ids(front).contains(id) {
                let i = choose|i: int| 0 <= i < front.len() && #[trigger] front[i].0 == id;
                assert(added[i].0 == id);
            }
            if id == added.last().0 {
                assert(added[added.len() - 1].0 == id);
            }
            assert(table_with(table, front).contains_key(id) <==> table.contains_key(id)
                || added_ids(front).contains(id));
        }
    }
}

/// Taking timers out leaves exactly the timers that were not named.
pub proof fn lemma_table_without_dom(table: Map<TimerId, u32>, removed: Seq<TimerId>)
    ensures
        forall|id: TimerId|
            #![trigger table_without(table, removed).contains_key(id)]
            table_without(table, removed).contains_key(id) <==> table.contains_key(id)
                && !removed.contains(id),
    decreases removed.len(),
{
    if removed.len() > 0 {
        let front = removed.drop_last();
        lemma_table_without_dom(table, front);
        assert forall|id: TimerId|
            #![trigger table_without(table, removed).contains_key(id)]
            table_without(table, removed).contains_key(id) <==> table.contains_key(id)
                && !removed.contains(id) by {
            if removed.contains(id) {
                let i = choose|i: int| 0 <= i < removed.len() && removed[i] == id;
                if i < removed.len() - 1 {
                    assert(front[i] == id);
                }
            }
            if front.contains(id) {
                let i = choose|i: int| 0 <= i < front.len() && front[i] == id;
                assert(removed[i] == id);
            }
            if id == removed.last() {
                assert(removed[removed.len() - 1] == id);
            }
            assert(table_without(table, front).contains_key(id) <==> table.contains_key(id)
                && !front.contains(id));
        }
    }
}

/// Removing a timer is idempotent: naming it twice takes it out once and
/// cancels its system timer once, and naming a timer that is not in the
/// table does nothing.
pub proof fn lemma_removal_is_idempotent(hwnd: usize, table: Map<TimerId, u32>, id: TimerId)
    ensures
        table_without(table, seq![id, id]) == table_without(table, seq![id]),
        cancelling(hwnd, table, seq![id, id]) == cancelling(hwnd, table, seq![id]),
        table.contains_key(id) ==> cancelling(hwnd, table, seq![id]) == seq![
            Command::KillTimer { hwnd, id },
        ],
        !table.contains_key(id) ==> table_without(table, seq![id]) == table && cancelling(
            hwnd,
            table,
            seq![id],
        ) == Seq::<Command>::empty(),
{
    let once = seq![id];
    let twice = seq![id, id];
    assert(once.drop_last() == Seq::<TimerId>::empty());
    assert(twice.drop_last() == once);
    assert(once.last() == id && twice.last() == id);
    reveal_with_fuel(table_without, 3);
    reveal_with_fuel(cancelling, 3);
    assert(table_without(table, once) == table.remove(id));
    assert(table_without(table, twice) == table.remove(id).remove(id));
    assert(table.remove(id).remove(id) == table.remove(id));
    if !table.contains_key(id) {
        assert(table.remove(id) == table);
    }
}

} // verus!
