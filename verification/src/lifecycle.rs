//! What holds of every creation of a window, however the platform answers.

use vstd::prelude::*;
use crate::app::{destroying, table_after_destroying};
use crate::command::Command;
use crate::create::{CreatePhase, CreateReply, WindowCreation};
use crate::handlers::current_context_after;
use crate::window::{count_context_deletions, Window};

verus! {

/// Whether a device context is held after `commands` were carried out, if
/// `held` says whether one was held before.
pub open spec fn device_context_held(held: bool, commands: Seq<Command>) -> bool
    decreases commands.len(),
{
    if commands.len() == 0 {
        held
    } else {
        match commands.last() {
            Command::GetDc { .. } => true,
            Command::ReleaseDc { .. } => false,
            _ => device_context_held(held, commands.drop_last()),
        }
    }
}

/// How many of the operations submit a display list.
pub open spec fn count_display_lists(commands: Seq<Command>) -> nat
    decreases commands.len(),
{
    if commands.len() == 0 {
        0
    } else {
        count_display_lists(commands.drop_last()) + (if commands.last() is RebuildDisplayList {
            1nat
        } else {
            0nat
        })
    }
}

/// How many of the operations ask for a frame.
pub open spec fn count_frames(commands: Seq<Command>) -> nat
    decreases commands.len(),
{
    if commands.len() == 0 {
        0
    } else {
        count_frames(commands.drop_last()) + (if commands.last() is GenerateFrame {
            1nat
        } else {
            0nat
        })
    }
}

/// The creation after a run of replies, and all operations that it asked
/// for on the way.
pub open spec fn run(start: WindowCreation, replies: Seq<CreateReply>) -> (WindowCreation, Seq<Command>)
    decreases replies.len(),
{
    if replies.len() == 0 {
        (start, Seq::empty())
    } else {
        let before = run(start, replies.drop_last());
        let step = before.0.stepped(replies.last());
        (step.0, before.1 + step.1)
    }
}

/// A creation that has just begun.
pub open spec fn fresh(creation: WindowCreation) -> bool {
    &&& creation.phase == CreatePhase::CreatingNativeWindow
    &&& creation.hwnd == 0
    &&& creation.gl_context is None
}

/// Whether the rendering context of the creation is current in this phase:
/// from the construction of the renderer to the end of the first layout.
pub open spec fn context_in_use(phase: CreatePhase) -> bool {
    phase is CreatingRenderer || phase is QueryingInitialSize || phase is AcquiringApplicationData
        || phase is BuildingLayout
}

/// Whether the first display list has been submitted in this phase.
pub open spec fn display_list_submitted(phase: CreatePhase) -> bool {
    phase is QueryingCursor || phase is Done
}

/// What holds of a creation and of the operations it has asked for so far.
///
/// The rendering context is current, and a device context held, exactly
/// from the construction of the renderer to the end of the first layout.
/// One display list was submitted and one frame asked for once the size of
/// the window is final, and none before. A rendering context is deleted
/// only when the creation fails, and then once.
pub open spec fn sound(creation: WindowCreation, trace: Seq<Command>) -> bool {
    &&& current_context_after(None, trace) == (if context_in_use(creation.phase) {
        creation.gl_context
    } else {
        None
    })
    &&& device_context_held(false, trace) == context_in_use(creation.phase)
    &&& count_display_lists(trace) == (if display_list_submitted(creation.phase) {
        1nat
    } else {
        0nat
    })
    &&& count_frames(trace) == (if display_list_submitted(creation.phase) {
        1nat
    } else {
        0nat
    })
    &&& count_context_deletions(trace) == (if creation.phase is Failed
        && creation.gl_context is Some {
        1nat
    } else {
        0nat
    })
    &&& (creation.phase is CreatingNativeWindow <==> creation.hwnd == 0 && !(
    creation.phase is Failed))
    &&& (creation.phase is CreatingNativeWindow || creation.phase is QueryingDpi
        || creation.phase is CreatingGlContext ==> creation.gl_context is None)
    &&& (creation.phase is Failed && creation.hwnd != 0 ==> trace.len() > 0 && trace.last()
        == Command::DestroyWindow { hwnd: creation.hwnd })
}

/// The context that is current after two lists of operations is the one
/// that the second list leaves, starting from what the first one left.
pub proof fn lemma_context_concat(current: Option<usize>, first: Seq<Command>, second: Seq<Command>)
    ensures
        current_context_after(current, first + second) == current_context_after(
            current_context_after(current, first),
            second,
        ),
    decreases second.len(),
{
    if second.len() == 0 {
        assert(first + second == first);
    } else {
        assert((first + second).drop_last() == first + second.drop_last());
        assert((first + second).last() == second.last());
        lemma_context_concat(current, first, second.drop_last());
    }
}

/// Whether a device context is held after two lists of operations is what
/// the second list leaves, starting from what the first one left.
pub proof fn lemma_device_context_concat(held: bool, first: Seq<Command>, second: Seq<Command>)
    ensures
        device_context_held(held, first + second) == device_context_held(
            device_context_held(held, first),
            second,
        ),
    decreases second.len(),
{
    if second.len() == 0 {
        assert(first + second == first);
    } else {
        assert((first + second).drop_last() == first + second.drop_last());
        assert((first + second).last() == second.last());
        lemma_device_context_concat(held, first, second.drop_last());
    }
}

/// Display lists, frames and deleted contexts of two lists of operations
/// add up.
pub proof fn lemma_counts_concat(first: Seq<Command>, second: Seq<Command>)
    ensures
        count_display_lists(first + second) == count_display_lists(first) + count_display_lists(
            second,
        ),
        count_frames(first + second) == count_frames(first) + count_frames(second),
        count_context_deletions(first + second) == count_context_deletions(first)
            + count_context_deletions(second),
    decreases second.len(),
{
    if second.len() == 0 {
        assert(first + second == first);
    } else {
        assert((first + second).drop_last() == first + second.drop_last());
        assert((first + second).last() == second.last());
        lemma_counts_concat(first, second.drop_last());
    }
}

/// What a list of operations does to the current context, the device
/// context and the counts, read off its operations one by one.
pub open spec fn effect(commands: Seq<Command>, current: Option<usize>, held: bool) -> (
    Option<usize>,
    bool,
    nat,
    nat,
    nat,
) {
    (
        current_context_after(current, commands),
        device_context_held(held, commands),
        count_display_lists(commands),
        count_frames(commands),
        count_context_deletions(commands),
    )
}

/// No operation has no effect.
pub proof fn lemma_effect_empty(current: Option<usize>, held: bool)
    ensures
        effect(Seq::empty(), current, held) == (current, held, 0nat, 0nat, 0nat),
{
}

/// The effect of a list with one more operation is the effect of the list,
/// changed by that operation.
pub proof fn lemma_effect_push(
    commands: Seq<Command>,
    command: Command,
    current: Option<usize>,
    held: bool,
)
    ensures
        effect(commands.push(command), current, held) == ({
            let before = effect(commands, current, held);
            (
                match command {
                    Command::MakeCurrent { context, .. } => Some(context),
                    Command::ReleaseCurrent => None,
                    _ => before.0,
                },
                match command {
                    Command::GetDc { .. } => true,
                    Command::ReleaseDc { .. } => false,
                    _ => before.1,
                },
                before.2 + (if command is RebuildDisplayList {
                    1nat
                } else {
                    0nat
                }),
                before.3 + (if command is GenerateFrame {
                    1nat
                } else {
                    0nat
                }),
                before.4 + (if command is DeleteContext {
                    1nat
                } else {
                    0nat
                }),
            )
        }),
{
    assert(commands.push(command).drop_last() == commands);
    assert(commands.push(command).last() == command);
}

/// The effect of two lists of operations is the effect of the second on
/// what the first one left; the counts add up.
pub proof fn lemma_effect_concat(
    first: Seq<Command>,
    second: Seq<Command>,
    current: Option<usize>,
    held: bool,
)
    ensures
        effect(first + second, current, held) == ({
            let a = effect(first, current, held);
            let b = effect(second, a.0, a.1);
            (b.0, b.1, a.2 + b.2, a.3 + b.3, a.4 + b.4)
        }),
{
    lemma_context_concat(current, first, second);
    lemma_device_context_concat(held, first, second);
    lemma_counts_concat(first, second);
}

/// Bringing the renderer into being leaves the window's context current,
/// if it has one, and its device context held.
pub proof fn lemma_effect_of_renderer_commands(
    hwnd: usize,
    context: Option<usize>,
    current: Option<usize>,
    held: bool,
)
    ensures
        effect(WindowCreation::renderer_commands(hwnd, context), current, held) == (
            if context is Some {
                context
            } else {
                current
            },
            true,
            0nat,
            0nat,
            0nat,
        ),
{
    reveal_with_fuel(current_context_after, 12);
    reveal_with_fuel(device_context_held, 12);
    reveal_with_fuel(count_display_lists, 12);
    reveal_with_fuel(count_frames, 12);
    reveal_with_fuel(count_context_deletions, 12);
}

/// Undoing a window leaves no context current and no device context held,
/// deletes the window's context if it has one, and ends with the
/// destruction of the native window.
pub proof fn lemma_effect_of_rollback_commands(
    hwnd: usize,
    context: Option<usize>,
    current: Option<usize>,
    held: bool,
)
    ensures
        effect(WindowCreation::rollback_commands(hwnd, context), current, held) == (
            if context is Some {
                None
            } else {
                current
            },
            false,
            0nat,
            0nat,
            if context is Some {
                1nat
            } else {
                0nat
            },
        ),
        WindowCreation::rollback_commands(hwnd, context).len() > 0,
        WindowCreation::rollback_commands(hwnd, context).last() == (Command::DestroyWindow {
            hwnd,
        }),
{
    reveal_with_fuel(current_context_after, 6);
    reveal_with_fuel(device_context_held, 6);
    reveal_with_fuel(count_display_lists, 6);
    reveal_with_fuel(count_frames, 6);
    reveal_with_fuel(count_context_deletions, 6);
}

/// Registering the document changes nothing about contexts.
pub proof fn lemma_effect_of_document_commands(
    hwnd: usize,
    size: crate::geometry::PhysicalSize,
    current: Option<usize>,
    held: bool,
)
    ensures
        effect(WindowCreation::document_commands(hwnd, size), current, held) == (
            current,
            held,
            0nat,
            0nat,
            0nat,
        ),
{
    reveal_with_fuel(current_context_after, 6);
    reveal_with_fuel(device_context_held, 6);
    reveal_with_fuel(count_display_lists, 6);
    reveal_with_fuel(count_frames, 6);
    reveal_with_fuel(count_context_deletions, 6);
}

/// What follows the first layout releases the window's context and gives
/// the device context back.
pub proof fn lemma_effect_of_layout_commands(
    creation: WindowCreation,
    has_menu: bool,
    current: Option<usize>,
    held: bool,
)
    ensures
        effect(creation.layout_commands(has_menu), current, held) == (
            if creation.gl_context is Some {
                None
            } else {
                current
            },
            false,
            0nat,
            0nat,
            0nat,
        ),
{
    reveal_with_fuel(current_context_after, 8);
    reveal_with_fuel(device_context_held, 8);
    reveal_with_fuel(count_display_lists, 8);
    reveal_with_fuel(count_frames, 8);
    reveal_with_fuel(count_context_deletions, 8);
}

/// The first frame submits one display list and asks for one frame.
pub proof fn lemma_effect_of_first_frame_commands(
    hwnd: usize,
    size: crate::geometry::PhysicalSize,
    current: Option<usize>,
    held: bool,
)
    ensures
        effect(WindowCreation::first_frame_commands(hwnd, size), current, held) == (
            current,
            held,
            1nat,
            1nat,
            0nat,
        ),
{
    reveal_with_fuel(current_context_after, 10);
    reveal_with_fuel(device_context_held, 10);
    reveal_with_fuel(count_display_lists, 10);
    reveal_with_fuel(count_frames, 10);
    reveal_with_fuel(count_context_deletions, 10);
}

/// The end of the creation changes nothing about contexts and submits
/// nothing.
pub proof fn lemma_effect_of_final_commands(
    creation: WindowCreation,
    current: Option<usize>,
    held: bool,
)
    ensures
        effect(creation.final_commands(), current, held) == (current, held, 0nat, 0nat, 0nat),
{
    reveal_with_fuel(current_context_after, 8);
    reveal_with_fuel(device_context_held, 8);
    reveal_with_fuel(count_display_lists, 8);
    reveal_with_fuel(count_frames, 8);
    reveal_with_fuel(count_context_deletions, 8);
}

/// A step keeps a creation sound.
pub proof fn lemma_step_sound(creation: WindowCreation, trace: Seq<Command>, reply: CreateReply)
    requires
        sound(creation, trace),
    ensures
        sound(creation.stepped(reply).0, trace + creation.stepped(reply).1),
{
    let after = creation.stepped(reply).0;
    let ops = creation.stepped(reply).1;
    let current = current_context_after(None, trace);
    let held = device_context_held(false, trace);
    lemma_effect_concat(trace, ops, None, false);
    lemma_effect_of_renderer_commands(creation.hwnd, None, current, held);
    lemma_effect_of_rollback_commands(creation.hwnd, creation.gl_context, current, held);
    lemma_effect_of_document_commands(creation.hwnd, after.size, current, held);
    lemma_effect_of_layout_commands(creation, true, current, held);
    lemma_effect_of_layout_commands(creation, false, current, held);
    lemma_effect_of_first_frame_commands(creation.hwnd, after.size, current, held);
    lemma_effect_of_final_commands(creation, current, held);
    lemma_effect_empty(current, held);
    match (creation.phase, reply) {
        (CreatePhase::CreatingNativeWindow, CreateReply::NativeWindow { hwnd, .. }) => {
            if hwnd != 0 {
                lemma_effect_push(Seq::empty(), Command::QueryDpi { hwnd }, current, held);
            } else {
                assert(trace + ops == trace);
            }
        },
        (CreatePhase::QueryingDpi, CreateReply::Dpi { .. }) => {
            lemma_effect_push(
                Seq::empty(),
                Command::CreateGlContext { hwnd: creation.hwnd },
                current,
                held,
            );
        },
        (CreatePhase::CreatingGlContext, CreateReply::GlContextCreated { context, .. }) => {
            lemma_effect_of_renderer_commands(creation.hwnd, Some(context), current, held);
        },
        (CreatePhase::CreatingGlContext, CreateReply::GlContextFailed { .. }) => {},
        (CreatePhase::CreatingRenderer, CreateReply::RendererFailed { .. }) => {
            assert((trace + ops).last() == ops.last());
        },
        (CreatePhase::CreatingRenderer, CreateReply::RendererCreated) => {
            let head = seq![Command::CreateRenderApi { hwnd: creation.hwnd }];
            lemma_effect_push(
                Seq::empty(),
                Command::CreateRenderApi { hwnd: creation.hwnd },
                current,
                held,
            );
            if creation.options.size_to_content {
                lemma_effect_concat(
                    head,
                    WindowCreation::document_commands(creation.hwnd, after.size),
                    current,
                    held,
                );
                assert(ops == head + WindowCreation::document_commands(creation.hwnd, after.size));
                assert(effect(head, current, held) == (current, held, 0nat, 0nat, 0nat));
                assert(effect(ops, current, held) == (current, held, 0nat, 0nat, 0nat));
                } else {
                lemma_effect_push(
                    head,
                    Command::QueryClientRect { hwnd: creation.hwnd },
                    current,
                    held,
                );
                assert(ops == head.push(Command::QueryClientRect { hwnd: creation.hwnd }));
                assert(effect(head, current, held) == (current, held, 0nat, 0nat, 0nat));
                assert(effect(ops, current, held) == (current, held, 0nat, 0nat, 0nat));
                }
        },
        (CreatePhase::QueryingInitialSize, CreateReply::ClientRect { .. }) => {},
        (CreatePhase::AcquiringApplicationData, CreateReply::ApplicationData { acquired }) => {
            if acquired {
                lemma_effect_push(
                    Seq::empty(),
                    Command::BuildInitialLayout { hwnd: creation.hwnd },
                    current,
                    held,
                );
            } else {
                assert((trace + ops).last() == ops.last());
            }
        },
        (CreatePhase::BuildingLayout, CreateReply::LayoutBuilt { .. }) => {},
        (CreatePhase::QueryingFinalSize, CreateReply::ClientRect { .. }) => {},
        (CreatePhase::QueryingCursor, CreateReply::CursorPosition { .. }) => {},
        _ => {
            assert(trace + ops == trace);
        },
    }
}

/// Every run of a creation is sound, whatever the replies are.
pub proof fn lemma_run_sound(start: WindowCreation, replies: Seq<CreateReply>)
    requires
        fresh(start),
    ensures
        sound(run(start, replies).0, run(start, replies).1),
    decreases replies.len(),
{
    if replies.len() == 0 {
        lemma_effect_empty(None, false);
    } else {
        lemma_run_sound(start, replies.drop_last());
        let before = run(start, replies.drop_last());
        lemma_step_sound(before.0, before.1, replies.last());
    }
}

/// Creating a window submits exactly one display list and asks for exactly
/// one frame, and when the window is there no rendering context is current,
/// no device context is held and no rendering context was deleted.
pub proof fn lemma_created_window(start: WindowCreation, replies: Seq<CreateReply>)
    requires
        fresh(start),
        run(start, replies).0.phase is Done,
    ensures
        count_display_lists(run(start, replies).1) == 1,
        count_frames(run(start, replies).1) == 1,
        count_context_deletions(run(start, replies).1) == 0,
        current_context_after(None, run(start, replies).1) is None,
        !device_context_held(false, run(start, replies).1),
        run(start, replies).0.hwnd != 0,
{
    lemma_run_sound(start, replies);
}

/// A creation that fails after the native window was created leaves
/// nothing of the window: no rendering context is current, the window's
/// own context is deleted, once, if there was one, no device context is
/// held, and the last operation destroys the native window. It has
/// submitted no display list.
pub proof fn lemma_failed_creation_is_undone(start: WindowCreation, replies: Seq<CreateReply>)
    requires
        fresh(start),
        run(start, replies).0.phase is Failed,
    ensures
        current_context_after(None, run(start, replies).1) is None,
        !device_context_held(false, run(start, replies).1),
        count_context_deletions(run(start, replies).1) == (if run(start, replies).0.gl_context
            is Some {
            1nat
        } else {
            0nat
        }),
        count_display_lists(run(start, replies).1) == 0,
        run(start, replies).0.hwnd != 0 ==> run(start, replies).1.len() > 0 && run(
            start,
            replies,
        ).1.last() == (Command::DestroyWindow { hwnd: run(start, replies).0.hwnd }),
{
    lemma_run_sound(start, replies);
}

/// Creating a window, filing it, and destroying it at once leaves the table
/// of windows as it was before, and deletes the rendering context of the
/// window exactly once if it has one, and none otherwise.
pub proof fn lemma_create_then_destroy(
    start: WindowCreation,
    replies: Seq<CreateReply>,
    window: Window,
    table: Map<usize, Window>,
)
    requires
        fresh(start),
        run(start, replies).0.phase is Done,
        run(start, replies).0.made(window),
        !table.contains_key(window.hwnd),
    ensures
        table_after_destroying(table.insert(window.hwnd, window), seq![window.hwnd]) == table,
        table_after_destroying(table.insert(window.hwnd, window), seq![window.hwnd]).len()
            == table.len(),
        count_context_deletions(
            run(start, replies).1 + destroying(
                table.insert(window.hwnd, window),
                seq![window.hwnd],
            ),
        ) == (if window.gl_context is Some {
            1nat
        } else {
            0nat
        }),
{
    lemma_run_sound(start, replies);
    let filed = table.insert(window.hwnd, window);
    let ids = seq![window.hwnd];
    assert(ids.drop_last() == Seq::<usize>::empty());
    assert(ids.last() == window.hwnd);
    reveal_with_fuel(table_after_destroying, 3);
    reveal_with_fuel(destroying, 3);
    assert(table_after_destroying(filed, ids) == filed.remove(window.hwnd));
    assert(filed.remove(window.hwnd) == table);
    let released = window.release_commands();
    let destroyed = released + seq![Command::DestroyWindow { hwnd: window.hwnd }];
    assert(destroying(filed, ids) == destroyed);
    crate::window::lemma_release_deletes_context_once(window);
    lemma_counts_concat(released, seq![Command::DestroyWindow { hwnd: window.hwnd }]);
    reveal_with_fuel(count_context_deletions, 3);
    lemma_counts_concat(run(start, replies).1, destroyed);
}

/// The first pass over a window that was just created does nothing, if no
/// callback asks for anything, restyling and layout find nothing, and the
/// options asked for no scrolling.
pub proof fn lemma_first_pass_does_nothing(creation: WindowCreation, window: Window)
    requires
        creation.made(window),
        creation.options.state.mouse_state.pending_scroll() is None,
    ensures
        crate::decision::pass_outcome(
            window.internal,
            crate::decision::PassInput {
                modified_window_state: None,
                callbacks_update_screen: crate::state::Update::DoNothing,
                changes: crate::state::StyleAndLayoutChanges::nothing(),
            },
        ) == crate::decision::ProcessEventResult::DoNothing,
{
}

} // verus!
