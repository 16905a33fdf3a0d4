use std::collections::{BTreeMap, BTreeSet};

use azul_shell::app::{
    create_windows, destroy_windows, get_monitors, message_loop_continues, run_all_threads,
    startup, ApplicationData, MessagePump,
};
use azul_shell::command::{Command, Reply};
use azul_shell::cursor::MouseCursorType;
use azul_shell::decision::CallCallbacksResult;
use azul_shell::error::{WindowsStartupError, WindowsWindowCreateError};
use azul_shell::geometry::Rect;
use azul_shell::handlers::oldest_epoch;
use azul_shell::hit_test::AsyncHitTester;
use azul_shell::message::{Message, MouseButton, SizeKind, TimerKind};
use azul_shell::state::{
    CursorPosition, DomNodeId, FullHitTest, FullWindowState, RendererType, StyleAndLayoutChanges,
    Update, WindowCreateOptions, WindowFrame, WindowState,
};
use azul_shell::window::{Window, WindowInternal, MAX_REPROCESS_DEPTH};
use azul_shell::window_proc::{window_proc_busy, WindowEvent};

fn shell_window(hwnd: usize, context: Option<usize>) -> Window {
    Window {
        hwnd,
        internal: WindowInternal {
            current_window_state: FullWindowState::from_window_state(
                &WindowState::new(1),
                None,
                FullHitTest::empty(None),
            ),
            previous_window_state: None,
            epoch: 1,
        },
        gl_context: context,
        renderer: Some(if context.is_some() {
            RendererType::Hardware
        } else {
            RendererType::Software
        }),
        hit_tester: AsyncHitTester::request(1),
        menu_callbacks: BTreeMap::new(),
        timers: BTreeMap::new(),
        threads: BTreeSet::new(),
        thread_timer_running: None,
        menu_hash: None,
        reprocess_depth: 0,
    }
}

fn app_with(windows: Vec<Window>) -> ApplicationData {
    let mut app = ApplicationData::new(0x400000, None);
    for window in windows {
        app.insert_window(window);
    }
    app
}

fn plain(message: Message) -> WindowEvent {
    WindowEvent::Plain { message }
}

fn redo(results: CallCallbacksResult, changes: StyleAndLayoutChanges) -> WindowEvent {
    WindowEvent::RedoHitTest { results, changes }
}

#[test]
fn mouse_move_stages_state_and_asks_for_callbacks() {
    let mut window = shell_window(8, None);
    let before = window.internal.current_window_state;
    let commands = window.mouse_move(120, 45, MouseCursorType::Hand);
    assert_eq!(
        commands,
        vec![
            Command::TrackMouseLeave { hwnd: 8 },
            Command::SetCursor { hwnd: 8, cursor: 32649 },
            Command::PostMessage { hwnd: 8, message: 0x8003 },
        ]
    );
    assert_eq!(window.internal.previous_window_state, Some(before));
    let current = window.internal.current_window_state;
    assert_eq!(current.mouse_state.cursor_position, CursorPosition::InWindow { x: 120, y: 45 });
    assert_eq!(current.mouse_state.mouse_cursor_type, Some(MouseCursorType::Hand));
    assert_eq!(current.last_hit_test, FullHitTest { focused_node: None, generation: Some(1) });
    assert_eq!(window.hit_tester, AsyncHitTester::Resolved { generation: 1 });
}

#[test]
fn mouse_move_inside_neither_tracks_nor_sets_an_unchanged_cursor() {
    let mut window = shell_window(8, None);
    let _ = window.mouse_move(120, 45, MouseCursorType::Hand);
    let staged = window.internal.current_window_state;
    let commands = window.mouse_move(121, 45, MouseCursorType::Hand);
    assert_eq!(commands, vec![Command::PostMessage { hwnd: 8, message: 0x8003 }]);
    assert_eq!(window.internal.previous_window_state, Some(staged));
    let commands = window.mouse_move(122, 45, MouseCursorType::Text);
    assert_eq!(
        commands,
        vec![
            Command::SetCursor { hwnd: 8, cursor: 32513 },
            Command::PostMessage { hwnd: 8, message: 0x8003 },
        ]
    );
}

#[test]
fn leave_tracking_is_armed_again_each_time_the_pointer_comes_back() {
    let mut window = shell_window(8, None);
    let first = window.mouse_move(1, 1, MouseCursorType::Default);
    assert!(first.contains(&Command::TrackMouseLeave { hwnd: 8 }));
    let leave = window.mouse_leave();
    assert_eq!(
        leave,
        vec![
            Command::SetCursor { hwnd: 8, cursor: 32512 },
            Command::PostMessage { hwnd: 8, message: 0x8003 },
        ]
    );
    let current = window.internal.current_window_state;
    assert_eq!(current.mouse_state.cursor_position, CursorPosition::OutOfWindow);
    assert_eq!(current.mouse_state.mouse_cursor_type, None);
    assert_eq!(current.last_hit_test, FullHitTest::empty(None));
    let back = window.mouse_move(2, 2, MouseCursorType::Default);
    assert!(back.contains(&Command::TrackMouseLeave { hwnd: 8 }));
    let within = window.mouse_move(3, 3, MouseCursorType::Default);
    assert!(!within.contains(&Command::TrackMouseLeave { hwnd: 8 }));
}

#[test]
fn mouse_leave_keeps_the_focus_in_the_empty_hit_test() {
    let mut window = shell_window(8, None);
    let focus = Some(DomNodeId { dom: 1, node: 2 });
    window.internal.current_window_state.focused_node = focus;
    let _ = window.mouse_leave();
    assert_eq!(window.internal.current_window_state.last_hit_test, FullHitTest::empty(focus));
    assert_eq!(window.internal.current_window_state.focused_node, focus);
}

#[test]
fn buttons_stage_state() {
    let mut window = shell_window(8, None);
    let before = window.internal.current_window_state;
    let commands = window.button(MouseButton::Left, true);
    assert_eq!(commands, vec![Command::PostMessage { hwnd: 8, message: 0x8003 }]);
    assert_eq!(window.internal.previous_window_state, Some(before));
    assert!(window.internal.current_window_state.mouse_state.left_down);
    assert!(!window.internal.current_window_state.mouse_state.right_down);
    let _ = window.button(MouseButton::Right, true);
    assert!(window.internal.current_window_state.mouse_state.right_down);
    assert!(window.internal.previous_window_state.unwrap().mouse_state.left_down);
    assert!(!window.internal.previous_window_state.unwrap().mouse_state.right_down);
    let _ = window.button(MouseButton::Left, false);
    assert!(!window.internal.current_window_state.mouse_state.left_down);
    assert!(window.internal.current_window_state.mouse_state.right_down);
}

#[test]
fn resize_relayouts_and_resubmits() {
    let mut window = shell_window(8, None);
    let before = window.internal.current_window_state;
    let commands = window.resize(1024, 600, SizeKind::Maximized);
    assert_eq!(
        commands,
        vec![
            Command::QuickResize { hwnd: 8, width: 1024, height: 600 },
            Command::SetDocumentView { hwnd: 8, width: 1024, height: 600 },
            Command::RebuildDisplayList { hwnd: 8 },
            Command::RequestHitTester { hwnd: 8 },
            Command::GenerateFrame { hwnd: 8, display_list_rebuilt: true },
        ]
    );
    assert_eq!(window.internal.previous_window_state, Some(before));
    let current = window.internal.current_window_state;
    assert_eq!(current.size.get_layout_size(), (1024, 600));
    assert_eq!(current.size.dpi, 96);
    assert_eq!(current.flags.frame, WindowFrame::Maximized);
    assert_eq!(window.internal.epoch, 2);
    assert_eq!(window.hit_tester, AsyncHitTester::Requested { generation: 2 });
    let _ = window.resize(1, 1, SizeKind::Other);
    assert_eq!(window.internal.current_window_state.flags.frame, WindowFrame::Maximized);
    let _ = window.resize(1, 1, SizeKind::Restored);
    assert_eq!(window.internal.current_window_state.flags.frame, WindowFrame::Normal);
    let _ = window.resize(0, 0, SizeKind::Minimized);
    assert_eq!(window.internal.current_window_state.flags.frame, WindowFrame::Minimized);
    assert_eq!(window.internal.epoch, 5);
}

#[test]
fn hit_tester_is_never_older_than_the_display_list() {
    let mut window = shell_window(8, None);
    let _ = window.mouse_move(1, 1, MouseCursorType::Default);
    assert_eq!(window.hit_tester, AsyncHitTester::Resolved { generation: 1 });
    let _ = window.regenerate_display_list();
    assert_eq!(window.hit_tester, AsyncHitTester::Requested { generation: 2 });
    let generation = window.hit_tester.resolve();
    assert_eq!(generation, window.internal.epoch);
    assert!(generation > 1);
    let _ = window.mouse_move(2, 2, MouseCursorType::Default);
    assert_eq!(window.internal.current_window_state.last_hit_test.generation, Some(2));
}

#[test]
fn regenerating_the_dom_drops_focus_and_previous_state() {
    let mut window = shell_window(8, None);
    window.internal.current_window_state.focused_node = Some(DomNodeId { dom: 0, node: 1 });
    let _ = window.button(MouseButton::Left, true);
    assert!(window.internal.previous_window_state.is_some());
    let commands = window.regenerate_dom();
    assert_eq!(
        commands,
        vec![
            Command::RegenerateStyledDom { hwnd: 8 },
            Command::RebuildDisplayList { hwnd: 8 },
            Command::FlushSceneBuilder { hwnd: 8 },
            Command::RequestHitTester { hwnd: 8 },
            Command::ResolveHitTester { hwnd: 8 },
            Command::HitTest { hwnd: 8 },
            Command::RestyleHoveredNodes { hwnd: 8 },
            Command::PostMessage { hwnd: 8, message: 0x8002 },
        ]
    );
    assert_eq!(window.internal.previous_window_state, None);
    assert_eq!(window.internal.current_window_state.focused_node, None);
    assert_eq!(window.internal.epoch, 2);
    assert_eq!(window.hit_tester, AsyncHitTester::Resolved { generation: 2 });
    assert_eq!(
        window.internal.current_window_state.last_hit_test,
        FullHitTest { focused_node: None, generation: Some(2) }
    );
    assert!(window.internal.current_window_state.mouse_state.left_down);
}

#[test]
fn display_list_and_frame_messages() {
    let mut window = shell_window(8, None);
    assert_eq!(
        window.regenerate_display_list(),
        vec![
            Command::RebuildDisplayList { hwnd: 8 },
            Command::RequestHitTester { hwnd: 8 },
            Command::GenerateFrame { hwnd: 8, display_list_rebuilt: true },
            Command::InvalidateRect { hwnd: 8 },
        ]
    );
    assert_eq!(
        window.gpu_scroll_render(),
        vec![
            Command::GenerateFrame { hwnd: 8, display_list_rebuilt: false },
            Command::InvalidateRect { hwnd: 8 },
        ]
    );
    assert_eq!(window.internal.epoch, 2);
}

#[test]
fn paint_makes_the_context_current_only_for_the_frame() {
    let window = shell_window(8, Some(0xC0));
    let client = Rect { left: 0, top: 0, right: 800, bottom: 600 };
    let commands = window.paint(true, client);
    assert_eq!(
        commands,
        vec![
            Command::MakeCurrent { hwnd: 8, context: 0xC0 },
            Command::FlushSceneBuilder { hwnd: 8 },
            Command::PrepareFramebuffer { width: 800, height: 600 },
            Command::Render { hwnd: 8, width: 800, height: 600 },
            Command::ReclaimTextures { hwnd: 8 },
            Command::SwapBuffers { hwnd: 8 },
            Command::RestoreGlState,
            Command::ReleaseCurrent,
            Command::ReleaseDc { hwnd: 8 },
        ]
    );
    assert_eq!(window.paint(false, client), vec![]);
}

#[test]
fn paint_in_software_only_gives_the_device_context_back() {
    let window = shell_window(8, None);
    let client = Rect { left: 0, top: 0, right: 800, bottom: 600 };
    assert_eq!(window.paint(true, client), vec![Command::ReleaseDc { hwnd: 8 }]);
    assert_eq!(window.paint(false, client), vec![]);
}

#[test]
fn paint_without_renderer_draws_nothing() {
    let mut window = shell_window(8, Some(0xC0));
    window.renderer = None;
    let commands = window.paint(true, Rect { left: 0, top: 0, right: 10, bottom: 10 });
    assert!(!commands.iter().any(|c| matches!(c, Command::Render { .. })));
    assert_eq!(commands.first(), Some(&Command::MakeCurrent { hwnd: 8, context: 0xC0 }));
    assert_eq!(commands[commands.len() - 2], Command::ReleaseCurrent);
}

#[test]
fn oldest_epoch_is_the_least() {
    assert_eq!(oldest_epoch(&vec![]), None);
    assert_eq!(oldest_epoch(&vec![7]), Some(7));
    assert_eq!(oldest_epoch(&vec![7, 3, 9, 3]), Some(3));
    assert_eq!(oldest_epoch(&vec![u32::MAX, 0]), Some(0));
    assert_eq!(oldest_epoch(&vec![5, 6, 7]), Some(5));
}

#[test]
fn releasing_a_window_shuts_the_renderer_down_before_the_context_goes() {
    let mut window = shell_window(8, Some(0xC0));
    assert_eq!(
        window.release(),
        vec![
            Command::DeinitRenderer { hwnd: 8 },
            Command::ReleaseCurrent,
            Command::DeleteContext { context: 0xC0 },
        ]
    );
    assert_eq!(window.renderer, None);
    assert_eq!(window.gl_context, None);
    assert_eq!(window.release(), vec![Command::ReleaseCurrent]);
    let mut software = shell_window(9, None);
    assert_eq!(
        software.release(),
        vec![Command::DeinitRenderer { hwnd: 9 }, Command::ReleaseCurrent]
    );
}

#[test]
fn window_proc_dispatches_local_messages() {
    let mut app = app_with(vec![shell_window(8, None), shell_window(9, Some(0xC0))]);
    let out = app.window_proc(8, WindowEvent::MouseMove { x: 5, y: 6, cursor_icon: MouseCursorType::Hand });
    assert_eq!(out.reply, Reply::Handled(0));
    assert_eq!(out.commands.len(), 3);
    let moved = app.windows.get(&8).unwrap();
    assert_eq!(
        moved.internal.current_window_state.mouse_state.cursor_position,
        CursorPosition::InWindow { x: 5, y: 6 }
    );
    let other = app.windows.get(&9).unwrap();
    assert_eq!(
        other.internal.current_window_state.mouse_state.cursor_position,
        CursorPosition::Uninitialized
    );
    let out = app.window_proc(9, plain(Message::ButtonDown { button: MouseButton::Right }));
    assert_eq!(out.reply, Reply::Default);
    assert_eq!(out.commands, vec![Command::PostMessage { hwnd: 9, message: 0x8003 }]);
    assert!(app.windows.get(&9).unwrap().internal.current_window_state.mouse_state.right_down);
    let out = app.window_proc(9, plain(Message::Size { width: 300, height: 200, kind: SizeKind::Restored }));
    assert_eq!(out.reply, Reply::Handled(0));
    assert_eq!(app.windows.get(&9).unwrap().internal.epoch, 2);
    let out = app.window_proc(9, plain(Message::RegenerateDom));
    assert_eq!(out.reply, Reply::Handled(0));
    assert_eq!(out.commands.len(), 8);
    let out = app.window_proc(9, plain(Message::RegenerateDisplayList));
    assert_eq!(out.reply, Reply::Handled(0));
    assert_eq!(app.windows.get(&9).unwrap().internal.epoch, 4);
    let out = app.window_proc(9, plain(Message::GpuScrollRender));
    assert_eq!(out.reply, Reply::Default);
    assert_eq!(out.commands.len(), 2);
    let out = app.window_proc(9, plain(Message::MouseLeave));
    assert_eq!(out.reply, Reply::Handled(0));
    assert_eq!(app.windows.len(), 2);
}

#[test]
fn window_proc_replies_to_passive_messages() {
    let mut app = app_with(vec![shell_window(8, None)]);
    let before = app.windows.get(&8).unwrap().internal;
    for message in [
        Message::NcCreate,
        Message::Create,
        Message::Activate,
        Message::MouseWheel,
        Message::DpiChanged,
        Message::NcHitTest,
        Message::Command,
        Message::Quit,
        Message::Other { msg: 0x0047 },
        Message::Paint,
        Message::RedoHitTest,
        Message::MouseMove { x: 1, y: 1 },
        Message::Timer { kind: TimerKind::User { id: 9 } },
        Message::Timer { kind: TimerKind::ThreadTick },
    ] {
        let out = app.window_proc(8, plain(message));
        assert_eq!(out.reply, Reply::Default);
        assert_eq!(out.commands, vec![]);
    }
    let out = app.window_proc(8, plain(Message::EraseBackground));
    assert_eq!(out.reply, Reply::Handled(1));
    assert_eq!(out.commands, vec![]);
    let out = app.window_proc(8, plain(Message::Timer { kind: TimerKind::RegenerateDom }));
    assert_eq!(out.reply, Reply::Default);
    assert_eq!(out.commands, vec![Command::PostMessage { hwnd: 8, message: 0x8001 }]);
    assert_eq!(app.windows.get(&8).unwrap().internal, before);
}

#[test]
fn window_proc_answers_for_unknown_windows() {
    let mut app = app_with(vec![shell_window(8, None)]);
    let client = Rect { left: 0, top: 0, right: 1, bottom: 1 };
    let cases: Vec<(WindowEvent, Reply, Vec<Command>)> = vec![
        (plain(Message::RegenerateDom), Reply::Handled(0), vec![]),
        (plain(Message::RegenerateDisplayList), Reply::Handled(-1), vec![]),
        (plain(Message::GpuScrollRender), Reply::Default, vec![]),
        (
            WindowEvent::MouseMove { x: 1, y: 1, cursor_icon: MouseCursorType::Default },
            Reply::Handled(0),
            vec![],
        ),
        (plain(Message::MouseLeave), Reply::Default, vec![]),
        (plain(Message::ButtonUp { button: MouseButton::Left }), Reply::Default, vec![]),
        (
            plain(Message::Size { width: 1, height: 1, kind: SizeKind::Restored }),
            Reply::Default,
            vec![],
        ),
        (
            WindowEvent::Paint { has_device_context: true, client },
            Reply::Default,
            vec![Command::ReleaseDc { hwnd: 99 }],
        ),
        (WindowEvent::Paint { has_device_context: false, client }, Reply::Default, vec![]),
        (redo(CallCallbacksResult::empty(), StyleAndLayoutChanges::empty()), Reply::Default, vec![]),
        (
            WindowEvent::TimerFired {
                results: CallCallbacksResult::empty(),
                changes: StyleAndLayoutChanges::empty(),
            },
            Reply::Default,
            vec![],
        ),
        (plain(Message::EraseBackground), Reply::Handled(1), vec![]),
        (plain(Message::Destroy), Reply::Default, vec![]),
    ];
    for (event, reply, commands) in cases {
        let out = app.window_proc(99, event);
        assert_eq!(out.reply, reply);
        assert_eq!(out.commands, commands);
    }
    assert_eq!(app.windows.len(), 1);
    assert_eq!(app.windows.get(&8).unwrap().internal.epoch, 1);
}

#[test]
fn busy_application_data_drops_the_message() {
    let out = window_proc_busy();
    assert_eq!(out.reply, Reply::Default);
    assert_eq!(out.commands, vec![]);
}

#[test]
fn pass_outcome_is_posted_as_follow_up() {
    let mut app = app_with(vec![shell_window(8, None), shell_window(9, None)]);
    let out = app.window_proc(8, redo(CallCallbacksResult::empty(), StyleAndLayoutChanges::empty()));
    assert_eq!(out.reply, Reply::Handled(0));
    assert_eq!(out.commands, vec![]);

    let restyle = StyleAndLayoutChanges { display_list_changed: true, ..StyleAndLayoutChanges::empty() };
    let out = app.window_proc(8, redo(CallCallbacksResult::empty(), restyle));
    assert_eq!(out.commands, vec![Command::PostMessage { hwnd: 8, message: 0x8002 }]);

    let redraw = StyleAndLayoutChanges { gpu_values_changed: true, ..StyleAndLayoutChanges::empty() };
    let out = app.window_proc(8, redo(CallCallbacksResult::empty(), redraw));
    assert_eq!(out.commands, vec![Command::PostMessage { hwnd: 8, message: 0x8004 }]);

    let resized = StyleAndLayoutChanges { nodes_resized: true, ..StyleAndLayoutChanges::empty() };
    let out = app.window_proc(8, redo(CallCallbacksResult::empty(), resized));
    assert_eq!(out.commands, vec![Command::PostMessage { hwnd: 8, message: 0x8003 }]);

    let current = CallCallbacksResult {
        callbacks_update_screen: Update::RegenerateStyledDomForCurrentWindow,
        ..CallCallbacksResult::empty()
    };
    let out = app.window_proc(8, redo(current, StyleAndLayoutChanges::empty()));
    assert_eq!(out.commands, vec![Command::PostMessage { hwnd: 8, message: 0x8001 }]);

    let all = CallCallbacksResult {
        callbacks_update_screen: Update::RegenerateStyledDomForAllWindows,
        ..CallCallbacksResult::empty()
    };
    let out = app.window_proc(9, WindowEvent::TimerFired { results: all, changes: StyleAndLayoutChanges::empty() });
    assert_eq!(out.reply, Reply::Handled(0));
    assert_eq!(
        out.commands,
        vec![
            Command::PostMessage { hwnd: 8, message: 0x8001 },
            Command::PostMessage { hwnd: 9, message: 0x8001 },
        ]
    );
}

#[test]
fn reprocessing_stops_at_the_depth_limit() {
    let mut app = app_with(vec![shell_window(8, None)]);
    let resized = StyleAndLayoutChanges { nodes_resized: true, ..StyleAndLayoutChanges::empty() };
    for round in 0..MAX_REPROCESS_DEPTH {
        let out = app.window_proc(8, redo(CallCallbacksResult::empty(), resized));
        assert_eq!(out.commands, vec![Command::PostMessage { hwnd: 8, message: 0x8003 }]);
        assert_eq!(app.windows.get(&8).unwrap().reprocess_depth, round + 1);
    }
    let out = app.window_proc(8, redo(CallCallbacksResult::empty(), resized));
    assert_eq!(out.commands, vec![Command::ReportReprocessLimit { hwnd: 8 }]);
    assert_eq!(app.windows.get(&8).unwrap().reprocess_depth, 0);
    let out = app.window_proc(8, redo(CallCallbacksResult::empty(), resized));
    assert_eq!(out.commands, vec![Command::PostMessage { hwnd: 8, message: 0x8003 }]);
    let out = app.window_proc(8, redo(CallCallbacksResult::empty(), StyleAndLayoutChanges::empty()));
    assert_eq!(out.commands, vec![]);
    assert_eq!(app.windows.get(&8).unwrap().reprocess_depth, 0);
}

#[test]
fn close_request_destroys_the_window_and_ends_the_loop_with_the_last_one() {
    let mut app = app_with(vec![shell_window(8, Some(0xC0)), shell_window(9, None)]);
    let mut closing = WindowState::new(1);
    closing.flags.is_about_to_close = true;
    let request = || CallCallbacksResult {
        modified_window_state: Some(closing),
        windows_created: vec![WindowCreateOptions::new(3)],
        ..CallCallbacksResult::empty()
    };
    let out = app.window_proc(8, redo(request(), StyleAndLayoutChanges::empty()));
    assert_eq!(out.reply, Reply::Handled(0));
    assert_eq!(
        out.commands,
        vec![
            Command::CreateWindow { options: WindowCreateOptions::new(3) },
            Command::DeinitRenderer { hwnd: 8 },
            Command::ReleaseCurrent,
            Command::DeleteContext { context: 0xC0 },
            Command::DestroyWindow { hwnd: 8 },
        ]
    );
    assert!(!app.windows.contains_key(&8));
    assert!(app.windows.contains_key(&9));

    let stray = app.window_proc(8, plain(Message::Destroy));
    assert_eq!(stray.commands, vec![]);

    let out = app.window_proc(9, redo(request(), StyleAndLayoutChanges::empty()));
    assert_eq!(
        out.commands,
        vec![
            Command::CreateWindow { options: WindowCreateOptions::new(3) },
            Command::DeinitRenderer { hwnd: 9 },
            Command::ReleaseCurrent,
            Command::DestroyWindow { hwnd: 9 },
            Command::PostQuitMessage { exit_code: 0 },
        ]
    );
    assert!(app.windows.is_empty());
    let stray = app.window_proc(9, plain(Message::Destroy));
    assert_eq!(stray.commands, vec![]);
}

#[test]
fn destroy_message_removes_the_window() {
    let mut app = app_with(vec![shell_window(8, Some(0xC0)), shell_window(9, None)]);
    let out = app.window_proc(8, plain(Message::Destroy));
    assert_eq!(out.reply, Reply::Default);
    assert_eq!(
        out.commands,
        vec![
            Command::DeinitRenderer { hwnd: 8 },
            Command::ReleaseCurrent,
            Command::DeleteContext { context: 0xC0 },
        ]
    );
    assert_eq!(app.windows.len(), 1);
    let out = app.window_proc(9, plain(Message::Destroy));
    assert_eq!(
        out.commands,
        vec![
            Command::DeinitRenderer { hwnd: 9 },
            Command::ReleaseCurrent,
            Command::PostQuitMessage { exit_code: 0 },
        ]
    );
    assert!(app.windows.is_empty());
}

#[test]
fn destroy_windows_passes_over_unknown_handles() {
    let mut app = app_with(vec![shell_window(8, None), shell_window(9, None)]);
    assert_eq!(destroy_windows(&mut app, vec![]), vec![]);
    assert_eq!(destroy_windows(&mut app, vec![77]), vec![]);
    assert_eq!(app.windows.len(), 2);
    let commands = destroy_windows(&mut app, vec![9, 9, 8]);
    assert_eq!(
        commands,
        vec![
            Command::DeinitRenderer { hwnd: 9 },
            Command::ReleaseCurrent,
            Command::DestroyWindow { hwnd: 9 },
            Command::DeinitRenderer { hwnd: 8 },
            Command::ReleaseCurrent,
            Command::DestroyWindow { hwnd: 8 },
            Command::PostQuitMessage { exit_code: 0 },
        ]
    );
    assert!(app.windows.is_empty());
    assert_eq!(destroy_windows(&mut app, vec![8]), vec![]);
}

#[test]
fn create_then_destroy_is_net_zero() {
    let mut app = app_with(vec![shell_window(8, None)]);
    let size = app.window_count();
    app.insert_window(shell_window(20, Some(0xAB)));
    assert_eq!(app.window_count(), size + 1);
    let commands = destroy_windows(&mut app, vec![20]);
    assert_eq!(app.window_count(), size);
    let deletions = commands.iter().filter(|c| matches!(c, Command::DeleteContext { .. })).count();
    assert_eq!(deletions, 1);
    assert!(!commands.contains(&Command::PostQuitMessage { exit_code: 0 }));
}

#[test]
fn create_windows_asks_for_each_window() {
    let mut app = app_with(vec![]);
    let a = WindowCreateOptions::new(1);
    let mut b = WindowCreateOptions::new(2);
    b.hot_reload = true;
    assert_eq!(
        create_windows(&mut app, vec![a, b]),
        vec![Command::CreateWindow { options: a }, Command::CreateWindow { options: b }]
    );
    assert_eq!(create_windows(&mut app, vec![]), vec![]);
    assert!(app.windows.is_empty());
}

#[test]
fn message_loop_plan() {
    let mut app = app_with(vec![]);
    let plan = app.pump_plan();
    assert_eq!(plan.hwnds, Vec::<usize>::new());
    assert_eq!(plan.pump, MessagePump::Blocking);
    app.insert_window(shell_window(30, None));
    let plan = app.pump_plan();
    assert_eq!(plan.hwnds, vec![30]);
    assert_eq!(plan.pump, MessagePump::Blocking);
    app.insert_window(shell_window(10, None));
    app.insert_window(shell_window(20, None));
    let plan = app.pump_plan();
    assert_eq!(plan.hwnds, vec![10, 20, 30]);
    assert_eq!(plan.pump, MessagePump::Polling);
    assert_eq!(app.window_ids(), vec![10, 20, 30]);
    assert_eq!(
        app.post_to_all(0x8001),
        vec![
            Command::PostMessage { hwnd: 10, message: 0x8001 },
            Command::PostMessage { hwnd: 20, message: 0x8001 },
            Command::PostMessage { hwnd: 30, message: 0x8001 },
        ]
    );
}

#[test]
fn message_loop_ends_without_windows_or_on_a_failed_retrieval() {
    assert!(message_loop_continues(1, &vec![1]));
    assert!(message_loop_continues(3, &vec![1, 1]));
    assert!(message_loop_continues(2, &vec![]));
    assert!(!message_loop_continues(0, &vec![]));
    assert!(!message_loop_continues(0, &vec![1]));
    assert!(!message_loop_continues(1, &vec![0]));
    assert!(!message_loop_continues(1, &vec![-1]));
    assert!(!message_loop_continues(2, &vec![1, 0]));
    assert!(!message_loop_continues(2, &vec![i32::MIN, 1]));
}

#[test]
fn startup_needs_an_instance() {
    match startup(0, 1400, None) {
        Err(e) => assert_eq!(e, WindowsStartupError::NoAppInstance(1400)),
        Ok(_) => panic!("started without an instance"),
    }
    let mut app = startup(0x400000, 0, None).unwrap();
    assert_eq!(app.hinstance, 0x400000);
    assert!(app.windows.is_empty());
    assert!(!app.register_created(Err(WindowsWindowCreateError::NoGlContext)));
    assert!(app.windows.is_empty());
    assert!(app.register_created(Ok(shell_window(8, None))));
    assert_eq!(app.window_ids(), vec![8]);
    assert_eq!(get_monitors(&app).len(), 0);
    assert_eq!(run_all_threads(), vec![]);
}

#[test]
fn hover_over_a_node_that_dirties_its_style_rebuilds_the_display_list() {
    let mut app = app_with(vec![shell_window(8, None)]);
    let moved = app.window_proc(
        8,
        WindowEvent::MouseMove { x: 40, y: 30, cursor_icon: MouseCursorType::Hand },
    );
    assert_eq!(moved.commands.last(), Some(&Command::PostMessage { hwnd: 8, message: 0x8003 }));
    let staged = app.windows.get(&8).unwrap().internal;
    assert!(staged.previous_window_state.is_some());
    assert_ne!(
        staged.previous_window_state.unwrap().mouse_state.cursor_position,
        staged.current_window_state.mouse_state.cursor_position
    );
    let restyled =
        StyleAndLayoutChanges { display_list_changed: true, ..StyleAndLayoutChanges::empty() };
    let out = app.window_proc(8, redo(CallCallbacksResult::empty(), restyled));
    assert_eq!(out.reply, Reply::Handled(0));
    assert_eq!(out.commands, vec![Command::PostMessage { hwnd: 8, message: 0x8002 }]);
    let out = app.window_proc(8, plain(Message::RegenerateDisplayList));
    assert_eq!(out.commands[0], Command::RebuildDisplayList { hwnd: 8 });
    assert_eq!(app.windows.get(&8).unwrap().internal.epoch, 2);
}

#[test]
fn resized_boxes_are_reprocessed_until_geometry_is_stable() {
    let mut app = app_with(vec![shell_window(8, None)]);
    let _ = app.window_proc(8, plain(Message::Size { width: 1024, height: 600, kind: SizeKind::Restored }));
    let resized = StyleAndLayoutChanges { nodes_resized: true, ..StyleAndLayoutChanges::empty() };
    let first = app.window_proc(8, redo(CallCallbacksResult::empty(), resized));
    assert_eq!(first.commands, vec![Command::PostMessage { hwnd: 8, message: 0x8003 }]);
    assert_eq!(app.windows.get(&8).unwrap().reprocess_depth, 1);
    let second = app.window_proc(8, redo(CallCallbacksResult::empty(), StyleAndLayoutChanges::empty()));
    assert_eq!(second.commands, vec![]);
    assert_eq!(app.windows.get(&8).unwrap().reprocess_depth, 0);
    assert_eq!(
        app.windows.get(&8).unwrap().internal.current_window_state.size.get_layout_size(),
        (1024, 600)
    );
}

#[test]
fn no_handler_leaves_a_context_current() {
    let mut app = app_with(vec![shell_window(8, Some(0xC0))]);
    let client = Rect { left: 0, top: 0, right: 640, bottom: 480 };
    let events: Vec<WindowEvent> = vec![
        WindowEvent::Paint { has_device_context: true, client },
        WindowEvent::MouseMove { x: 1, y: 1, cursor_icon: MouseCursorType::Text },
        plain(Message::Size { width: 640, height: 480, kind: SizeKind::Restored }),
        plain(Message::RegenerateDom),
        redo(CallCallbacksResult::empty(), StyleAndLayoutChanges::empty()),
        plain(Message::Destroy),
    ];
    for event in events {
        let out = app.window_proc(8, event);
        let mut current = None;
        for command in out.commands {
            match command {
                Command::MakeCurrent { context, .. } => current = Some(context),
                Command::ReleaseCurrent => current = None,
                Command::Render { .. } | Command::SwapBuffers { .. } => {
                    assert_eq!(current, Some(0xC0));
                }
                _ => {}
            }
        }
        assert_eq!(current, None);
    }
}
