use azul_shell::app::{destroy_windows, ApplicationData};
use azul_shell::command::Command;
use azul_shell::create::{get_show_flags, CreatePhase, CreateReply, WindowCreation};
use azul_shell::decision::{process_event, CallCallbacksResult, ProcessEventResult};
use azul_shell::error::{
    BorrowMutError, RendererError, WindowsOpenGlError, WindowsWindowCreateError,
};
use azul_shell::geometry::Rect;
use azul_shell::gl::{
    context_attributes, get_transparent_pixel_format_index, renderer_types,
    transparent_format_attributes, GlContextCreation, GlOp, GlReply,
};
use azul_shell::hit_test::AsyncHitTester;
use azul_shell::menu::{Menu, MenuCallback, MenuItem, WindowsMenuBar};
use azul_shell::platform::ExtraWglFunctions;
use azul_shell::state::{
    CursorPosition, HwAcceleration, RendererOptions, RendererType, StyleAndLayoutChanges,
    WindowCreateOptions, WindowFrame,
};
use azul_shell::window::Window;

fn client(width: i32, height: i32) -> CreateReply {
    CreateReply::ClientRect { rect: Rect { left: 0, top: 0, right: width, bottom: height } }
}

fn count_of(trace: &[Command], wanted: fn(&Command) -> bool) -> usize {
    trace.iter().filter(|c| wanted(c)).count()
}

fn create_with(
    options: WindowCreateOptions,
    replies: Vec<CreateReply>,
) -> (Option<Result<Window, WindowsWindowCreateError>>, Vec<Command>) {
    let (mut creation, mut trace) = WindowCreation::begin(options);
    for reply in replies {
        trace.extend(creation.advance(reply));
    }
    (creation.finish(), trace)
}

fn hardware_replies() -> Vec<CreateReply> {
    vec![
        CreateReply::NativeWindow { hwnd: 0x5000, last_error: 0 },
        CreateReply::Dpi { dpi_x: 96, dpi_y: 96 },
        CreateReply::GlContextCreated { context: 0xC7, extra: ExtraWglFunctions::empty() },
        CreateReply::RendererCreated,
        client(800, 600),
        CreateReply::ApplicationData { acquired: true },
        CreateReply::LayoutBuilt { menu: None },
        client(800, 600),
        CreateReply::CursorPosition { x: 10, y: 20 },
    ]
}

#[test]
fn window_created_at_800_by_600_with_hardware() {
    let (result, trace) = create_with(WindowCreateOptions::new(1), hardware_replies());
    let mut window = result.unwrap().unwrap();
    assert_eq!(
        trace,
        vec![
            Command::CreateNativeWindow { width: 800, height: 600 },
            Command::QueryDpi { hwnd: 0x5000 },
            Command::CreateGlContext { hwnd: 0x5000 },
            Command::GetDc { hwnd: 0x5000 },
            Command::MakeCurrent { hwnd: 0x5000, context: 0xC7 },
            Command::LoadGlFunctions { hwnd: 0x5000 },
            Command::CompileShaders { hwnd: 0x5000 },
            Command::ReleaseCurrent,
            Command::ReleaseDc { hwnd: 0x5000 },
            Command::GetDc { hwnd: 0x5000 },
            Command::MakeCurrent { hwnd: 0x5000, context: 0xC7 },
            Command::CreateRenderer { hwnd: 0x5000 },
            Command::CreateRenderApi { hwnd: 0x5000 },
            Command::QueryClientRect { hwnd: 0x5000 },
            Command::AddDocument { hwnd: 0x5000, width: 800, height: 600 },
            Command::RequestHitTester { hwnd: 0x5000 },
            Command::ResolveHitTester { hwnd: 0x5000 },
            Command::AcquireApplicationData,
            Command::BuildInitialLayout { hwnd: 0x5000 },
            Command::ReleaseCurrent,
            Command::ReleaseDc { hwnd: 0x5000 },
            Command::ShowWindow { hwnd: 0x5000, flags: 1 },
            Command::QueryClientRect { hwnd: 0x5000 },
            Command::QuickResize { hwnd: 0x5000, width: 800, height: 600 },
            Command::SetDocumentView { hwnd: 0x5000, width: 800, height: 600 },
            Command::FlushSceneBuilder { hwnd: 0x5000 },
            Command::RebuildDisplayList { hwnd: 0x5000 },
            Command::FlushSceneBuilder { hwnd: 0x5000 },
            Command::GenerateFrame { hwnd: 0x5000, display_list_rebuilt: true },
            Command::FlushSceneBuilder { hwnd: 0x5000 },
            Command::QueryCursorPosition { hwnd: 0x5000 },
            Command::RequestHitTester { hwnd: 0x5000 },
            Command::PostMessage { hwnd: 0x5000, message: 0x8001 },
            Command::ShowWindow { hwnd: 0x5000, flags: 1 },
            Command::ReleaseApplicationData,
        ]
    );
    assert_eq!(count_of(&trace, |c| matches!(c, Command::RebuildDisplayList { .. })), 1);
    assert_eq!(count_of(&trace, |c| matches!(c, Command::GenerateFrame { .. })), 1);
    assert_eq!(window.hwnd, 0x5000);
    assert_eq!(window.gl_context, Some(0xC7));
    assert_eq!(window.renderer, Some(RendererType::Hardware));
    assert_eq!(window.internal.epoch, 1);
    assert_eq!(window.hit_tester, AsyncHitTester::Requested { generation: 1 });
    assert_eq!(window.internal.previous_window_state, None);
    let state = window.internal.current_window_state;
    assert_eq!(state.size.get_layout_size(), (800, 600));
    assert_eq!(state.size.dpi, 96);
    assert_eq!(state.mouse_state.cursor_position, CursorPosition::InWindow { x: 10, y: 20 });
    assert!(window.timers.is_empty());
    assert!(window.threads.is_empty());
    assert_eq!(window.thread_timer_running, None);

    let mut new_windows = Vec::new();
    let mut destroyed = Vec::new();
    let mut commands = Vec::new();
    let outcome = process_event(
        &mut window,
        CallCallbacksResult::empty(),
        &StyleAndLayoutChanges::empty(),
        &mut new_windows,
        &mut destroyed,
        &mut commands,
    );
    assert_eq!(outcome, ProcessEventResult::DoNothing);
    assert!(commands.is_empty());
}

#[test]
fn hardware_failure_falls_back_to_software() {
    let mut replies = hardware_replies();
    replies[2] =
        CreateReply::GlContextFailed { error: WindowsOpenGlError::OpenGL32DllNotFound(126) };
    let (result, trace) = create_with(WindowCreateOptions::new(1), replies);
    let window = result.unwrap().unwrap();
    assert_eq!(window.gl_context, None);
    assert_eq!(window.renderer, Some(RendererType::Software));
    assert_eq!(count_of(&trace, |c| matches!(c, Command::MakeCurrent { .. })), 0);
    assert_eq!(count_of(&trace, |c| matches!(c, Command::DeleteContext { .. })), 0);
    assert_eq!(&trace[3..5], &[Command::GetDc { hwnd: 0x5000 }, Command::CreateRenderer { hwnd: 0x5000 }]);
}

#[test]
fn forced_software_never_tries_hardware() {
    let mut options = WindowCreateOptions::new(1);
    options.renderer = Some(RendererOptions { hw_accel: HwAcceleration::Disabled });
    let mut replies = hardware_replies();
    replies.remove(2);
    let (result, trace) = create_with(options, replies);
    let window = result.unwrap().unwrap();
    assert_eq!(window.renderer, Some(RendererType::Software));
    assert_eq!(window.gl_context, None);
    assert_eq!(count_of(&trace, |c| matches!(c, Command::CreateGlContext { .. })), 0);
}

#[test]
fn required_hardware_without_context_stays_hardware() {
    let mut options = WindowCreateOptions::new(1);
    options.renderer = Some(RendererOptions { hw_accel: HwAcceleration::Enabled });
    let mut replies = hardware_replies();
    replies[2] = CreateReply::GlContextFailed { error: WindowsOpenGlError::FailedToGetDC(6) };
    let (result, _) = create_with(options, replies);
    let window = result.unwrap().unwrap();
    assert_eq!(window.renderer, Some(RendererType::Hardware));
    assert_eq!(window.gl_context, None);
}

#[test]
fn renderer_types_by_acceleration() {
    assert_eq!(renderer_types(None), vec![RendererType::Hardware, RendererType::Software]);
    assert_eq!(
        renderer_types(Some(RendererOptions { hw_accel: HwAcceleration::DontCare })),
        vec![RendererType::Hardware, RendererType::Software]
    );
    assert_eq!(
        renderer_types(Some(RendererOptions { hw_accel: HwAcceleration::Enabled })),
        vec![RendererType::Hardware]
    );
    assert_eq!(
        renderer_types(Some(RendererOptions { hw_accel: HwAcceleration::Disabled })),
        vec![RendererType::Software]
    );
}

#[test]
fn no_native_window_fails_without_anything_to_undo() {
    let (result, trace) = create_with(
        WindowCreateOptions::new(1),
        vec![CreateReply::NativeWindow { hwnd: 0, last_error: 1407 }],
    );
    assert_eq!(
        result.unwrap().unwrap_err(),
        WindowsWindowCreateError::FailedToCreateHWND(1407)
    );
    assert_eq!(trace, vec![Command::CreateNativeWindow { width: 800, height: 600 }]);
}

#[test]
fn renderer_failure_undoes_the_window() {
    let mut replies = hardware_replies();
    replies.truncate(3);
    replies.push(CreateReply::RendererFailed { error: RendererError::MaxTextureSize });
    let (result, trace) = create_with(WindowCreateOptions::new(1), replies);
    assert_eq!(
        result.unwrap().unwrap_err(),
        WindowsWindowCreateError::Renderer(RendererError::MaxTextureSize)
    );
    assert_eq!(
        &trace[trace.len() - 4..],
        &[
            Command::ReleaseCurrent,
            Command::DeleteContext { context: 0xC7 },
            Command::ReleaseDc { hwnd: 0x5000 },
            Command::DestroyWindow { hwnd: 0x5000 },
        ]
    );
    assert_eq!(count_of(&trace, |c| matches!(c, Command::DeleteContext { .. })), 1);
    assert_eq!(count_of(&trace, |c| matches!(c, Command::RebuildDisplayList { .. })), 0);
}

#[test]
fn renderer_failure_in_software_has_no_context_to_delete() {
    let replies = vec![
        CreateReply::NativeWindow { hwnd: 0x5000, last_error: 0 },
        CreateReply::Dpi { dpi_x: 96, dpi_y: 96 },
        CreateReply::GlContextFailed { error: WindowsOpenGlError::OpenGLNotAvailable(0) },
        CreateReply::RendererFailed { error: RendererError::SoftwareRasterizer },
    ];
    let (result, trace) = create_with(WindowCreateOptions::new(1), replies);
    assert_eq!(
        result.unwrap().unwrap_err(),
        WindowsWindowCreateError::Renderer(RendererError::SoftwareRasterizer)
    );
    assert_eq!(
        &trace[trace.len() - 2..],
        &[Command::ReleaseDc { hwnd: 0x5000 }, Command::DestroyWindow { hwnd: 0x5000 }]
    );
    assert_eq!(count_of(&trace, |c| matches!(c, Command::DeleteContext { .. })), 0);
}

#[test]
fn busy_application_data_undoes_the_window() {
    let mut replies = hardware_replies();
    replies.truncate(5);
    replies.push(CreateReply::ApplicationData { acquired: false });
    let (result, trace) = create_with(WindowCreateOptions::new(1), replies);
    assert_eq!(
        result.unwrap().unwrap_err(),
        WindowsWindowCreateError::BorrowMut(BorrowMutError)
    );
    assert_eq!(
        &trace[trace.len() - 4..],
        &[
            Command::ReleaseCurrent,
            Command::DeleteContext { context: 0xC7 },
            Command::ReleaseDc { hwnd: 0x5000 },
            Command::DestroyWindow { hwnd: 0x5000 },
        ]
    );
}

#[test]
fn unfinished_creation_has_no_result() {
    let (creation, first) = WindowCreation::begin(WindowCreateOptions::new(1));
    assert_eq!(first, vec![Command::CreateNativeWindow { width: 800, height: 600 }]);
    assert_eq!(creation.phase, CreatePhase::CreatingNativeWindow);
    assert!(creation.finish().is_none());
    let mut replies = hardware_replies();
    replies.truncate(6);
    let (result, _) = create_with(WindowCreateOptions::new(1), replies);
    assert!(result.is_none());
}

#[test]
fn unexpected_replies_are_ignored() {
    let (mut creation, _) = WindowCreation::begin(WindowCreateOptions::new(1));
    assert_eq!(creation.advance(CreateReply::RendererCreated), vec![]);
    assert_eq!(creation.advance(client(1, 1)), vec![]);
    assert_eq!(creation.advance(CreateReply::CursorPosition { x: 1, y: 1 }), vec![]);
    assert_eq!(creation.phase, CreatePhase::CreatingNativeWindow);
    assert_eq!(
        creation.advance(CreateReply::NativeWindow { hwnd: 9, last_error: 0 }),
        vec![Command::QueryDpi { hwnd: 9 }]
    );
    assert_eq!(creation.advance(CreateReply::NativeWindow { hwnd: 10, last_error: 0 }), vec![]);
    assert_eq!(creation.hwnd, 9);
    let (result, trace) = create_with(WindowCreateOptions::new(1), {
        let mut replies = hardware_replies();
        replies.push(CreateReply::CursorPosition { x: 500, y: 500 });
        replies.push(CreateReply::RendererFailed { error: RendererError::Thread });
        replies
    });
    let window = result.unwrap().unwrap();
    assert_eq!(
        window.internal.current_window_state.mouse_state.cursor_position,
        CursorPosition::InWindow { x: 10, y: 20 }
    );
    assert_eq!(trace.len(), 35);
}

#[test]
fn size_to_content_hot_reload_and_menu() {
    let mut options = WindowCreateOptions::new(1);
    options.size_to_content = true;
    options.hot_reload = true;
    options.state.flags.is_visible = false;
    options.state.flags.frame = WindowFrame::Maximized;
    let menu = Menu {
        items: vec![MenuItem::String {
            label: "Quit".to_string(),
            callback: Some(MenuCallback { callback: 0x10, data: 0x20 }),
            children: vec![],
        }],
        hash: 0xfeed,
    };
    let mut next_id = 1;
    let bar = WindowsMenuBar::new(&menu, &mut next_id);
    let replies = vec![
        CreateReply::NativeWindow { hwnd: 0x77, last_error: 0 },
        CreateReply::Dpi { dpi_x: 120, dpi_y: 144 },
        CreateReply::GlContextFailed { error: WindowsOpenGlError::NoMatchingPixelFormat(0) },
        CreateReply::RendererCreated,
        CreateReply::ApplicationData { acquired: true },
        CreateReply::LayoutBuilt { menu: Some(bar) },
        client(333, 222),
        CreateReply::CursorPosition { x: 0, y: 50 },
    ];
    let (result, trace) = create_with(options, replies);
    let window = result.unwrap().unwrap();
    assert_eq!(trace[0], Command::CreateNativeWindow { width: 0, height: 0 });
    assert_eq!(
        &trace[5..10],
        &[
            Command::CreateRenderApi { hwnd: 0x77 },
            Command::AddDocument { hwnd: 0x77, width: 0, height: 0 },
            Command::RequestHitTester { hwnd: 0x77 },
            Command::ResolveHitTester { hwnd: 0x77 },
            Command::AcquireApplicationData,
        ]
    );
    assert_eq!(
        &trace[11..16],
        &[
            Command::ReleaseDc { hwnd: 0x77 },
            Command::SetMenu { hwnd: 0x77 },
            Command::ResizeToContent { hwnd: 0x77 },
            Command::ShowWindow { hwnd: 0x77, flags: 3 },
            Command::QueryClientRect { hwnd: 0x77 },
        ]
    );
    assert_eq!(
        &trace[trace.len() - 5..],
        &[
            Command::RequestHitTester { hwnd: 0x77 },
            Command::SetTimer { hwnd: 0x77, id: 2, millis: 200 },
            Command::PostMessage { hwnd: 0x77, message: 0x8001 },
            Command::ShowWindow { hwnd: 0x77, flags: 3 },
            Command::ReleaseApplicationData,
        ]
    );
    assert_eq!(window.menu_hash, Some(0xfeed));
    assert_eq!(window.menu_callbacks.get(&1), Some(&MenuCallback { callback: 0x10, data: 0x20 }));
    assert_eq!(window.internal.current_window_state.size.dpi, 144);
    assert_eq!(window.internal.current_window_state.size.get_layout_size(), (333, 222));
    assert_eq!(
        window.internal.current_window_state.mouse_state.cursor_position,
        CursorPosition::OutOfWindow
    );
}

#[test]
fn cursor_on_the_edge_is_outside() {
    for (x, y, inside) in [(1, 1, true), (0, 1, false), (1, 0, false), (-5, 7, false), (7, -5, false)] {
        let mut replies = hardware_replies();
        replies[8] = CreateReply::CursorPosition { x, y };
        let (result, _) = create_with(WindowCreateOptions::new(1), replies);
        let position =
            result.unwrap().unwrap().internal.current_window_state.mouse_state.cursor_position;
        if inside {
            assert_eq!(position, CursorPosition::InWindow { x, y });
        } else {
            assert_eq!(position, CursorPosition::OutOfWindow);
        }
    }
}

#[test]
fn show_flags_in_numbers() {
    assert_eq!(get_show_flags(true, WindowFrame::Normal), 1);
    assert_eq!(get_show_flags(true, WindowFrame::Minimized), 7);
    assert_eq!(get_show_flags(true, WindowFrame::Maximized), 3);
    assert_eq!(get_show_flags(true, WindowFrame::Fullscreen), 3);
    assert_eq!(get_show_flags(false, WindowFrame::Normal), 1);
    assert_eq!(get_show_flags(false, WindowFrame::Minimized), 6);
    assert_eq!(get_show_flags(false, WindowFrame::Maximized), 3);
    assert_eq!(get_show_flags(false, WindowFrame::Fullscreen), 3);
}

#[test]
fn created_then_destroyed_window_releases_its_context_once() {
    let mut app = ApplicationData::new(1, None);
    let before = app.window_count();
    let (result, mut trace) = create_with(WindowCreateOptions::new(1), hardware_replies());
    assert!(app.register_created(result.unwrap()));
    assert_eq!(app.window_count(), before + 1);
    trace.extend(destroy_windows(&mut app, vec![0x5000]));
    assert_eq!(app.window_count(), before);
    assert_eq!(count_of(&trace, |c| matches!(c, Command::DeleteContext { .. })), 1);
    assert_eq!(trace.last(), Some(&Command::PostQuitMessage { exit_code: 0 }));
}

fn negotiate(replies: Vec<GlReply>) -> (GlContextCreation, Vec<GlOp>) {
    let (mut state, mut ops) = GlContextCreation::start();
    for reply in replies {
        ops.extend(state.advance(reply));
    }
    (state, ops)
}

fn extensions(choose: usize, create: usize) -> ExtraWglFunctions {
    ExtraWglFunctions::load(choose, 0, create, 0)
}

#[test]
fn negotiation_with_a_transparent_pixel_format() {
    let extra = extensions(0xA1, 0xA2);
    let (state, ops) = negotiate(vec![
        GlReply::Library { handle: 0x1000, last_error: 0 },
        GlReply::DeviceContext { handle: 0x2000, last_error: 0 },
        GlReply::DefaultPixelFormat { index: 4, applied: true, last_error: 0 },
        GlReply::DummyContext { context: 0x3000 },
        GlReply::Extensions { functions: extra },
        GlReply::TransparentFormat { succeeded: true, pixel_format: 11, num_formats: 1 },
        GlReply::PixelFormatApplied { applied: true, last_error: 0 },
        GlReply::Context { context: 0x4000, last_error: 0 },
    ]);
    assert_eq!(
        ops,
        vec![
            GlOp::LoadLibrary,
            GlOp::GetDeviceContext,
            GlOp::ApplyDefaultPixelFormat,
            GlOp::CreateDummyContext,
            GlOp::LoadExtensions,
            GlOp::ChooseTransparentFormat { choose: 0xA1 },
            GlOp::DeleteDummyContext { context: 0x3000 },
            GlOp::ApplyPixelFormat { index: 11 },
            GlOp::CreateContextWithAttributes { create: 0xA2 },
            GlOp::ReleaseDeviceContext,
        ]
    );
    assert_eq!(state, GlContextCreation::Created { context: 0x4000, extra });
    assert_eq!(state.result(), Some(Ok((0x4000, extra))));
}

#[test]
fn negotiation_without_extensions_uses_the_default_format() {
    let (state, ops) = negotiate(vec![
        GlReply::Library { handle: 0x1000, last_error: 0 },
        GlReply::DeviceContext { handle: 0x2000, last_error: 0 },
        GlReply::DefaultPixelFormat { index: 4, applied: true, last_error: 0 },
        GlReply::DummyContext { context: 0x3000 },
        GlReply::Extensions { functions: extensions(0, 0xA2) },
        GlReply::PixelFormatApplied { applied: true, last_error: 0 },
        GlReply::Context { context: 0x4000, last_error: 0 },
    ]);
    assert_eq!(
        &ops[5..],
        &[
            GlOp::DeleteDummyContext { context: 0x3000 },
            GlOp::ApplyPixelFormat { index: 4 },
            GlOp::CreateContext,
            GlOp::ReleaseDeviceContext,
        ]
    );
    assert_eq!(state.result().unwrap().unwrap().0, 0x4000);
}

#[test]
fn negotiation_without_transparent_format_creates_a_plain_context() {
    for reply in [
        GlReply::TransparentFormat { succeeded: false, pixel_format: 11, num_formats: 1 },
        GlReply::TransparentFormat { succeeded: true, pixel_format: 11, num_formats: 0 },
    ] {
        let (_, ops) = negotiate(vec![
            GlReply::Library { handle: 0x1000, last_error: 0 },
            GlReply::DeviceContext { handle: 0x2000, last_error: 0 },
            GlReply::DefaultPixelFormat { index: 4, applied: true, last_error: 0 },
            GlReply::DummyContext { context: 0x3000 },
            GlReply::Extensions { functions: extensions(0xA1, 0xA2) },
            reply,
            GlReply::PixelFormatApplied { applied: true, last_error: 0 },
        ]);
        assert_eq!(
            &ops[6..],
            &[
                GlOp::DeleteDummyContext { context: 0x3000 },
                GlOp::ApplyPixelFormat { index: 4 },
                GlOp::CreateContext,
            ]
        );
    }
    let (_, ops) = negotiate(vec![
        GlReply::Library { handle: 0x1000, last_error: 0 },
        GlReply::DeviceContext { handle: 0x2000, last_error: 0 },
        GlReply::DefaultPixelFormat { index: 4, applied: true, last_error: 0 },
        GlReply::DummyContext { context: 0x3000 },
        GlReply::Extensions { functions: extensions(0xA1, 0) },
        GlReply::TransparentFormat { succeeded: true, pixel_format: 11, num_formats: 2 },
        GlReply::PixelFormatApplied { applied: true, last_error: 0 },
    ]);
    assert_eq!(&ops[7..], &[GlOp::ApplyPixelFormat { index: 11 }, GlOp::CreateContext]);
}

#[test]
fn negotiation_failures() {
    let (state, ops) = negotiate(vec![GlReply::Library { handle: 0, last_error: 126 }]);
    assert_eq!(state.result(), Some(Err(WindowsOpenGlError::OpenGL32DllNotFound(126))));
    assert_eq!(ops, vec![GlOp::LoadLibrary]);

    let (state, ops) = negotiate(vec![
        GlReply::Library { handle: 1, last_error: 0 },
        GlReply::DeviceContext { handle: 0, last_error: 6 },
    ]);
    assert_eq!(state.result(), Some(Err(WindowsOpenGlError::FailedToGetDC(6))));
    assert!(!ops.contains(&GlOp::ReleaseDeviceContext));

    let (state, ops) = negotiate(vec![
        GlReply::Library { handle: 1, last_error: 0 },
        GlReply::DeviceContext { handle: 2, last_error: 0 },
        GlReply::DefaultPixelFormat { index: 0, applied: false, last_error: 2000 },
    ]);
    assert_eq!(state.result(), Some(Err(WindowsOpenGlError::NoMatchingPixelFormat(2000))));
    assert_eq!(ops.last(), Some(&GlOp::ReleaseDeviceContext));

    let (state, ops) = negotiate(vec![
        GlReply::Library { handle: 1, last_error: 0 },
        GlReply::DeviceContext { handle: 2, last_error: 0 },
        GlReply::DefaultPixelFormat { index: 4, applied: true, last_error: 0 },
        GlReply::DummyContext { context: 3 },
        GlReply::Extensions { functions: ExtraWglFunctions::empty() },
        GlReply::PixelFormatApplied { applied: false, last_error: 2001 },
    ]);
    assert_eq!(state.result(), Some(Err(WindowsOpenGlError::NoMatchingPixelFormat(2001))));
    assert_eq!(ops.last(), Some(&GlOp::ReleaseDeviceContext));
    assert!(ops.contains(&GlOp::DeleteDummyContext { context: 3 }));

    let (state, ops) = negotiate(vec![
        GlReply::Library { handle: 1, last_error: 0 },
        GlReply::DeviceContext { handle: 2, last_error: 0 },
        GlReply::DefaultPixelFormat { index: 4, applied: true, last_error: 0 },
        GlReply::DummyContext { context: 3 },
        GlReply::Extensions { functions: ExtraWglFunctions::empty() },
        GlReply::PixelFormatApplied { applied: true, last_error: 0 },
        GlReply::Context { context: 0, last_error: 8 },
    ]);
    assert_eq!(state.result(), Some(Err(WindowsOpenGlError::OpenGLNotAvailable(8))));
    assert_eq!(ops.iter().filter(|op| **op == GlOp::ReleaseDeviceContext).count(), 1);
}

#[test]
fn negotiation_ignores_replies_it_does_not_wait_for() {
    let (mut state, _) = GlContextCreation::start();
    assert_eq!(state.result(), None);
    assert_eq!(state.advance(GlReply::Context { context: 5, last_error: 0 }), vec![]);
    assert_eq!(state, GlContextCreation::LoadingLibrary);
    let (mut done, _) = negotiate(vec![GlReply::Library { handle: 0, last_error: 126 }]);
    assert_eq!(done.advance(GlReply::Library { handle: 1, last_error: 0 }), vec![]);
    assert_eq!(done.result(), Some(Err(WindowsOpenGlError::OpenGL32DllNotFound(126))));
}

#[test]
fn attribute_lists() {
    assert_eq!(context_attributes(), vec![0x2091, 3, 0x2092, 1, 0, 0]);
    let attributes = transparent_format_attributes();
    assert_eq!(attributes.len(), 26);
    assert_eq!(&attributes[0..4], &[0x2001, 1, 0x2011, 1]);
    assert_eq!(&attributes[6..10], &[0x2013, 0x202B, 0x200A, 1]);
    assert_eq!(&attributes[10..12], &[0x2014, 32]);
    assert_eq!(&attributes[20..24], &[0x2022, 24, 0x2023, 8]);
    assert_eq!(&attributes[24..], &[0, 0]);
    assert_eq!(get_transparent_pixel_format_index(true, 9, 1), Some(9));
    assert_eq!(get_transparent_pixel_format_index(true, 9, 0), None);
    assert_eq!(get_transparent_pixel_format_index(false, 9, 1), None);
}
