use azul_shell::cursor::{win32_translate_cursor, MouseCursorType};
use azul_shell::error::{
    BorrowError, BorrowMutError, RendererError, WindowsOpenGlError, WindowsStartupError,
    WindowsWindowCreateError,
};
use azul_shell::geometry::{
    effective_dpi, get_high_word, get_low_word, get_x_lparam, get_y_lparam, to_device_pixels,
    to_signed, PhysicalSize, Rect,
};
use azul_shell::hit_test::AsyncHitTester;
use azul_shell::platform::{found, resolve_address, DwmFunctions, ExtraWglFunctions};
use azul_shell::state::{
    CursorPosition, FullHitTest, FullWindowState, MouseState, StyleAndLayoutChanges, Timer,
    WindowCreateOptions, WindowFrame, WindowState,
};

#[test]
fn system_cursor_table() {
    assert_eq!(win32_translate_cursor(MouseCursorType::Arrow), 32512);
    assert_eq!(win32_translate_cursor(MouseCursorType::Default), 32512);
    assert_eq!(win32_translate_cursor(MouseCursorType::Hand), 32649);
    assert_eq!(win32_translate_cursor(MouseCursorType::Crosshair), 32515);
    assert_eq!(win32_translate_cursor(MouseCursorType::Text), 32513);
    assert_eq!(win32_translate_cursor(MouseCursorType::VerticalText), 32513);
    assert_eq!(win32_translate_cursor(MouseCursorType::NotAllowed), 32648);
    assert_eq!(win32_translate_cursor(MouseCursorType::NoDrop), 32648);
    assert_eq!(win32_translate_cursor(MouseCursorType::Grab), 32646);
    assert_eq!(win32_translate_cursor(MouseCursorType::Grabbing), 32646);
    assert_eq!(win32_translate_cursor(MouseCursorType::Move), 32646);
    assert_eq!(win32_translate_cursor(MouseCursorType::AllScroll), 32646);
    assert_eq!(win32_translate_cursor(MouseCursorType::EResize), 32644);
    assert_eq!(win32_translate_cursor(MouseCursorType::WResize), 32644);
    assert_eq!(win32_translate_cursor(MouseCursorType::EwResize), 32644);
    assert_eq!(win32_translate_cursor(MouseCursorType::ColResize), 32644);
    assert_eq!(win32_translate_cursor(MouseCursorType::NResize), 32645);
    assert_eq!(win32_translate_cursor(MouseCursorType::SResize), 32645);
    assert_eq!(win32_translate_cursor(MouseCursorType::NsResize), 32645);
    assert_eq!(win32_translate_cursor(MouseCursorType::RowResize), 32645);
    assert_eq!(win32_translate_cursor(MouseCursorType::NeResize), 32643);
    assert_eq!(win32_translate_cursor(MouseCursorType::SwResize), 32643);
    assert_eq!(win32_translate_cursor(MouseCursorType::NeswResize), 32643);
    assert_eq!(win32_translate_cursor(MouseCursorType::NwResize), 32642);
    assert_eq!(win32_translate_cursor(MouseCursorType::SeResize), 32642);
    assert_eq!(win32_translate_cursor(MouseCursorType::NwseResize), 32642);
    assert_eq!(win32_translate_cursor(MouseCursorType::Wait), 32514);
    assert_eq!(win32_translate_cursor(MouseCursorType::Progress), 32650);
    assert_eq!(win32_translate_cursor(MouseCursorType::Help), 32651);
}

#[test]
fn cursor_without_system_shape_is_arrow() {
    assert_eq!(win32_translate_cursor(MouseCursorType::ContextMenu), 32512);
    assert_eq!(win32_translate_cursor(MouseCursorType::Cell), 32512);
    assert_eq!(win32_translate_cursor(MouseCursorType::Alias), 32512);
    assert_eq!(win32_translate_cursor(MouseCursorType::Copy), 32512);
    assert_eq!(win32_translate_cursor(MouseCursorType::ZoomIn), 32512);
    assert_eq!(win32_translate_cursor(MouseCursorType::ZoomOut), 32512);
}

#[test]
fn rect_extent() {
    let r = Rect { left: 10, top: 20, right: 810, bottom: 620 };
    assert_eq!(r.width(), 800);
    assert_eq!(r.height(), 600);
    assert_eq!(r.size(), PhysicalSize { width: 800, height: 600 });
}

#[test]
fn rect_with_crossed_edges_is_empty() {
    let r = Rect { left: 5, top: 9, right: 5, bottom: 3 };
    assert_eq!(r.width(), 0);
    assert_eq!(r.height(), 0);
}

#[test]
fn rect_extent_does_not_overflow() {
    let r = Rect { left: i32::MIN, top: -1, right: i32::MAX, bottom: i32::MAX };
    assert_eq!(r.width(), u32::MAX);
    assert_eq!(r.height(), 0x8000_0000);
}

#[test]
fn dpi_is_the_larger_axis_and_never_negative() {
    assert_eq!(effective_dpi(96, 96), 96);
    assert_eq!(effective_dpi(96, 120), 120);
    assert_eq!(effective_dpi(144, 120), 144);
    assert_eq!(effective_dpi(-1, -5), 0);
    assert_eq!(effective_dpi(-1, 72), 72);
    assert_eq!(effective_dpi(0, i32::MIN), 0);
}

#[test]
fn device_pixels_saturate() {
    assert_eq!(to_device_pixels(0), 0);
    assert_eq!(to_device_pixels(1024), 1024);
    assert_eq!(to_device_pixels(0x7fff_ffff), i32::MAX);
    assert_eq!(to_device_pixels(0x8000_0000), i32::MAX);
    assert_eq!(to_device_pixels(u32::MAX), i32::MAX);
}

#[test]
fn words_of_a_parameter() {
    let bits: usize = 0x0258_0320;
    assert_eq!(get_low_word(bits), 800);
    assert_eq!(get_high_word(bits), 600);
    assert_eq!(get_low_word(0xffff), 0xffff);
    assert_eq!(get_high_word(0xffff), 0);
    assert_eq!(get_high_word(0xffff_0000), 0xffff);
}

#[test]
fn pointer_positions_are_signed() {
    assert_eq!(to_signed(0), 0);
    assert_eq!(to_signed(0x7fff), 32767);
    assert_eq!(to_signed(0x8000), -32768);
    assert_eq!(to_signed(0xffff), -1);
    let bits: usize = 0xfff6_0014;
    assert_eq!(get_x_lparam(bits), 20);
    assert_eq!(get_y_lparam(bits), -10);
}

#[test]
fn words_ignore_the_upper_half_of_wide_parameters() {
    let bits = usize::MAX;
    assert_eq!(get_low_word(bits), 0xffff);
    assert_eq!(get_high_word(bits), 0xffff);
    assert_eq!(get_x_lparam(bits), -1);
}

#[test]
fn opengl_error_code() {
    assert_eq!(WindowsOpenGlError::OpenGL32DllNotFound(126).code(), 126);
    assert_eq!(WindowsOpenGlError::FailedToGetDC(6).code(), 6);
    assert_eq!(WindowsOpenGlError::FailedToGetPixelFormat(1).code(), 1);
    assert_eq!(WindowsOpenGlError::NoMatchingPixelFormat(2000).code(), 2000);
    assert_eq!(WindowsOpenGlError::OpenGLNotAvailable(0).code(), 0);
    assert_eq!(WindowsOpenGlError::FailedToStoreContext(u32::MAX).code(), u32::MAX);
}

#[test]
fn startup_error_from_other_errors() {
    assert_eq!(WindowsStartupError::from(BorrowError), WindowsStartupError::Borrow(BorrowError));
    assert_eq!(
        WindowsStartupError::from(BorrowMutError),
        WindowsStartupError::BorrowMut(BorrowMutError)
    );
    let create = WindowsWindowCreateError::Renderer(RendererError::MaxTextureSize);
    assert_eq!(WindowsStartupError::from(create), WindowsStartupError::Create(create));
    let gl = WindowsOpenGlError::NoMatchingPixelFormat(87);
    assert_eq!(WindowsStartupError::from(gl), WindowsStartupError::Gl(gl));
    let via_into: WindowsStartupError = WindowsWindowCreateError::FailedToCreateHWND(5).into();
    assert_eq!(
        via_into,
        WindowsStartupError::Create(WindowsWindowCreateError::FailedToCreateHWND(5))
    );
}

#[test]
fn hit_tester_resolves_to_its_generation() {
    let mut tester = AsyncHitTester::request(3);
    assert_eq!(tester, AsyncHitTester::Requested { generation: 3 });
    assert!(tester.is_pending());
    assert_eq!(tester.resolve(), 3);
    assert_eq!(tester, AsyncHitTester::Resolved { generation: 3 });
    assert!(!tester.is_pending());
    assert_eq!(tester.resolve(), 3);
    assert_eq!(tester, AsyncHitTester::Resolved { generation: 3 });
    assert_eq!(tester.get_generation(), 3);
}

#[test]
fn hit_tester_before_any_display_list_is_usable() {
    let mut tester = AsyncHitTester::request(0);
    assert_eq!(tester.resolve(), 0);
    assert_eq!(tester, AsyncHitTester::Resolved { generation: 0 });
}

#[test]
fn hit_tester_after_resubmission_is_newer() {
    let mut before = AsyncHitTester::request(4);
    let old_generation = before.resolve();
    let mut after = AsyncHitTester::request(5);
    let new_generation = after.resolve();
    assert_eq!(new_generation, 5);
    assert!(new_generation > old_generation);
}

#[test]
fn missing_entry_points_are_none() {
    assert_eq!(found(0), None);
    assert_eq!(found(0x1000), Some(0x1000));
    assert_eq!(DwmFunctions::initialize(0, 1, 2, 3), None);
    assert_eq!(
        DwmFunctions::initialize(0x7000, 0x7100, 0, 0x7300),
        Some(DwmFunctions {
            dll_handle: 0x7000,
            enable_blur_behind_window: Some(0x7100),
            extend_frame_into_client_area: None,
            def_window_proc: Some(0x7300),
        })
    );
}

#[test]
fn pixel_format_choice_prefers_arb() {
    let both = ExtraWglFunctions::load(0x10, 0x20, 0x30, 0x40);
    assert_eq!(both.choose_pixel_format_arb, Some(0x10));
    assert_eq!(both.create_context_attribs_arb, Some(0x30));
    assert_eq!(both.swap_interval_ext, Some(0x40));
    let ext_only = ExtraWglFunctions::load(0, 0x20, 0, 0);
    assert_eq!(ext_only.choose_pixel_format_arb, Some(0x20));
    assert_eq!(ext_only.create_context_attribs_arb, None);
    assert_eq!(ext_only.swap_interval_ext, None);
    assert_eq!(ExtraWglFunctions::load(0, 0, 0, 0), ExtraWglFunctions::empty());
}

#[test]
fn function_address_falls_back_to_the_library() {
    assert_eq!(resolve_address(0x500, Some(0x900)), 0x500);
    assert_eq!(resolve_address(0x500, None), 0x500);
    assert_eq!(resolve_address(0, Some(0x900)), 0x900);
    assert_eq!(resolve_address(0, None), 0);
    assert_eq!(resolve_address(0, Some(0)), 0);
}

#[test]
fn default_window_state() {
    let state = WindowState::new(7);
    assert_eq!(state.size.width, 800);
    assert_eq!(state.size.height, 600);
    assert_eq!(state.size.dpi, 96);
    assert_eq!(state.size.get_layout_size(), (800, 600));
    assert_eq!(state.flags.frame, WindowFrame::Normal);
    assert!(state.flags.is_visible);
    assert!(!state.flags.is_about_to_close);
    assert_eq!(state.mouse_state, MouseState::new());
    assert_eq!(state.mouse_state.cursor_position, CursorPosition::Uninitialized);
    assert_eq!(state.layout_callback, 7);
    let options = WindowCreateOptions::new(7);
    assert_eq!(options.state, state);
    assert!(!options.size_to_content);
    assert!(!options.hot_reload);
    assert_eq!(options.renderer, None);
}

#[test]
fn pending_scroll_fills_the_missing_axis() {
    let mut mouse = MouseState::new();
    assert_eq!(mouse.get_scroll_amount(), None);
    mouse.scroll_x = Some(3);
    assert_eq!(mouse.get_scroll_amount(), Some((3, 0)));
    mouse.scroll_x = None;
    mouse.scroll_y = Some(-120);
    assert_eq!(mouse.get_scroll_amount(), Some((0, -120)));
    mouse.scroll_x = Some(1);
    assert_eq!(mouse.get_scroll_amount(), Some((1, -120)));
    mouse.left_down = true;
    mouse.reset_scroll_to_zero();
    assert_eq!(mouse.get_scroll_amount(), None);
    assert!(mouse.left_down);
    assert!(mouse.mouse_down());
}

#[test]
fn full_state_keeps_focus_and_hit_test() {
    let state = WindowState::new(1);
    let focus = Some(azul_shell::state::DomNodeId { dom: 0, node: 4 });
    let hit = FullHitTest { focused_node: focus, generation: Some(2) };
    let full = FullWindowState::from_window_state(&state, focus, hit);
    assert_eq!(full.focused_node, focus);
    assert_eq!(full.last_hit_test, hit);
    assert_eq!(full.to_window_state(), state);
    assert!(!full.layout_callback_changed(&None));
    assert!(!full.layout_callback_changed(&Some(full)));
    let mut other = full;
    other.layout_callback = 2;
    assert!(full.layout_callback_changed(&Some(other)));
    assert_eq!(full.process_system_scroll(), None);
}

#[test]
fn empty_layout_report() {
    let changes = StyleAndLayoutChanges::empty();
    assert!(!changes.did_resize_nodes());
    assert!(!changes.need_regenerate_display_list());
    assert!(!changes.need_redraw());
    assert_eq!(changes.focus_change, None);
    assert_eq!(Timer { interval_millis: 16 }.tick_millis(), 16);
}
