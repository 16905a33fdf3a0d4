//! Creating a window, step by step.
//!
//! A window comes into being in a conversation with the platform, the
//! renderer and the layout engine. Each step names the operations to carry
//! out; the reply to the last of them decides the next step. The
//! conversation ends with a window that is ready to be filed and shown, or
//! with an error, and then nothing of the window is left: its rendering
//! context is deleted, its device context given back and the native window
//! destroyed.

use std::collections::BTreeMap;
use std::collections::BTreeSet;
use vstd::prelude::*;
use crate::command::{Command, AZ_REGENERATE_DOM, AZ_TICK_REGENERATE_DOM, HOT_RELOAD_MILLIS};
use crate::error::{BorrowMutError, RendererError, WindowsOpenGlError, WindowsWindowCreateError};
use crate::geometry::{device_pixels, effective_dpi, larger_dpi, to_device_pixels, PhysicalSize, Rect};
use crate::gl::{renderer_type_for, tries_hardware};
use crate::hit_test::AsyncHitTester;
use crate::menu::{MenuCallback, WindowsMenuBar};
use crate::platform::ExtraWglFunctions;
use crate::state::{
    CursorPosition, FullHitTest, FullWindowState, HwAcceleration, MouseState, RendererType,
    WindowCreateOptions, WindowFrame, WindowSize,
};
use crate::window::{Window, WindowInternal};

verus! {

broadcast use {vstd::std_specs::btree::group_btree_axioms, vstd::laws_cmp::group_laws_cmp};

/// The flags that say how a window is shown.
pub const SW_HIDE: i32 = 0;
pub const SW_SHOWNORMAL: i32 = 1;
pub const SW_NORMAL: i32 = 1;
pub const SW_MAXIMIZE: i32 = 3;
pub const SW_MINIMIZE: i32 = 6;

/// How a frame is shown.
pub open spec fn frame_flag(frame: WindowFrame) -> i32 {
    match frame {
        WindowFrame::Normal => SW_NORMAL,
        WindowFrame::Minimized => SW_MINIMIZE,
        WindowFrame::Maximized => SW_MAXIMIZE,
        WindowFrame::Fullscreen => SW_MAXIMIZE,
    }
}

/// The flags that show a window with this frame, or only prepare showing it
/// if it is not visible.
pub open spec fn show_flags(is_visible: bool, frame: WindowFrame) -> i32 {
    if is_visible {
        SW_HIDE | SW_SHOWNORMAL | frame_flag(frame)
    } else {
        SW_HIDE | frame_flag(frame)
    }
}

/// Computes the flags that show a window.
pub fn get_show_flags(is_visible: bool, frame: WindowFrame) -> (flags: i32)
    ensures
        flags == show_flags(is_visible, frame),
{
    let frame_flag = match frame {
        WindowFrame::Normal => SW_NORMAL,
        WindowFrame::Minimized => SW_MINIMIZE,
        WindowFrame::Maximized => SW_MAXIMIZE,
        WindowFrame::Fullscreen => SW_MAXIMIZE,
    };
    if is_visible {
        SW_HIDE | SW_SHOWNORMAL | frame_flag
    } else {
        SW_HIDE | frame_flag
    }
}

/// The flags in numbers.
pub proof fn lemma_show_flags(is_visible: bool, frame: WindowFrame)
    ensures
        show_flags(false, frame) == frame_flag(frame),
        show_flags(true, WindowFrame::Normal) == 1,
        show_flags(true, WindowFrame::Minimized) == 7,
        show_flags(true, WindowFrame::Maximized) == 3,
        show_flags(true, WindowFrame::Fullscreen) == 3,
{
    assert(0i32 | 1i32 == 1) by (bit_vector);
    assert(0i32 | 3i32 == 3) by (bit_vector);
    assert(0i32 | 6i32 == 6) by (bit_vector);
    assert(0i32 | 1i32 | 1i32 == 1) by (bit_vector);
    assert(0i32 | 1i32 | 3i32 == 3) by (bit_vector);
    assert(0i32 | 1i32 | 6i32 == 7) by (bit_vector);
}

/// Where the pointer is, from its position relative to the client area: a
/// position on or before the left or upper edge is outside.
pub open spec fn cursor_at(x: i32, y: i32) -> CursorPosition {
    if x <= 0 || y <= 0 {
        CursorPosition::OutOfWindow
    } else {
        CursorPosition::InWindow { x, y }
    }
}

/// What the platform, the renderer or the layout engine answered to the
/// last operation of a step.
#[allow(inconsistent_fields)]
#[derive(Debug)]
pub enum CreateReply {
    /// The handle of the native window; 0 if there is none, and then the
    /// last error of the operating system.
    NativeWindow { hwnd: usize, last_error: u32 },
    Dpi { dpi_x: i32, dpi_y: i32 },
    GlContextCreated { context: usize, extra: ExtraWglFunctions },
    GlContextFailed { error: WindowsOpenGlError },
    RendererCreated,
    RendererFailed { error: RendererError },
    ClientRect { rect: Rect },
    ApplicationData { acquired: bool },
    LayoutBuilt { menu: Option<WindowsMenuBar> },
    CursorPosition { x: i32, y: i32 },
}

/// Which reply the creation waits for, or how it ended.
#[derive(Debug, Copy, Clone, PartialEq, Eq, Structural)]
pub enum CreatePhase {
    CreatingNativeWindow,
    QueryingDpi,
    CreatingGlContext,
    CreatingRenderer,
    QueryingInitialSize,
    AcquiringApplicationData,
    BuildingLayout,
    QueryingFinalSize,
    QueryingCursor,
    Done,
    Failed { error: WindowsWindowCreateError },
}

/// A window in the making.
#[derive(Debug)]
pub struct WindowCreation {
    pub options: WindowCreateOptions,
    pub phase: CreatePhase,
    /// Handle of the native window; 0 before it exists.
    pub hwnd: usize,
    pub dpi: u32,
    pub gl_context: Option<usize>,
    pub extra: ExtraWglFunctions,
    /// Size of the client area as it was reported last.
    pub size: PhysicalSize,
    pub menu_callbacks: BTreeMap<u16, MenuCallback>,
    pub menu_hash: Option<u64>,
    pub cursor_position: CursorPosition,
}

impl WindowCreation {
    /// Whether the creation has ended.
    pub open spec fn finished(self) -> bool {
        self.phase is Done || self.phase is Failed
    }

    /// The size that the native window is created with: none if the window
    /// is to take the size of its content, which is not known yet.
    pub open spec fn initial_size(options: WindowCreateOptions) -> (i32, i32) {
        if options.size_to_content {
            (0i32, 0i32)
        } else {
            (device_pixels(options.state.size.width), device_pixels(options.state.size.height))
        }
    }

    /// What brings the renderer into being. With a rendering context the
    /// functions of the graphics library are loaded and the shaders
    /// compiled first, each time with the context current only as long as
    /// needed; the context is then made current for the renderer and the
    /// layout that follow.
    pub open spec fn renderer_commands(hwnd: usize, context: Option<usize>) -> Seq<Command> {
        match context {
            Some(context) => seq![
                Command::GetDc { hwnd },
                Command::MakeCurrent { hwnd, context },
                Command::LoadGlFunctions { hwnd },
                Command::CompileShaders { hwnd },
                Command::ReleaseCurrent,
                Command::ReleaseDc { hwnd },
                Command::GetDc { hwnd },
                Command::MakeCurrent { hwnd, context },
                Command::CreateRenderer { hwnd },
            ],
            None => seq![Command::GetDc { hwnd }, Command::CreateRenderer { hwnd }],
        }
    }

    /// What undoes the window after a failure: no context is left current
    /// and the window's context is deleted, the device context is given
    /// back, and the native window is destroyed.
    pub open spec fn rollback_commands(hwnd: usize, context: Option<usize>) -> Seq<Command> {
        (match context {
            Some(context) => seq![Command::ReleaseCurrent, Command::DeleteContext { context }],
            None => Seq::empty(),
        }) + seq![Command::ReleaseDc { hwnd }, Command::DestroyWindow { hwnd }]
    }

    /// What registers the document of the window with the renderer, gets
    /// the first hit-tester, which hits nothing, and asks for the
    /// application data.
    pub open spec fn document_commands(hwnd: usize, size: PhysicalSize) -> Seq<Command> {
        seq![
            Command::AddDocument {
                hwnd,
                width: device_pixels(size.width),
                height: device_pixels(size.height),
            },
            Command::RequestHitTester { hwnd },
            Command::ResolveHitTester { hwnd },
            Command::AcquireApplicationData,
        ]
    }

    /// What follows the first layout: the context is released, the menu
    /// set, the window sized after its content if that was asked for, and
    /// shown in its frame, hidden still, so that the size of its client
    /// area is final.
    pub open spec fn layout_commands(self, has_menu: bool) -> Seq<Command> {
        (if self.gl_context is Some {
            seq![Command::ReleaseCurrent]
        } else {
            Seq::empty()
        }) + seq![Command::ReleaseDc { hwnd: self.hwnd }] + (if has_menu {
            seq![Command::SetMenu { hwnd: self.hwnd }]
        } else {
            Seq::empty()
        }) + (if self.options.size_to_content {
            seq![Command::ResizeToContent { hwnd: self.hwnd }]
        } else {
            Seq::empty()
        }) + seq![
            Command::ShowWindow {
                hwnd: self.hwnd,
                flags: show_flags(false, self.options.state.flags.frame),
            },
            Command::QueryClientRect { hwnd: self.hwnd },
        ]
    }

    /// What submits the first display list and asks for the first frame.
    pub open spec fn first_frame_commands(hwnd: usize, size: PhysicalSize) -> Seq<Command> {
        seq![
            Command::QuickResize { hwnd, width: size.width, height: size.height },
            Command::SetDocumentView {
                hwnd,
                width: device_pixels(size.width),
                height: device_pixels(size.height),
            },
            Command::FlushSceneBuilder { hwnd },
            Command::RebuildDisplayList { hwnd },
            Command::FlushSceneBuilder { hwnd },
            Command::GenerateFrame { hwnd, display_list_rebuilt: true },
            Command::FlushSceneBuilder { hwnd },
            Command::QueryCursorPosition { hwnd },
        ]
    }

    /// What ends the creation: the hit-tester of the first display list is
    /// asked for, the timer that rebuilds the interface tree is armed if
    /// that was asked for, the window is told to build its tree and is
    /// shown, and the application data is given back.
    pub open spec fn final_commands(self) -> Seq<Command> {
        seq![Command::RequestHitTester { hwnd: self.hwnd }] + (if self.options.hot_reload {
            seq![
                Command::SetTimer {
                    hwnd: self.hwnd,
                    id: AZ_TICK_REGENERATE_DOM,
                    millis: HOT_RELOAD_MILLIS,
                },
            ]
        } else {
            Seq::empty()
        }) + seq![
            Command::PostMessage { hwnd: self.hwnd, message: AZ_REGENERATE_DOM },
            Command::ShowWindow {
                hwnd: self.hwnd,
                flags: show_flags(
                    self.options.state.flags.is_visible,
                    self.options.state.flags.frame,
                ),
            },
            Command::ReleaseApplicationData,
        ]
    }

    /// The step that follows a reply: the creation afterwards and the
    /// operations to carry out. A reply that the creation does not wait
    /// for changes nothing.
    ///
    /// A hardware context is tried first unless the options rule it out,
    /// and a failure to get one is no error: the window is then rasterized
    /// in software. A failure of the renderer or of getting the application
    /// data undoes the window.
    pub open spec fn stepped(self, reply: CreateReply) -> (WindowCreation, Seq<Command>) {
        match (self.phase, reply) {
            (CreatePhase::CreatingNativeWindow, CreateReply::NativeWindow { hwnd, last_error }) => {
                if hwnd == 0 {
                    (
                        WindowCreation {
                            phase: CreatePhase::Failed {
                                error: WindowsWindowCreateError::FailedToCreateHWND(last_error),
                            },
                            ..self
                        },
                        Seq::empty(),
                    )
                } else {
                    (
                        WindowCreation { phase: CreatePhase::QueryingDpi, hwnd, ..self },
                        seq![Command::QueryDpi { hwnd }],
                    )
                }
            },
            (CreatePhase::QueryingDpi, CreateReply::Dpi { dpi_x, dpi_y }) => {
                let dpi = larger_dpi(dpi_x as int, dpi_y as int) as u32;
                if tries_hardware(self.options.renderer) {
                    (
                        WindowCreation { phase: CreatePhase::CreatingGlContext, dpi, ..self },
                        seq![Command::CreateGlContext { hwnd: self.hwnd }],
                    )
                } else {
                    (
                        WindowCreation { phase: CreatePhase::CreatingRenderer, dpi, ..self },
                        Self::renderer_commands(self.hwnd, None),
                    )
                }
            },
            (CreatePhase::CreatingGlContext, CreateReply::GlContextCreated { context, extra }) => (
                WindowCreation {
                    phase: CreatePhase::CreatingRenderer,
                    gl_context: Some(context),
                    extra,
                    ..self
                },
                Self::renderer_commands(self.hwnd, Some(context)),
            ),
            (CreatePhase::CreatingGlContext, CreateReply::GlContextFailed { .. }) => (
                WindowCreation { phase: CreatePhase::CreatingRenderer, ..self },
                Self::renderer_commands(self.hwnd, None),
            ),
            (CreatePhase::CreatingRenderer, CreateReply::RendererFailed { error }) => (
                WindowCreation {
                    phase: CreatePhase::Failed { error: WindowsWindowCreateError::Renderer(error) },
                    ..self
                },
                Self::rollback_commands(self.hwnd, self.gl_context),
            ),
            (CreatePhase::CreatingRenderer, CreateReply::RendererCreated) => {
                if self.options.size_to_content {
                    let size = PhysicalSize { width: 0, height: 0 };
                    (
                        WindowCreation {
                            phase: CreatePhase::AcquiringApplicationData,
                            size,
                            ..self
                        },
                        seq![Command::CreateRenderApi { hwnd: self.hwnd }]
                            + Self::document_commands(self.hwnd, size),
                    )
                } else {
                    (
                        WindowCreation { phase: CreatePhase::QueryingInitialSize, ..self },
                        seq![
                            Command::CreateRenderApi { hwnd: self.hwnd },
                            Command::QueryClientRect { hwnd: self.hwnd },
                        ],
                    )
                }
            },
            (CreatePhase::QueryingInitialSize, CreateReply::ClientRect { rect }) => (
                WindowCreation {
                    phase: CreatePhase::AcquiringApplicationData,
                    size: rect.extent(),
                    ..self
                },
                Self::document_commands(self.hwnd, rect.extent()),
            ),
            (CreatePhase::AcquiringApplicationData, CreateReply::ApplicationData { acquired }) => {
                if acquired {
                    (
                        WindowCreation { phase: CreatePhase::BuildingLayout, ..self },
                        seq![Command::BuildInitialLayout { hwnd: self.hwnd }],
                    )
                } else {
                    (
                        WindowCreation {
                            phase: CreatePhase::Failed {
                                error: WindowsWindowCreateError::BorrowMut(BorrowMutError),
                            },
                            ..self
                        },
                        Self::rollback_commands(self.hwnd, self.gl_context),
                    )
                }
            },
            (CreatePhase::BuildingLayout, CreateReply::LayoutBuilt { menu }) => match menu {
                Some(bar) => (
                    WindowCreation {
                        phase: CreatePhase::QueryingFinalSize,
                        menu_callbacks: bar.callbacks,
                        menu_hash: Some(bar.hash),
                        ..self
                    },
                    self.layout_commands(true),
                ),
                None => (
                    WindowCreation { phase: CreatePhase::QueryingFinalSize, ..self },
                    self.layout_commands(false),
                ),
            },
            (CreatePhase::QueryingFinalSize, CreateReply::ClientRect { rect }) => (
                WindowCreation { phase: CreatePhase::QueryingCursor, size: rect.extent(), ..self },
                Self::first_frame_commands(self.hwnd, rect.extent()),
            ),
            (CreatePhase::QueryingCursor, CreateReply::CursorPosition { x, y }) => (
                WindowCreation {
                    phase: CreatePhase::Done,
                    cursor_position: cursor_at(x, y),
                    ..self
                },
                self.final_commands(),
            ),
            _ => (self, Seq::empty()),
        }
    }

    /// Whether this is the creation of a window for `options` before its
    /// first reply: nothing of the window exists yet.
    pub open spec fn begun(self, options: WindowCreateOptions) -> bool {
        &&& self.options == options
        &&& self.phase == CreatePhase::CreatingNativeWindow
        &&& self.hwnd == 0
        &&& self.dpi == 0
        &&& self.gl_context is None
        &&& self.extra == ExtraWglFunctions::none()
        &&& self.size == PhysicalSize { width: 0, height: 0 }
        &&& self.menu_callbacks@ == Map::<u16, MenuCallback>::empty()
        &&& self.menu_hash is None
        &&& self.cursor_position == CursorPosition::Uninitialized
    }

    /// Begins the creation of a window. Its first operation creates the
    /// native window.
    pub fn begin(options: WindowCreateOptions) -> (out: (WindowCreation, Vec<Command>))
        ensures
            out.0.begun(options),
            out.1@ == seq![
                Command::CreateNativeWindow {
                    width: Self::initial_size(options).0,
                    height: Self::initial_size(options).1,
                },
            ],
    {
        let (width, height) = if options.size_to_content {
            (0, 0)
        } else {
            (to_device_pixels(options.state.size.width), to_device_pixels(options.state.size.height))
        };
        let creation = WindowCreation {
            options,
            phase: CreatePhase::CreatingNativeWindow,
            hwnd: 0,
            dpi: 0,
            gl_context: None,
            extra: ExtraWglFunctions::empty(),
            size: PhysicalSize { width: 0, height: 0 },
            menu_callbacks: BTreeMap::new(),
            menu_hash: None,
            cursor_position: CursorPosition::Uninitialized,
        };
        let commands = vec![Command::CreateNativeWindow { width, height }];
        (creation, commands)
    }

    fn push_renderer_commands(commands: &mut Vec<Command>, hwnd: usize, context: Option<usize>)
        ensures
            final(commands)@ == old(commands)@ + Self::renderer_commands(hwnd, context),
    {
        match context {
            Some(context) => {
                commands.push(Command::GetDc { hwnd });
                commands.push(Command::MakeCurrent { hwnd, context });
                commands.push(Command::LoadGlFunctions { hwnd });
                commands.push(Command::CompileShaders { hwnd });
                commands.push(Command::ReleaseCurrent);
                commands.push(Command::ReleaseDc { hwnd });
                commands.push(Command::GetDc { hwnd });
                commands.push(Command::MakeCurrent { hwnd, context });
                commands.push(Command::CreateRenderer { hwnd });
            },
            None => {
                commands.push(Command::GetDc { hwnd });
                commands.push(Command::CreateRenderer { hwnd });
            },
        }
    }

    fn push_rollback_commands(commands: &mut Vec<Command>, hwnd: usize, context: Option<usize>)
        ensures
            final(commands)@ == old(commands)@ + Self::rollback_commands(hwnd, context),
    {
        if let Some(context) = context {
            commands.push(Command::ReleaseCurrent);
            commands.push(Command::DeleteContext { context });
        }
        commands.push(Command::ReleaseDc { hwnd });
        commands.push(Command::DestroyWindow { hwnd });
    }

    fn push_document_commands(commands: &mut Vec<Command>, hwnd: usize, size: PhysicalSize)
        ensures
            final(commands)@ == old(commands)@ + Self::document_commands(hwnd, size),
    {
        commands.push(
            Command::AddDocument {
                hwnd,
                width: to_device_pixels(size.width),
                height: to_device_pixels(size.height),
            },
        );
        commands.push(Command::RequestHitTester { hwnd });
        commands.push(Command::ResolveHitTester { hwnd });
        commands.push(Command::AcquireApplicationData);
    }

    fn push_layout_commands(&self, commands: &mut Vec<Command>, has_menu: bool)
        ensures
            final(commands)@ == old(commands)@ + self.layout_commands(has_menu),
    {
        let hwnd = self.hwnd;
        if self.gl_context.is_some() {
            commands.push(Command::ReleaseCurrent);
        }
        commands.push(Command::ReleaseDc { hwnd });
        if has_menu {
            commands.push(Command::SetMenu { hwnd });
        }
        if self.options.size_to_content {
            commands.push(Command::ResizeToContent { hwnd });
        }
        commands.push(
            Command::ShowWindow { hwnd, flags: get_show_flags(false, self.options.state.flags.frame) },
        );
        commands.push(Command::QueryClientRect { hwnd });
    }

    fn push_final_commands(&self, commands: &mut Vec<Command>)
        ensures
            final(commands)@ == old(commands)@ + self.final_commands(),
    {
        let hwnd = self.hwnd;
        commands.push(Command::RequestHitTester { hwnd });
        if self.options.hot_reload {
            commands.push(
                Command::SetTimer { hwnd, id: AZ_TICK_REGENERATE_DOM, millis: HOT_RELOAD_MILLIS },
            );
        }
        commands.push(Command::PostMessage { hwnd, message: AZ_REGENERATE_DOM });
        commands.push(
            Command::ShowWindow {
                hwnd,
                flags: get_show_flags(
                    self.options.state.flags.is_visible,
                    self.options.state.flags.frame,
                ),
            },
        );
        commands.push(Command::ReleaseApplicationData);
    }

    /// Takes the reply to the last operation and returns the operations of
    /// the next step.
    pub fn advance(&mut self, reply: CreateReply) -> (commands: Vec<Command>)
        ensures
            (*final(self), commands@) == old(self).stepped(reply),
    {
        let mut commands: Vec<Command> = Vec::new();
        let hwnd = self.hwnd;
        match (self.phase, reply) {
            (
                CreatePhase::CreatingNativeWindow,
                CreateReply::NativeWindow { hwnd: created, last_error },
            ) => {
                if created == 0 {
                    self.phase = CreatePhase::Failed {
                        error: WindowsWindowCreateError::FailedToCreateHWND(last_error),
                    };
                } else {
                    self.phase = CreatePhase::QueryingDpi;
                    self.hwnd = created;
                    commands.push(Command::QueryDpi { hwnd: created });
                }
            },
            (CreatePhase::QueryingDpi, CreateReply::Dpi { dpi_x, dpi_y }) => {
                self.dpi = effective_dpi(dpi_x, dpi_y);
                let hardware = match self.options.renderer {
                    Some(options) => match options.hw_accel {
                        HwAcceleration::Disabled => false,
                        _ => true,
                    },
                    None => true,
                };
                if hardware {
                    self.phase = CreatePhase::CreatingGlContext;
                    commands.push(Command::CreateGlContext { hwnd });
                } else {
                    self.phase = CreatePhase::CreatingRenderer;
                    Self::push_renderer_commands(&mut commands, hwnd, None);
                }
            },
            (CreatePhase::CreatingGlContext, CreateReply::GlContextCreated { context, extra }) => {
                self.phase = CreatePhase::CreatingRenderer;
                self.gl_context = Some(context);
                self.extra = extra;
                Self::push_renderer_commands(&mut commands, hwnd, Some(context));
            },
            (CreatePhase::CreatingGlContext, CreateReply::GlContextFailed { .. }) => {
                self.phase = CreatePhase::CreatingRenderer;
                Self::push_renderer_commands(&mut commands, hwnd, None);
            },
            (CreatePhase::CreatingRenderer, CreateReply::RendererFailed { error }) => {
                self.phase = CreatePhase::Failed {
                    error: WindowsWindowCreateError::Renderer(error),
                };
                Self::push_rollback_commands(&mut commands, hwnd, self.gl_context);
            },
            (CreatePhase::CreatingRenderer, CreateReply::RendererCreated) => {
                commands.push(Command::CreateRenderApi { hwnd });
                if self.options.size_to_content {
                    let size = PhysicalSize { width: 0, height: 0 };
                    self.phase = CreatePhase::AcquiringApplicationData;
                    self.size = size;
                    Self::push_document_commands(&mut commands, hwnd, size);
                } else {
                    self.phase = CreatePhase::QueryingInitialSize;
                    commands.push(Command::QueryClientRect { hwnd });
                }
            },
            (CreatePhase::QueryingInitialSize, CreateReply::ClientRect { rect }) => {
                let size = rect.size();
                self.phase = CreatePhase::AcquiringApplicationData;
                self.size = size;
                Self::push_document_commands(&mut commands, hwnd, size);
            },
            (CreatePhase::AcquiringApplicationData, CreateReply::ApplicationData { acquired }) => {
                if acquired {
                    self.phase = CreatePhase::BuildingLayout;
                    commands.push(Command::BuildInitialLayout { hwnd });
                } else {
                    self.phase = CreatePhase::Failed {
                        error: WindowsWindowCreateError::BorrowMut(BorrowMutError),
                    };
                    Self::push_rollback_commands(&mut commands, hwnd, self.gl_context);
                }
            },
            (CreatePhase::BuildingLayout, CreateReply::LayoutBuilt { menu }) => {
                match menu {
                    Some(bar) => {
                        self.push_layout_commands(&mut commands, true);
                        self.menu_callbacks = bar.callbacks;
                        self.menu_hash = Some(bar.hash);
                    },
                    None => {
                        self.push_layout_commands(&mut commands, false);
                    },
                }
                self.phase = CreatePhase::QueryingFinalSize;
            },
            (CreatePhase::QueryingFinalSize, CreateReply::ClientRect { rect }) => {
                let size = rect.size();
                self.phase = CreatePhase::QueryingCursor;
                self.size = size;
                commands.push(Command::QuickResize { hwnd, width: size.width, height: size.height });
                commands.push(
                    Command::SetDocumentView {
                        hwnd,
                        width: to_device_pixels(size.width),
                        height: to_device_pixels(size.height),
                    },
                );
                commands.push(Command::FlushSceneBuilder { hwnd });
                commands.push(Command::RebuildDisplayList { hwnd });
                commands.push(Command::FlushSceneBuilder { hwnd });
                commands.push(Command::GenerateFrame { hwnd, display_list_rebuilt: true });
                commands.push(Command::FlushSceneBuilder { hwnd });
                commands.push(Command::QueryCursorPosition { hwnd });
            },
            (CreatePhase::QueryingCursor, CreateReply::CursorPosition { x, y }) => {
                self.push_final_commands(&mut commands);
                self.phase = CreatePhase::Done;
                self.cursor_position = if x <= 0 || y <= 0 {
                    CursorPosition::OutOfWindow
                } else {
                    CursorPosition::InWindow { x, y }
                };
            },
            _ => {},
        }
        commands
    }

    /// The state in which the window that was created starts: size and
    /// resolution as the platform reported them, the pointer where it is,
    /// no focus and no hit yet, all else as the options say.
    pub open spec fn first_state(self) -> FullWindowState {
        FullWindowState {
            size: WindowSize { width: self.size.width, height: self.size.height, dpi: self.dpi },
            flags: self.options.state.flags,
            mouse_state: MouseState {
                cursor_position: self.cursor_position,
                ..self.options.state.mouse_state
            },
            layout_callback: self.options.state.layout_callback,
            focused_node: None,
            last_hit_test: FullHitTest::empty_for(None),
        }
    }

    /// Whether `window` is the window that this creation has made: it has
    /// submitted one display list, waits for the hit-tester of that, has no
    /// timers and no background tasks, and is not filed yet.
    pub open spec fn made(self, window: Window) -> bool {
        &&& window.hwnd == self.hwnd
        &&& window.internal == WindowInternal {
            current_window_state: self.first_state(),
            previous_window_state: None,
            epoch: 1,
        }
        &&& window.gl_context == self.gl_context
        &&& window.renderer == Some(
            renderer_type_for(self.options.renderer, self.gl_context is Some),
        )
        &&& window.hit_tester == AsyncHitTester::Requested { generation: 1 }
        &&& window.menu_callbacks == self.menu_callbacks
        &&& window.menu_hash == self.menu_hash
        &&& window.timers@ == Map::<usize, u32>::empty()
        &&& window.threads@ == Set::<usize>::empty()
        &&& window.thread_timer_running is None
        &&& window.reprocess_depth == 0
    }

    /// Ends the creation: gives the window if it was created, the error if
    /// it failed, and nothing while it is under way.
    pub fn finish(self) -> (result: Option<Result<Window, WindowsWindowCreateError>>)
        ensures
            match self.phase {
                CreatePhase::Done => result matches Some(Ok(window)) && self.made(window)
                    && window.wf(),
                CreatePhase::Failed { error } => result matches Some(Err(e)) && e == error,
                _ => result is None,
            },
    {
        match self.phase {
            CreatePhase::Done => {
                let renderer_type = if self.gl_context.is_some() {
                    RendererType::Hardware
                } else {
                    match self.options.renderer {
                        Some(options) => match options.hw_accel {
                            HwAcceleration::Enabled => RendererType::Hardware,
                            _ => RendererType::Software,
                        },
                        None => RendererType::Software,
                    }
                };
                let mut mouse_state = self.options.state.mouse_state;
                mouse_state.cursor_position = self.cursor_position;
                let window = Window {
                    hwnd: self.hwnd,
                    internal: WindowInternal {
                        current_window_state: FullWindowState {
                            size: WindowSize {
                                width: self.size.width,
                                height: self.size.height,
                                dpi: self.dpi,
                            },
                            flags: self.options.state.flags,
                            mouse_state,
                            layout_callback: self.options.state.layout_callback,
                            focused_node: None,
                            last_hit_test: FullHitTest::empty(None),
                        },
                        previous_window_state: None,
                        epoch: 1,
                    },
                    gl_context: self.gl_context,
                    renderer: Some(renderer_type),
                    hit_tester: AsyncHitTester::request(1),
                    menu_callbacks: self.menu_callbacks,
                    timers: BTreeMap::new(),
                    threads: BTreeSet::new(),
                    thread_timer_running: None,
                    menu_hash: self.menu_hash,
                    reprocess_depth: 0,
                };
                Some(Ok(window))
            },
            CreatePhase::Failed { error } => Some(Err(error)),
            _ => None,
        }
    }
}

} // verus!
