//! Negotiating a hardware-accelerated rendering context for a window.
//!
//! The negotiation is a conversation with the platform. Each step names the
//! operations to carry out; the reply to the last of them decides the next
//! step. It ends with a context or with the reason why there is none, and
//! in either case the device context it used has been given back.

use vstd::prelude::*;
use crate::error::WindowsOpenGlError;
use crate::platform::ExtraWglFunctions;
use crate::state::{HwAcceleration, RendererOptions, RendererType};

verus! {

/// The ways to rasterize that are tried for a window, in order.
pub open spec fn renderer_preference(renderer: Option<RendererOptions>) -> Seq<RendererType> {
    match renderer {
        Some(options) => match options.hw_accel {
            HwAcceleration::DontCare => seq![RendererType::Hardware, RendererType::Software],
            HwAcceleration::Enabled => seq![RendererType::Hardware],
            HwAcceleration::Disabled => seq![RendererType::Software],
        },
        None => seq![RendererType::Hardware, RendererType::Software],
    }
}

/// Lists the ways to rasterize that are tried for a window: hardware first,
/// unless the options rule it out.
pub fn renderer_types(renderer: Option<RendererOptions>) -> (types: Vec<RendererType>)
    ensures
        types@ == renderer_preference(renderer),
{
    let mut types: Vec<RendererType> = Vec::new();
    match renderer {
        Some(options) => match options.hw_accel {
            HwAcceleration::DontCare => {
                types.push(RendererType::Hardware);
                types.push(RendererType::Software);
            },
            HwAcceleration::Enabled => {
                types.push(RendererType::Hardware);
            },
            HwAcceleration::Disabled => {
                types.push(RendererType::Software);
            },
        },
        None => {
            types.push(RendererType::Hardware);
            types.push(RendererType::Software);
        },
    }
    types
}

/// Whether a hardware context is to be tried at all.
pub open spec fn tries_hardware(renderer: Option<RendererOptions>) -> bool {
    !(renderer matches Some(options) && options.hw_accel is Disabled)
}

/// How the window rasterizes, given whether it got a hardware context: in
/// hardware if it did, in software if software was an option, and else in
/// hardware without a context.
pub open spec fn renderer_type_for(
    renderer: Option<RendererOptions>,
    has_context: bool,
) -> RendererType {
    if has_context {
        RendererType::Hardware
    } else if renderer matches Some(options) && options.hw_accel is Enabled {
        RendererType::Hardware
    } else {
        RendererType::Software
    }
}

/// The pixel format that is asked for when the window is to be transparent.
pub open spec fn transparent_format_request() -> Seq<i32> {
    seq![
        0x2001i32, 1, // draw to window
        0x2011, 1, // double buffer
        0x2010, 1, // support OpenGL
        0x2013, 0x202B, // pixel type: RGBA
        0x200A, 1, // transparent
        0x2014, 32, // color bits
        0x2015, 8, // red bits
        0x2017, 8, // green bits
        0x2019, 8, // blue bits
        0x201B, 8, // alpha bits
        0x2022, 24, // depth bits
        0x2023, 8, // stencil bits
        0, 0,
    ]
}

/// The attributes of the pixel format that is asked for when the window is
/// to be transparent: pairs of a name and a value, closed by a pair of
/// zeros.
pub fn transparent_format_attributes() -> (attributes: Vec<i32>)
    ensures
        attributes@ == transparent_format_request(),
{
    let attributes = vec![
        0x2001i32, 1, 0x2011, 1, 0x2010, 1, 0x2013, 0x202B, 0x200A, 1, 0x2014, 32, 0x2015, 8,
        0x2017, 8, 0x2019, 8, 0x201B, 8, 0x2022, 24, 0x2023, 8, 0, 0,
    ];
    attributes
}

/// The attributes of the context that is asked for: version 3.1.
pub fn context_attributes() -> (attributes: Vec<i32>)
    ensures
        attributes@ == seq![0x2091i32, 3, 0x2092, 1, 0, 0],
{
    let attributes = vec![0x2091i32, 3, 0x2092, 1, 0, 0];
    attributes
}

/// The transparent pixel format that the platform chose, if it chose one.
pub open spec fn transparent_format(succeeded: bool, pixel_format: i32, num_formats: u32) -> Option<
    i32,
> {
    if succeeded && num_formats != 0 {
        Some(pixel_format)
    } else {
        None
    }
}

/// Reads the reply to the request for a transparent pixel format.
pub fn get_transparent_pixel_format_index(
    succeeded: bool,
    pixel_format: i32,
    num_formats: u32,
) -> (index: Option<i32>)
    ensures
        index == transparent_format(succeeded, pixel_format, num_formats),
{
    if !succeeded {
        return None;
    }
    if num_formats == 0 {
        None
    } else {
        Some(pixel_format)
    }
}

/// One operation of the negotiation.
#[derive(Debug, Copy, Clone, PartialEq, Eq, Structural)]
pub enum GlOp {
    /// Load the graphics library.
    LoadLibrary,
    /// Get the device context of the window.
    GetDeviceContext,
    /// Choose the pixel format nearest to the default one and set it.
    ApplyDefaultPixelFormat,
    /// Create a context only to look up extensions, and make it current.
    CreateDummyContext,
    /// Look up the extensions.
    LoadExtensions,
    /// Ask the entry point `choose` for a transparent pixel format.
    ChooseTransparentFormat { choose: usize },
    /// Leave no context current and delete the dummy context.
    DeleteDummyContext { context: usize },
    /// Set the pixel format `index`.
    ApplyPixelFormat { index: i32 },
    /// Create the context through the entry point `create`, with the
    /// attributes of the version that is asked for.
    CreateContextWithAttributes { create: usize },
    /// Create the context in the plain way.
    CreateContext,
    /// Give the device context back.
    ReleaseDeviceContext,
}

/// What the platform answered to the last operation of a step.
#[derive(Debug, Copy, Clone, PartialEq, Eq, Structural)]
pub enum GlReply {
    Library { handle: usize, last_error: u32 },
    DeviceContext { handle: usize, last_error: u32 },
    DefaultPixelFormat { index: i32, applied: bool, last_error: u32 },
    DummyContext { context: usize },
    Extensions { functions: ExtraWglFunctions },
    TransparentFormat { succeeded: bool, pixel_format: i32, num_formats: u32 },
    PixelFormatApplied { applied: bool, last_error: u32 },
    Context { context: usize, last_error: u32 },
}

/// Where the negotiation stands: which reply it waits for, or how it ended.
#[derive(Debug, Copy, Clone, PartialEq, Eq, Structural)]
pub enum GlContextCreation {
    LoadingLibrary,
    GettingDeviceContext,
    ApplyingDefaultPixelFormat,
    CreatingDummyContext { default_format: i32 },
    LoadingExtensions { default_format: i32, dummy: usize },
    ChoosingTransparentFormat { default_format: i32, dummy: usize, extra: ExtraWglFunctions },
    ApplyingPixelFormat { extra: ExtraWglFunctions, transparent: bool },
    CreatingContext { extra: ExtraWglFunctions },
    Created { context: usize, extra: ExtraWglFunctions },
    Failed { error: WindowsOpenGlError },
}

impl GlContextCreation {
    /// Whether the negotiation has ended.
    pub open spec fn finished(self) -> bool {
        self is Created || self is Failed
    }

    /// Whether the negotiation holds the device context of the window.
    pub open spec fn holds_device_context(self) -> bool {
        !(self is LoadingLibrary || self is GettingDeviceContext || self.finished())
    }

    /// Whether a dummy context exists.
    pub open spec fn holds_dummy_context(self) -> bool {
        self is LoadingExtensions || self is ChoosingTransparentFormat
    }

    /// How many replies the negotiation can still take at most.
    pub open spec fn remaining(self) -> nat {
        match self {
            GlContextCreation::LoadingLibrary => 8,
            GlContextCreation::GettingDeviceContext => 7,
            GlContextCreation::ApplyingDefaultPixelFormat => 6,
            GlContextCreation::CreatingDummyContext { .. } => 5,
            GlContextCreation::LoadingExtensions { .. } => 4,
            GlContextCreation::ChoosingTransparentFormat { .. } => 3,
            GlContextCreation::ApplyingPixelFormat { .. } => 2,
            GlContextCreation::CreatingContext { .. } => 1,
            GlContextCreation::Created { .. } => 0,
            GlContextCreation::Failed { .. } => 0,
        }
    }

    /// Whether the negotiation waits for this kind of reply.
    pub open spec fn expects(self, reply: GlReply) -> bool {
        match self {
            GlContextCreation::LoadingLibrary => reply is Library,
            GlContextCreation::GettingDeviceContext => reply is DeviceContext,
            GlContextCreation::ApplyingDefaultPixelFormat => reply is DefaultPixelFormat,
            GlContextCreation::CreatingDummyContext { .. } => reply is DummyContext,
            GlContextCreation::LoadingExtensions { .. } => reply is Extensions,
            GlContextCreation::ChoosingTransparentFormat { .. } => reply is TransparentFormat,
            GlContextCreation::ApplyingPixelFormat { .. } => reply is PixelFormatApplied,
            GlContextCreation::CreatingContext { .. } => reply is Context,
            GlContextCreation::Created { .. } => false,
            GlContextCreation::Failed { .. } => false,
        }
    }

    /// The step that follows a reply: the next state and the operations to
    /// carry out. A reply that the negotiation does not wait for changes
    /// nothing.
    ///
    /// The context is created with attributes only if a transparent pixel
    /// format was found and the entry point for it exists. Every failure
    /// after the device context was got gives it back.
    pub open spec fn stepped(self, reply: GlReply) -> (GlContextCreation, Seq<GlOp>) {
        match (self, reply) {
            (GlContextCreation::LoadingLibrary, GlReply::Library { handle, last_error }) => {
                if handle == 0 {
                    (
                        GlContextCreation::Failed {
                            error: WindowsOpenGlError::OpenGL32DllNotFound(last_error),
                        },
                        Seq::empty(),
                    )
                } else {
                    (GlContextCreation::GettingDeviceContext, seq![GlOp::GetDeviceContext])
                }
            },
            (
                GlContextCreation::GettingDeviceContext,
                GlReply::DeviceContext { handle, last_error },
            ) => {
                if handle == 0 {
                    (
                        GlContextCreation::Failed {
                            error: WindowsOpenGlError::FailedToGetDC(last_error),
                        },
                        Seq::empty(),
                    )
                } else {
                    (
                        GlContextCreation::ApplyingDefaultPixelFormat,
                        seq![GlOp::ApplyDefaultPixelFormat],
                    )
                }
            },
            (
                GlContextCreation::ApplyingDefaultPixelFormat,
                GlReply::DefaultPixelFormat { index, applied, last_error },
            ) => {
                if !applied {
                    (
                        GlContextCreation::Failed {
                            error: WindowsOpenGlError::NoMatchingPixelFormat(last_error),
                        },
                        seq![GlOp::ReleaseDeviceContext],
                    )
                } else {
                    (
                        GlContextCreation::CreatingDummyContext { default_format: index },
                        seq![GlOp::CreateDummyContext],
                    )
                }
            },
            (
                GlContextCreation::CreatingDummyContext { default_format },
                GlReply::DummyContext { context },
            ) => (
                GlContextCreation::LoadingExtensions { default_format, dummy: context },
                seq![GlOp::LoadExtensions],
            ),
            (
                GlContextCreation::LoadingExtensions { default_format, dummy },
                GlReply::Extensions { functions },
            ) => match functions.choose_pixel_format_arb {
                Some(choose) => (
                    GlContextCreation::ChoosingTransparentFormat {
                        default_format,
                        dummy,
                        extra: functions,
                    },
                    seq![GlOp::ChooseTransparentFormat { choose }],
                ),
                None => (
                    GlContextCreation::ApplyingPixelFormat { extra: functions, transparent: false },
                    seq![
                        GlOp::DeleteDummyContext { context: dummy },
                        GlOp::ApplyPixelFormat { index: default_format },
                    ],
                ),
            },
            (
                GlContextCreation::ChoosingTransparentFormat { default_format, dummy, extra },
                GlReply::TransparentFormat { succeeded, pixel_format, num_formats },
            ) => match transparent_format(succeeded, pixel_format, num_formats) {
                Some(index) => (
                    GlContextCreation::ApplyingPixelFormat { extra, transparent: true },
                    seq![
                        GlOp::DeleteDummyContext { context: dummy },
                        GlOp::ApplyPixelFormat { index },
                    ],
                ),
                None => (
                    GlContextCreation::ApplyingPixelFormat { extra, transparent: false },
                    seq![
                        GlOp::DeleteDummyContext { context: dummy },
                        GlOp::ApplyPixelFormat { index: default_format },
                    ],
                ),
            },
            (
                GlContextCreation::ApplyingPixelFormat { extra, transparent },
                GlReply::PixelFormatApplied { applied, last_error },
            ) => {
                if !applied {
                    (
                        GlContextCreation::Failed {
                            error: WindowsOpenGlError::NoMatchingPixelFormat(last_error),
                        },
                        seq![GlOp::ReleaseDeviceContext],
                    )
                } else {
                    (
                        GlContextCreation::CreatingContext { extra },
                        match extra.create_context_attribs_arb {
                            Some(create) => if transparent {
                                seq![GlOp::CreateContextWithAttributes { create }]
                            } else {
                                seq![GlOp::CreateContext]
                            },
                            None => seq![GlOp::CreateContext],
                        },
                    )
                }
            },
            (
                GlContextCreation::CreatingContext { extra },
                GlReply::Context { context, last_error },
            ) => {
                if context == 0 {
                    (
                        GlContextCreation::Failed {
                            error: WindowsOpenGlError::OpenGLNotAvailable(last_error),
                        },
                        seq![GlOp::ReleaseDeviceContext],
                    )
                } else {
                    (
                        GlContextCreation::Created { context, extra },
                        seq![GlOp::ReleaseDeviceContext],
                    )
                }
            },
            _ => (self, Seq::empty()),
        }
    }

    /// Begins a negotiation. Its first operation loads the graphics library.
    pub fn start() -> (out: (GlContextCreation, Vec<GlOp>))
        ensures
            out.0 == GlContextCreation::LoadingLibrary,
            out.1@ == seq![GlOp::LoadLibrary],
    {
        let ops = vec![GlOp::LoadLibrary];
        (GlContextCreation::LoadingLibrary, ops)
    }

    /// Takes the reply to the last operation and returns the operations of
    /// the next step.
    pub fn advance(&mut self, reply: GlReply) -> (ops: Vec<GlOp>)
        ensures
            (*final(self), ops@) == old(self).stepped(reply),
    {
        let mut ops: Vec<GlOp> = Vec::new();
        match (*self, reply) {
            (GlContextCreation::LoadingLibrary, GlReply::Library { handle, last_error }) => {
                if handle == 0 {
                    *self = GlContextCreation::Failed {
                        error: WindowsOpenGlError::OpenGL32DllNotFound(last_error),
                    };
                } else {
                    *self = GlContextCreation::GettingDeviceContext;
                    ops.push(GlOp::GetDeviceContext);
                }
            },
            (
                GlContextCreation::GettingDeviceContext,
                GlReply::DeviceContext { handle, last_error },
            ) => {
                if handle == 0 {
                    *self = GlContextCreation::Failed {
                        error: WindowsOpenGlError::FailedToGetDC(last_error),
                    };
                } else {
                    *self = GlContextCreation::ApplyingDefaultPixelFormat;
                    ops.push(GlOp::ApplyDefaultPixelFormat);
                }
            },
            (
                GlContextCreation::ApplyingDefaultPixelFormat,
                GlReply::DefaultPixelFormat { index, applied, last_error },
            ) => {
                if !applied {
                    *self = GlContextCreation::Failed {
                        error: WindowsOpenGlError::NoMatchingPixelFormat(last_error),
                    };
                    ops.push(GlOp::ReleaseDeviceContext);
                } else {
                    *self = GlContextCreation::CreatingDummyContext { default_format: index };
                    ops.push(GlOp::CreateDummyContext);
                }
            },
            (
                GlContextCreation::CreatingDummyContext { default_format },
                GlReply::DummyContext { context },
            ) => {
                *self = GlContextCreation::LoadingExtensions { default_format, dummy: context };
                ops.push(GlOp::LoadExtensions);
            },
            (
                GlContextCreation::LoadingExtensions { default_format, dummy },
                GlReply::Extensions { functions },
            ) => match functions.choose_pixel_format_arb {
                Some(choose) => {
                    *self = GlContextCreation::ChoosingTransparentFormat {
                        default_format,
                        dummy,
                        extra: functions,
                    };
                    ops.push(GlOp::ChooseTransparentFormat { choose });
                },
                None => {
                    *self = GlContextCreation::ApplyingPixelFormat {
                        extra: functions,
                        transparent: false,
                    };
                    ops.push(GlOp::DeleteDummyContext { context: dummy });
                    ops.push(GlOp::ApplyPixelFormat { index: default_format });
                },
            },
            (
                GlContextCreation::ChoosingTransparentFormat { default_format, dummy, extra },
                GlReply::TransparentFormat { succeeded, pixel_format, num_formats },
            ) => {
                let chosen = get_transparent_pixel_format_index(succeeded, pixel_format, num_formats);
                let (index, transparent) = match chosen {
                    Some(index) => (index, true),
                    None => (default_format, false),
                };
                *self = GlContextCreation::ApplyingPixelFormat { extra, transparent };
                ops.push(GlOp::DeleteDummyContext { context: dummy });
                ops.push(GlOp::ApplyPixelFormat { index });
            },
            (
                GlContextCreation::ApplyingPixelFormat { extra, transparent },
                GlReply::PixelFormatApplied { applied, last_error },
            ) => {
                if !applied {
                    *self = GlContextCreation::Failed {
                        error: WindowsOpenGlError::NoMatchingPixelFormat(last_error),
                    };
                    ops.push(GlOp::ReleaseDeviceContext);
                } else {
                    *self = GlContextCreation::CreatingContext { extra };
                    let create = if transparent {
                        extra.create_context_attribs_arb
                    } else {
                        None
                    };
                    match create {
                        Some(create) => {
                            ops.push(GlOp::CreateContextWithAttributes { create });
                        },
                        None => {
                            ops.push(GlOp::CreateContext);
                        },
                    }
                }
            },
            (
                GlContextCreation::CreatingContext { extra },
                GlReply::Context { context, last_error },
            ) => {
                if context == 0 {
                    *self = GlContextCreation::Failed {
                        error: WindowsOpenGlError::OpenGLNotAvailable(last_error),
                    };
                } else {
                    *self = GlContextCreation::Created { context, extra };
                }
                ops.push(GlOp::ReleaseDeviceContext);
            },
            _ => {},
        }
        ops
    }

    /// How the negotiation ended, once it has: with a context and the
    /// extensions that were found, or with the reason why there is none.
    pub fn result(&self) -> (result: Option<Result<(usize, ExtraWglFunctions), WindowsOpenGlError>>)
        ensures
            match *self {
                GlContextCreation::Created { context, extra } => result == Some(
                    Ok::<(usize, ExtraWglFunctions), WindowsOpenGlError>((context, extra)),
                ),
                GlContextCreation::Failed { error } => result == Some(
                    Err::<(usize, ExtraWglFunctions), WindowsOpenGlError>(error),
                ),
                _ => result is None,
            },
    {
        match *self {
            GlContextCreation::Created { context, extra } => Some(Ok((context, extra))),
            GlContextCreation::Failed { error } => Some(Err(error)),
            _ => None,
        }
    }
}

/// Every reply that the negotiation waits for brings it nearer to its end,
/// so that it ends after eight replies at most; any other reply changes
/// nothing and asks for nothing.
pub proof fn lemma_negotiation_progresses(state: GlContextCreation, reply: GlReply)
    ensures
        state.expects(reply) ==> state.stepped(reply).0.remaining() < state.remaining(),
        !state.expects(reply) ==> state.stepped(reply) == (state, Seq::<GlOp>::empty()),
        state.remaining() == 0 <==> state.finished(),
{
}

/// The device context is given back by the step that ends the negotiation,
/// if the negotiation holds it, and by no other step.
pub proof fn lemma_device_context_released(state: GlContextCreation, reply: GlReply)
    ensures
        state.stepped(reply).1.contains(GlOp::ReleaseDeviceContext) <==> state.holds_device_context()
            && state.stepped(reply).0.finished(),
        state.stepped(reply).0.holds_device_context() ==> state.holds_device_context()
            || state is GettingDeviceContext,
{
    let ops = state.stepped(reply).1;
    if ops.len() == 1 {
        assert(ops.contains(GlOp::ReleaseDeviceContext) <==> ops[0] == GlOp::ReleaseDeviceContext);
    } else if ops.len() == 2 {
        assert(ops.contains(GlOp::ReleaseDeviceContext) <==> ops[0] == GlOp::ReleaseDeviceContext
            || ops[1] == GlOp::ReleaseDeviceContext);
    }
}

/// The dummy context is deleted by the step that leaves the states in which
/// it exists, before the pixel format of the window is set.
pub proof fn lemma_dummy_context_deleted(state: GlContextCreation, reply: GlReply)
    requires
        state.holds_dummy_context(),
        !state.stepped(reply).0.holds_dummy_context(),
    ensures
        state.stepped(reply).1.len() == 2,
        state.stepped(reply).1[0] is DeleteDummyContext,
        state.stepped(reply).1[1] is ApplyPixelFormat,
{
}

/// A negotiation ends with a context only if the platform had one to give.
pub proof fn lemma_created_context_is_not_null(state: GlContextCreation, reply: GlReply)
    requires
        !state.finished(),
        state.stepped(reply).0 is Created,
    ensures
        state.stepped(reply).0->context != 0,
        reply matches GlReply::Context { context, .. } && context == state.stepped(reply).0->context,
{
}

/// The negotiation after a run of replies, and all operations that it asked
/// for on the way.
pub open spec fn negotiated(start: GlContextCreation, replies: Seq<GlReply>) -> (
    GlContextCreation,
    Seq<GlOp>,
)
    decreases replies.len(),
{
    if replies.len() == 0 {
        (start, Seq::empty())
    } else {
        let before = negotiated(start, replies.drop_last());
        let step = before.0.stepped(replies.last());
        (step.0, before.1 + step.1)
    }
}

/// How many of the operations are `op`.
pub open spec fn count_ops(ops: Seq<GlOp>, op: GlOp) -> nat
    decreases ops.len(),
{
    if ops.len() == 0 {
        0
    } else {
        count_ops(ops.drop_last(), op) + (if ops.last() == op {
            1nat
        } else {
            0nat
        })
    }
}

/// How many of the operations delete a dummy context.
pub open spec fn count_dummy_deletions(ops: Seq<GlOp>) -> nat
    decreases ops.len(),
{
    if ops.len() == 0 {
        0
    } else {
        count_dummy_deletions(ops.drop_last()) + (if ops.last() is DeleteDummyContext {
            1nat
        } else {
            0nat
        })
    }
}

impl GlContextCreation {
    /// Whether the negotiation got the device context of the window at some
    /// time.
    pub open spec fn got_device_context(self) -> bool {
        match self {
            GlContextCreation::LoadingLibrary => false,
            GlContextCreation::GettingDeviceContext => false,
            GlContextCreation::Failed { error } => !(error is OpenGL32DllNotFound || error
                is FailedToGetDC),
            _ => true,
        }
    }

    /// Whether the creation of a dummy context was asked for and its
    /// deletion was not.
    pub open spec fn dummy_context_outstanding(self) -> bool {
        self is CreatingDummyContext || self.holds_dummy_context()
    }

    /// What holds of a negotiation and of the operations it has asked for so
    /// far: the device context was given back once if the negotiation has
    /// ended and ever got it, and not at all otherwise; and every dummy
    /// context that was asked for was deleted, but for the one that is still
    /// needed.
    pub open spec fn sound(self, trace: Seq<GlOp>) -> bool {
        &&& count_ops(trace, GlOp::ReleaseDeviceContext) == (if self.finished()
            && self.got_device_context() {
            1nat
        } else {
            0nat
        })
        &&& count_ops(trace, GlOp::CreateDummyContext) == count_dummy_deletions(trace) + (
        if self.dummy_context_outstanding() {
            1nat
        } else {
            0nat
        })
        &&& count_ops(trace, GlOp::CreateDummyContext) <= 1
        &&& (self is LoadingLibrary || self is GettingDeviceContext
            || self is ApplyingDefaultPixelFormat ==> count_ops(trace, GlOp::CreateDummyContext)
            == 0)
        &&& (self matches GlContextCreation::Failed { error } ==> !(error is FailedToGetPixelFormat
            || error is FailedToStoreContext))
        &&& (self matches GlContextCreation::Failed { error } && (error is OpenGL32DllNotFound
            || error is FailedToGetDC) ==> count_ops(trace, GlOp::CreateDummyContext) == 0)
    }
}

/// The counts of two lists of operations add up.
pub proof fn lemma_count_ops_concat(first: Seq<GlOp>, second: Seq<GlOp>, op: GlOp)
    ensures
        count_ops(first + second, op) == count_ops(first, op) + count_ops(second, op),
        count_dummy_deletions(first + second) == count_dummy_deletions(first)
            + count_dummy_deletions(second),
    decreases second.len(),
{
    if second.len() == 0 {
        assert(first + second == first);
    } else {
        assert((first + second).drop_last() == first + second.drop_last());
        assert((first + second).last() == second.last());
        lemma_count_ops_concat(first, second.drop_last(), op);
    }
}

/// A step keeps a negotiation sound.
pub proof fn lemma_negotiation_step_sound(state: GlContextCreation, trace: Seq<GlOp>, reply: GlReply)
    requires
        state.sound(trace),
    ensures
        state.stepped(reply).0.sound(trace + state.stepped(reply).1),
{
    let ops = state.stepped(reply).1;
    lemma_count_ops_concat(trace, ops, GlOp::ReleaseDeviceContext);
    lemma_count_ops_concat(trace, ops, GlOp::CreateDummyContext);
    reveal_with_fuel(count_ops, 4);
    reveal_with_fuel(count_dummy_deletions, 4);
    if ops.len() == 0 {
        assert(trace + ops == trace);
    }
}

/// Every negotiation is sound, whatever the replies are. When it has ended,
/// the device context was given back exactly once if it was ever got, and
/// the dummy context, if one was created, was deleted.
pub proof fn lemma_negotiation_sound(replies: Seq<GlReply>)
    ensures
        negotiated(GlContextCreation::LoadingLibrary, replies).0.sound(
            negotiated(GlContextCreation::LoadingLibrary, replies).1,
        ),
        negotiated(GlContextCreation::LoadingLibrary, replies).0.finished() ==> count_ops(
            negotiated(GlContextCreation::LoadingLibrary, replies).1,
            GlOp::CreateDummyContext,
        ) == count_dummy_deletions(negotiated(GlContextCreation::LoadingLibrary, replies).1),
    decreases replies.len(),
{
    if replies.len() > 0 {
        lemma_negotiation_sound(replies.drop_last());
        let before = negotiated(GlContextCreation::LoadingLibrary, replies.drop_last());
        lemma_negotiation_step_sound(before.0, before.1, replies.last());
    }
}

} // verus!
