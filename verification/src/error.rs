//! Error types of the shell.

use vstd::prelude::*;

verus! {

/// Why no hardware-accelerated rendering context could be created.
/// Each variant carries the operating system's last error code.
#[derive(Debug, Copy, Clone, PartialEq, Eq, Structural)]
pub enum WindowsOpenGlError {
    OpenGL32DllNotFound(u32),
    FailedToGetDC(u32),
    FailedToGetPixelFormat(u32),
    NoMatchingPixelFormat(u32),
    OpenGLNotAvailable(u32),
    FailedToStoreContext(u32),
}

impl WindowsOpenGlError {
    /// The operating system's error code that came with the failure.
    pub open spec fn os_code(self) -> u32 {
        match self {
            WindowsOpenGlError::OpenGL32DllNotFound(c) => c,
            WindowsOpenGlError::FailedToGetDC(c) => c,
            WindowsOpenGlError::FailedToGetPixelFormat(c) => c,
            WindowsOpenGlError::NoMatchingPixelFormat(c) => c,
            WindowsOpenGlError::OpenGLNotAvailable(c) => c,
            WindowsOpenGlError::FailedToStoreContext(c) => c,
        }
    }

    /// Reads the operating system's error code out of the error.
    pub fn code(&self) -> (c: u32)
        ensures
            c == self.os_code(),
    {
        match self {
            WindowsOpenGlError::OpenGL32DllNotFound(c) => *c,
            WindowsOpenGlError::FailedToGetDC(c) => *c,
            WindowsOpenGlError::FailedToGetPixelFormat(c) => *c,
            WindowsOpenGlError::NoMatchingPixelFormat(c) => *c,
            WindowsOpenGlError::OpenGLNotAvailable(c) => *c,
            WindowsOpenGlError::FailedToStoreContext(c) => *c,
        }
    }
}

/// The application data was in use when it was asked for, to be read.
#[derive(Debug, Copy, Clone, PartialEq, Eq, Structural)]
pub struct BorrowError;

/// The application data was in use when it was asked for, to be changed.
#[derive(Debug, Copy, Clone, PartialEq, Eq, Structural)]
pub struct BorrowMutError;

/// Why the renderer could not be constructed.
#[derive(Debug, Copy, Clone, PartialEq, Eq, Structural)]
pub enum RendererError {
    Shader,
    Thread,
    MaxTextureSize,
    SoftwareRasterizer,
    OutOfMemory,
}

/// Why a window could not be created.
#[derive(Debug, Copy, Clone, PartialEq, Eq, Structural)]
pub enum WindowsWindowCreateError {
    /// No native window; with the operating system's last error code.
    FailedToCreateHWND(u32),
    NoHDC,
    NoGlContext,
    Renderer(RendererError),
    BorrowMut(BorrowMutError),
}

/// Why the application could not start.
#[derive(Debug, Copy, Clone, PartialEq, Eq, Structural)]
pub enum WindowsStartupError {
    /// No handle of the running program; with the operating system's last
    /// error code.
    NoAppInstance(u32),
    WindowCreationFailed,
    Borrow(BorrowError),
    BorrowMut(BorrowMutError),
    Create(WindowsWindowCreateError),
    Gl(WindowsOpenGlError),
}

impl From<BorrowError> for WindowsStartupError {
    fn from(e: BorrowError) -> (error: WindowsStartupError) {
        WindowsStartupError::Borrow(e)
    }
}

impl vstd::std_specs::convert::FromSpecImpl<BorrowError> for WindowsStartupError {
    open spec fn obeys_from_spec() -> bool {
        true
    }

    open spec fn from_spec(e: BorrowError) -> WindowsStartupError {
        WindowsStartupError::Borrow(e)
    }
}

impl From<BorrowMutError> for WindowsStartupError {
    fn from(e: BorrowMutError) -> (error: WindowsStartupError) {
        WindowsStartupError::BorrowMut(e)
    }
}

impl vstd::std_specs::convert::FromSpecImpl<BorrowMutError> for WindowsStartupError {
    open spec fn obeys_from_spec() -> bool {
        true
    }

    open spec fn from_spec(e: BorrowMutError) -> WindowsStartupError {
        WindowsStartupError::BorrowMut(e)
    }
}

impl From<WindowsWindowCreateError> for WindowsStartupError {
    fn from(e: WindowsWindowCreateError) -> (error: WindowsStartupError) {
        WindowsStartupError::Create(e)
    }
}

impl vstd::std_specs::convert::FromSpecImpl<WindowsWindowCreateError> for WindowsStartupError {
    open spec fn obeys_from_spec() -> bool {
        true
    }

    open spec fn from_spec(e: WindowsWindowCreateError) -> WindowsStartupError {
        WindowsStartupError::Create(e)
    }
}

impl From<WindowsOpenGlError> for WindowsStartupError {
    fn from(e: WindowsOpenGlError) -> (error: WindowsStartupError) {
        WindowsStartupError::Gl(e)
    }
}

impl vstd::std_specs::convert::FromSpecImpl<WindowsOpenGlError> for WindowsStartupError {
    open spec fn obeys_from_spec() -> bool {
        true
    }

    open spec fn from_spec(e: WindowsOpenGlError) -> WindowsStartupError {
        WindowsStartupError::Gl(e)
    }
}

} // verus!
