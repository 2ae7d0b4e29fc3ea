//! The error guard: what the rendering context reports after a call, and
//! which of those reports end the run.
use vstd::prelude::*;

verus! {

/// No error has been recorded since the last query.
pub const NO_ERROR: u32 = 0;

/// An enumerated argument was out of range.
pub const INVALID_ENUM: u32 = 0x0500;

/// A numeric argument was out of range.
pub const INVALID_VALUE: u32 = 0x0501;

/// The call is not allowed in the current state.
pub const INVALID_OPERATION: u32 = 0x0502;

/// There is not enough memory left to execute the call.
pub const OUT_OF_MEMORY: u32 = 0x0505;

/// The bound framebuffer is not complete.
pub const INVALID_FRAMEBUFFER_OPERATION: u32 = 0x0506;

/// The rendering context was lost.
pub const CONTEXT_LOST_WEBGL: u32 = 0x9242;

/// The error codes that the guard recognises, each of them fatal.
#[derive(Clone, Copy, Debug, PartialEq, Eq, Structural)]
pub enum GlErrorKind {
    InvalidEnum,
    InvalidValue,
    InvalidOperation,
    InvalidFramebufferOperation,
    OutOfMemory,
    ContextLost,
}

/// The fatal error that a code stands for, or `None` for the no-error code
/// and for every code the guard does not recognise.
pub open spec fn fatal_kind(code: u32) -> Option<GlErrorKind> {
    if code == INVALID_ENUM {
        Some(GlErrorKind::InvalidEnum)
    } else if code == INVALID_VALUE {
        Some(GlErrorKind::InvalidValue)
    } else if code == INVALID_OPERATION {
        Some(GlErrorKind::InvalidOperation)
    } else if code == INVALID_FRAMEBUFFER_OPERATION {
        Some(GlErrorKind::InvalidFramebufferOperation)
    } else if code == OUT_OF_MEMORY {
        Some(GlErrorKind::OutOfMemory)
    } else if code == CONTEXT_LOST_WEBGL {
        Some(GlErrorKind::ContextLost)
    } else {
        None
    }
}

pub open spec fn is_fatal(code: u32) -> bool {
    fatal_kind(code) is Some
}

/// The code that stands for each kind.
pub open spec fn code_of(kind: GlErrorKind) -> u32 {
    match kind {
        GlErrorKind::InvalidEnum => INVALID_ENUM,
        GlErrorKind::InvalidValue => INVALID_VALUE,
        GlErrorKind::InvalidOperation => INVALID_OPERATION,
        GlErrorKind::InvalidFramebufferOperation => INVALID_FRAMEBUFFER_OPERATION,
        GlErrorKind::OutOfMemory => OUT_OF_MEMORY,
        GlErrorKind::ContextLost => CONTEXT_LOST_WEBGL,
    }
}

pub open spec fn kind_name(kind: GlErrorKind) -> Seq<char> {
    match kind {
        GlErrorKind::InvalidEnum => "INVALID_ENUM"@,
        GlErrorKind::InvalidValue => "INVALID_VALUE"@,
        GlErrorKind::InvalidOperation => "INVALID_OPERATION"@,
        GlErrorKind::InvalidFramebufferOperation => "INVALID_FRAMEBUFFER_OPERATION"@,
        GlErrorKind::OutOfMemory => "OUT_OF_MEMORY"@,
        GlErrorKind::ContextLost => "CONTEXT_LOST_WEBGL"@,
    }
}

impl GlErrorKind {
    /// The name under which the rendering context documents this error.
    pub fn name(&self) -> (r: &'static str)
        ensures
            r@ == kind_name(*self),
    {
        match self {
            GlErrorKind::InvalidEnum => "INVALID_ENUM",
            GlErrorKind::InvalidValue => "INVALID_VALUE",
            GlErrorKind::InvalidOperation => "INVALID_OPERATION",
            GlErrorKind::InvalidFramebufferOperation => "INVALID_FRAMEBUFFER_OPERATION",
            GlErrorKind::OutOfMemory => "OUT_OF_MEMORY",
            GlErrorKind::ContextLost => "CONTEXT_LOST_WEBGL",
        }
    }

    /// The code that the rendering context reports for this error.
    pub fn code(&self) -> (r: u32)
        ensures
            r == code_of(*self),
            fatal_kind(r) == Some(*self),
    {
        match self {
            GlErrorKind::InvalidEnum => INVALID_ENUM,
            GlErrorKind::InvalidValue => INVALID_VALUE,
            GlErrorKind::InvalidOperation => INVALID_OPERATION,
            GlErrorKind::InvalidFramebufferOperation => INVALID_FRAMEBUFFER_OPERATION,
            GlErrorKind::OutOfMemory => OUT_OF_MEMORY,
            GlErrorKind::ContextLost => CONTEXT_LOST_WEBGL,
        }
    }
}

/// A fatal error that the guard saw, with the call site it was seen after
/// (in a draw program, the index of the call).
#[derive(Clone, Copy, Debug, PartialEq, Eq, Structural)]
pub struct GlStateError {
    pub kind: GlErrorKind,
    pub site: usize,
}

/// Tells a recognised error code apart from the others.
pub fn classify_gl_error(code: u32) -> (r: Option<GlErrorKind>)
    ensures
        r == fatal_kind(code),
{
    if code == INVALID_ENUM {
        Some(GlErrorKind::InvalidEnum)
    } else if code == INVALID_VALUE {
        Some(GlErrorKind::InvalidValue)
    } else if code == INVALID_OPERATION {
        Some(GlErrorKind::InvalidOperation)
    } else if code == INVALID_FRAMEBUFFER_OPERATION {
        Some(GlErrorKind::InvalidFramebufferOperation)
    } else if code == OUT_OF_MEMORY {
        Some(GlErrorKind::OutOfMemory)
    } else if code == CONTEXT_LOST_WEBGL {
        Some(GlErrorKind::ContextLost)
    } else {
        None
    }
}

/// The error guard: the code that the context reported after the call at
/// `site` is fatal exactly when it is recognised; the no-error code and
/// unrecognised codes pass.
pub fn check_gl_error(code: u32, site: usize) -> (r: Result<(), GlStateError>)
    ensures
        r is Ok <==> !is_fatal(code),
        r is Err ==> r->Err_0 == (GlStateError { kind: fatal_kind(code)->Some_0, site }),
        code == NO_ERROR ==> r is Ok,
{
    match classify_gl_error(code) {
        None => Ok(()),
        Some(kind) => Err(GlStateError { kind, site }),
    }
}

} // verus!
