//! A cross-platform abstraction over GPU rendering contexts and drawable
//! surfaces that lets client code work identically on a hardware-accelerated
//! backend and on a software rasterizer.
//!
//! Every resource in this crate (device, context, surface, surface texture)
//! carries the backend tag of the device that created it, and every operation
//! that takes a resource as an argument rejects a value carrying the wrong
//! tag before any backend is consulted. The backends themselves are modeled
//! as bookkeeping over plain values in [`hardware`] and [`software`]; the
//! dispatch, validation, and ownership rules stacked above them are what this
//! crate states and proves.

use vstd::prelude::*;

pub mod adapter;
pub mod context;
pub mod device;
pub mod hardware;
pub mod software;
pub mod surface;

verus! {

/// The OpenGL texture type, `GLuint`.
pub type GLuint = u32;

/// The OpenGL enumeration type, `GLenum`.
pub type GLenum = u32;

/// The OpenGL `TEXTURE_2D` texture target.
pub const GL_TEXTURE_2D: GLenum = 0x0de1;

/// The backend that produced a resource: either a hardware-accelerated
/// native backend or a software rasterizer.
#[derive(Clone, Copy, Debug, PartialEq, Eq, Structural)]
pub enum BackendTag {
    Hardware,
    Software,
}

/// Errors that the dispatch layer can report.
#[derive(Clone, Copy, Debug, PartialEq, Eq, Structural)]
pub enum Error {
    /// The backend failed to complete the operation.
    Failed,
    /// A context or context descriptor carried the wrong backend tag.
    IncompatibleContext,
    /// A surface carried the wrong backend tag.
    IncompatibleSurface,
    /// A surface texture carried the wrong backend tag.
    IncompatibleSurfaceTexture,
    /// A widget-bound surface was requested from a backend that only
    /// supports offscreen surfaces.
    InvalidNativeWidget,
    /// The operation is declared but not implemented.
    Unimplemented,
}

/// The size of a drawable surface, in device pixels.
#[derive(Clone, Copy, Debug, PartialEq, Eq, Structural)]
pub struct SurfaceSize {
    pub width: i32,
    pub height: i32,
}

impl SurfaceSize {
    /// Returns a size with the given width and height.
    pub fn new(width: i32, height: i32) -> (r: SurfaceSize)
        ensures
            r == (SurfaceSize { width, height }),
    {
        SurfaceSize { width, height }
    }
}

/// An identifier for a surface, unique among the live surfaces created by
/// one device. It tracks identity, not content.
#[derive(Clone, Copy, Debug, PartialEq, Eq, Structural)]
pub struct SurfaceID(pub u32);

/// The API a rendering context speaks.
#[derive(Clone, Copy, Debug, PartialEq, Eq, Structural)]
pub enum GLApi {
    GL,
    GLES,
}

/// Rendering configuration requested by the client: which ancillary
/// buffers the context's surfaces carry.
#[derive(Clone, Copy, Debug, PartialEq, Eq, Structural)]
pub struct ContextAttributes {
    pub alpha: bool,
    pub depth: bool,
    pub stencil: bool,
    pub multisample: bool,
}

/// What kind of surface to create: an offscreen surface of a given size, or
/// one bound to a native widget.
#[derive(Debug)]
pub enum SurfaceType<N> {
    Generic { size: SurfaceSize },
    Widget { native_widget: N },
}

} // verus!
