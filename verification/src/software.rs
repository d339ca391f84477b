//! The software rasterizer backend, modeled as bookkeeping over plain
//! values.
//!
//! The real collaborator behind this module is an in-memory rasterizer; it
//! has no windowing system, so it only offers offscreen surfaces and draws
//! into the default framebuffer. As in the hardware model, surface
//! identifiers come from a per-device counter and each GL texture is named
//! after the surface it samples.

use vstd::prelude::*;

use crate::{ContextAttributes, Error, SurfaceID, SurfaceSize, SurfaceType};
use crate::{GLenum, GLuint, GL_TEXTURE_2D};

verus! {

/// A software adapter: the native identifier of one rasterizer
/// configuration.
#[derive(Clone, Copy, Debug, PartialEq, Eq, Structural)]
pub struct Adapter {
    pub native_id: u32,
}

impl Adapter {
    /// Returns the best software adapter on this system.
    pub fn default() -> (r: Result<Adapter, Error>)
        ensures
            r == Ok::<Adapter, Error>(Adapter { native_id: 0 }),
    {
        Ok(Adapter { native_id: 0 })
    }
}

/// The software backend has no windowing system, so its widget handle
/// carries nothing; no surface can be bound to it.
#[derive(Clone, Copy, Debug)]
pub struct NativeWidget;

/// An immutable rendering configuration, reusable across contexts.
#[derive(Clone, Copy, Debug)]
pub struct ContextDescriptor {
    pub attributes: ContextAttributes,
}

/// A software surface: always an offscreen drawable.
#[derive(Debug)]
pub struct Surface {
    pub id: u32,
    pub size: SurfaceSize,
}

impl Surface {
    /// Returns this surface's size.
    pub fn size(&self) -> (r: SurfaceSize)
        ensures
            r == self.size,
    {
        self.size
    }

    /// Returns this surface's identifier.
    pub fn id(&self) -> (r: SurfaceID)
        ensures
            r == SurfaceID(self.id),
    {
        SurfaceID(self.id)
    }
}

/// A software surface consumed as a sampleable GL texture.
#[derive(Debug)]
pub struct SurfaceTexture {
    pub surface: Surface,
    pub gl_texture: GLuint,
}

impl SurfaceTexture {
    /// Returns the GL texture that samples the consumed surface.
    pub fn gl_texture(&self) -> (r: GLuint)
        ensures
            r == self.gl_texture,
    {
        self.gl_texture
    }
}

/// A live software rendering context with its bound surface.
#[derive(Debug)]
pub struct Context {
    pub descriptor: ContextDescriptor,
    pub surface: Surface,
}

/// A software device: the ownership root for one adapter's contexts and
/// surfaces.
#[derive(Debug)]
pub struct Device {
    pub adapter: Adapter,
    /// The identifier the next surface created by this device receives.
    pub next_surface_id: u32,
}

impl Device {
    /// Opens the device for the given adapter.
    pub fn new(adapter: &Adapter) -> (r: Result<Device, Error>)
        ensures
            r == Ok::<Device, Error>(Device { adapter: *adapter, next_surface_id: 1 }),
    {
        Ok(Device { adapter: *adapter, next_surface_id: 1 })
    }

    /// Returns the adapter this device was opened for.
    pub fn adapter(&self) -> (r: Adapter)
        ensures
            r == self.adapter,
    {
        self.adapter
    }

    /// Derives an immutable context descriptor from the requested
    /// attributes. No resource is allocated.
    pub fn create_context_descriptor(&self, attributes: &ContextAttributes)
        -> (r: Result<ContextDescriptor, Error>)
        ensures
            r == Ok::<ContextDescriptor, Error>(ContextDescriptor { attributes: *attributes }),
    {
        Ok(ContextDescriptor { attributes: *attributes })
    }

    /// Creates a context configured by the descriptor, with an initial
    /// offscreen surface bound to it. A widget request is rejected: the
    /// rasterizer has no windows to draw to.
    pub fn create_context(
        &mut self,
        descriptor: &ContextDescriptor,
        surface_type: &SurfaceType<NativeWidget>,
    ) -> (r: Result<Context, Error>)
        requires
            old(self).next_surface_id < u32::MAX,
        ensures
            final(self).adapter == old(self).adapter,
            surface_type matches SurfaceType::Generic { size } ==> {
                &&& final(self).next_surface_id == old(self).next_surface_id + 1
                &&& r matches Ok(c) && c == (Context {
                    descriptor: *descriptor,
                    surface: Surface { id: old(self).next_surface_id, size: *size },
                })
            },
            surface_type is Widget ==> {
                &&& *final(self) == *old(self)
                &&& r matches Err(e) && e == Error::InvalidNativeWidget
            },
    {
        match *surface_type {
            SurfaceType::Generic { size } => {
                let id: u32 = self.next_surface_id;
                self.next_surface_id = id + 1;
                Ok(Context { descriptor: *descriptor, surface: Surface { id, size } })
            }
            SurfaceType::Widget { .. } => Err(Error::InvalidNativeWidget),
        }
    }

    /// Releases the context's resources. The handle must not be used again
    /// afterwards.
    pub fn destroy_context(&self, context: &mut Context) -> (r: Result<(), Error>)
        ensures
            r == Ok::<(), Error>(()),
            *final(context) == *old(context),
    {
        let _ = context;
        Ok(())
    }

    /// Returns the descriptor the context was created from.
    pub fn context_descriptor(&self, context: &Context) -> (r: ContextDescriptor)
        ensures
            r == context.descriptor,
    {
        ContextDescriptor { attributes: context.descriptor.attributes }
    }

    /// Reads the attributes back out of a descriptor.
    pub fn context_descriptor_attributes(&self, descriptor: &ContextDescriptor)
        -> (r: ContextAttributes)
        ensures
            r == descriptor.attributes,
    {
        descriptor.attributes
    }

    /// Makes the context current on the calling thread.
    pub fn make_context_current(&self, context: &Context) -> (r: Result<(), Error>)
        ensures
            r == Ok::<(), Error>(()),
    {
        let _ = context;
        Ok(())
    }

    /// Clears the calling thread's current context. Currency is tracked
    /// per thread, so no context argument is needed.
    pub fn make_no_context_current(&self) -> (r: Result<(), Error>)
        ensures
            r == Ok::<(), Error>(()),
    {
        Ok(())
    }

    /// Binds `new_surface` to the context and hands the previously bound
    /// surface back to the caller.
    pub fn replace_context_surface(&self, context: &mut Context, new_surface: Surface)
        -> (r: Result<Surface, Error>)
        ensures
            final(context).descriptor == old(context).descriptor,
            final(context).surface == new_surface,
            r matches Ok(s) && s == old(context).surface,
    {
        let mut previous = new_surface;
        core::mem::swap(&mut context.surface, &mut previous);
        Ok(previous)
    }

    /// Returns the framebuffer object backing the context's bound surface.
    /// The rasterizer draws into the default framebuffer, which GL names 0.
    pub fn context_surface_framebuffer_object(&self, context: &Context)
        -> (r: Result<GLuint, Error>)
        ensures
            r == Ok::<GLuint, Error>(0),
    {
        let _ = context;
        Ok(0)
    }

    /// Returns the size of the context's bound surface.
    pub fn context_surface_size(&self, context: &Context) -> (r: Result<SurfaceSize, Error>)
        ensures
            r == Ok::<SurfaceSize, Error>(context.surface.size),
    {
        Ok(context.surface.size)
    }

    /// Returns the identifier of the context's bound surface.
    pub fn context_surface_id(&self, context: &Context) -> (r: Result<SurfaceID, Error>)
        ensures
            r == Ok::<SurfaceID, Error>(SurfaceID(context.surface.id)),
    {
        Ok(SurfaceID(context.surface.id))
    }

    /// Creates an offscreen surface, owned by the caller. A widget request
    /// is rejected: the rasterizer has no windows to draw to.
    pub fn create_surface(&mut self, context: &Context, surface_type: &SurfaceType<NativeWidget>)
        -> (r: Result<Surface, Error>)
        requires
            old(self).next_surface_id < u32::MAX,
        ensures
            final(self).adapter == old(self).adapter,
            surface_type matches SurfaceType::Generic { size } ==> {
                &&& final(self).next_surface_id == old(self).next_surface_id + 1
                &&& r matches Ok(s) && s == (Surface { id: old(self).next_surface_id, size: *size })
            },
            surface_type is Widget ==> {
                &&& *final(self) == *old(self)
                &&& r matches Err(e) && e == Error::InvalidNativeWidget
            },
    {
        let _ = context;
        match *surface_type {
            SurfaceType::Generic { size } => {
                let id: u32 = self.next_surface_id;
                self.next_surface_id = id + 1;
                Ok(Surface { id, size })
            }
            SurfaceType::Widget { .. } => Err(Error::InvalidNativeWidget),
        }
    }

    /// Consumes the surface and exposes it as a GL texture. The model
    /// names the texture after the surface's identifier.
    pub fn create_surface_texture(&self, context: &mut Context, surface: Surface)
        -> (r: Result<SurfaceTexture, Error>)
        ensures
            *final(context) == *old(context),
            r matches Ok(t) && t == (SurfaceTexture { gl_texture: surface.id, surface }),
    {
        let _ = context;
        let gl_texture: u32 = surface.id;
        Ok(SurfaceTexture { surface, gl_texture })
    }

    /// Releases the surface's resources.
    pub fn destroy_surface(&self, context: &mut Context, surface: Surface)
        -> (r: Result<(), Error>)
        ensures
            r == Ok::<(), Error>(()),
            *final(context) == *old(context),
    {
        let _ = context;
        let _ = surface;
        Ok(())
    }

    /// Releases the texture and hands the consumed surface back.
    pub fn destroy_surface_texture(&self, context: &mut Context, surface_texture: SurfaceTexture)
        -> (r: Result<Surface, Error>)
        ensures
            *final(context) == *old(context),
            r matches Ok(s) && s == surface_texture.surface,
    {
        let _ = context;
        Ok(surface_texture.surface)
    }

    /// Returns the texture target surface textures of this backend bind to.
    pub fn surface_gl_texture_target(&self) -> (r: GLenum)
        ensures
            r == GL_TEXTURE_2D,
    {
        GL_TEXTURE_2D
    }
}

} // verus!
