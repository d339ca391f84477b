//! A surface abstraction that can switch between hardware and software
//! rendering.

use vstd::prelude::*;

use crate::{BackendTag, Error, GLenum, GLuint, SurfaceID, SurfaceSize, SurfaceType};
use crate::GL_TEXTURE_2D;
use crate::context::Context;
use crate::device::Device;
use crate::hardware;
use crate::software;

verus! {

/// The native widget handles of this layer are those of the hardware
/// backend; the software backend has none to offer.
pub type NativeWidget = hardware::NativeWidget;

/// A drawable resource, tagged with the backend that created it.
#[derive(Debug)]
pub enum Surface {
    Hardware(hardware::Surface),
    Software(software::Surface),
}

impl Surface {
    /// The backend this surface was created by.
    pub open spec fn tag(&self) -> BackendTag {
        match self {
            Surface::Hardware(_) => BackendTag::Hardware,
            Surface::Software(_) => BackendTag::Software,
        }
    }

    /// The identifier of the underlying backend surface.
    pub open spec fn spec_id(&self) -> u32 {
        match self {
            Surface::Hardware(surface) => surface.id,
            Surface::Software(surface) => surface.id,
        }
    }

    /// The size of the underlying backend surface.
    pub open spec fn spec_size(&self) -> SurfaceSize {
        match self {
            Surface::Hardware(surface) => surface.size,
            Surface::Software(surface) => surface.size,
        }
    }

    /// Unwraps the hardware surface; a software-tagged value is rejected.
    pub fn hardware(self) -> (r: Result<hardware::Surface, Error>)
        ensures
            self matches Surface::Hardware(s) ==> (r matches Ok(rs) && rs == s),
            self is Software ==> (r matches Err(e) && e == Error::IncompatibleSurface),
    {
        match self {
            Surface::Hardware(surface) => Ok(surface),
            Surface::Software(_) => Err(Error::IncompatibleSurface),
        }
    }

    /// Unwraps the software surface; a hardware-tagged value is rejected.
    pub fn software(self) -> (r: Result<software::Surface, Error>)
        ensures
            self matches Surface::Software(s) ==> (r matches Ok(rs) && rs == s),
            self is Hardware ==> (r matches Err(e) && e == Error::IncompatibleSurface),
    {
        match self {
            Surface::Software(surface) => Ok(surface),
            Surface::Hardware(_) => Err(Error::IncompatibleSurface),
        }
    }

    /// Returns this surface's size, whichever backend created it.
    pub fn size(&self) -> (r: SurfaceSize)
        ensures
            r == self.spec_size(),
    {
        match self {
            Surface::Hardware(surface) => surface.size(),
            Surface::Software(surface) => surface.size(),
        }
    }

    /// Returns this surface's identifier, whichever backend created it.
    pub fn id(&self) -> (r: SurfaceID)
        ensures
            r == SurfaceID(self.spec_id()),
    {
        match self {
            Surface::Hardware(surface) => surface.id(),
            Surface::Software(surface) => surface.id(),
        }
    }
}

/// A surface consumed as a sampleable texture, tagged with the backend
/// that created it.
#[derive(Debug)]
pub enum SurfaceTexture {
    Hardware(hardware::SurfaceTexture),
    Software(software::SurfaceTexture),
}

impl SurfaceTexture {
    /// The backend this surface texture was created by.
    pub open spec fn tag(&self) -> BackendTag {
        match self {
            SurfaceTexture::Hardware(_) => BackendTag::Hardware,
            SurfaceTexture::Software(_) => BackendTag::Software,
        }
    }

    /// The surface this texture consumed, in its tagged form.
    pub open spec fn spec_surface(&self) -> Surface {
        match self {
            SurfaceTexture::Hardware(texture) => Surface::Hardware(texture.surface),
            SurfaceTexture::Software(texture) => Surface::Software(texture.surface),
        }
    }

    /// The GL texture the consumed surface is sampled through.
    pub open spec fn spec_gl_texture(&self) -> GLuint {
        match self {
            SurfaceTexture::Hardware(texture) => texture.gl_texture,
            SurfaceTexture::Software(texture) => texture.gl_texture,
        }
    }

    /// Unwraps the hardware surface texture; a software-tagged value is
    /// rejected.
    pub fn hardware(self) -> (r: Result<hardware::SurfaceTexture, Error>)
        ensures
            self matches SurfaceTexture::Hardware(t) ==> (r matches Ok(rt) && rt == t),
            self is Software ==> (r matches Err(e) && e == Error::IncompatibleSurfaceTexture),
    {
        match self {
            SurfaceTexture::Hardware(texture) => Ok(texture),
            SurfaceTexture::Software(_) => Err(Error::IncompatibleSurfaceTexture),
        }
    }

    /// Unwraps the software surface texture; a hardware-tagged value is
    /// rejected.
    pub fn software(self) -> (r: Result<software::SurfaceTexture, Error>)
        ensures
            self matches SurfaceTexture::Software(t) ==> (r matches Ok(rt) && rt == t),
            self is Hardware ==> (r matches Err(e) && e == Error::IncompatibleSurfaceTexture),
    {
        match self {
            SurfaceTexture::Software(texture) => Ok(texture),
            SurfaceTexture::Hardware(_) => Err(Error::IncompatibleSurfaceTexture),
        }
    }

    /// Returns the GL texture, whichever backend created it.
    pub fn gl_texture(&self) -> (r: GLuint)
        ensures
            r == self.spec_gl_texture(),
    {
        match self {
            SurfaceTexture::Hardware(texture) => texture.gl_texture(),
            SurfaceTexture::Software(texture) => texture.gl_texture(),
        }
    }
}

impl SurfaceType<NativeWidget> {
    /// Narrows a surface request to what the software backend can serve:
    /// an offscreen request converts unchanged, a widget request is
    /// rejected before any backend is consulted.
    pub fn into_software(&self) -> (r: Result<SurfaceType<software::NativeWidget>, Error>)
        ensures
            *self matches SurfaceType::Generic { size } ==> (r matches Ok(st) && st
                == (SurfaceType::<software::NativeWidget>::Generic { size })),
            *self is Widget ==> (r matches Err(e) && e == Error::InvalidNativeWidget),
    {
        match *self {
            SurfaceType::Generic { ref size } => Ok(SurfaceType::Generic { size: *size }),
            SurfaceType::Widget { .. } => Err(Error::InvalidNativeWidget),
        }
    }
}

/// What creating a surface does: both tags must match the device's, a
/// widget request against the software backend is rejected before the
/// backend is consulted, and an accepted request takes the next surface
/// identifier from the device.
pub open spec fn spec_create_surface(
    device: Device,
    context: Context,
    surface_type: SurfaceType<NativeWidget>,
) -> Result<(Device, Surface), Error> {
    match device {
        Device::Hardware(d) => match context {
            Context::Hardware(_) => Ok((
                Device::Hardware(hardware::Device {
                    adapter: d.adapter,
                    next_surface_id: (d.next_surface_id + 1) as u32,
                }),
                Surface::Hardware(hardware::surface_for(d.next_surface_id, surface_type)),
            )),
            Context::Software(_) => Err(Error::IncompatibleContext),
        },
        Device::Software(d) => match context {
            Context::Software(_) => match surface_type {
                SurfaceType::Generic { size } => Ok((
                    Device::Software(software::Device {
                        adapter: d.adapter,
                        next_surface_id: (d.next_surface_id + 1) as u32,
                    }),
                    Surface::Software(software::Surface { id: d.next_surface_id, size }),
                )),
                SurfaceType::Widget { .. } => Err(Error::InvalidNativeWidget),
            },
            Context::Hardware(_) => Err(Error::IncompatibleContext),
        },
    }
}

/// What consuming a surface as a texture does: the context's tag is
/// checked first, then the surface's, and an accepted surface is held
/// whole inside the texture, sampled through a GL texture named after its
/// identifier.
pub open spec fn spec_create_surface_texture(
    device: Device,
    context: Context,
    surface: Surface,
) -> Result<SurfaceTexture, Error> {
    match device {
        Device::Hardware(_) => match context {
            Context::Hardware(_) => match surface {
                Surface::Hardware(s) => Ok(SurfaceTexture::Hardware(hardware::SurfaceTexture {
                    gl_texture: s.id,
                    surface: s,
                })),
                Surface::Software(_) => Err(Error::IncompatibleSurface),
            },
            Context::Software(_) => Err(Error::IncompatibleContext),
        },
        Device::Software(_) => match context {
            Context::Software(_) => match surface {
                Surface::Software(s) => Ok(SurfaceTexture::Software(software::SurfaceTexture {
                    gl_texture: s.id,
                    surface: s,
                })),
                Surface::Hardware(_) => Err(Error::IncompatibleSurface),
            },
            Context::Hardware(_) => Err(Error::IncompatibleContext),
        },
    }
}

/// What destroying a surface texture does: the context's tag is checked
/// first, then the texture's, and the consumed surface comes back whole.
pub open spec fn spec_destroy_surface_texture(
    device: Device,
    context: Context,
    surface_texture: SurfaceTexture,
) -> Result<Surface, Error> {
    match device {
        Device::Hardware(_) => match context {
            Context::Hardware(_) => match surface_texture {
                SurfaceTexture::Hardware(t) => Ok(Surface::Hardware(t.surface)),
                SurfaceTexture::Software(_) => Err(Error::IncompatibleSurfaceTexture),
            },
            Context::Software(_) => Err(Error::IncompatibleContext),
        },
        Device::Software(_) => match context {
            Context::Software(_) => match surface_texture {
                SurfaceTexture::Software(t) => Ok(Surface::Software(t.surface)),
                SurfaceTexture::Hardware(_) => Err(Error::IncompatibleSurfaceTexture),
            },
            Context::Hardware(_) => Err(Error::IncompatibleContext),
        },
    }
}

/// What destroying a surface does: the context's tag is checked first,
/// then the surface's.
pub open spec fn spec_destroy_surface(
    device: Device,
    context: Context,
    surface: Surface,
) -> Result<(), Error> {
    if device.tag() != context.tag() {
        Err(Error::IncompatibleContext)
    } else if device.tag() != surface.tag() {
        Err(Error::IncompatibleSurface)
    } else {
        Ok(())
    }
}

impl Device {
    /// Creates a surface for the given request, owned by the caller until
    /// it is bound to a context or destroyed.
    pub fn create_surface(&mut self, context: &Context, surface_type: &SurfaceType<NativeWidget>)
        -> (r: Result<Surface, Error>)
        requires
            old(self).can_allocate_surface_id(),
        ensures
            ({
                match spec_create_surface(*old(self), *context, *surface_type) {
                    Ok(ds) => *final(self) == ds.0 && r == Ok::<Surface, Error>(ds.1),
                    Err(e) => *final(self) == *old(self) && r == Err::<Surface, Error>(e),
                }
            }),
    {
        match self {
            Device::Hardware(device) => {
                let ctx = context.hardware_ref()?;
                match device.create_surface(ctx, surface_type) {
                    Ok(surface) => Ok(Surface::Hardware(surface)),
                    Err(err) => Err(err),
                }
            }
            Device::Software(device) => {
                let ctx = context.software_ref()?;
                let surface_type = surface_type.into_software()?;
                match device.create_surface(ctx, &surface_type) {
                    Ok(surface) => Ok(Surface::Software(surface)),
                    Err(err) => Err(err),
                }
            }
        }
    }

    /// Consumes the surface and exposes it as a sampleable texture; the
    /// surface value is gone until the texture is destroyed again.
    pub fn create_surface_texture(&self, context: &mut Context, surface: Surface)
        -> (r: Result<SurfaceTexture, Error>)
        ensures
            *final(context) == *old(context),
            ({
                match spec_create_surface_texture(*self, *old(context), surface) {
                    Ok(t) => r == Ok::<SurfaceTexture, Error>(t),
                    Err(e) => r == Err::<SurfaceTexture, Error>(e),
                }
            }),
    {
        match self {
            Device::Hardware(device) => {
                let ctx = context.hardware_mut()?;
                let s = surface.hardware()?;
                match device.create_surface_texture(ctx, s) {
                    Ok(texture) => Ok(SurfaceTexture::Hardware(texture)),
                    Err(err) => Err(err),
                }
            }
            Device::Software(device) => {
                let ctx = context.software_mut()?;
                let s = surface.software()?;
                match device.create_surface_texture(ctx, s) {
                    Ok(texture) => Ok(SurfaceTexture::Software(texture)),
                    Err(err) => Err(err),
                }
            }
        }
    }

    /// Consumes and releases the surface through its owning context.
    pub fn destroy_surface(&self, context: &mut Context, surface: Surface)
        -> (r: Result<(), Error>)
        ensures
            *final(context) == *old(context),
            r == spec_destroy_surface(*self, *old(context), surface),
    {
        match self {
            Device::Hardware(device) => {
                let ctx = context.hardware_mut()?;
                let s = surface.hardware()?;
                device.destroy_surface(ctx, s)
            }
            Device::Software(device) => {
                let ctx = context.software_mut()?;
                let s = surface.software()?;
                device.destroy_surface(ctx, s)
            }
        }
    }

    /// Consumes the texture and hands the surface it held back to the
    /// caller, identity and size intact.
    pub fn destroy_surface_texture(&self, context: &mut Context, surface_texture: SurfaceTexture)
        -> (r: Result<Surface, Error>)
        ensures
            *final(context) == *old(context),
            ({
                match spec_destroy_surface_texture(*self, *old(context), surface_texture) {
                    Ok(s) => r == Ok::<Surface, Error>(s),
                    Err(e) => r == Err::<Surface, Error>(e),
                }
            }),
    {
        match self {
            Device::Hardware(device) => {
                let ctx = context.hardware_mut()?;
                let t = surface_texture.hardware()?;
                match device.destroy_surface_texture(ctx, t) {
                    Ok(surface) => Ok(Surface::Hardware(surface)),
                    Err(err) => Err(err),
                }
            }
            Device::Software(device) => {
                let ctx = context.software_mut()?;
                let t = surface_texture.software()?;
                match device.destroy_surface_texture(ctx, t) {
                    Ok(surface) => Ok(Surface::Software(surface)),
                    Err(err) => Err(err),
                }
            }
        }
    }

    /// Returns the texture target that surface textures bind to.
    pub fn surface_gl_texture_target(&self) -> (r: GLenum)
        ensures
            r == GL_TEXTURE_2D,
    {
        match self {
            Device::Hardware(device) => device.surface_gl_texture_target(),
            Device::Software(device) => device.surface_gl_texture_target(),
        }
    }

    /// Declared but not implemented: always fails with
    /// [`Error::Unimplemented`], for every surface and every backend.
    pub fn lock_surface_data<'s>(&self, surface: &'s mut Surface)
        -> (r: Result<SurfaceDataGuard<'s>, Error>)
        ensures
            *final(surface) == *old(surface),
            r matches Err(e) && e == Error::Unimplemented,
    {
        let _ = surface;
        Err(Error::Unimplemented)
    }
}

/// Every resource a device creates carries that device's tag, so a
/// mismatched accessor on it fails and a matched one succeeds.
pub proof fn lemma_created_resources_carry_device_tag(
    device: Device,
    descriptor: crate::context::ContextDescriptor,
    surface_type: SurfaceType<NativeWidget>,
    context: Context,
    surface: Surface,
)
    ensures
        crate::context::spec_create_context(device, descriptor, surface_type) matches Ok(dc)
            ==> dc.0.tag() == device.tag() && dc.1.tag() == device.tag(),
        spec_create_surface(device, context, surface_type) matches Ok(ds) ==> ds.0.tag()
            == device.tag() && ds.1.tag() == device.tag(),
        spec_create_surface_texture(device, context, surface) matches Ok(t) ==> t.tag()
            == device.tag(),
{
}

/// A device never repeats a surface identifier: whatever two requests are
/// served one after the other, the two surfaces carry distinct
/// identifiers.
pub proof fn lemma_surface_ids_are_fresh(
    device: Device,
    context: Context,
    first_request: SurfaceType<NativeWidget>,
    second_request: SurfaceType<NativeWidget>,
)
    requires
        device.can_allocate_surface_id(),
    ensures
        ({
            let first = spec_create_surface(device, context, first_request);
            first matches Ok(ds) ==> (spec_create_surface(ds.0, context, second_request)
                matches Ok(ds2) ==> ds.1.spec_id() != ds2.1.spec_id())
        }),
{
}

/// Converting a surface into a texture and destroying the texture again
/// is a round trip: the surface comes back as the very value that went
/// in, so its identifier and size are unchanged.
pub proof fn lemma_surface_texture_round_trip(device: Device, context: Context, surface: Surface)
    requires
        device.tag() == context.tag(),
        device.tag() == surface.tag(),
    ensures
        ({
            let created = spec_create_surface_texture(device, context, surface);
            &&& created matches Ok(texture)
            &&& spec_destroy_surface_texture(device, context, texture)
                == Ok::<Surface, Error>(surface)
            &&& texture.spec_surface().spec_id() == surface.spec_id()
            &&& texture.spec_surface().spec_size() == surface.spec_size()
        }),
{
}

/// A guard that would expose a locked surface's data; no operation hands
/// one out yet.
#[derive(Debug)]
pub struct SurfaceDataGuard<'a> {
    phantom: core::marker::PhantomData<&'a ()>,
}

} // verus!
