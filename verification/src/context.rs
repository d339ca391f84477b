//! A context abstraction that can switch between hardware and software
//! rendering.

use vstd::prelude::*;

use crate::{BackendTag, ContextAttributes, Error, GLuint, SurfaceID, SurfaceSize, SurfaceType};
use crate::device::Device;
use crate::hardware;
use crate::software;
use crate::surface::NativeWidget;
use crate::surface::Surface;

verus! {

/// A live rendering context, tagged with the backend that created it.
#[derive(Debug)]
pub enum Context {
    Hardware(hardware::Context),
    Software(software::Context),
}

impl Context {
    /// The backend this context was created by.
    pub open spec fn tag(&self) -> BackendTag {
        match self {
            Context::Hardware(_) => BackendTag::Hardware,
            Context::Software(_) => BackendTag::Software,
        }
    }

    /// The descriptor this context was created from, in its tagged form.
    pub open spec fn spec_descriptor(&self) -> ContextDescriptor {
        match self {
            Context::Hardware(context) => ContextDescriptor::Hardware(context.descriptor),
            Context::Software(context) => ContextDescriptor::Software(context.descriptor),
        }
    }

    /// The surface bound to this context, in its tagged form.
    pub open spec fn spec_surface(&self) -> Surface {
        match self {
            Context::Hardware(context) => Surface::Hardware(context.surface),
            Context::Software(context) => Surface::Software(context.surface),
        }
    }

    /// Borrows the hardware context; a software-tagged value is rejected.
    pub fn hardware_ref(&self) -> (r: Result<&hardware::Context, Error>)
        ensures
            *self matches Context::Hardware(c) ==> (r matches Ok(rc) && *rc == c),
            *self is Software ==> (r matches Err(e) && e == Error::IncompatibleContext),
    {
        match self {
            Context::Hardware(context) => Ok(context),
            Context::Software(_) => Err(Error::IncompatibleContext),
        }
    }

    /// Borrows the software context; a hardware-tagged value is rejected.
    pub fn software_ref(&self) -> (r: Result<&software::Context, Error>)
        ensures
            *self matches Context::Software(c) ==> (r matches Ok(rc) && *rc == c),
            *self is Hardware ==> (r matches Err(e) && e == Error::IncompatibleContext),
    {
        match self {
            Context::Software(context) => Ok(context),
            Context::Hardware(_) => Err(Error::IncompatibleContext),
        }
    }

    /// Mutably borrows the hardware context; a software-tagged value is
    /// rejected unchanged.
    pub fn hardware_mut(&mut self) -> (r: Result<&mut hardware::Context, Error>)
        ensures
            *old(self) matches Context::Hardware(c) ==> (r matches Ok(rc) && *rc == c
                && *final(self) == Context::Hardware(*final(rc))),
            *old(self) is Software ==> (r matches Err(e) && e == Error::IncompatibleContext
                && *final(self) == *old(self)),
    {
        match self {
            Context::Hardware(context) => Ok(context),
            Context::Software(_) => Err(Error::IncompatibleContext),
        }
    }

    /// Mutably borrows the software context; a hardware-tagged value is
    /// rejected unchanged.
    pub fn software_mut(&mut self) -> (r: Result<&mut software::Context, Error>)
        ensures
            *old(self) matches Context::Software(c) ==> (r matches Ok(rc) && *rc == c
                && *final(self) == Context::Software(*final(rc))),
            *old(self) is Hardware ==> (r matches Err(e) && e == Error::IncompatibleContext
                && *final(self) == *old(self)),
    {
        match self {
            Context::Software(context) => Ok(context),
            Context::Hardware(_) => Err(Error::IncompatibleContext),
        }
    }
}

/// An immutable rendering configuration, tagged with the backend it was
/// derived for; it allocates nothing and may seed any number of contexts.
#[derive(Clone, Copy, Debug)]
pub enum ContextDescriptor {
    Hardware(hardware::ContextDescriptor),
    Software(software::ContextDescriptor),
}

impl ContextDescriptor {
    /// The backend this descriptor was derived for.
    pub open spec fn tag(&self) -> BackendTag {
        match self {
            ContextDescriptor::Hardware(_) => BackendTag::Hardware,
            ContextDescriptor::Software(_) => BackendTag::Software,
        }
    }

    /// The attributes this descriptor was derived from.
    pub open spec fn spec_attributes(&self) -> ContextAttributes {
        match self {
            ContextDescriptor::Hardware(descriptor) => descriptor.attributes,
            ContextDescriptor::Software(descriptor) => descriptor.attributes,
        }
    }

    /// Borrows the hardware descriptor; a software-tagged value is
    /// rejected.
    pub fn hardware(&self) -> (r: Result<&hardware::ContextDescriptor, Error>)
        ensures
            *self matches ContextDescriptor::Hardware(d) ==> (r matches Ok(rd) && *rd == d),
            *self is Software ==> (r matches Err(e) && e == Error::IncompatibleContext),
    {
        match self {
            ContextDescriptor::Hardware(descriptor) => Ok(descriptor),
            ContextDescriptor::Software(_) => Err(Error::IncompatibleContext),
        }
    }

    /// Borrows the software descriptor; a hardware-tagged value is
    /// rejected.
    pub fn software(&self) -> (r: Result<&software::ContextDescriptor, Error>)
        ensures
            *self matches ContextDescriptor::Software(d) ==> (r matches Ok(rd) && *rd == d),
            *self is Hardware ==> (r matches Err(e) && e == Error::IncompatibleContext),
    {
        match self {
            ContextDescriptor::Software(descriptor) => Ok(descriptor),
            ContextDescriptor::Hardware(_) => Err(Error::IncompatibleContext),
        }
    }
}

/// What creating a context does: the descriptor's tag must match the
/// device's, a widget-bound initial surface is refused by the software
/// backend before it is consulted, and an accepted request binds an
/// initial surface carrying the device's next surface identifier.
pub open spec fn spec_create_context(
    device: Device,
    descriptor: ContextDescriptor,
    surface_type: SurfaceType<NativeWidget>,
) -> Result<(Device, Context), Error> {
    match device {
        Device::Hardware(d) => match descriptor {
            ContextDescriptor::Hardware(hd) => Ok((
                Device::Hardware(hardware::Device {
                    adapter: d.adapter,
                    next_surface_id: (d.next_surface_id + 1) as u32,
                }),
                Context::Hardware(hardware::Context {
                    descriptor: hd,
                    surface: hardware::surface_for(d.next_surface_id, surface_type),
                }),
            )),
            ContextDescriptor::Software(_) => Err(Error::IncompatibleContext),
        },
        Device::Software(d) => match descriptor {
            ContextDescriptor::Software(sd) => match surface_type {
                SurfaceType::Generic { size } => Ok((
                    Device::Software(software::Device {
                        adapter: d.adapter,
                        next_surface_id: (d.next_surface_id + 1) as u32,
                    }),
                    Context::Software(software::Context {
                        descriptor: sd,
                        surface: software::Surface { id: d.next_surface_id, size },
                    }),
                )),
                SurfaceType::Widget { .. } => Err(Error::InvalidNativeWidget),
            },
            ContextDescriptor::Hardware(_) => Err(Error::IncompatibleContext),
        },
    }
}

/// What replacing a context's bound surface does: the context's tag is
/// checked first, then the new surface's; on success the new surface is
/// bound and the previously bound surface is handed back.
pub open spec fn spec_replace_context_surface(
    device: Device,
    context: Context,
    new_surface: Surface,
) -> Result<(Context, Surface), Error> {
    match device {
        Device::Hardware(_) => match context {
            Context::Hardware(c) => match new_surface {
                Surface::Hardware(s) => Ok((
                    Context::Hardware(hardware::Context { descriptor: c.descriptor, surface: s }),
                    Surface::Hardware(c.surface),
                )),
                Surface::Software(_) => Err(Error::IncompatibleSurface),
            },
            Context::Software(_) => Err(Error::IncompatibleContext),
        },
        Device::Software(_) => match context {
            Context::Software(c) => match new_surface {
                Surface::Software(s) => Ok((
                    Context::Software(software::Context { descriptor: c.descriptor, surface: s }),
                    Surface::Software(c.surface),
                )),
                Surface::Hardware(_) => Err(Error::IncompatibleSurface),
            },
            Context::Hardware(_) => Err(Error::IncompatibleContext),
        },
    }
}

/// What the framebuffer-object query answers: the hardware backend backs
/// each surface with a framebuffer named after its identifier, the
/// software backend draws into the default framebuffer, 0.
pub open spec fn spec_context_surface_framebuffer_object(
    device: Device,
    context: Context,
) -> Result<GLuint, Error> {
    match device {
        Device::Hardware(_) => match context {
            Context::Hardware(c) => Ok(c.surface.id),
            Context::Software(_) => Err(Error::IncompatibleContext),
        },
        Device::Software(_) => match context {
            Context::Software(_) => Ok(0),
            Context::Hardware(_) => Err(Error::IncompatibleContext),
        },
    }
}

impl Device {
    /// Derives an immutable, reusable descriptor from the requested
    /// attributes, tagged with this device's backend. No resource is
    /// allocated.
    pub fn create_context_descriptor(&self, attributes: &ContextAttributes)
        -> (r: Result<ContextDescriptor, Error>)
        ensures
            r matches Ok(d) && d.tag() == self.tag() && d.spec_attributes() == *attributes,
    {
        match self {
            Device::Hardware(device) => match device.create_context_descriptor(attributes) {
                Ok(descriptor) => Ok(ContextDescriptor::Hardware(descriptor)),
                Err(err) => Err(err),
            },
            Device::Software(device) => match device.create_context_descriptor(attributes) {
                Ok(descriptor) => Ok(ContextDescriptor::Software(descriptor)),
                Err(err) => Err(err),
            },
        }
    }

    /// Creates a context from a descriptor of the matching tag, with an
    /// initial surface for the given request bound to it.
    pub fn create_context(
        &mut self,
        descriptor: &ContextDescriptor,
        surface_type: &SurfaceType<NativeWidget>,
    ) -> (r: Result<Context, Error>)
        requires
            old(self).can_allocate_surface_id(),
        ensures
            ({
                match spec_create_context(*old(self), *descriptor, *surface_type) {
                    Ok(dc) => *final(self) == dc.0 && r == Ok::<Context, Error>(dc.1),
                    Err(e) => *final(self) == *old(self) && r == Err::<Context, Error>(e),
                }
            }),
    {
        match self {
            Device::Hardware(device) => {
                let d = descriptor.hardware()?;
                match device.create_context(d, surface_type) {
                    Ok(context) => Ok(Context::Hardware(context)),
                    Err(err) => Err(err),
                }
            }
            Device::Software(device) => {
                let d = descriptor.software()?;
                let surface_type = surface_type.into_software()?;
                match device.create_context(d, &surface_type) {
                    Ok(context) => Ok(Context::Software(context)),
                    Err(err) => Err(err),
                }
            }
        }
    }

    /// Releases a context of the matching tag; the handle must not be
    /// used again afterwards.
    pub fn destroy_context(&self, context: &mut Context) -> (r: Result<(), Error>)
        ensures
            *final(context) == *old(context),
            self.tag() == old(context).tag() ==> r == Ok::<(), Error>(()),
            self.tag() != old(context).tag() ==> (r matches Err(e) && e
                == Error::IncompatibleContext),
    {
        match self {
            Device::Hardware(device) => {
                let ctx = context.hardware_mut()?;
                device.destroy_context(ctx)
            }
            Device::Software(device) => {
                let ctx = context.software_mut()?;
                device.destroy_context(ctx)
            }
        }
    }

    /// Returns the descriptor a context of the matching tag was created
    /// from.
    pub fn context_descriptor(&self, context: &Context) -> (r: ContextDescriptor)
        requires
            self.tag() == context.tag(),
        ensures
            r == context.spec_descriptor(),
    {
        match self {
            Device::Hardware(device) => ContextDescriptor::Hardware(
                device.context_descriptor(context.hardware_ref().unwrap()),
            ),
            Device::Software(device) => ContextDescriptor::Software(
                device.context_descriptor(context.software_ref().unwrap()),
            ),
        }
    }

    /// Makes a context of the matching tag current on the calling thread.
    pub fn make_context_current(&self, context: &Context) -> (r: Result<(), Error>)
        ensures
            self.tag() == context.tag() ==> r == Ok::<(), Error>(()),
            self.tag() != context.tag() ==> (r matches Err(e) && e == Error::IncompatibleContext),
    {
        match self {
            Device::Hardware(device) => {
                let ctx = context.hardware_ref()?;
                device.make_context_current(ctx)
            }
            Device::Software(device) => {
                let ctx = context.software_ref()?;
                device.make_context_current(ctx)
            }
        }
    }

    /// Clears the calling thread's current context. The native driver
    /// tracks which context is current per thread, so — unlike every
    /// sibling operation — this one names no context; any device issues
    /// the same clearing call.
    pub fn make_no_context_current(&self) -> (r: Result<(), Error>)
        ensures
            r == Ok::<(), Error>(()),
    {
        match self {
            Device::Hardware(device) => device.make_no_context_current(),
            Device::Software(device) => device.make_no_context_current(),
        }
    }

    /// Binds `new_surface` to the context and hands the previously bound
    /// surface back to the caller, who owns it again from then on.
    pub fn replace_context_surface(&self, context: &mut Context, new_surface: Surface)
        -> (r: Result<Surface, Error>)
        ensures
            ({
                match spec_replace_context_surface(*self, *old(context), new_surface) {
                    Ok(cs) => *final(context) == cs.0 && r == Ok::<Surface, Error>(cs.1),
                    Err(e) => *final(context) == *old(context) && r == Err::<Surface, Error>(e),
                }
            }),
    {
        match self {
            Device::Hardware(device) => {
                let ctx = context.hardware_mut()?;
                let s = new_surface.hardware()?;
                match device.replace_context_surface(ctx, s) {
                    Ok(previous) => Ok(Surface::Hardware(previous)),
                    Err(err) => Err(err),
                }
            }
            Device::Software(device) => {
                let ctx = context.software_mut()?;
                let s = new_surface.software()?;
                match device.replace_context_surface(ctx, s) {
                    Ok(previous) => Ok(Surface::Software(previous)),
                    Err(err) => Err(err),
                }
            }
        }
    }

    /// Returns the framebuffer object backing the context's bound
    /// surface.
    pub fn context_surface_framebuffer_object(&self, context: &Context)
        -> (r: Result<GLuint, Error>)
        ensures
            r == spec_context_surface_framebuffer_object(*self, *context),
    {
        match self {
            Device::Hardware(device) => {
                let ctx = context.hardware_ref()?;
                device.context_surface_framebuffer_object(ctx)
            }
            Device::Software(device) => {
                let ctx = context.software_ref()?;
                device.context_surface_framebuffer_object(ctx)
            }
        }
    }

    /// Returns the size of the context's bound surface.
    pub fn context_surface_size(&self, context: &Context) -> (r: Result<SurfaceSize, Error>)
        ensures
            self.tag() == context.tag() ==> r
                == Ok::<SurfaceSize, Error>(context.spec_surface().spec_size()),
            self.tag() != context.tag() ==> (r matches Err(e) && e == Error::IncompatibleContext),
    {
        match self {
            Device::Hardware(device) => {
                let ctx = context.hardware_ref()?;
                device.context_surface_size(ctx)
            }
            Device::Software(device) => {
                let ctx = context.software_ref()?;
                device.context_surface_size(ctx)
            }
        }
    }

    /// Returns the identifier of the context's bound surface.
    pub fn context_surface_id(&self, context: &Context) -> (r: Result<SurfaceID, Error>)
        ensures
            self.tag() == context.tag() ==> r
                == Ok::<SurfaceID, Error>(SurfaceID(context.spec_surface().spec_id())),
            self.tag() != context.tag() ==> (r matches Err(e) && e == Error::IncompatibleContext),
    {
        match self {
            Device::Hardware(device) => {
                let ctx = context.hardware_ref()?;
                device.context_surface_id(ctx)
            }
            Device::Software(device) => {
                let ctx = context.software_ref()?;
                device.context_surface_id(ctx)
            }
        }
    }

    /// Reads the attributes back out of a descriptor of the matching tag.
    pub fn context_descriptor_attributes(&self, context_descriptor: &ContextDescriptor)
        -> (r: ContextAttributes)
        requires
            self.tag() == context_descriptor.tag(),
        ensures
            r == context_descriptor.spec_attributes(),
    {
        match self {
            Device::Hardware(device) => device.context_descriptor_attributes(
                context_descriptor.hardware().unwrap(),
            ),
            Device::Software(device) => device.context_descriptor_attributes(
                context_descriptor.software().unwrap(),
            ),
        }
    }
}

/// Binding surfaces in sequence: replacing a context's bound surface
/// hands the previously bound surface back, and the surface-size query
/// afterwards answers with the new surface's size.
pub proof fn lemma_replace_context_surface_binds(
    device: Device,
    context: Context,
    new_surface: Surface,
)
    requires
        device.tag() == context.tag(),
        device.tag() == new_surface.tag(),
    ensures
        ({
            let replaced = spec_replace_context_surface(device, context, new_surface);
            &&& replaced matches Ok(cs)
            &&& cs.1 == context.spec_surface()
            &&& cs.0.spec_surface() == new_surface
            &&& cs.0.spec_surface().spec_size() == new_surface.spec_size()
            &&& cs.0.spec_descriptor() == context.spec_descriptor()
        }),
{
}

} // verus!
