//! A device abstraction that can switch between hardware and software
//! rendering.

use vstd::prelude::*;

use crate::{BackendTag, Error, GLApi};
use crate::adapter::Adapter;
use crate::hardware;
use crate::software;

verus! {

/// The ownership root for one backend's contexts and surfaces, and the
/// facade every operation dispatches through.
#[derive(Debug)]
pub enum Device {
    Hardware(hardware::Device),
    Software(software::Device),
}

impl Device {
    /// The backend this device owns resources for.
    pub open spec fn tag(&self) -> BackendTag {
        match self {
            Device::Hardware(_) => BackendTag::Hardware,
            Device::Software(_) => BackendTag::Software,
        }
    }

    /// The adapter view of the owned backend device.
    pub open spec fn spec_adapter(&self) -> Adapter {
        match self {
            Device::Hardware(device) => Adapter::Hardware(device.adapter),
            Device::Software(device) => Adapter::Software(device.adapter),
        }
    }

    /// Whether this device can still hand out a fresh surface identifier.
    pub open spec fn can_allocate_surface_id(&self) -> bool {
        match self {
            Device::Hardware(device) => device.next_surface_id < u32::MAX,
            Device::Software(device) => device.next_surface_id < u32::MAX,
        }
    }

    /// Opens the backend device matching the adapter's tag. The device
    /// carries that same tag.
    pub fn new(adapter: &Adapter) -> (r: Result<Device, Error>)
        ensures
            r matches Ok(d) && d.tag() == adapter.tag(),
            r matches Ok(d) && d.spec_adapter() == *adapter,
            *adapter matches Adapter::Hardware(a) ==> r == Ok::<Device, Error>(Device::Hardware(
                hardware::Device { adapter: a, next_surface_id: 1 },
            )),
            *adapter matches Adapter::Software(a) ==> r == Ok::<Device, Error>(Device::Software(
                software::Device { adapter: a, next_surface_id: 1 },
            )),
    {
        match *adapter {
            Adapter::Hardware(ref adapter) => match hardware::Device::new(adapter) {
                Ok(device) => Ok(Device::Hardware(device)),
                Err(err) => Err(err),
            },
            Adapter::Software(ref adapter) => match software::Device::new(adapter) {
                Ok(device) => Ok(Device::Software(device)),
                Err(err) => Err(err),
            },
        }
    }

    /// Returns the adapter view of the owned backend device, carrying the
    /// device's own tag.
    pub fn adapter(&self) -> (r: Adapter)
        ensures
            r == self.spec_adapter(),
    {
        match *self {
            Device::Hardware(ref device) => Adapter::Hardware(device.adapter()),
            Device::Software(ref device) => Adapter::Software(device.adapter()),
        }
    }

    /// The API every context of this layer speaks. Note the discrepancy:
    /// the query is positioned as a capability of a device, yet it answers
    /// a constant and takes no device at all, so a per-backend answer may
    /// be wanted here one day.
    pub fn gl_api() -> (r: GLApi)
        ensures
            r == GLApi::GL,
    {
        GLApi::GL
    }
}

} // verus!
