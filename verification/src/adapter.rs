//! An adapter abstraction that can choose between hardware and software
//! rendering.

use vstd::prelude::*;

use crate::{BackendTag, Error};
use crate::hardware;
use crate::software;

verus! {

/// A chosen backend together with its native adapter handle.
#[derive(Clone, Copy, Debug)]
pub enum Adapter {
    Hardware(hardware::Adapter),
    Software(software::Adapter),
}

impl Adapter {
    /// The backend this adapter selects.
    pub open spec fn tag(&self) -> BackendTag {
        match self {
            Adapter::Hardware(_) => BackendTag::Hardware,
            Adapter::Software(_) => BackendTag::Software,
        }
    }

    /// Returns the "best" adapter on this system: the hardware adapter
    /// when hardware discovery succeeds, the outcome of software discovery
    /// otherwise. Hardware discovery failure is swallowed; it only
    /// triggers the fallback.
    pub fn default() -> (r: Result<Adapter, Error>)
        ensures
            r matches Ok(a) && a == Adapter::Hardware(hardware::Adapter { native_id: 0 }),
    {
        match Adapter::hardware() {
            Ok(adapter) => Ok(adapter),
            Err(_) => Adapter::software(),
        }
    }

    /// Returns the "best" hardware adapter on this system.
    pub fn hardware() -> (r: Result<Adapter, Error>)
        ensures
            r matches Ok(a) && a == Adapter::Hardware(hardware::Adapter { native_id: 0 }),
    {
        match hardware::Adapter::default() {
            Ok(adapter) => Ok(Adapter::Hardware(adapter)),
            Err(err) => Err(err),
        }
    }

    /// Returns the "best" software adapter on this system.
    pub fn software() -> (r: Result<Adapter, Error>)
        ensures
            r matches Ok(a) && a == Adapter::Software(software::Adapter { native_id: 0 }),
    {
        match software::Adapter::default() {
            Ok(adapter) => Ok(Adapter::Software(adapter)),
            Err(err) => Err(err),
        }
    }
}

/// What adapter the fallback policy selects from the outcomes of hardware
/// and software discovery: the hardware adapter whenever hardware
/// discovery succeeds, otherwise whatever software discovery produced.
pub open spec fn spec_select_adapter(
    hardware_discovery: Result<hardware::Adapter, Error>,
    software_discovery: Result<software::Adapter, Error>,
) -> Result<Adapter, Error> {
    match hardware_discovery {
        Ok(adapter) => Ok(Adapter::Hardware(adapter)),
        Err(_) => match software_discovery {
            Ok(adapter) => Ok(Adapter::Software(adapter)),
            Err(err) => Err(err),
        },
    }
}

/// Applies the fallback policy of [`Adapter::default`] to given discovery
/// outcomes, so a caller can drive the policy with a failing hardware
/// path.
pub fn select_adapter(
    hardware_discovery: Result<hardware::Adapter, Error>,
    software_discovery: Result<software::Adapter, Error>,
) -> (r: Result<Adapter, Error>)
    ensures
        r == spec_select_adapter(hardware_discovery, software_discovery),
{
    match hardware_discovery {
        Ok(adapter) => Ok(Adapter::Hardware(adapter)),
        Err(_) => match software_discovery {
            Ok(adapter) => Ok(Adapter::Software(adapter)),
            Err(err) => Err(err),
        },
    }
}

/// The fallback policy never hides a working hardware adapter: whenever
/// hardware discovery succeeds the selected adapter is hardware-tagged,
/// and a software-tagged adapter is selected only when hardware discovery
/// failed.
pub proof fn lemma_adapter_fallback(
    hardware_discovery: Result<hardware::Adapter, Error>,
    software_discovery: Result<software::Adapter, Error>,
)
    ensures
        hardware_discovery matches Ok(a) ==> spec_select_adapter(
            hardware_discovery,
            software_discovery,
        ) == Ok::<Adapter, Error>(Adapter::Hardware(a)),
        (spec_select_adapter(hardware_discovery, software_discovery) matches Ok(a) && a is Software)
            ==> hardware_discovery is Err,
{
}

} // verus!
