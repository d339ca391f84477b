//! Adapter selection, the fallback policy, and device construction.

use surfman::adapter::{select_adapter, Adapter};
use surfman::device::Device;
use surfman::{hardware, software, Error, GLApi, GL_TEXTURE_2D};

#[test]
fn default_adapter_prefers_hardware() {
    let adapter = Adapter::default().unwrap();
    assert!(matches!(adapter, Adapter::Hardware(_)));
}

#[test]
fn forced_hardware_adapter_is_hardware_tagged() {
    let adapter = Adapter::hardware().unwrap();
    assert!(matches!(adapter, Adapter::Hardware(_)));
}

#[test]
fn forced_software_adapter_is_software_tagged() {
    let adapter = Adapter::software().unwrap();
    assert!(matches!(adapter, Adapter::Software(_)));
}

#[test]
fn fallback_selects_hardware_when_discovery_succeeds() {
    let hardware_discovery = hardware::Adapter::default();
    let software_discovery = software::Adapter::default();
    let selected = select_adapter(hardware_discovery, software_discovery).unwrap();
    assert!(matches!(selected, Adapter::Hardware(_)));
}

#[test]
fn fallback_selects_software_only_when_hardware_fails() {
    let software_discovery = software::Adapter::default();
    let selected = select_adapter(Err(Error::Failed), software_discovery).unwrap();
    assert!(matches!(selected, Adapter::Software(_)));
}

#[test]
fn fallback_reports_software_failure_unchanged() {
    let selected = select_adapter(Err(Error::Failed), Err(Error::Failed));
    assert_eq!(selected.unwrap_err(), Error::Failed);
}

#[test]
fn device_carries_hardware_adapter_tag() {
    let adapter = Adapter::hardware().unwrap();
    let device = Device::new(&adapter).unwrap();
    assert!(matches!(device.adapter(), Adapter::Hardware(_)));
}

#[test]
fn device_carries_software_adapter_tag() {
    let adapter = Adapter::software().unwrap();
    let device = Device::new(&adapter).unwrap();
    assert!(matches!(device.adapter(), Adapter::Software(_)));
}

#[test]
fn gl_api_is_the_constant_gl() {
    assert_eq!(Device::gl_api(), GLApi::GL);
}

#[test]
fn texture_target_is_texture_2d_on_both_backends() {
    let hw = Device::new(&Adapter::hardware().unwrap()).unwrap();
    let sw = Device::new(&Adapter::software().unwrap()).unwrap();
    assert_eq!(hw.surface_gl_texture_target(), GL_TEXTURE_2D);
    assert_eq!(sw.surface_gl_texture_target(), GL_TEXTURE_2D);
}

#[test]
fn make_no_context_current_succeeds_for_any_device() {
    let hw = Device::new(&Adapter::hardware().unwrap()).unwrap();
    let sw = Device::new(&Adapter::software().unwrap()).unwrap();
    assert_eq!(hw.make_no_context_current(), Ok(()));
    assert_eq!(sw.make_no_context_current(), Ok(()));
}
