//! Context and surface lifecycle: creation, tag checking, binding,
//! texture conversion, and the declared-but-unimplemented data lock.

use surfman::adapter::Adapter;
use surfman::context::Context;
use surfman::device::Device;
use surfman::surface::{NativeWidget, Surface};
use surfman::{hardware, ContextAttributes, Error, SurfaceID, SurfaceSize, SurfaceType};

fn attributes() -> ContextAttributes {
    ContextAttributes {
        alpha: true,
        depth: true,
        stencil: false,
        multisample: false,
    }
}

fn generic(width: i32, height: i32) -> SurfaceType<NativeWidget> {
    SurfaceType::Generic {
        size: SurfaceSize::new(width, height),
    }
}

fn widget() -> SurfaceType<NativeWidget> {
    SurfaceType::Widget {
        native_widget: hardware::NativeWidget {
            window: 42,
            size: SurfaceSize::new(300, 200),
        },
    }
}

fn hardware_device() -> Device {
    Device::new(&Adapter::hardware().unwrap()).unwrap()
}

fn software_device() -> Device {
    Device::new(&Adapter::software().unwrap()).unwrap()
}

fn context_under(device: &mut Device, width: i32, height: i32) -> Context {
    let descriptor = device.create_context_descriptor(&attributes()).unwrap();
    device
        .create_context(&descriptor, &generic(width, height))
        .unwrap()
}

#[test]
fn generic_surface_size_matches_request_on_hardware() {
    let mut device = hardware_device();
    let context = context_under(&mut device, 640, 480);
    let surface = device.create_surface(&context, &generic(321, 123)).unwrap();
    assert_eq!(surface.size(), SurfaceSize::new(321, 123));
}

#[test]
fn generic_surface_size_matches_request_on_software() {
    let mut device = software_device();
    let context = context_under(&mut device, 640, 480);
    let surface = device.create_surface(&context, &generic(321, 123)).unwrap();
    assert_eq!(surface.size(), SurfaceSize::new(321, 123));
}

#[test]
fn widget_context_on_software_fails_with_invalid_native_widget() {
    let mut device = software_device();
    let descriptor = device.create_context_descriptor(&attributes()).unwrap();
    let result = device.create_context(&descriptor, &widget());
    assert_eq!(result.unwrap_err(), Error::InvalidNativeWidget);
}

#[test]
fn widget_surface_on_software_fails_with_invalid_native_widget() {
    let mut device = software_device();
    let context = context_under(&mut device, 64, 64);
    let result = device.create_surface(&context, &widget());
    assert_eq!(result.unwrap_err(), Error::InvalidNativeWidget);
}

#[test]
fn widget_surface_on_hardware_takes_the_widget_size() {
    let mut device = hardware_device();
    let context = context_under(&mut device, 64, 64);
    let surface = device.create_surface(&context, &widget()).unwrap();
    assert_eq!(surface.size(), SurfaceSize::new(300, 200));
}

#[test]
fn widget_context_on_hardware_binds_a_widget_sized_surface() {
    let mut device = hardware_device();
    let descriptor = device.create_context_descriptor(&attributes()).unwrap();
    let context = device.create_context(&descriptor, &widget()).unwrap();
    assert_eq!(
        device.context_surface_size(&context).unwrap(),
        SurfaceSize::new(300, 200)
    );
}

#[test]
fn surface_type_into_software_rejects_widget_requests() {
    assert_eq!(widget().into_software().unwrap_err(), Error::InvalidNativeWidget);
    assert!(generic(10, 20).into_software().is_ok());
}

#[test]
fn surface_texture_round_trip_preserves_id_and_size_on_hardware() {
    let mut device = hardware_device();
    let mut context = context_under(&mut device, 640, 480);
    let surface = device.create_surface(&context, &generic(256, 128)).unwrap();
    let id = surface.id();
    let size = surface.size();
    let texture = device.create_surface_texture(&mut context, surface).unwrap();
    let surface = device.destroy_surface_texture(&mut context, texture).unwrap();
    assert_eq!(surface.id(), id);
    assert_eq!(surface.size(), size);
}

#[test]
fn surface_texture_round_trip_preserves_id_and_size_on_software() {
    let mut device = software_device();
    let mut context = context_under(&mut device, 640, 480);
    let surface = device.create_surface(&context, &generic(256, 128)).unwrap();
    let id = surface.id();
    let size = surface.size();
    let texture = device.create_surface_texture(&mut context, surface).unwrap();
    let surface = device.destroy_surface_texture(&mut context, texture).unwrap();
    assert_eq!(surface.id(), id);
    assert_eq!(surface.size(), size);
}

#[test]
fn gl_texture_is_named_after_the_consumed_surface() {
    let mut device = hardware_device();
    let mut context = context_under(&mut device, 640, 480);
    let surface = device.create_surface(&context, &generic(256, 128)).unwrap();
    let SurfaceID(raw_id) = surface.id();
    let texture = device.create_surface_texture(&mut context, surface).unwrap();
    assert_eq!(texture.gl_texture(), raw_id);
}

#[test]
fn sequential_binding_returns_old_surface_and_reports_new_size() {
    let mut device = software_device();
    let mut context = context_under(&mut device, 640, 480);
    assert_eq!(
        device.context_surface_size(&context).unwrap(),
        SurfaceSize::new(640, 480)
    );
    let surface_a = device.create_surface(&context, &generic(640, 480)).unwrap();
    let id_a = surface_a.id();
    let surface_a_back = device
        .replace_context_surface(&mut context, surface_a)
        .unwrap();
    let surface_b = device.create_surface(&context, &generic(1280, 720)).unwrap();
    let returned = device
        .replace_context_surface(&mut context, surface_b)
        .unwrap();
    assert_eq!(returned.id(), id_a);
    assert_eq!(returned.size(), SurfaceSize::new(640, 480));
    assert_eq!(
        device.context_surface_size(&context).unwrap(),
        SurfaceSize::new(1280, 720)
    );
    let _ = surface_a_back;
}

#[test]
fn lock_surface_data_always_fails_with_unimplemented() {
    let mut hw_device = hardware_device();
    let hw_context = context_under(&mut hw_device, 32, 32);
    let mut hw_surface = hw_device.create_surface(&hw_context, &generic(32, 32)).unwrap();
    assert_eq!(
        hw_device.lock_surface_data(&mut hw_surface).unwrap_err(),
        Error::Unimplemented
    );

    let mut sw_device = software_device();
    let sw_context = context_under(&mut sw_device, 32, 32);
    let mut sw_surface = sw_device.create_surface(&sw_context, &generic(32, 32)).unwrap();
    assert_eq!(
        sw_device.lock_surface_data(&mut sw_surface).unwrap_err(),
        Error::Unimplemented
    );
}

#[test]
fn context_accessors_reject_the_other_backend() {
    let mut hw_device = hardware_device();
    let mut hw_context = context_under(&mut hw_device, 16, 16);
    let mut sw_device = software_device();
    let mut sw_context = context_under(&mut sw_device, 16, 16);

    assert!(hw_context.hardware_ref().is_ok());
    assert!(hw_context.hardware_mut().is_ok());
    assert_eq!(
        hw_context.software_ref().unwrap_err(),
        Error::IncompatibleContext
    );
    assert_eq!(
        hw_context.software_mut().unwrap_err(),
        Error::IncompatibleContext
    );

    assert!(sw_context.software_ref().is_ok());
    assert!(sw_context.software_mut().is_ok());
    assert_eq!(
        sw_context.hardware_ref().unwrap_err(),
        Error::IncompatibleContext
    );
    assert_eq!(
        sw_context.hardware_mut().unwrap_err(),
        Error::IncompatibleContext
    );
}

#[test]
fn descriptor_accessors_reject_the_other_backend() {
    let hw_device = hardware_device();
    let hw_descriptor = hw_device.create_context_descriptor(&attributes()).unwrap();
    let sw_device = software_device();
    let sw_descriptor = sw_device.create_context_descriptor(&attributes()).unwrap();

    assert!(hw_descriptor.hardware().is_ok());
    assert_eq!(hw_descriptor.software().unwrap_err(), Error::IncompatibleContext);
    assert!(sw_descriptor.software().is_ok());
    assert_eq!(sw_descriptor.hardware().unwrap_err(), Error::IncompatibleContext);
}

#[test]
fn surface_accessors_reject_the_other_backend() {
    let mut hw_device = hardware_device();
    let hw_context = context_under(&mut hw_device, 16, 16);
    let hw_surface = hw_device.create_surface(&hw_context, &generic(16, 16)).unwrap();
    let mut sw_device = software_device();
    let sw_context = context_under(&mut sw_device, 16, 16);
    let sw_surface = sw_device.create_surface(&sw_context, &generic(16, 16)).unwrap();

    assert_eq!(hw_surface.software().unwrap_err(), Error::IncompatibleSurface);
    assert_eq!(sw_surface.hardware().unwrap_err(), Error::IncompatibleSurface);

    let hw_surface = hw_device.create_surface(&hw_context, &generic(16, 16)).unwrap();
    let sw_surface = sw_device.create_surface(&sw_context, &generic(16, 16)).unwrap();
    assert!(hw_surface.hardware().is_ok());
    assert!(sw_surface.software().is_ok());
}

#[test]
fn surface_texture_accessors_reject_the_other_backend() {
    let mut hw_device = hardware_device();
    let mut hw_context = context_under(&mut hw_device, 16, 16);
    let hw_surface = hw_device.create_surface(&hw_context, &generic(16, 16)).unwrap();
    let hw_texture = hw_device
        .create_surface_texture(&mut hw_context, hw_surface)
        .unwrap();
    let mut sw_device = software_device();
    let mut sw_context = context_under(&mut sw_device, 16, 16);
    let sw_surface = sw_device.create_surface(&sw_context, &generic(16, 16)).unwrap();
    let sw_texture = sw_device
        .create_surface_texture(&mut sw_context, sw_surface)
        .unwrap();

    assert_eq!(
        hw_texture.software().unwrap_err(),
        Error::IncompatibleSurfaceTexture
    );
    assert_eq!(
        sw_texture.hardware().unwrap_err(),
        Error::IncompatibleSurfaceTexture
    );
}

#[test]
fn operations_reject_a_context_of_the_wrong_tag() {
    let mut hw_device = hardware_device();
    let mut sw_context = {
        let mut sw_device = software_device();
        context_under(&mut sw_device, 16, 16)
    };
    let descriptor = hw_device.create_context_descriptor(&attributes()).unwrap();

    assert_eq!(
        hw_device.make_context_current(&sw_context).unwrap_err(),
        Error::IncompatibleContext
    );
    assert_eq!(
        hw_device.destroy_context(&mut sw_context).unwrap_err(),
        Error::IncompatibleContext
    );
    assert_eq!(
        hw_device.context_surface_size(&sw_context).unwrap_err(),
        Error::IncompatibleContext
    );
    assert_eq!(
        hw_device.context_surface_id(&sw_context).unwrap_err(),
        Error::IncompatibleContext
    );
    assert_eq!(
        hw_device
            .context_surface_framebuffer_object(&sw_context)
            .unwrap_err(),
        Error::IncompatibleContext
    );
    assert_eq!(
        hw_device.create_surface(&sw_context, &generic(8, 8)).unwrap_err(),
        Error::IncompatibleContext
    );
    let sw_descriptor = {
        let sw_device = software_device();
        sw_device.create_context_descriptor(&attributes()).unwrap()
    };
    assert_eq!(
        hw_device
            .create_context(&sw_descriptor, &generic(8, 8))
            .unwrap_err(),
        Error::IncompatibleContext
    );
    let _ = descriptor;
}

#[test]
fn operations_reject_a_surface_of_the_wrong_tag() {
    let mut hw_device = hardware_device();
    let mut hw_context = context_under(&mut hw_device, 16, 16);
    let sw_surface = {
        let mut sw_device = software_device();
        let sw_context = context_under(&mut sw_device, 16, 16);
        sw_device.create_surface(&sw_context, &generic(16, 16)).unwrap()
    };

    assert_eq!(
        hw_device
            .replace_context_surface(&mut hw_context, sw_surface)
            .unwrap_err(),
        Error::IncompatibleSurface
    );

    let sw_surface = {
        let mut sw_device = software_device();
        let sw_context = context_under(&mut sw_device, 16, 16);
        sw_device.create_surface(&sw_context, &generic(16, 16)).unwrap()
    };
    assert_eq!(
        hw_device
            .create_surface_texture(&mut hw_context, sw_surface)
            .unwrap_err(),
        Error::IncompatibleSurface
    );

    let sw_surface = {
        let mut sw_device = software_device();
        let sw_context = context_under(&mut sw_device, 16, 16);
        sw_device.create_surface(&sw_context, &generic(16, 16)).unwrap()
    };
    assert_eq!(
        hw_device
            .destroy_surface(&mut hw_context, sw_surface)
            .unwrap_err(),
        Error::IncompatibleSurface
    );
}

#[test]
fn destroy_surface_texture_rejects_the_wrong_tag() {
    let mut hw_device = hardware_device();
    let mut hw_context = context_under(&mut hw_device, 16, 16);
    let sw_texture = {
        let mut sw_device = software_device();
        let mut sw_context = context_under(&mut sw_device, 16, 16);
        let sw_surface = sw_device.create_surface(&sw_context, &generic(16, 16)).unwrap();
        sw_device
            .create_surface_texture(&mut sw_context, sw_surface)
            .unwrap()
    };
    assert_eq!(
        hw_device
            .destroy_surface_texture(&mut hw_context, sw_texture)
            .unwrap_err(),
        Error::IncompatibleSurfaceTexture
    );
}

#[test]
fn descriptor_attributes_survive_the_round_trip() {
    let requested = attributes();
    let mut device = software_device();
    let descriptor = device.create_context_descriptor(&requested).unwrap();
    assert_eq!(device.context_descriptor_attributes(&descriptor), requested);
    let context = device.create_context(&descriptor, &generic(10, 10)).unwrap();
    let recovered = device.context_descriptor(&context);
    assert_eq!(device.context_descriptor_attributes(&recovered), requested);
}

#[test]
fn surface_ids_are_distinct_within_a_device() {
    let mut device = hardware_device();
    let context = context_under(&mut device, 16, 16);
    let first = device.create_surface(&context, &generic(16, 16)).unwrap();
    let second = device.create_surface(&context, &generic(16, 16)).unwrap();
    let third = device.create_surface(&context, &generic(16, 16)).unwrap();
    assert_ne!(first.id(), second.id());
    assert_ne!(second.id(), third.id());
    assert_ne!(first.id(), third.id());
}

#[test]
fn context_surface_id_reports_the_bound_surface() {
    let mut device = software_device();
    let mut context = context_under(&mut device, 16, 16);
    let replacement = device.create_surface(&context, &generic(16, 16)).unwrap();
    let replacement_id = replacement.id();
    device
        .replace_context_surface(&mut context, replacement)
        .unwrap();
    assert_eq!(device.context_surface_id(&context).unwrap(), replacement_id);
}

#[test]
fn framebuffer_object_is_default_on_software_and_per_surface_on_hardware() {
    let mut sw_device = software_device();
    let sw_context = context_under(&mut sw_device, 16, 16);
    assert_eq!(
        sw_device.context_surface_framebuffer_object(&sw_context).unwrap(),
        0
    );

    let mut hw_device = hardware_device();
    let hw_context = context_under(&mut hw_device, 16, 16);
    let SurfaceID(raw_id) = hw_device.context_surface_id(&hw_context).unwrap();
    assert_eq!(
        hw_device.context_surface_framebuffer_object(&hw_context).unwrap(),
        raw_id
    );
}

#[test]
fn matching_context_operations_succeed() {
    let mut device = hardware_device();
    let mut context = context_under(&mut device, 16, 16);
    assert_eq!(device.make_context_current(&context), Ok(()));
    let surface = device.create_surface(&context, &generic(16, 16)).unwrap();
    assert_eq!(device.destroy_surface(&mut context, surface), Ok(()));
    assert_eq!(device.destroy_context(&mut context), Ok(()));
}

#[test]
fn consumed_surface_comes_back_from_its_texture() {
    let mut device = software_device();
    let mut context = context_under(&mut device, 16, 16);
    let surface = device.create_surface(&context, &generic(48, 24)).unwrap();
    let texture = device.create_surface_texture(&mut context, surface).unwrap();
    let surface: Surface = device
        .destroy_surface_texture(&mut context, texture)
        .unwrap();
    assert_eq!(surface.size(), SurfaceSize::new(48, 24));
}
