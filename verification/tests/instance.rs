use glutin_egl::context::{AdapterContext, EglContext};
use glutin_egl::creation::{Gles3MinorVersion, Inner};
use glutin_egl::error::InstanceError;
use glutin_egl::gl::{Capability, Command};
use glutin_egl::instance::{Instance, InstanceFlags};
use glutin_egl::srgb::SrgbFrameBufferKind;
use glutin_egl::surface::{Surface, WindowKind};

type TestInstance = Instance<u8, &'static str, char, u16>;

fn inner(srgb_kind: SrgbFrameBufferKind) -> Inner<u8, &'static str, char, u16> {
    Inner {
        egl: EglContext { context: 7, version: (1, 5), display: "display", pbuffer: None },
        version: (3, 0),
        supports_native_window: true,
        config: 300,
        wl_display: None,
        force_gles_minor_version: Gles3MinorVersion::Automatic,
        srgb_kind,
    }
}

fn instance(srgb_kind: SrgbFrameBufferKind, debug: bool, validation: bool) -> TestInstance {
    Instance::init(InstanceFlags { debug, validation }, Ok(inner(srgb_kind))).unwrap()
}

fn owned() -> AdapterContext<&'static str, u8, &'static str, char> {
    instance(SrgbFrameBufferKind::Core, false, false).adapter_context("functions")
}

fn external() -> AdapterContext<&'static str, u8, &'static str, char> {
    AdapterContext { glow: "functions", egl: None }
}

#[test]
fn instances_are_for_wayland() {
    let instance = instance(SrgbFrameBufferKind::Core, true, false);
    assert_eq!(instance.wsi.kind, WindowKind::Wayland);
    assert_eq!(instance.flags, InstanceFlags { debug: true, validation: false });
    assert_eq!(instance.inner.config, 300);
}

#[test]
fn instances_hand_errors_on() {
    let error = InstanceError::new("No matching gl config found".to_string());
    let flags = InstanceFlags { debug: false, validation: false };
    let result: Result<TestInstance, InstanceError> = Instance::init(flags, Err(error));
    assert_eq!(result.unwrap_err().message, "No matching gl config found");
}

#[test]
fn new_surfaces_are_not_configured() {
    let instance = instance(SrgbFrameBufferKind::Khr, false, false);
    let (surface, commands) = instance.create_surface("another display", 11u64);
    let surface: Surface<u8, &'static str, char, u16, u64, ()> = surface.unwrap();
    assert_eq!(commands, vec![Command::MakeNotCurrent]);
    assert_eq!(surface.egl.context, 7);
    assert_eq!(surface.egl.display, "display");
    assert_eq!(surface.egl.version, (1, 5));
    assert_eq!(surface.wsi.kind, WindowKind::Wayland);
    assert_eq!(surface.config, 300);
    assert!(surface.presentable);
    assert_eq!(surface.raw_window_handle, 11);
    assert!(surface.swapchain.is_none());
    assert!(surface.supports_srgb());
}

#[test]
fn adapters_load_functions_while_current() {
    let instance = instance(SrgbFrameBufferKind::Core, false, false);
    assert_eq!(
        instance.enumerate_adapters(),
        vec![Command::MakeCurrentSurfaceless, Command::LoadFunctions]
    );
}

#[test]
fn adapters_are_prepared_as_asked() {
    let plain = instance(SrgbFrameBufferKind::Unsupported, false, false);
    assert_eq!(plain.prepare_adapter(true), vec![Command::MakeNotCurrent]);

    let srgb = instance(SrgbFrameBufferKind::Khr, false, false);
    assert_eq!(
        srgb.prepare_adapter(false),
        vec![Command::Enable(Capability::FramebufferSrgb), Command::MakeNotCurrent]
    );

    let all = instance(SrgbFrameBufferKind::Core, true, true);
    assert_eq!(
        all.prepare_adapter(true),
        vec![
            Command::Enable(Capability::FramebufferSrgb),
            Command::ReportMaxLabelLength,
            Command::Enable(Capability::DebugOutput),
            Command::SetDebugCallback,
            Command::MakeNotCurrent,
        ]
    );
    assert_eq!(
        all.prepare_adapter(false),
        vec![Command::Enable(Capability::FramebufferSrgb), Command::MakeNotCurrent]
    );

    let debug = instance(SrgbFrameBufferKind::Unsupported, true, false);
    assert_eq!(
        debug.prepare_adapter(true),
        vec![Command::ReportMaxLabelLength, Command::MakeNotCurrent]
    );
    let validation = instance(SrgbFrameBufferKind::Unsupported, false, true);
    assert_eq!(
        validation.prepare_adapter(true),
        vec![
            Command::Enable(Capability::DebugOutput),
            Command::SetDebugCallback,
            Command::MakeNotCurrent
        ]
    );
}

#[test]
fn owned_contexts_are_known() {
    let context = owned();
    assert!(context.is_owned());
    assert_eq!(context.egl_version(), Some((1, 5)));
    assert_eq!(context.raw_display(), Some("display"));
    assert_eq!(context.egl_instance(), Some(&"display"));
    assert_eq!(context.raw_context(), Some(&7));
}

#[test]
fn external_contexts_are_not_known() {
    let context = external();
    assert!(!context.is_owned());
    assert_eq!(context.egl_version(), None);
    assert_eq!(context.raw_display(), None);
    assert_eq!(context.egl_instance(), None);
    assert_eq!(context.raw_context(), None);
}

fn with_pbuffer() -> TestInstance {
    let mut inner = inner(SrgbFrameBufferKind::Core);
    inner.egl.version = (1, 4);
    inner.egl.pbuffer = Some('p');
    Instance::init(InstanceFlags { debug: false, validation: false }, Ok(inner)).unwrap()
}

#[test]
fn owned_contexts_are_current_while_locked() {
    let context = owned();
    assert_eq!(context.lock_command(), Some(Command::MakeCurrentSurfaceless));
    let mut lock = context.lock("guard", true).unwrap();
    assert_eq!(lock.glow, "guard");
    let egl = lock.egl.as_ref().unwrap();
    assert_eq!((*egl.context, egl.display), (7, "display"));
    assert_eq!(lock.release(), vec![Command::MakeNotCurrent]);
    assert!(lock.egl.is_none());
    assert_eq!(lock.release(), vec![]);
    assert_eq!(lock.glow, "guard");
}

#[test]
fn there_is_no_lock_on_a_context_that_is_not_current() {
    assert!(owned().lock("guard", false).is_none());
}

#[test]
fn external_contexts_are_left_alone() {
    let context = external();
    assert_eq!(context.lock_command(), None);
    for made_current in [false, true] {
        let mut lock = context.lock("guard", made_current).unwrap();
        assert!(lock.egl.is_none());
        assert_eq!(lock.release(), vec![]);
    }
    assert_eq!(context.teardown(), vec![Command::DropFunctions]);
}

#[test]
fn pbuffers_stand_in_for_windows() {
    let instance = with_pbuffer();
    assert_eq!(
        instance.enumerate_adapters(),
        vec![Command::MakeCurrentPbuffer, Command::LoadFunctions]
    );
    let (surface, _) = instance.create_surface((), ());
    let surface: Surface<u8, &'static str, char, u16, (), ()> = surface.unwrap();
    assert_eq!(surface.egl.pbuffer, Some('p'));

    let context = instance.adapter_context("functions");
    assert_eq!(context.egl.as_ref().unwrap().pbuffer, Some('p'));
    assert_eq!(context.lock_command(), Some(Command::MakeCurrentPbuffer));
    assert_eq!(
        context.teardown(),
        vec![Command::MakeCurrentPbuffer, Command::DropFunctions, Command::MakeNotCurrent]
    );
}

#[test]
fn functions_are_dropped_while_current() {
    assert_eq!(
        owned().teardown(),
        vec![Command::MakeCurrentSurfaceless, Command::DropFunctions, Command::MakeNotCurrent]
    );
}

#[test]
fn contexts_are_current_with_their_pbuffer() {
    let egl = EglContext { context: 1, version: (1, 5), display: 2, pbuffer: None::<u8> };
    assert_eq!(egl.make_current(), Command::MakeCurrentSurfaceless);
    assert_eq!(egl.unmake_current(), Command::MakeNotCurrent);
    let egl = EglContext { context: 1, version: (1, 4), display: 2, pbuffer: Some(3) };
    assert_eq!(egl.make_current(), Command::MakeCurrentPbuffer);
    assert_eq!(egl.unmake_current(), Command::MakeNotCurrent);
    let copy = egl.clone();
    assert_eq!((copy.context, copy.version, copy.display, copy.pbuffer), (1, (1, 4), 2, Some(3)));
}
