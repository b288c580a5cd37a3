use glutin::context::{ContextApi as Api, ContextAttributesBuilder, Version};
use glutin_egl::attributes::{context_attributes, ContextApi, ContextAttempt};
use glutin_egl::config::ConfigInfo;
use glutin_egl::creation::{ConfigSearch, ContextSearch, Gles3MinorVersion};
use glutin_egl::gl::Command;
use glutin_egl::srgb::SrgbFrameBufferKind;

fn begin(version: &str) -> Option<ConfigSearch> {
    ConfigSearch::begin(version, &Vec::new(), Gles3MinorVersion::Version1)
}

#[test]
fn attempts_come_in_order() {
    let mut asked = Vec::new();
    let mut attempt = Some(ContextAttempt::Default);
    while let Some(now) = attempt {
        asked.push(now.api());
        attempt = now.next();
    }
    assert_eq!(
        asked,
        vec![None, Some(ContextApi::Gles(None)), Some(ContextApi::OpenGl(Some((2, 1))))]
    );
}

#[test]
fn attributes_hold_the_interface() {
    let built = |api| format!("{:?}", context_attributes(api));
    let expected = ContextAttributesBuilder::new().build(None);
    assert_eq!(built(None), format!("{expected:?}"));
    let expected = ContextAttributesBuilder::new()
        .with_context_api(Api::Gles(None))
        .build(None);
    assert_eq!(built(Some(ContextApi::Gles(None))), format!("{expected:?}"));
    let expected = ContextAttributesBuilder::new()
        .with_context_api(Api::Gles(Some(Version::new(3, 2))))
        .build(None);
    assert_eq!(built(Some(ContextApi::Gles(Some((3, 2))))), format!("{expected:?}"));
    let expected = ContextAttributesBuilder::new()
        .with_context_api(Api::OpenGl(Some(Version::new(2, 1))))
        .build(None);
    assert_eq!(built(Some(ContextApi::OpenGl(Some((2, 1))))), format!("{expected:?}"));
}

#[test]
fn begins_with_what_the_display_reports() {
    let search = begin("EGL 1.5").unwrap();
    assert_eq!(search.version, (1, 5));
    assert_eq!(search.srgb_kind, SrgbFrameBufferKind::Core);
    assert_eq!(search.force_gles_minor_version, Gles3MinorVersion::Version1);
    assert_eq!(search.request().alpha_size, Some(8));

    let search = begin("EGL 1.4").unwrap();
    assert_eq!(search.srgb_kind, SrgbFrameBufferKind::Unsupported);
    assert_eq!(search.request().alpha_size, None);
}

#[test]
fn never_turns_a_reported_version_away() {
    for major in 0..=u8::MAX {
        let search = begin(&format!("EGL {major}.{}", 255 - major)).unwrap();
        assert_eq!(search.version, (major as i32, 255 - major as i32));
    }
}

#[test]
fn cannot_begin_without_a_version() {
    assert!(begin("").is_none());
    assert!(begin("EGL").is_none());
    assert!(begin("EGL 1.5 vendor").is_none());
}

#[test]
fn fails_without_configs() {
    let error = begin("EGL 1.5").unwrap().found(&Vec::new()).unwrap_err();
    assert_eq!(error.message, "No matching gl config found");
}

#[test]
fn tries_three_contexts_for_the_chosen_config() {
    let infos = vec![
        ConfigInfo { supports_transparency: None, num_samples: 0 },
        ConfigInfo { supports_transparency: None, num_samples: 8 },
    ];
    let first = begin("EGL 1.5").unwrap().found(&infos).unwrap();
    assert_eq!(first.config, 1);
    assert_eq!(first.attempt, ContextAttempt::Default);
    let attributes = |search: &ContextSearch| format!("{:?}", search.attributes());
    assert_eq!(attributes(&first), format!("{:?}", context_attributes(None)));

    let second = first.failed().unwrap();
    assert_eq!(second.config, 1);
    assert_eq!(second.attempt, ContextAttempt::Fallback);
    assert!(attributes(&second).contains("Gles(None)"));

    let third = second.failed().unwrap();
    assert_eq!(third.attempt, ContextAttempt::Legacy);
    assert!(attributes(&third).contains("major: 2, minor: 1"));
    assert!(third.failed().is_none());
}

fn chosen(version: &str, extensions: &Vec<String>) -> ContextSearch {
    let infos = vec![
        ConfigInfo { supports_transparency: None, num_samples: 0 },
        ConfigInfo { supports_transparency: Some(true), num_samples: 0 },
    ];
    ConfigSearch::begin(version, extensions, Gles3MinorVersion::Version1)
        .unwrap()
        .found(&infos)
        .unwrap()
}

#[test]
fn ends_with_all_that_was_found() {
    let configs = vec!["first", "second"];
    let search = chosen("EGL 1.4", &Vec::new()).failed().unwrap();
    assert_eq!(search.chosen_config(&configs), &"second");
    let inner = search.created("display", "context", Some("pbuffer"), configs);
    assert_eq!(inner.egl.display, "display");
    assert_eq!(inner.egl.context, "context");
    assert_eq!(inner.egl.version, (1, 4));
    assert_eq!(inner.egl.pbuffer, Some("pbuffer"));
    assert_eq!(inner.egl.make_current(), Command::MakeCurrentPbuffer);
    assert_eq!(inner.config, "second");
    assert_eq!(inner.version, (3, 0));
    assert!(inner.supports_native_window);
    assert_eq!(inner.wl_display, None);
    assert_eq!(inner.force_gles_minor_version, Gles3MinorVersion::Version1);
    assert_eq!(inner.srgb_kind, SrgbFrameBufferKind::Unsupported);
}

#[test]
fn makes_a_pbuffer_of_one_pixel_where_one_is_needed() {
    let search = chosen("EGL 1.4", &Vec::new());
    assert_eq!(search.pbuffer(), Some((1, 1)));
    assert_eq!(search.pbuffer_created(Some('p')), Ok(Some('p')));
    let error = search.pbuffer_created(None::<char>).unwrap_err();
    assert_eq!(error.message, "error in create_pbuffer_surface");
}

#[test]
fn makes_no_pbuffer_where_none_is_needed() {
    let surfaceless = vec!["EGL_KHR_surfaceless_context".to_string()];
    for search in [chosen("EGL 1.5", &Vec::new()), chosen("EGL 1.4", &surfaceless)] {
        assert_eq!(search.pbuffer(), None);
        assert_eq!(search.pbuffer_created(None::<char>), Ok(None));
        assert_eq!(search.pbuffer_created(Some('p')), Ok(None));
        let inner = search.created((), (), None::<char>, vec![0, 1]);
        assert_eq!(inner.egl.make_current(), Command::MakeCurrentSurfaceless);
    }
}
