use glutin::config::{ConfigSurfaceTypes, ConfigTemplateBuilder};
use glutin_egl::config::{choose_config, ConfigInfo, ConfigRequest, DEFAULT_ALPHA_SIZE, WINDOW_SURFACES};
use glutin_egl::display::{at_least, contains_extension, needs_pbuffer};
use glutin_egl::srgb::{choose_srgb_kind, SrgbFrameBufferKind};

fn config(supports_transparency: Option<bool>, num_samples: u8) -> ConfigInfo {
    ConfigInfo {
        supports_transparency,
        num_samples,
    }
}

fn choice(configs: &[ConfigInfo]) -> usize {
    let (index, windows) = choose_config(&configs.to_vec()).unwrap();
    assert!(windows);
    index
}

#[test]
fn refuses_to_choose_from_nothing() {
    let error = choose_config(&Vec::new()).unwrap_err();
    assert_eq!(error.message, "No EGL config found for window surface");
}

#[test]
fn chooses_the_only_config() {
    assert_eq!(choice(&[config(None, 0)]), 0);
}

#[test]
fn chooses_the_first_with_the_most_samples() {
    assert_eq!(choice(&[config(None, 0), config(None, 4), config(None, 2), config(None, 4)]), 1);
    assert_eq!(choice(&[config(Some(true), 8), config(Some(true), 4)]), 0);
}

#[test]
fn chooses_the_first_transparent_one() {
    assert_eq!(
        choice(&[config(Some(false), 4), config(None, 4), config(Some(true), 4), config(Some(true), 4)]),
        2
    );
    assert_eq!(choice(&[config(None, 4), config(Some(false), 4)]), 0);
}

#[test]
fn chooses_what_has_both() {
    assert_eq!(choice(&[config(None, 4), config(Some(true), 8), config(Some(true), 2)]), 1);
}

#[test]
fn samples_displace_transparency_and_the_other_way_round() {
    assert_eq!(choice(&[config(Some(true), 0), config(Some(false), 4)]), 1);
    assert_eq!(choice(&[config(Some(false), 8), config(Some(true), 0)]), 1);
    assert_eq!(
        choice(&[config(Some(true), 0), config(Some(false), 4), config(Some(true), 0)]),
        2
    );
}

#[test]
fn agrees_with_reduce() {
    let infos = [config(None, 0), config(Some(false), 4), config(Some(true), 0), config(Some(true), 4)];
    for a in infos {
        for b in infos {
            for c in infos {
                for d in infos {
                    let configs = vec![a, b, c, d];
                    let expected = (0..configs.len()).reduce(|accum, next| {
                        let (old, new) = (configs[accum], configs[next]);
                        let transparent = new.supports_transparency.unwrap_or(false)
                            & !old.supports_transparency.unwrap_or(false);
                        if transparent || new.num_samples > old.num_samples {
                            next
                        } else {
                            accum
                        }
                    });
                    assert_eq!(Some(choice(&configs)), expected);
                }
            }
        }
    }
}

#[test]
fn asks_for_alpha_with_srgb() {
    let plain = ConfigRequest::for_srgb(SrgbFrameBufferKind::Unsupported);
    assert_eq!(plain.surface_types, WINDOW_SURFACES);
    assert_eq!(plain.alpha_size, None);
    for kind in [SrgbFrameBufferKind::Core, SrgbFrameBufferKind::Khr] {
        let request = ConfigRequest::for_srgb(kind);
        assert_eq!(request.surface_types, WINDOW_SURFACES);
        assert_eq!(request.alpha_size, Some(8));
    }
}

#[test]
fn window_bit_is_that_of_glutin() {
    assert_eq!(WINDOW_SURFACES, ConfigSurfaceTypes::WINDOW.bits());
}

#[test]
fn builds_templates() {
    let request = ConfigRequest {
        surface_types: ConfigSurfaceTypes::PBUFFER.bits(),
        alpha_size: Some(3),
    };
    let expected = ConfigTemplateBuilder::new()
        .with_surface_type(ConfigSurfaceTypes::PBUFFER)
        .with_alpha_size(3)
        .build();
    assert_eq!(format!("{:?}", request.template()), format!("{expected:?}"));

    let plain = ConfigRequest::for_srgb(SrgbFrameBufferKind::Unsupported).template();
    let expected = ConfigTemplateBuilder::new()
        .with_surface_type(ConfigSurfaceTypes::WINDOW)
        .build();
    assert_eq!(format!("{plain:?}"), format!("{expected:?}"));
}

#[test]
fn alpha_has_eight_bits_by_default() {
    for surface_types in 0..8 {
        let without = ConfigRequest { surface_types, alpha_size: None };
        let with = ConfigRequest { surface_types, alpha_size: Some(DEFAULT_ALPHA_SIZE) };
        assert_eq!(format!("{:?}", without.template()), format!("{:?}", with.template()));
    }
}

#[test]
fn srgb_comes_with_egl_1_5() {
    let none = Vec::new();
    for version in [(1, 5), (1, 6), (2, 0), (i32::MAX, i32::MIN)] {
        assert_eq!(choose_srgb_kind(version, &none), SrgbFrameBufferKind::Core);
    }
    for version in [(1, 4), (0, 9), (1, -5), (i32::MIN, i32::MAX)] {
        assert_eq!(choose_srgb_kind(version, &none), SrgbFrameBufferKind::Unsupported);
    }
}

#[test]
fn srgb_comes_with_the_extension() {
    let extensions = vec![
        "EGL_KHR_surfaceless_context".to_string(),
        "EGL_KHR_gl_colorspace".to_string(),
    ];
    assert_eq!(choose_srgb_kind((1, 4), &extensions), SrgbFrameBufferKind::Khr);
    assert_eq!(choose_srgb_kind((1, 5), &extensions), SrgbFrameBufferKind::Core);
    let other = vec!["EGL_KHR_gl_colorspace_x".to_string(), "EGL_KHR_gl".to_string()];
    assert_eq!(choose_srgb_kind((1, 4), &other), SrgbFrameBufferKind::Unsupported);
}

#[test]
fn finds_extensions() {
    let extensions = vec!["a".to_string(), "b".to_string()];
    assert!(contains_extension(&extensions, "b"));
    assert!(!contains_extension(&extensions, "c"));
    assert!(!contains_extension(&Vec::new(), ""));
}

#[test]
fn versions_are_ordered() {
    assert!(at_least((1, 5), 1, 5));
    assert!(at_least((2, 0), 1, 5));
    assert!(!at_least((1, 4), 1, 5));
    assert!(!at_least((0, 9), 1, 5));
}

#[test]
fn pbuffers_are_needed_without_surfaceless_contexts() {
    let none = Vec::new();
    let surfaceless = vec!["x".to_string(), "EGL_KHR_surfaceless_context".to_string()];
    let other = vec!["EGL_KHR_surfaceless".to_string(), "EGL_KHR_gl_colorspace".to_string()];
    assert!(needs_pbuffer((1, 4), &none));
    assert!(needs_pbuffer((1, 4), &other));
    assert!(!needs_pbuffer((1, 4), &surfaceless));
    assert!(!needs_pbuffer((1, 5), &none));
    assert!(!needs_pbuffer((2, 0), &other));
}
