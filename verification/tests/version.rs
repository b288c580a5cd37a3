use glutin_egl::text::{chars_of, parse_i32, split, split_words, Separator};
use glutin_egl::version::parse_egl_version;

fn with_std(version: &str) -> Option<(i32, i32)> {
    let words: Vec<&str> = version.split_whitespace().collect();
    if words.len() != 2 {
        return None;
    }
    let numbers: Vec<&str> = words[1].split('.').collect();
    if numbers.len() != 2 {
        return None;
    }
    Some((numbers[0].parse().ok()?, numbers[1].parse().ok()?))
}

#[test]
fn reads_versions() {
    assert_eq!(parse_egl_version("EGL 1.4"), Some((1, 4)));
    assert_eq!(parse_egl_version("EGL 1.5"), Some((1, 5)));
    assert_eq!(parse_egl_version("EGL 10.25"), Some((10, 25)));
    assert_eq!(parse_egl_version("EGL 0.0"), Some((0, 0)));
}

#[test]
fn ignores_white_space_around_a_version() {
    assert_eq!(parse_egl_version("  EGL 1.5\n"), Some((1, 5)));
    assert_eq!(parse_egl_version("\u{3000}EGL\t \u{a0}1.5\u{2029}"), Some((1, 5)));
}

#[test]
fn takes_any_first_word() {
    assert_eq!(parse_egl_version("GLES 3.2"), Some((3, 2)));
    assert_eq!(parse_egl_version(". 3.2"), Some((3, 2)));
}

#[test]
fn wants_two_words() {
    assert_eq!(parse_egl_version(""), None);
    assert_eq!(parse_egl_version("   "), None);
    assert_eq!(parse_egl_version("1.5"), None);
    assert_eq!(parse_egl_version("EGL1.5"), None);
    assert_eq!(parse_egl_version("EGL 1.5 Mesa"), None);
}

#[test]
fn wants_two_numbers() {
    assert_eq!(parse_egl_version("EGL 1"), None);
    assert_eq!(parse_egl_version("EGL 1."), None);
    assert_eq!(parse_egl_version("EGL .5"), None);
    assert_eq!(parse_egl_version("EGL ."), None);
    assert_eq!(parse_egl_version("EGL 1.5.0"), None);
    assert_eq!(parse_egl_version("EGL 1..5"), None);
    assert_eq!(parse_egl_version("EGL a.b"), None);
    assert_eq!(parse_egl_version("EGL 1,5"), None);
    assert_eq!(parse_egl_version("EGL 1.5x"), None);
    assert_eq!(parse_egl_version("EGL 1.\u{0665}"), None);
}

#[test]
fn reads_signs_and_leading_zeros() {
    assert_eq!(parse_egl_version("EGL +1.-5"), Some((1, -5)));
    assert_eq!(parse_egl_version("EGL -0.+0"), Some((0, 0)));
    assert_eq!(parse_egl_version("EGL 00000000000000001.05"), Some((1, 5)));
    assert_eq!(parse_egl_version("EGL -.1"), None);
    assert_eq!(parse_egl_version("EGL 1.+"), None);
    assert_eq!(parse_egl_version("EGL --1.5"), None);
    assert_eq!(parse_egl_version("EGL 1.5-"), None);
}

#[test]
fn reads_numbers_of_32_bits() {
    assert_eq!(
        parse_egl_version("EGL 2147483647.-2147483648"),
        Some((i32::MAX, i32::MIN))
    );
    assert_eq!(parse_egl_version("EGL 2147483648.0"), None);
    assert_eq!(parse_egl_version("EGL 0.-2147483649"), None);
    assert_eq!(parse_egl_version("EGL 99999999999999999999.0"), None);
}

#[test]
fn reads_back_what_was_written() {
    for major in [i32::MIN, -12, -1, 0, 1, 9, 10, 11, 100, 4096, i32::MAX] {
        for minor in [i32::MIN, -7, 0, 4, 5, 19, i32::MAX] {
            let text = format!("EGL {major}.{minor}");
            assert_eq!(parse_egl_version(&text), Some((major, minor)));
        }
    }
}

#[test]
fn knows_all_white_space() {
    for c in '\0'..=char::MAX {
        let version = parse_egl_version(&format!("EGL{c}1.5"));
        assert_eq!(version.is_some(), c.is_whitespace(), "{c:?}");
    }
}

#[test]
fn agrees_with_std() {
    let words = ["", " ", "E", "1.5", "+1.2", "1.", ".", "1.2.3", "-7.00", "\u{85}", "9999999999.1"];
    for a in words {
        for b in words {
            for c in words {
                let text = format!("{a} {b}{c}");
                assert_eq!(parse_egl_version(&text), with_std(&text), "{text:?}");
            }
        }
    }
}

#[test]
fn splits_text() {
    let text = |s: &str| chars_of(s);
    assert_eq!(split(&text("a.b"), Separator::Dot), vec![text("a"), text("b")]);
    assert_eq!(split(&text(""), Separator::Dot), vec![text("")]);
    assert_eq!(split(&text(".."), Separator::Dot), vec![text(""), text(""), text("")]);
    assert_eq!(split_words(&text(" ab  c ")), vec![text("ab"), text("c")]);
    assert_eq!(split_words(&text(" \t")), Vec::<Vec<char>>::new());
}

#[test]
fn reads_numbers() {
    assert_eq!(parse_i32(&chars_of("42")), Some(42));
    assert_eq!(parse_i32(&chars_of("-42")), Some(-42));
    assert_eq!(parse_i32(&chars_of("")), None);
    assert_eq!(parse_i32(&chars_of("4_2")), None);
}
