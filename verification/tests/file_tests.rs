use wgpugd::file::{digits_of, FilenameTemplate, TemplateError};

#[test]
fn test_file_pattern() {
    let t = FilenameTemplate::new("Rplot%03d.png").unwrap();
    assert_eq!(t.prefix(), "Rplot");
    assert!(t.zero_padded());
    assert_eq!(t.digit_width(), Some(3));
    assert_eq!(t.suffix(), ".png");

    let t = FilenameTemplate::new("Rplot%3d.png").unwrap();
    assert_eq!(t.prefix(), "Rplot");
    assert!(!t.zero_padded());
    assert_eq!(t.digit_width(), Some(3));
    assert_eq!(t.suffix(), ".png");

    let t = FilenameTemplate::new("Rplot.png").unwrap();
    assert_eq!(t.prefix(), "Rplot.png");
}

#[test]
fn test_filename() {
    // No placeholder
    assert_eq!(FilenameTemplate::new("Rplot.png").unwrap().filename(10), "Rplot.png");

    // Padded with space
    assert_eq!(FilenameTemplate::new("Rplot%3d.png").unwrap().filename(10), "Rplot 10.png");

    // Padded with zero
    assert_eq!(FilenameTemplate::new("Rplot%03d.png").unwrap().filename(10), "Rplot010.png");
}

#[test]
fn template_without_placeholder_has_no_width() {
    let t = FilenameTemplate::new("Rplot.png").unwrap();
    assert_eq!(t.digit_width(), None);
    assert!(!t.zero_padded());
    assert_eq!(t.suffix(), "");
}

#[test]
fn template_rejects_empty_name_and_leading_percent() {
    assert_eq!(FilenameTemplate::new("").unwrap_err(), TemplateError::Invalid);
    assert_eq!(FilenameTemplate::new("%03d.png").unwrap_err(), TemplateError::Invalid);
    assert_eq!(FilenameTemplate::new("%").unwrap_err(), TemplateError::Invalid);
}

#[test]
fn template_rejects_line_break_after_prefix() {
    assert_eq!(FilenameTemplate::new("a%3d\n.png").unwrap_err(), TemplateError::Invalid);
    assert_eq!(FilenameTemplate::new("a%\n").unwrap_err(), TemplateError::Invalid);
    // A line break inside the prefix is part of the prefix.
    let t = FilenameTemplate::new("a\nb").unwrap();
    assert_eq!(t.prefix(), "a\nb");
}

#[test]
fn template_rejects_width_beyond_word() {
    assert_eq!(
        FilenameTemplate::new("a%99999999999999999999999999d.png").unwrap_err(),
        TemplateError::WidthTooLarge
    );
    let t = FilenameTemplate::new("a%18446744073709551615d").unwrap();
    assert_eq!(t.digit_width(), Some(usize::MAX));
    assert_eq!(
        FilenameTemplate::new("a%18446744073709551616d").unwrap_err(),
        TemplateError::WidthTooLarge
    );
}

#[test]
fn incomplete_placeholder_is_part_of_suffix() {
    for name in ["plot%d.png", "plot%0d.png", "plot%00d.png", "plot%3.png", "plot%3", "plot%", "plot%x3d"] {
        let t = FilenameTemplate::new(name).unwrap();
        assert_eq!(t.prefix(), "plot", "{}", name);
        assert_eq!(t.digit_width(), None, "{}", name);
        assert!(!t.zero_padded(), "{}", name);
        assert_eq!(t.suffix(), &name[4..], "{}", name);
        assert_eq!(t.filename(7), name);
    }
}

#[test]
fn width_with_other_digits_is_text() {
    for name in ["plot%1\u{663}d.png", "plot%\u{661}d.png", "plot%0\u{ff13}d.png", "plot%3\u{b2}d"] {
        let t = FilenameTemplate::new(name).unwrap();
        assert_eq!(t.prefix(), "plot", "{}", name);
        assert_eq!(t.digit_width(), None, "{}", name);
        assert!(!t.zero_padded(), "{}", name);
        assert_eq!(t.suffix(), &name[4..], "{}", name);
        assert_eq!(t.filename(3), name);
    }
}

#[test]
fn placeholder_width_may_hold_zeros_after_first_digit() {
    let t = FilenameTemplate::new("p%010d-%d").unwrap();
    assert!(t.zero_padded());
    assert_eq!(t.digit_width(), Some(10));
    assert_eq!(t.suffix(), "-%d");
    assert_eq!(t.filename(42), "p0000000042-%d");
}

#[test]
fn filename_keeps_numbers_wider_than_the_placeholder() {
    let t = FilenameTemplate::new("p%02d").unwrap();
    assert_eq!(t.filename(0), "p00");
    assert_eq!(t.filename(7), "p07");
    assert_eq!(t.filename(12345), "p12345");
    assert_eq!(t.filename(u32::MAX), "p4294967295");
    let t = FilenameTemplate::new("p%12d").unwrap();
    assert_eq!(t.filename(u32::MAX), "p  4294967295");
}

#[test]
fn digits_of_prints_decimal() {
    for n in [0u32, 1, 9, 10, 99, 100, 1234567890, u32::MAX] {
        let s: String = digits_of(n).into_iter().collect();
        assert_eq!(s, format!("{}", n));
    }
}

#[test]
fn template_agrees_with_the_pattern() {
    let pattern = regex::Regex::new(
        r"^(?P<prefix>[^%]+)(?:%(?P<zero>0)?(?P<digit_width>[1-9]\d*)d)?(?P<suffix>.*)$",
    )
    .unwrap();
    let names = [
        "Rplot%03d.png", "Rplot%3d.png", "Rplot.png", "", "%", "%3d", "a", "a%", "a%0", "a%03",
        "a%03d", "a%3d%4d", "a%%3d", "a%0d", "a%00d", "a%10d", "a%1d", "a%9dd", "a%d", "a b%2d c",
        "a\n", "a\nb%2d", "a%2d\n", "a%\n", "x%03dy%03dz", "é%2dü", "a%+3d", "a%3 d", "a% 3d",
        "plot%123456789d.png",
    ];
    for name in names {
        let parsed = FilenameTemplate::new(name);
        match pattern.captures(name) {
            Some(cap) => {
                let t = parsed.unwrap();
                assert_eq!(t.prefix(), cap.name("prefix").unwrap().as_str(), "{:?}", name);
                assert_eq!(t.zero_padded(), cap.name("zero").is_some(), "{:?}", name);
                assert_eq!(
                    t.digit_width(),
                    cap.name("digit_width").map(|m| m.as_str().parse::<usize>().unwrap()),
                    "{:?}",
                    name
                );
                assert_eq!(
                    t.suffix(),
                    cap.name("suffix").map(|m| m.as_str()).unwrap_or_default(),
                    "{:?}",
                    name
                );
            }
            None => assert_eq!(parsed.unwrap_err(), TemplateError::Invalid, "{:?}", name),
        }
    }
}

#[test]
fn filename_agrees_with_format() {
    for width in [1usize, 2, 3, 5, 11] {
        for page in [0u32, 5, 10, 999, 1000, 4294967295] {
            let zero = FilenameTemplate::new(&format!("a%0{}d.png", width)).unwrap();
            assert_eq!(zero.filename(page), format!("a{:0w$}.png", page, w = width));
            let space = FilenameTemplate::new(&format!("a%{}d.png", width)).unwrap();
            assert_eq!(space.filename(page), format!("a{:w$}.png", page, w = width));
        }
    }
}
