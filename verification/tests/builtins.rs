use spinner::{get_spinner_data, SpinnerStyle};

#[test]
fn test_spinner_style_equality() {
    assert_eq!(SpinnerStyle::CircleHalves, SpinnerStyle::CircleHalves);
}

#[test]
fn test_spinner_style_display() {
    assert_eq!(SpinnerStyle::CircleHalves.name(), "CircleHalves");
}

#[test]
fn test_spinner_style_clone() {
    let style = SpinnerStyle::Dots;
    let cloned_style = style.clone();
    assert_eq!(style, cloned_style);
}

#[test]
fn test_default_spinner_style() {
    let default_style = SpinnerStyle::default();
    assert_eq!(default_style, SpinnerStyle::CircleHalves);
}

#[test]
fn test_spinner_collection_contains_styles() {
    // Every enumerated style has a catalog entry.
    for style in SpinnerStyle::all() {
        let data = get_spinner_data(&style);
        assert!(!data.frames.is_empty() && data.frame_duration > 0);
    }
}

#[test]
fn test_spinner_collection_frame_duration() {
    // The default frame duration is non-zero for every style.
    for style in SpinnerStyle::all() {
        assert_ne!(get_spinner_data(&style).frame_duration, 0);
    }
}

#[test]
fn test_spinner_collection_frame_count() {
    // Every style has at least one frame.
    for style in SpinnerStyle::all() {
        assert!(!get_spinner_data(&style).frames.is_empty());
    }
}

#[test]
fn test_spinner_style_conversion() {
    let spinner_style: SpinnerStyle = SpinnerStyle::from_name("CircleHalves").unwrap();
    assert_eq!(spinner_style, SpinnerStyle::default());
}

#[test]
fn test_spinner_style_conversion_invalid_name() {
    assert!(SpinnerStyle::from_name("InvalidStyle").is_none());
}

#[test]
fn test_spinner_style_name_round_trip() {
    for style in SpinnerStyle::all() {
        assert_eq!(SpinnerStyle::from_name(style.name()), Some(style));
    }
}

#[test]
fn test_get_spinner_data_existing_spinner() {
    let spinner_name = SpinnerStyle::CircleHalves;
    let spinner_data = get_spinner_data(&spinner_name);

    assert_eq!(spinner_data.frames, ["◐", "◓", "◑", "◒"]);
    assert_eq!(spinner_data.frame_duration, 50);
}

#[test]
fn test_all_styles_count() {
    assert_eq!(SpinnerStyle::all().len(), 84);
}
