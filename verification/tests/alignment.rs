use spinner::Alignment;

#[test]
fn test_get_horizontal_padding_left() {
    let alignment = Alignment::Left;
    let terminal_width = 10;
    let text_width = 5;
    let expected_padding = "";

    let padding = alignment.get_horizontal_padding(terminal_width, text_width);

    assert_eq!(padding, expected_padding);
}

#[test]
fn test_get_horizontal_padding_right() {
    let alignment = Alignment::Right;
    let terminal_width = 10;
    let text_width = 5;
    let expected_padding = "     ";

    let padding = alignment.get_horizontal_padding(terminal_width, text_width);

    assert_eq!(padding, expected_padding);
}

#[test]
fn test_get_horizontal_padding_center() {
    let alignment = Alignment::Center;
    let terminal_width = 10;
    let text_width = 5;
    let expected_padding = "  ";

    let padding = alignment.get_horizontal_padding(terminal_width, text_width);

    assert_eq!(padding, expected_padding);
}

#[test]
fn test_from_invalid() {
    let alignment_str = "invalid";
    let alignment = Alignment::from(alignment_str);
    assert!(matches!(alignment, Alignment::Left));
}

#[test]
fn test_from_lowercase() {
    let alignment_str = "center";
    let alignment = Alignment::from(alignment_str);
    assert!(matches!(alignment, Alignment::Center));
}

#[test]
fn test_from_uppercase() {
    let alignment_str = "CENTER";
    let alignment = Alignment::from(alignment_str);
    assert!(matches!(alignment, Alignment::Center));
}

#[test]
fn test_from_mixed_case_right() {
    let alignment = Alignment::from("RiGhT");
    assert!(matches!(alignment, Alignment::Right));
}

#[test]
fn test_default_alignment() {
    assert!(matches!(Alignment::default(), Alignment::Left));
}
