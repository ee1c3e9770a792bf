use speedreader::TextAlignment;
use speedreader::text_placement;

#[test]
fn left_alignment_keeps_column() {
    assert_eq!(text_placement("abc", (10, 5), TextAlignment::Left), Some((10, 5)));
}

#[test]
fn center_alignment_backs_up_half_width() {
    assert_eq!(text_placement("abc", (10, 5), TextAlignment::Center), Some((9, 5)));
    assert_eq!(text_placement("abcd", (10, 5), TextAlignment::Center), Some((8, 5)));
}

#[test]
fn right_alignment_backs_up_full_width() {
    assert_eq!(text_placement("abc", (10, 5), TextAlignment::Right), Some((7, 5)));
}

#[test]
fn alignment_saturates_at_column_zero() {
    assert_eq!(text_placement("abcdef", (2, 0), TextAlignment::Right), Some((0, 0)));
    assert_eq!(text_placement("abcdef", (1, 3), TextAlignment::Center), Some((0, 3)));
}

#[test]
fn wide_character_text_uses_display_width() {
    assert_eq!(text_placement("\u{4e16}\u{754c}", (10, 0), TextAlignment::Right), Some((6, 0)));
}

#[test]
fn text_wider_than_coordinate_space_is_rejected() {
    let wide = "a".repeat(70000);
    assert_eq!(text_placement(&wide, (10, 0), TextAlignment::Center), None);
}
