use oblivion_ui::themes::Theme;

#[test]
fn the_default_theme_is_light() {
    let theme = Theme::default();
    assert_eq!(theme.primary_color, (0, 122, 255));
    assert_eq!(theme.secondary_color, (142, 142, 147));
    assert_eq!(theme.background_color, (255, 255, 255));
    assert_eq!(theme.text_color, (0, 0, 0));
    assert_eq!(theme.font_size, 14);
    assert!(!theme.is_dark);
}

#[test]
fn the_dark_theme() {
    let theme = Theme::dark();
    assert_eq!(theme.primary_color, (10, 132, 255));
    assert_eq!(theme.secondary_color, (142, 142, 147));
    assert_eq!(theme.background_color, (28, 28, 30));
    assert_eq!(theme.text_color, (255, 255, 255));
    assert_eq!(theme.font_size, 14);
    assert!(theme.is_dark);
}

#[test]
fn a_theme_can_be_copied_and_compared() {
    let theme = Theme::dark();
    let copy = theme.clone();
    assert_eq!(theme, copy);
    assert_ne!(theme, Theme::default());
}
