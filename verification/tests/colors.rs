use b0xx_viewer::colors::ViewerButtonColors;
use b0xx_viewer::colors::ViewerColor;
use b0xx_viewer::colors::ViewerColorType;
use b0xx_viewer::config::hex_to_button_colors;
use b0xx_viewer::config::hex_to_color;
use b0xx_viewer::error::IntErrorKind;
use b0xx_viewer::error::ViewerOptionConfigError;

fn fields(colors: &ViewerButtonColors) -> [ViewerColor; 20] {
    [
        colors.start,
        colors.y,
        colors.x,
        colors.b,
        colors.a,
        colors.l,
        colors.r,
        colors.z,
        colors.up,
        colors.down,
        colors.right,
        colors.left,
        colors.mod_x,
        colors.mod_y,
        colors.c_left,
        colors.c_right,
        colors.c_up,
        colors.c_down,
        colors.mod_ls,
        colors.mod_ms,
    ]
}

#[test]
fn default_colors() {
    assert_eq!(ViewerColor::active_default(), ViewerColor::new(0, 235, 255));
    assert_eq!(ViewerColor::inactive_default(), ViewerColor::new(85, 87, 83));
    assert_eq!(ViewerColor::background_default(), ViewerColor::new(19, 19, 19));
    assert_eq!(ViewerColor::default(), ViewerColor::inactive_default());
    assert_eq!(ViewerColor::new(1, 2, 3), ViewerColor { r: 1, g: 2, b: 3 });
    assert_ne!(ViewerColorType::Active, ViewerColorType::Inactive);
    assert_ne!(ViewerColorType::Inactive, ViewerColorType::Background);
}

#[test]
fn colors_are_read_from_hex() {
    assert_eq!(ViewerColor::from_str("#00FF00"), Ok(ViewerColor::new(0, 255, 0)));
    assert_eq!(ViewerColor::from_str("#131313"), Ok(ViewerColor::new(19, 19, 19)));
    assert_eq!(ViewerColor::from_str("#00EBFF"), Ok(ViewerColor::active_default()));
    assert_eq!(ViewerColor::from_str("#555753"), Ok(ViewerColor::inactive_default()));
    assert_eq!(ViewerColor::from_str("00ebff"), Ok(ViewerColor::active_default()));
    assert_eq!(ViewerColor::from_str("###abcdef"), Ok(ViewerColor::new(0xAB, 0xCD, 0xEF)));
    assert_eq!(ViewerColor::from_str("#1"), Ok(ViewerColor::new(0, 0, 1)));
    assert_eq!(ViewerColor::from_str("#12345"), Ok(ViewerColor::new(0x01, 0x23, 0x45)));
    assert_eq!(ViewerColor::from_str("#ff123456"), Ok(ViewerColor::new(0x12, 0x34, 0x56)));
    assert_eq!(
        ViewerColor::from_str("#"),
        Err(ViewerOptionConfigError::HexNumberParseError(IntErrorKind::Empty))
    );
    assert_eq!(
        ViewerColor::from_str("#red"),
        Err(ViewerOptionConfigError::HexNumberParseError(IntErrorKind::InvalidDigit))
    );
    assert_eq!(
        ViewerColor::from_str("#100000000"),
        Err(ViewerOptionConfigError::HexNumberParseError(IntErrorKind::PosOverflow))
    );
    assert_eq!(hex_to_color("#010203"), Ok(ViewerColor::new(1, 2, 3)));
    assert_eq!(
        hex_to_button_colors("#010203"),
        Ok(ViewerButtonColors::new_with_color(ViewerColor::new(1, 2, 3)))
    );
    assert_eq!(
        hex_to_button_colors("nope"),
        Err(ViewerOptionConfigError::HexNumberParseError(IntErrorKind::InvalidDigit))
    );
}

#[test]
fn colors_from_numbers() {
    assert_eq!(ViewerColor::from_number(0), ViewerColor::new(0, 0, 0));
    assert_eq!(ViewerColor::from_number(0x00EBFF), ViewerColor::active_default());
    assert_eq!(ViewerColor::from_number(0xFFFFFFFF), ViewerColor::new(255, 255, 255));
    assert_eq!(ViewerColor::from_number(0xAB010203), ViewerColor::new(1, 2, 3));
}

#[test]
fn colors_are_written_as_hex() {
    assert_eq!(ViewerColor::new(0, 235, 255).to_hex(), "#00EBFF");
    assert_eq!(ViewerColor::new(19, 19, 19).to_hex(), "#131313");
    assert_eq!(ViewerColor::new(0, 0, 0).to_hex(), "#000000");
    assert_eq!(ViewerColor::new(255, 255, 255).to_hex(), "#FFFFFF");
    assert_eq!(ViewerColor::new(0x0A, 0x90, 0x09).to_hex(), "#0A9009");
    for value in [0u32, 1, 0x123456, 0xABCDEF, 0xFFFFFF, 0x0F0F0F, 0x9A00A9] {
        let color = ViewerColor::from_number(value);
        assert_eq!(color.to_hex(), format!("#{:06X}", value));
        assert_eq!(ViewerColor::from_str(&color.to_hex()), Ok(color));
    }
}

#[test]
fn button_colors_are_uniform() {
    let color = ViewerColor::new(9, 8, 7);
    assert_eq!(fields(&ViewerButtonColors::new_with_color(color)), [color; 20]);
    assert_eq!(fields(&ViewerButtonColors::default_active()), [ViewerColor::active_default(); 20]);
    assert_eq!(
        fields(&ViewerButtonColors::default_inactive()),
        [ViewerColor::inactive_default(); 20]
    );
}

#[test]
fn merge_defaults_fills_unchosen_buttons() {
    let chosen = ViewerColor::new(1, 1, 1);
    let fill = ViewerColor::new(2, 2, 2);
    let mut colors = ViewerButtonColors::default_inactive();
    colors.a = chosen;
    colors.mod_ms = chosen;
    colors.merge_defaults(fill);
    let mut expected = [fill; 20];
    expected[4] = chosen;
    expected[19] = chosen;
    assert_eq!(fields(&colors), expected);
    let before = colors;
    colors.merge_defaults(ViewerColor::new(3, 3, 3));
    assert_eq!(colors, before);
    let mut colors = ViewerButtonColors::new_with_color(chosen);
    colors.merge_defaults(fill);
    assert_eq!(colors, ViewerButtonColors::new_with_color(chosen));
}

#[test]
fn or_keeps_chosen_colors() {
    let other = ViewerColor::new(4, 5, 6);
    assert_eq!(ViewerColor::inactive_default().or(other), other);
    assert_eq!(ViewerColor::new(1, 2, 3).or(other), ViewerColor::new(1, 2, 3));
    assert_eq!(ViewerColor::active_default().or(other), ViewerColor::active_default());
}

#[test]
fn shown_color_follows_the_button() {
    let active = ViewerColor::active_default();
    let inactive = ViewerColor::inactive_default();
    assert_eq!(ViewerButtonColors::shown(true, active, inactive), active);
    assert_eq!(ViewerButtonColors::shown(false, active, inactive), inactive);
}
