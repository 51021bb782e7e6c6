use b0xx_viewer::colors::ViewerButtonColors;
use b0xx_viewer::colors::ViewerColor;
use b0xx_viewer::config::has_port_named;
use b0xx_viewer::config::ViewerOptions;
use b0xx_viewer::config::DEFAULT_FILENAME;
use b0xx_viewer::probe::serial::SerialPortInfo;
use b0xx_viewer::probe::serial::SerialPortType;

fn ports(names: &[&str]) -> Vec<SerialPortInfo> {
    names
        .iter()
        .map(|name| SerialPortInfo { port_name: name.to_string(), port_type: SerialPortType::Unknown })
        .collect()
}

#[test]
fn default_options() {
    let options = ViewerOptions::default();
    assert_eq!(
        options,
        ViewerOptions {
            path: String::new(),
            init_config: false,
            display_labels: false,
            chromeless: false,
            is_r1_b0xx: false,
            colored_rims: false,
            relax_arduino_detection: false,
            config_path: None,
            background_color: ViewerColor::new(19, 19, 19),
            button_active_colors: ViewerButtonColors::new_with_color(ViewerColor::new(0, 235, 255)),
            button_inactive_colors: ViewerButtonColors::new_with_color(ViewerColor::new(85, 87, 83)),
            custom_tty: None,
        }
    );
    assert_eq!(DEFAULT_FILENAME, "b0xx_viewer_config.toml");
}

#[test]
fn merge_turns_switches_on() {
    let mut base = ViewerOptions::default();
    base.chromeless = true;
    let mut over = ViewerOptions::default();
    over.display_labels = true;
    over.is_r1_b0xx = true;
    over.colored_rims = true;
    over.relax_arduino_detection = true;
    over.init_config = true;
    over.path = "elsewhere".to_string();
    over.config_path = Some("given".to_string());
    base.merge(over);
    let mut expected = ViewerOptions::default();
    expected.chromeless = true;
    expected.display_labels = true;
    expected.is_r1_b0xx = true;
    expected.colored_rims = true;
    expected.relax_arduino_detection = true;
    assert_eq!(base, expected);
    base.merge(ViewerOptions::default());
    assert_eq!(base, expected);
}

#[test]
fn merge_takes_colors_that_are_not_defaults() {
    let red = ViewerColor::new(255, 0, 0);
    let blue = ViewerColor::new(0, 0, 255);
    let mut base = ViewerOptions::default();
    base.background_color = red;
    base.button_active_colors = ViewerButtonColors::new_with_color(red);
    base.button_inactive_colors = ViewerButtonColors::new_with_color(red);
    let before = base.clone();
    base.merge(ViewerOptions::default());
    assert_eq!(base, before);
    let mut over = ViewerOptions::default();
    over.background_color = blue;
    over.button_active_colors.a = blue;
    over.button_inactive_colors = ViewerButtonColors::new_with_color(blue);
    base.merge(over.clone());
    assert_eq!(base.background_color, blue);
    assert_eq!(base.button_active_colors, over.button_active_colors);
    assert_eq!(base.button_inactive_colors, ViewerButtonColors::new_with_color(blue));
}

#[test]
fn merge_keeps_the_port_named_first() {
    let mut base = ViewerOptions::default();
    let mut over = ViewerOptions::default();
    over.custom_tty = Some("COM3".to_string());
    base.merge(over.clone());
    assert_eq!(base.custom_tty, Some("COM3".to_string()));
    over.custom_tty = Some("COM4".to_string());
    base.merge(over);
    assert_eq!(base.custom_tty, Some("COM3".to_string()));
    base.merge(ViewerOptions::default());
    assert_eq!(base.custom_tty, Some("COM3".to_string()));
}

#[test]
fn unknown_named_port_is_forgotten() {
    let known = ports(&["COM1", "COM3"]);
    assert!(has_port_named(&known, "COM3"));
    assert!(!has_port_named(&known, "COM2"));
    assert!(!has_port_named(&vec![], "COM1"));
    let mut options = ViewerOptions::default();
    assert!(!options.keep_known_tty(&known));
    assert_eq!(options.custom_tty, None);
    options.custom_tty = Some("COM3".to_string());
    assert!(!options.keep_known_tty(&known));
    assert_eq!(options.custom_tty, Some("COM3".to_string()));
    options.custom_tty = Some("COM2".to_string());
    assert!(options.keep_known_tty(&known));
    assert_eq!(options.custom_tty, None);
    let mut rest = ViewerOptions::default();
    rest.custom_tty = None;
    assert_eq!(options, rest);
}
