use cava::config::{
    BoolSetting, Config, ConfigError, NumberSetting, OptionAsAlt, TextSetting, Window,
};
use cava::text::IntErrorKind;
use configparser::ini::Ini;

fn read(text: &str) -> Result<Config, ConfigError> {
    Config::from_ini_str(text.to_string(), None)
}

fn window(text: &str) -> Window {
    read(text).unwrap().window
}

#[test]
fn window_defaults() {
    let w = Window::default();
    assert_eq!(w.title, "cava");
    assert_eq!((w.width, w.height, w.x, w.y), (800, 600, 0, 0));
    assert_eq!(w.position, None);
    assert!(!w.fullscreen && w.resizable && w.decorations && !w.transparent && !w.maximized);
    assert_eq!((w.min_width, w.min_height, w.max_width, w.max_height), (0, 0, 0, 0));
    assert!(w.macos_has_shadow);
    assert!(!w.macos_titlebar_transparent && !w.macos_titlebar_hidden);
    assert!(!w.macos_titlebar_buttons_hidden && !w.macos_title_hidden);
    assert!(!w.macos_fullsize_content_view && !w.macos_borderless_game && !w.macos_disallow_hidpi);
    assert_eq!(w.macos_option_as_alt, "");
    assert_eq!(w.macos_tabbing_identifier, "");
    assert_eq!(Config::default().window.title, "cava");
}

#[test]
fn window_setters() {
    let mut w = Window::default();
    w.set_number(NumberSetting::MaxHeight, 9);
    assert_eq!(w.max_height, 9);
    w.set_text(TextSetting::MacosTabbingIdentifier, "tabs".to_string());
    assert_eq!(w.macos_tabbing_identifier, "tabs");
    w.set_bool(BoolSetting::MacosHasShadow, false);
    assert!(!w.bool_setting(BoolSetting::MacosHasShadow));
    w.toggle(BoolSetting::Resizable);
    assert!(!w.resizable);
    w.toggle(BoolSetting::Resizable);
    assert!(w.resizable);
}

#[test]
fn empty_file_keeps_defaults() {
    let w = window("");
    assert_eq!(w.title, "cava");
    assert_eq!((w.width, w.height), (800, 600));
    let other = window("[other]\nwidth = 5\n");
    assert_eq!(other.width, 800);
}

#[test]
fn reads_every_kind_of_setting() {
    let w = window(
        "[window]\n\
         title = My window\n\
         width = 1024\n\
         height = 768\n\
         fullscreen = yes\n\
         resizable = off\n\
         decorations = FALSE\n\
         transparent = 1\n\
         maximized = T\n\
         min_width = 100\n\
         min_height = 50\n\
         max_width = 2000\n\
         max_height = 1500\n\
         macos_titlebar_transparent = true\n\
         macos_titlebar_hidden = y\n\
         macos_titlebar_buttons_hidden = on\n\
         macos_title_hidden = yes\n\
         macos_fullsize_content_view = true\n\
         macos_has_shadow = no\n\
         macos_borderless_game = true\n\
         macos_disallow_hidpi = true\n\
         macos_option_as_alt = both\n\
         macos_tabbing_identifier = tabs\n\
         position = 10, 20\n",
    );
    assert_eq!(w.title, "My window");
    assert_eq!((w.width, w.height), (1024, 768));
    assert!(w.fullscreen && !w.resizable && !w.decorations && w.transparent && w.maximized);
    assert_eq!((w.min_width, w.min_height, w.max_width, w.max_height), (100, 50, 2000, 1500));
    assert!(w.macos_titlebar_transparent && w.macos_titlebar_hidden);
    assert!(w.macos_titlebar_buttons_hidden && w.macos_title_hidden);
    assert!(w.macos_fullsize_content_view && !w.macos_has_shadow);
    assert!(w.macos_borderless_game && w.macos_disallow_hidpi);
    assert_eq!(w.macos_option_as_alt, "both");
    assert_eq!(w.macos_tabbing_identifier, "tabs");
    assert_eq!(w.position, Some((10, 20)));
}

#[test]
fn names_are_case_insensitive_and_comments_dropped() {
    let w = window("[WINDOW]\nWIDTH = 5 ; five\nTitle: hello # greeting\n");
    assert_eq!(w.width, 5);
    assert_eq!(w.title, "hello");
}

#[test]
fn reading_starts_from_the_given_config() {
    let mut base = Config::default();
    base.window.width = 1;
    base.window.title = "base".to_string();
    let c = Config::from_ini_str("[window]\nheight = 2\n".to_string(), Some(base)).unwrap();
    assert_eq!((c.window.width, c.window.height), (1, 2));
    assert_eq!(c.window.title, "base");
}

#[test]
fn position_none_or_empty_is_ignored() {
    assert_eq!(window("[window]\nposition = NoNe\n").position, None);
    assert_eq!(window("[window]\nposition =\n").position, None);
    assert_eq!(window("[window]\nposition\n").position, None);
    let mut base = Config::default();
    base.window.position = Some((1, 1));
    let c = Config::from_ini_str("[window]\nposition = none\n".to_string(), Some(base)).unwrap();
    assert_eq!(c.window.position, Some((1, 1)));
}

#[test]
fn not_an_ini_is_a_read_error() {
    match read("[window\nwidth = 1\n") {
        Err(ConfigError::Read(message)) => assert!(message.contains("closing bracket")),
        other => panic!("unexpected {other:?}"),
    }
    match read("= 1\n") {
        Err(ConfigError::Read(message)) => assert!(message.contains("Key cannot be empty")),
        other => panic!("unexpected {other:?}"),
    }
}

#[test]
fn bad_number_is_an_error() {
    match read("[window]\nwidth = abc\n") {
        Err(ConfigError::Number { value, kind }) => {
            assert_eq!(value, "abc");
            assert_eq!(kind, IntErrorKind::InvalidDigit);
        }
        other => panic!("unexpected {other:?}"),
    }
    match read("[window]\nmax_height = 99999999999\n") {
        Err(ConfigError::Number { value, kind }) => {
            assert_eq!(value, "99999999999");
            assert_eq!(kind, IntErrorKind::PosOverflow);
        }
        other => panic!("unexpected {other:?}"),
    }
}

#[test]
fn bad_bool_is_an_error() {
    match read("[window]\nfullscreen = maybe\n") {
        Err(ConfigError::Bool(message)) => {
            assert_eq!(message, "Unable to parse value into bool at window:fullscreen")
        }
        other => panic!("unexpected {other:?}"),
    }
}

#[test]
fn first_bad_setting_in_reading_order_is_reported() {
    match read("[window]\nfullscreen = maybe\nheight = x\n") {
        Err(ConfigError::Number { value, .. }) => assert_eq!(value, "x"),
        other => panic!("unexpected {other:?}"),
    }
}

#[test]
fn bad_positions_are_errors() {
    match read("[window]\nposition = 1,2,3\n") {
        Err(ConfigError::Position(value)) => assert_eq!(value, "1,2,3"),
        other => panic!("unexpected {other:?}"),
    }
    match read("[window]\nposition = 12\n") {
        Err(ConfigError::Position(value)) => assert_eq!(value, "12"),
        other => panic!("unexpected {other:?}"),
    }
    match read("[window]\nposition = a,5\n") {
        Err(ConfigError::PositionX { value, kind }) => {
            assert_eq!(value, "a,5");
            assert_eq!(kind, IntErrorKind::InvalidDigit);
        }
        other => panic!("unexpected {other:?}"),
    }
    match read("[window]\nposition = 5,\n") {
        Err(ConfigError::PositionY { value, kind }) => {
            assert_eq!(value, "5,");
            assert_eq!(kind, IntErrorKind::Empty);
        }
        other => panic!("unexpected {other:?}"),
    }
}

#[test]
fn from_ini_reads_a_loaded_ini() {
    let mut ini = Ini::new();
    ini.read("[window]\nwidth = 42\nmaximized = on\n".to_string()).unwrap();
    let c = Config::from_ini(&ini, None).unwrap();
    assert_eq!(c.window.width, 42);
    assert!(c.window.maximized);
    assert_eq!(c.window.height, 600);
}

#[test]
fn plan_of_defaults() {
    let plan = Config::default().window_plan();
    assert_eq!(plan.title, "cava");
    assert_eq!(plan.inner_size, (800, 600));
    assert!(plan.resizable && plan.decorations && !plan.transparent && !plan.maximized);
    assert!(!plan.fullscreen);
    assert_eq!(plan.position, None);
    assert_eq!(plan.min_inner_size, (1, 1));
    assert_eq!(plan.max_inner_size, None);
    assert!(plan.macos_has_shadow);
    assert_eq!(plan.macos_option_as_alt, None);
    assert_eq!(plan.macos_tabbing_identifier, None);
}

#[test]
fn plan_position_and_sizes() {
    let mut c = Config::default();
    c.window.x = 5;
    assert_eq!(c.window_plan().position, Some((5, 0)));
    c.window.position = Some((7, 8));
    assert_eq!(c.window_plan().position, Some((7, 8)));
    c.window.min_width = 300;
    assert_eq!(c.window_plan().min_inner_size, (300, 1));
    c.window.max_height = 1;
    assert_eq!(c.window_plan().max_inner_size, Some((u32::MAX, 2)));
    c.window.max_width = 640;
    assert_eq!(c.window_plan().max_inner_size, Some((640, 2)));
    c.window.fullscreen = true;
    assert!(c.window_plan().fullscreen);
}

#[test]
fn plan_macos_options() {
    let mut c = Config::default();
    c.window.macos_option_as_alt = "Only_Left".to_string();
    c.window.macos_tabbing_identifier = "group".to_string();
    let plan = c.window_plan();
    assert_eq!(plan.macos_option_as_alt, Some(OptionAsAlt::OnlyLeft));
    assert_eq!(plan.macos_tabbing_identifier, Some("group".to_string()));
    c.window.macos_option_as_alt = "ONLY_RIGHT".to_string();
    assert_eq!(c.window_plan().macos_option_as_alt, Some(OptionAsAlt::OnlyRight));
    c.window.macos_option_as_alt = "both".to_string();
    assert_eq!(c.window_plan().macos_option_as_alt, Some(OptionAsAlt::Both));
    c.window.macos_option_as_alt = "none".to_string();
    assert_eq!(c.window_plan().macos_option_as_alt, Some(OptionAsAlt::Neither));
    c.window.macos_option_as_alt = "sideways".to_string();
    assert_eq!(c.window_plan().macos_option_as_alt, Some(OptionAsAlt::Neither));
}

#[test]
fn read_error_does_not_depend_on_base() {
    let mut base = Config::default();
    base.window.width = 1;
    base.window.fullscreen = true;
    let text = "[window]\nheight = 7\nmaximized = perhaps\n";
    let over_defaults = Config::from_ini_str(text.to_string(), None);
    let over_base = Config::from_ini_str(text.to_string(), Some(base));
    match (over_defaults, over_base) {
        (Err(ConfigError::Bool(a)), Err(ConfigError::Bool(b))) => {
            assert_eq!(a, b);
            assert_eq!(a, "Unable to parse value into bool at window:maximized");
        }
        other => panic!("unexpected {other:?}"),
    }
}
