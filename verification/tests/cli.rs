use cava::cli::{ArgAction, ArgParser, Args, PendingValue};
use cava::config::{NumberSetting, TextSetting};

fn run(args: &[&str]) -> (ArgParser, Vec<ArgAction>) {
    let mut p = ArgParser::new();
    let mut actions = Vec::new();
    for a in args {
        actions.push(p.step(a.to_string()));
    }
    (p, actions)
}

fn all_continue(actions: &[ArgAction]) -> bool {
    actions.iter().all(|a| matches!(a, ArgAction::Continue))
}

#[test]
fn args_default() {
    let a = Args::default();
    assert_eq!(a.config.window.title, "cava");
    let p = ArgParser::new();
    assert!(p.pending.is_none());
    assert_eq!(p.config.window.width, 800);
}

#[test]
fn long_value_flags() {
    let (p, actions) = run(&[
        "--title", "hello", "--width", "1024", "--height", "768", "--x", "3", "--y", "4",
        "--min-width", "10", "--min-height", "11", "--max-width", "12", "--max-height", "13",
        "--macos-option-as-alt", "both", "--macos-tabbing-identifier", "tabs",
    ]);
    assert!(all_continue(&actions));
    let w = &p.config.window;
    assert_eq!(w.title, "hello");
    assert_eq!((w.width, w.height, w.x, w.y), (1024, 768, 3, 4));
    assert_eq!((w.min_width, w.min_height, w.max_width, w.max_height), (10, 11, 12, 13));
    assert_eq!(w.macos_option_as_alt, "both");
    assert_eq!(w.macos_tabbing_identifier, "tabs");
    assert!(p.pending.is_none());
}

#[test]
fn short_value_flags() {
    let (p, _) = run(&["-t", "short", "-w", "5", "-h", "6", "-x", "7", "-y", "8"]);
    let w = &p.config.window;
    assert_eq!(w.title, "short");
    assert_eq!((w.width, w.height, w.x, w.y), (5, 6, 7, 8));
}

#[test]
fn long_toggles_flip() {
    let (p, actions) = run(&[
        "--fullscreen", "--resizable", "--decorations", "--transparent", "--maximized",
        "--macos-titlebar-transparent", "--macos-titlebar-hidden",
        "--macos-titlebar-buttons-hidden", "--macos-title-hidden",
        "--macos-fullsize-content-view", "--macos-has-shadow", "--macos-borderless-game",
        "--macos-disallow-hidpi",
    ]);
    assert!(all_continue(&actions));
    let w = &p.config.window;
    assert!(w.fullscreen && !w.resizable && !w.decorations && w.transparent && w.maximized);
    assert!(w.macos_titlebar_transparent && w.macos_titlebar_hidden);
    assert!(w.macos_titlebar_buttons_hidden && w.macos_title_hidden);
    assert!(w.macos_fullsize_content_view && !w.macos_has_shadow);
    assert!(w.macos_borderless_game && w.macos_disallow_hidpi);
}

#[test]
fn toggle_twice_restores() {
    let (p, _) = run(&["--fullscreen", "--fullscreen", "-rr"]);
    assert!(!p.config.window.fullscreen);
    assert!(p.config.window.resizable);
}

#[test]
fn short_flags_combine() {
    let (p, _) = run(&["-frdTm"]);
    let w = &p.config.window;
    assert!(w.fullscreen && !w.resizable && !w.decorations && w.transparent && w.maximized);
}

#[test]
fn short_value_flag_in_a_run_takes_next_argument() {
    let (p, _) = run(&["-fw", "320"]);
    assert!(p.config.window.fullscreen);
    assert_eq!(p.config.window.width, 320);
}

#[test]
fn position_value() {
    let (p, _) = run(&["--position", " 10 , 20 "]);
    assert_eq!(p.config.window.position, Some((10, 20)));
    let (q, _) = run(&["--position", "10,20,30"]);
    assert_eq!(q.config.window.position, None);
    let (r, _) = run(&["--position", "a,1"]);
    assert_eq!(r.config.window.position, None);
    assert!(r.pending.is_none());
}

#[test]
fn bad_number_is_passed_over() {
    let (p, actions) = run(&["--width", "wide", "--height", "-5"]);
    assert_eq!(p.config.window.width, 800);
    assert!(all_continue(&actions));
    // "-5" reads as one-letter flags, so height stays pending.
    assert_eq!(p.pending, Some(PendingValue::Number(NumberSetting::Height)));
}

#[test]
fn flags_keep_the_pending_setting() {
    let (p, _) = run(&["--title", "--fullscreen", "kept"]);
    assert!(p.config.window.fullscreen);
    assert_eq!(p.config.window.title, "kept");
}

#[test]
fn later_value_flag_replaces_pending() {
    let (p, _) = run(&["--title", "--width", "99"]);
    assert_eq!(p.config.window.width, 99);
    assert_eq!(p.config.window.title, "cava");
}

#[test]
fn pending_is_visible() {
    let (p, _) = run(&["--macos-tabbing-identifier"]);
    assert_eq!(p.pending, Some(PendingValue::Text(TextSetting::MacosTabbingIdentifier)));
}

#[test]
fn unknown_flags_are_ignored() {
    let (p, actions) = run(&["--nope", "-z", "--", "-"]);
    assert!(all_continue(&actions));
    assert_eq!(p.config.window.title, "cava");
    assert!(!p.config.window.fullscreen);
    assert!(p.pending.is_none());
}

#[test]
fn plain_argument_names_a_config_file() {
    let (p, actions) = run(&["settings.ini"]);
    match &actions[0] {
        ArgAction::LoadConfig(path) => assert_eq!(path, "settings.ini"),
        other => panic!("unexpected {other:?}"),
    }
    assert_eq!(p.config.window.title, "cava");
}

#[test]
fn help_and_version_stop() {
    let (_, a) = run(&["--help"]);
    assert!(matches!(a[0], ArgAction::Help));
    let (_, b) = run(&["--version"]);
    assert!(matches!(b[0], ArgAction::Version));
    let (p, c) = run(&["-fHr"]);
    assert!(matches!(c[0], ArgAction::Help));
    assert!(p.config.window.fullscreen);
    assert!(p.config.window.resizable);
    let (_, d) = run(&["-V"]);
    assert!(matches!(d[0], ArgAction::Version));
}
