//! Command-line arguments: the flags and values that adjust the window
//! settings, and the configuration files named on the command line.

use crate::config::{
    bool_setting, default_window, toggled, with_bool, with_number, with_text, BoolSetting, Config, NumberSetting,
    TextSetting, WindowView,
};
use crate::text::{
    chars_eq_str, parse_u32, parse_u32_chars, skip_chars, split_chars, split_on, to_chars, trim,
    trim_chars, views_of,
};
use vstd::prelude::*;

verus! {

/// The settings that the command line gives the program.
#[derive(Clone, Debug)]
pub struct Args {
    pub config: Config,
}

impl Default for Args {
    fn default() -> (a: Self)
        ensures
            a.config.window@ == default_window(),
    {
        Args { config: Config::default() }
    }
}

/// A setting whose value is the next plain argument.
#[derive(Clone, Copy, Debug, PartialEq, Eq, Structural)]
pub enum PendingValue {
    Text(TextSetting),
    Number(NumberSetting),
    Position,
}

/// What a flag asks for.
#[derive(Clone, Copy, Debug, PartialEq, Eq, Structural)]
pub enum FlagMeaning {
    /// The next plain argument is the value of this setting.
    Value(PendingValue),
    /// Flip this yes-or-no setting.
    Toggle(BoolSetting),
    /// Print the usage text and stop.
    Help,
    /// Print the version and stop.
    Version,
    /// A flag that means nothing; it is passed over.
    Ignored,
}

/// What the flag `--name` asks for.
pub open spec fn long_flag(name: Seq<char>) -> FlagMeaning {
    if name == "title"@ {
        FlagMeaning::Value(PendingValue::Text(TextSetting::Title))
    } else if name == "width"@ {
        FlagMeaning::Value(PendingValue::Number(NumberSetting::Width))
    } else if name == "height"@ {
        FlagMeaning::Value(PendingValue::Number(NumberSetting::Height))
    } else if name == "x"@ {
        FlagMeaning::Value(PendingValue::Number(NumberSetting::X))
    } else if name == "y"@ {
        FlagMeaning::Value(PendingValue::Number(NumberSetting::Y))
    } else if name == "position"@ {
        FlagMeaning::Value(PendingValue::Position)
    } else if name == "min-width"@ {
        FlagMeaning::Value(PendingValue::Number(NumberSetting::MinWidth))
    } else if name == "min-height"@ {
        FlagMeaning::Value(PendingValue::Number(NumberSetting::MinHeight))
    } else if name == "max-width"@ {
        FlagMeaning::Value(PendingValue::Number(NumberSetting::MaxWidth))
    } else if name == "max-height"@ {
        FlagMeaning::Value(PendingValue::Number(NumberSetting::MaxHeight))
    } else if name == "macos-option-as-alt"@ {
        FlagMeaning::Value(PendingValue::Text(TextSetting::MacosOptionAsAlt))
    } else if name == "macos-tabbing-identifier"@ {
        FlagMeaning::Value(PendingValue::Text(TextSetting::MacosTabbingIdentifier))
    } else if name == "fullscreen"@ {
        FlagMeaning::Toggle(BoolSetting::Fullscreen)
    } else if name == "resizable"@ {
        FlagMeaning::Toggle(BoolSetting::Resizable)
    } else if name == "decorations"@ {
        FlagMeaning::Toggle(BoolSetting::Decorations)
    } else if name == "transparent"@ {
        FlagMeaning::Toggle(BoolSetting::Transparent)
    } else if name == "maximized"@ {
        FlagMeaning::Toggle(BoolSetting::Maximized)
    } else if name == "macos-titlebar-transparent"@ {
        FlagMeaning::Toggle(BoolSetting::MacosTitlebarTransparent)
    } else if name == "macos-titlebar-hidden"@ {
        FlagMeaning::Toggle(BoolSetting::MacosTitlebarHidden)
    } else if name == "macos-titlebar-buttons-hidden"@ {
        FlagMeaning::Toggle(BoolSetting::MacosTitlebarButtonsHidden)
    } else if name == "macos-title-hidden"@ {
        FlagMeaning::Toggle(BoolSetting::MacosTitleHidden)
    } else if name == "macos-fullsize-content-view"@ {
        FlagMeaning::Toggle(BoolSetting::MacosFullsizeContentView)
    } else if name == "macos-has-shadow"@ {
        FlagMeaning::Toggle(BoolSetting::MacosHasShadow)
    } else if name == "macos-borderless-game"@ {
        FlagMeaning::Toggle(BoolSetting::MacosBorderlessGame)
    } else if name == "macos-disallow-hidpi"@ {
        FlagMeaning::Toggle(BoolSetting::MacosDisallowHidpi)
    } else if name == "help"@ {
        FlagMeaning::Help
    } else if name == "version"@ {
        FlagMeaning::Version
    } else {
        FlagMeaning::Ignored
    }
}

/// What the one-letter flag `-c` asks for.
pub open spec fn short_flag(c: char) -> FlagMeaning {
    if c == 't' {
        FlagMeaning::Value(PendingValue::Text(TextSetting::Title))
    } else if c == 'w' {
        FlagMeaning::Value(PendingValue::Number(NumberSetting::Width))
    } else if c == 'h' {
        FlagMeaning::Value(PendingValue::Number(NumberSetting::Height))
    } else if c == 'x' {
        FlagMeaning::Value(PendingValue::Number(NumberSetting::X))
    } else if c == 'y' {
        FlagMeaning::Value(PendingValue::Number(NumberSetting::Y))
    } else if c == 'f' {
        FlagMeaning::Toggle(BoolSetting::Fullscreen)
    } else if c == 'r' {
        FlagMeaning::Toggle(BoolSetting::Resizable)
    } else if c == 'd' {
        FlagMeaning::Toggle(BoolSetting::Decorations)
    } else if c == 'T' {
        FlagMeaning::Toggle(BoolSetting::Transparent)
    } else if c == 'm' {
        FlagMeaning::Toggle(BoolSetting::Maximized)
    } else if c == 'H' {
        FlagMeaning::Help
    } else if c == 'V' {
        FlagMeaning::Version
    } else {
        FlagMeaning::Ignored
    }
}

fn long_flag_meaning(name: &Vec<char>) -> (f: FlagMeaning)
    ensures
        f == long_flag(name@),
{
    if chars_eq_str(name, "title") {
        FlagMeaning::Value(PendingValue::Text(TextSetting::Title))
    } else if chars_eq_str(name, "width") {
        FlagMeaning::Value(PendingValue::Number(NumberSetting::Width))
    } else if chars_eq_str(name, "height") {
        FlagMeaning::Value(PendingValue::Number(NumberSetting::Height))
    } else if chars_eq_str(name, "x") {
        FlagMeaning::Value(PendingValue::Number(NumberSetting::X))
    } else if chars_eq_str(name, "y") {
        FlagMeaning::Value(PendingValue::Number(NumberSetting::Y))
    } else if chars_eq_str(name, "position") {
        FlagMeaning::Value(PendingValue::Position)
    } else if chars_eq_str(name, "min-width") {
        FlagMeaning::Value(PendingValue::Number(NumberSetting::MinWidth))
    } else if chars_eq_str(name, "min-height") {
        FlagMeaning::Value(PendingValue::Number(NumberSetting::MinHeight))
    } else if chars_eq_str(name, "max-width") {
        FlagMeaning::Value(PendingValue::Number(NumberSetting::MaxWidth))
    } else if chars_eq_str(name, "max-height") {
        FlagMeaning::Value(PendingValue::Number(NumberSetting::MaxHeight))
    } else if chars_eq_str(name, "macos-option-as-alt") {
        FlagMeaning::Value(PendingValue::Text(TextSetting::MacosOptionAsAlt))
    } else if chars_eq_str(name, "macos-tabbing-identifier") {
        FlagMeaning::Value(PendingValue::Text(TextSetting::MacosTabbingIdentifier))
    } else if chars_eq_str(name, "fullscreen") {
        FlagMeaning::Toggle(BoolSetting::Fullscreen)
    } else if chars_eq_str(name, "resizable") {
        FlagMeaning::Toggle(BoolSetting::Resizable)
    } else if chars_eq_str(name, "decorations") {
        FlagMeaning::Toggle(BoolSetting::Decorations)
    } else if chars_eq_str(name, "transparent") {
        FlagMeaning::Toggle(BoolSetting::Transparent)
    } else if chars_eq_str(name, "maximized") {
        FlagMeaning::Toggle(BoolSetting::Maximized)
    } else if chars_eq_str(name, "macos-titlebar-transparent") {
        FlagMeaning::Toggle(BoolSetting::MacosTitlebarTransparent)
    } else if chars_eq_str(name, "macos-titlebar-hidden") {
        FlagMeaning::Toggle(BoolSetting::MacosTitlebarHidden)
    } else if chars_eq_str(name, "macos-titlebar-buttons-hidden") {
        FlagMeaning::Toggle(BoolSetting::MacosTitlebarButtonsHidden)
    } else if chars_eq_str(name, "macos-title-hidden") {
        FlagMeaning::Toggle(BoolSetting::MacosTitleHidden)
    } else if chars_eq_str(name, "macos-fullsize-content-view") {
        FlagMeaning::Toggle(BoolSetting::MacosFullsizeContentView)
    } else if chars_eq_str(name, "macos-has-shadow") {
        FlagMeaning::Toggle(BoolSetting::MacosHasShadow)
    } else if chars_eq_str(name, "macos-borderless-game") {
        FlagMeaning::Toggle(BoolSetting::MacosBorderlessGame)
    } else if chars_eq_str(name, "macos-disallow-hidpi") {
        FlagMeaning::Toggle(BoolSetting::MacosDisallowHidpi)
    } else if chars_eq_str(name, "help") {
        FlagMeaning::Help
    } else if chars_eq_str(name, "version") {
        FlagMeaning::Version
    } else {
        FlagMeaning::Ignored
    }
}

fn short_flag_meaning(c: char) -> (f: FlagMeaning)
    ensures
        f == short_flag(c),
{
    if c == 't' {
        FlagMeaning::Value(PendingValue::Text(TextSetting::Title))
    } else if c == 'w' {
        FlagMeaning::Value(PendingValue::Number(NumberSetting::Width))
    } else if c == 'h' {
        FlagMeaning::Value(PendingValue::Number(NumberSetting::Height))
    } else if c == 'x' {
        FlagMeaning::Value(PendingValue::Number(NumberSetting::X))
    } else if c == 'y' {
        FlagMeaning::Value(PendingValue::Number(NumberSetting::Y))
    } else if c == 'f' {
        FlagMeaning::Toggle(BoolSetting::Fullscreen)
    } else if c == 'r' {
        FlagMeaning::Toggle(BoolSetting::Resizable)
    } else if c == 'd' {
        FlagMeaning::Toggle(BoolSetting::Decorations)
    } else if c == 'T' {
        FlagMeaning::Toggle(BoolSetting::Transparent)
    } else if c == 'm' {
        FlagMeaning::Toggle(BoolSetting::Maximized)
    } else if c == 'H' {
        FlagMeaning::Help
    } else if c == 'V' {
        FlagMeaning::Version
    } else {
        FlagMeaning::Ignored
    }
}

/// The state of reading the command line: the settings so far, and the
/// setting that the next plain argument is the value of, if any.
pub struct ArgParser {
    pub config: Config,
    pub pending: Option<PendingValue>,
}

/// An [`ArgParser`] as a value.
pub struct ParserView {
    pub window: WindowView,
    pub pending: Option<PendingValue>,
}

impl View for ArgParser {
    type V = ParserView;

    open spec fn view(&self) -> ParserView {
        ParserView { window: self.config.window@, pending: self.pending }
    }
}

/// What is to be done after reading one argument.
#[derive(Debug)]
pub enum ArgAction {
    /// Go on with the next argument.
    Continue,
    /// Read the configuration file at this path over the settings so far.
    LoadConfig(String),
    /// Print the usage text and stop.
    Help,
    /// Print the version and stop.
    Version,
}

/// An [`ArgAction`] as a value.
pub enum ArgActionView {
    Continue,
    LoadConfig(Seq<char>),
    Help,
    Version,
}

impl View for ArgAction {
    type V = ArgActionView;

    open spec fn view(&self) -> ArgActionView {
        match self {
            ArgAction::Continue => ArgActionView::Continue,
            ArgAction::LoadConfig(path) => ArgActionView::LoadConfig(path@),
            ArgAction::Help => ArgActionView::Help,
            ArgAction::Version => ArgActionView::Version,
        }
    }
}

/// What a flag does: a value flag makes its setting the pending one (in
/// place of any other), a toggle flips its setting, help and version end
/// the reading, and an unknown flag does nothing.
pub open spec fn apply_flag(s: ParserView, f: FlagMeaning) -> (ParserView, ArgActionView) {
    match f {
        FlagMeaning::Value(p) => (ParserView { pending: Some(p), ..s }, ArgActionView::Continue),
        FlagMeaning::Toggle(b) => (
            ParserView { window: toggled(s.window, b), ..s },
            ArgActionView::Continue,
        ),
        FlagMeaning::Help => (s, ArgActionView::Help),
        FlagMeaning::Version => (s, ArgActionView::Version),
        FlagMeaning::Ignored => (s, ArgActionView::Continue),
    }
}

/// What the letters `flags` of a one-dash argument do, read from left to
/// right; help or version ends the reading at its letter.
pub open spec fn apply_short_flags(s: ParserView, flags: Seq<char>) -> (ParserView, ArgActionView)
    decreases flags.len(),
{
    if flags.len() == 0 {
        (s, ArgActionView::Continue)
    } else {
        let (s2, a) = apply_flag(s, short_flag(flags[0]));
        if a is Continue {
            apply_short_flags(s2, flags.drop_first())
        } else {
            (s2, a)
        }
    }
}

/// The position that a `--position` value gives: two `u32`s, each possibly
/// surrounded by whitespace, separated by one comma.
pub open spec fn position_value(arg: Seq<char>) -> Option<(u32, u32)> {
    let parts = split_on(arg, ',');
    if parts.len() == 2 {
        match (parse_u32(trim(parts[0])), parse_u32(trim(parts[1]))) {
            (Ok(x), Ok(y)) => Some((x, y)),
            _ => None,
        }
    } else {
        None
    }
}

/// What the value `arg` does to the pending setting `p`: a text is taken as
/// it is; a number or a position that cannot be read changes nothing.
pub open spec fn apply_value(w: WindowView, p: PendingValue, arg: Seq<char>) -> WindowView {
    match p {
        PendingValue::Text(t) => with_text(w, t, arg),
        PendingValue::Number(n) => match parse_u32(arg) {
            Ok(v) => with_number(w, n, v),
            Err(_) => w,
        },
        PendingValue::Position => match position_value(arg) {
            Some(pos) => WindowView { position: Some(pos), ..w },
            None => w,
        },
    }
}

/// What one command-line argument does: `--name` is a long flag, `-letters`
/// a run of one-letter flags; any other argument is the value of the
/// pending setting, which it uses up, or, with none pending, the path of a
/// configuration file to read.
pub open spec fn apply_arg(s: ParserView, arg: Seq<char>) -> (ParserView, ArgActionView) {
    if arg.len() >= 2 && arg[0] == '-' && arg[1] == '-' {
        apply_flag(s, long_flag(arg.skip(2)))
    } else if arg.len() >= 1 && arg[0] == '-' {
        apply_short_flags(s, arg.skip(1))
    } else {
        match s.pending {
            Some(p) => (
                ParserView { window: apply_value(s.window, p, arg), pending: None },
                ArgActionView::Continue,
            ),
            None => (s, ArgActionView::LoadConfig(arg)),
        }
    }
}

/// A toggle flag given twice leaves the settings, and what is pending, as
/// they were.
pub proof fn lemma_toggle_flag_twice(s: ParserView, arg: Seq<char>)
    requires
        arg.len() >= 2,
        arg[0] == '-',
        arg[1] == '-',
        long_flag(arg.skip(2)) is Toggle,
    ensures
        apply_arg(apply_arg(s, arg).0, arg).0 == s,
        apply_arg(s, arg).1 is Continue,
{
    let b = long_flag(arg.skip(2))->Toggle_0;
    crate::config::lemma_toggle_twice(s.window, b);
}

/// A plain argument uses up the pending setting: after it nothing is
/// pending, and reading goes on.
pub proof fn lemma_value_clears_pending(s: ParserView, arg: Seq<char>)
    requires
        arg.len() == 0 || arg[0] != '-',
        s.pending is Some,
    ensures
        apply_arg(s, arg).0.pending is None,
        apply_arg(s, arg).1 is Continue,
{
}

/// A plain argument with nothing pending names a configuration file to
/// read, and leaves the settings as they are until it is read.
pub proof fn lemma_plain_argument_is_config_path(s: ParserView, arg: Seq<char>)
    requires
        arg.len() == 0 || arg[0] != '-',
        s.pending is None,
    ensures
        apply_arg(s, arg) == (s, ArgActionView::LoadConfig(arg)),
{
}

/// A long flag that means nothing changes nothing.
pub proof fn lemma_unknown_long_flag(s: ParserView, arg: Seq<char>)
    requires
        arg.len() >= 2,
        arg[0] == '-',
        arg[1] == '-',
        long_flag(arg.skip(2)) is Ignored,
    ensures
        apply_arg(s, arg) == (s, ArgActionView::Continue),
{
}

/// Flags never use up the pending setting: after a flag that names no
/// setting of its own, the same setting is still pending.
pub proof fn lemma_flags_keep_pending(s: ParserView, f: FlagMeaning)
    requires
        !(f is Value),
    ensures
        apply_flag(s, f).0.pending == s.pending,
{
}

/// Each long flag name has the meaning of its own name.
proof fn lemma_long_flag_names()
    ensures
        long_flag("title"@) == FlagMeaning::Value(PendingValue::Text(TextSetting::Title)),
        long_flag("width"@) == FlagMeaning::Value(PendingValue::Number(NumberSetting::Width)),
        long_flag("height"@) == FlagMeaning::Value(PendingValue::Number(NumberSetting::Height)),
        long_flag("x"@) == FlagMeaning::Value(PendingValue::Number(NumberSetting::X)),
        long_flag("y"@) == FlagMeaning::Value(PendingValue::Number(NumberSetting::Y)),
        long_flag("position"@) == FlagMeaning::Value(PendingValue::Position),
        long_flag("min-width"@) == FlagMeaning::Value(PendingValue::Number(NumberSetting::MinWidth)),
        long_flag("min-height"@) == FlagMeaning::Value(PendingValue::Number(NumberSetting::MinHeight)),
        long_flag("max-width"@) == FlagMeaning::Value(PendingValue::Number(NumberSetting::MaxWidth)),
        long_flag("max-height"@) == FlagMeaning::Value(PendingValue::Number(NumberSetting::MaxHeight)),
        long_flag("macos-option-as-alt"@) == FlagMeaning::Value(PendingValue::Text(TextSetting::MacosOptionAsAlt)),
        long_flag("macos-tabbing-identifier"@) == FlagMeaning::Value(PendingValue::Text(TextSetting::MacosTabbingIdentifier)),
        long_flag("fullscreen"@) == FlagMeaning::Toggle(BoolSetting::Fullscreen),
        long_flag("resizable"@) == FlagMeaning::Toggle(BoolSetting::Resizable),
        long_flag("decorations"@) == FlagMeaning::Toggle(BoolSetting::Decorations),
        long_flag("transparent"@) == FlagMeaning::Toggle(BoolSetting::Transparent),
        long_flag("maximized"@) == FlagMeaning::Toggle(BoolSetting::Maximized),
        long_flag("macos-titlebar-transparent"@) == FlagMeaning::Toggle(BoolSetting::MacosTitlebarTransparent),
        long_flag("macos-titlebar-hidden"@) == FlagMeaning::Toggle(BoolSetting::MacosTitlebarHidden),
        long_flag("macos-titlebar-buttons-hidden"@) == FlagMeaning::Toggle(BoolSetting::MacosTitlebarButtonsHidden),
        long_flag("macos-title-hidden"@) == FlagMeaning::Toggle(BoolSetting::MacosTitleHidden),
        long_flag("macos-fullsize-content-view"@) == FlagMeaning::Toggle(BoolSetting::MacosFullsizeContentView),
        long_flag("macos-has-shadow"@) == FlagMeaning::Toggle(BoolSetting::MacosHasShadow),
        long_flag("macos-borderless-game"@) == FlagMeaning::Toggle(BoolSetting::MacosBorderlessGame),
        long_flag("macos-disallow-hidpi"@) == FlagMeaning::Toggle(BoolSetting::MacosDisallowHidpi),
        long_flag("help"@) == FlagMeaning::Help,
        long_flag("version"@) == FlagMeaning::Version,
{
    reveal_strlit("title");
    assert("title"@.len() == 5);
    reveal_strlit("width");
    assert("width"@.len() == 5);
    reveal_strlit("height");
    assert("height"@.len() == 6);
    reveal_strlit("x");
    assert("x"@.len() == 1);
    reveal_strlit("y");
    assert("y"@.len() == 1);
    reveal_strlit("position");
    assert("position"@.len() == 8);
    reveal_strlit("min-width");
    assert("min-width"@.len() == 9);
    reveal_strlit("min-height");
    assert("min-height"@.len() == 10);
    reveal_strlit("max-width");
    assert("max-width"@.len() == 9);
    reveal_strlit("max-height");
    assert("max-height"@.len() == 10);
    reveal_strlit("macos-option-as-alt");
    assert("macos-option-as-alt"@.len() == 19);
    reveal_strlit("macos-tabbing-identifier");
    assert("macos-tabbing-identifier"@.len() == 24);
    reveal_strlit("fullscreen");
    assert("fullscreen"@.len() == 10);
    reveal_strlit("resizable");
    assert("resizable"@.len() == 9);
    reveal_strlit("decorations");
    assert("decorations"@.len() == 11);
    reveal_strlit("transparent");
    assert("transparent"@.len() == 11);
    reveal_strlit("maximized");
    assert("maximized"@.len() == 9);
    reveal_strlit("macos-titlebar-transparent");
    assert("macos-titlebar-transparent"@.len() == 26);
    reveal_strlit("macos-titlebar-hidden");
    assert("macos-titlebar-hidden"@.len() == 21);
    reveal_strlit("macos-titlebar-buttons-hidden");
    assert("macos-titlebar-buttons-hidden"@.len() == 29);
    reveal_strlit("macos-title-hidden");
    assert("macos-title-hidden"@.len() == 18);
    reveal_strlit("macos-fullsize-content-view");
    assert("macos-fullsize-content-view"@.len() == 27);
    reveal_strlit("macos-has-shadow");
    assert("macos-has-shadow"@.len() == 16);
    reveal_strlit("macos-borderless-game");
    assert("macos-borderless-game"@.len() == 21);
    reveal_strlit("macos-disallow-hidpi");
    assert("macos-disallow-hidpi"@.len() == 20);
    reveal_strlit("help");
    assert("help"@.len() == 4);
    reveal_strlit("version");
    assert("version"@.len() == 7);
    assert("title"@[0] != "width"@[0]);
    assert("title"@ != "width"@);
    assert("title"@ != "height"@);
    assert("title"@ != "x"@);
    assert("title"@ != "y"@);
    assert("title"@ != "position"@);
    assert("title"@ != "min-width"@);
    assert("title"@ != "min-height"@);
    assert("title"@ != "max-width"@);
    assert("title"@ != "max-height"@);
    assert("title"@ != "macos-option-as-alt"@);
    assert("title"@ != "macos-tabbing-identifier"@);
    assert("title"@ != "fullscreen"@);
    assert("title"@ != "resizable"@);
    assert("title"@ != "decorations"@);
    assert("title"@ != "transparent"@);
    assert("title"@ != "maximized"@);
    assert("title"@ != "macos-titlebar-transparent"@);
    assert("title"@ != "macos-titlebar-hidden"@);
    assert("title"@ != "macos-titlebar-buttons-hidden"@);
    assert("title"@ != "macos-title-hidden"@);
    assert("title"@ != "macos-fullsize-content-view"@);
    assert("title"@ != "macos-has-shadow"@);
    assert("title"@ != "macos-borderless-game"@);
    assert("title"@ != "macos-disallow-hidpi"@);
    assert("title"@ != "help"@);
    assert("title"@ != "version"@);
    assert("width"@ != "height"@);
    assert("width"@ != "x"@);
    assert("width"@ != "y"@);
    assert("width"@ != "position"@);
    assert("width"@ != "min-width"@);
    assert("width"@ != "min-height"@);
    assert("width"@ != "max-width"@);
    assert("width"@ != "max-height"@);
    assert("width"@ != "macos-option-as-alt"@);
    assert("width"@ != "macos-tabbing-identifier"@);
    assert("width"@ != "fullscreen"@);
    assert("width"@ != "resizable"@);
    assert("width"@ != "decorations"@);
    assert("width"@ != "transparent"@);
    assert("width"@ != "maximized"@);
    assert("width"@ != "macos-titlebar-transparent"@);
    assert("width"@ != "macos-titlebar-hidden"@);
    assert("width"@ != "macos-titlebar-buttons-hidden"@);
    assert("width"@ != "macos-title-hidden"@);
    assert("width"@ != "macos-fullsize-content-view"@);
    assert("width"@ != "macos-has-shadow"@);
    assert("width"@ != "macos-borderless-game"@);
    assert("width"@ != "macos-disallow-hidpi"@);
    assert("width"@ != "help"@);
    assert("width"@ != "version"@);
    assert("height"@ != "x"@);
    assert("height"@ != "y"@);
    assert("height"@ != "position"@);
    assert("height"@ != "min-width"@);
    assert("height"@ != "min-height"@);
    assert("height"@ != "max-width"@);
    assert("height"@ != "max-height"@);
    assert("height"@ != "macos-option-as-alt"@);
    assert("height"@ != "macos-tabbing-identifier"@);
    assert("height"@ != "fullscreen"@);
    assert("height"@ != "resizable"@);
    assert("height"@ != "decorations"@);
    assert("height"@ != "transparent"@);
    assert("height"@ != "maximized"@);
    assert("height"@ != "macos-titlebar-transparent"@);
    assert("height"@ != "macos-titlebar-hidden"@);
    assert("height"@ != "macos-titlebar-buttons-hidden"@);
    assert("height"@ != "macos-title-hidden"@);
    assert("height"@ != "macos-fullsize-content-view"@);
    assert("height"@ != "macos-has-shadow"@);
    assert("height"@ != "macos-borderless-game"@);
    assert("height"@ != "macos-disallow-hidpi"@);
    assert("height"@ != "help"@);
    assert("height"@ != "version"@);
    assert("x"@[0] != "y"@[0]);
    assert("x"@ != "y"@);
    assert("x"@ != "position"@);
    assert("x"@ != "min-width"@);
    assert("x"@ != "min-height"@);
    assert("x"@ != "max-width"@);
    assert("x"@ != "max-height"@);
    assert("x"@ != "macos-option-as-alt"@);
    assert("x"@ != "macos-tabbing-identifier"@);
    assert("x"@ != "fullscreen"@);
    assert("x"@ != "resizable"@);
    assert("x"@ != "decorations"@);
    assert("x"@ != "transparent"@);
    assert("x"@ != "maximized"@);
    assert("x"@ != "macos-titlebar-transparent"@);
    assert("x"@ != "macos-titlebar-hidden"@);
    assert("x"@ != "macos-titlebar-buttons-hidden"@);
    assert("x"@ != "macos-title-hidden"@);
    assert("x"@ != "macos-fullsize-content-view"@);
    assert("x"@ != "macos-has-shadow"@);
    assert("x"@ != "macos-borderless-game"@);
    assert("x"@ != "macos-disallow-hidpi"@);
    assert("x"@ != "help"@);
    assert("x"@ != "version"@);
    assert("y"@ != "position"@);
    assert("y"@ != "min-width"@);
    assert("y"@ != "min-height"@);
    assert("y"@ != "max-width"@);
    assert("y"@ != "max-height"@);
    assert("y"@ != "macos-option-as-alt"@);
    assert("y"@ != "macos-tabbing-identifier"@);
    assert("y"@ != "fullscreen"@);
    assert("y"@ != "resizable"@);
    assert("y"@ != "decorations"@);
    assert("y"@ != "transparent"@);
    assert("y"@ != "maximized"@);
    assert("y"@ != "macos-titlebar-transparent"@);
    assert("y"@ != "macos-titlebar-hidden"@);
    assert("y"@ != "macos-titlebar-buttons-hidden"@);
    assert("y"@ != "macos-title-hidden"@);
    assert("y"@ != "macos-fullsize-content-view"@);
    assert("y"@ != "macos-has-shadow"@);
    assert("y"@ != "macos-borderless-game"@);
    assert("y"@ != "macos-disallow-hidpi"@);
    assert("y"@ != "help"@);
    assert("y"@ != "version"@);
    assert("position"@ != "min-width"@);
    assert("position"@ != "min-height"@);
    assert("position"@ != "max-width"@);
    assert("position"@ != "max-height"@);
    assert("position"@ != "macos-option-as-alt"@);
    assert("position"@ != "macos-tabbing-identifier"@);
    assert("position"@ != "fullscreen"@);
    assert("position"@ != "resizable"@);
    assert("position"@ != "decorations"@);
    assert("position"@ != "transparent"@);
    assert("position"@ != "maximized"@);
    assert("position"@ != "macos-titlebar-transparent"@);
    assert("position"@ != "macos-titlebar-hidden"@);
    assert("position"@ != "macos-titlebar-buttons-hidden"@);
    assert("position"@ != "macos-title-hidden"@);
    assert("position"@ != "macos-fullsize-content-view"@);
    assert("position"@ != "macos-has-shadow"@);
    assert("position"@ != "macos-borderless-game"@);
    assert("position"@ != "macos-disallow-hidpi"@);
    assert("position"@ != "help"@);
    assert("position"@ != "version"@);
    assert("min-width"@ != "min-height"@);
    assert("min-width"@[1] != "max-width"@[1]);
    assert("min-width"@ != "max-width"@);
    assert("min-width"@ != "max-height"@);
    assert("min-width"@ != "macos-option-as-alt"@);
    assert("min-width"@ != "macos-tabbing-identifier"@);
    assert("min-width"@ != "fullscreen"@);
    assert("min-width"@[0] != "resizable"@[0]);
    assert("min-width"@ != "resizable"@);
    assert("min-width"@ != "decorations"@);
    assert("min-width"@ != "transparent"@);
    assert("min-width"@[1] != "maximized"@[1]);
    assert("min-width"@ != "maximized"@);
    assert("min-width"@ != "macos-titlebar-transparent"@);
    assert("min-width"@ != "macos-titlebar-hidden"@);
    assert("min-width"@ != "macos-titlebar-buttons-hidden"@);
    assert("min-width"@ != "macos-title-hidden"@);
    assert("min-width"@ != "macos-fullsize-content-view"@);
    assert("min-width"@ != "macos-has-shadow"@);
    assert("min-width"@ != "macos-borderless-game"@);
    assert("min-width"@ != "macos-disallow-hidpi"@);
    assert("min-width"@ != "help"@);
    assert("min-width"@ != "version"@);
    assert("min-height"@ != "max-width"@);
    assert("min-height"@[1] != "max-height"@[1]);
    assert("min-height"@ != "max-height"@);
    assert("min-height"@ != "macos-option-as-alt"@);
    assert("min-height"@ != "macos-tabbing-identifier"@);
    assert("min-height"@[0] != "fullscreen"@[0]);
    assert("min-height"@ != "fullscreen"@);
    assert("min-height"@ != "resizable"@);
    assert("min-height"@ != "decorations"@);
    assert("min-height"@ != "transparent"@);
    assert("min-height"@ != "maximized"@);
    assert("min-height"@ != "macos-titlebar-transparent"@);
    assert("min-height"@ != "macos-titlebar-hidden"@);
    assert("min-height"@ != "macos-titlebar-buttons-hidden"@);
    assert("min-height"@ != "macos-title-hidden"@);
    assert("min-height"@ != "macos-fullsize-content-view"@);
    assert("min-height"@ != "macos-has-shadow"@);
    assert("min-height"@ != "macos-borderless-game"@);
    assert("min-height"@ != "macos-disallow-hidpi"@);
    assert("min-height"@ != "help"@);
    assert("min-height"@ != "version"@);
    assert("max-width"@ != "max-height"@);
    assert("max-width"@ != "macos-option-as-alt"@);
    assert("max-width"@ != "macos-tabbing-identifier"@);
    assert("max-width"@ != "fullscreen"@);
    assert("max-width"@[0] != "resizable"@[0]);
    assert("max-width"@ != "resizable"@);
    assert("max-width"@ != "decorations"@);
    assert("max-width"@ != "transparent"@);
    assert("max-width"@[3] != "maximized"@[3]);
    assert("max-width"@ != "maximized"@);
    assert("max-width"@ != "macos-titlebar-transparent"@);
    assert("max-width"@ != "macos-titlebar-hidden"@);
    assert("max-width"@ != "macos-titlebar-buttons-hidden"@);
    assert("max-width"@ != "macos-title-hidden"@);
    assert("max-width"@ != "macos-fullsize-content-view"@);
    assert("max-width"@ != "macos-has-shadow"@);
    assert("max-width"@ != "macos-borderless-game"@);
    assert("max-width"@ != "macos-disallow-hidpi"@);
    assert("max-width"@ != "help"@);
    assert("max-width"@ != "version"@);
    assert("max-height"@ != "macos-option-as-alt"@);
    assert("max-height"@ != "macos-tabbing-identifier"@);
    assert("max-height"@[0] != "fullscreen"@[0]);
    assert("max-height"@ != "fullscreen"@);
    assert("max-height"@ != "resizable"@);
    assert("max-height"@ != "decorations"@);
    assert("max-height"@ != "transparent"@);
    assert("max-height"@ != "maximized"@);
    assert("max-height"@ != "macos-titlebar-transparent"@);
    assert("max-height"@ != "macos-titlebar-hidden"@);
    assert("max-height"@ != "macos-titlebar-buttons-hidden"@);
    assert("max-height"@ != "macos-title-hidden"@);
    assert("max-height"@ != "macos-fullsize-content-view"@);
    assert("max-height"@ != "macos-has-shadow"@);
    assert("max-height"@ != "macos-borderless-game"@);
    assert("max-height"@ != "macos-disallow-hidpi"@);
    assert("max-height"@ != "help"@);
    assert("max-height"@ != "version"@);
    assert("macos-option-as-alt"@ != "macos-tabbing-identifier"@);
    assert("macos-option-as-alt"@ != "fullscreen"@);
    assert("macos-option-as-alt"@ != "resizable"@);
    assert("macos-option-as-alt"@ != "decorations"@);
    assert("macos-option-as-alt"@ != "transparent"@);
    assert("macos-option-as-alt"@ != "maximized"@);
    assert("macos-option-as-alt"@ != "macos-titlebar-transparent"@);
    assert("macos-option-as-alt"@ != "macos-titlebar-hidden"@);
    assert("macos-option-as-alt"@ != "macos-titlebar-buttons-hidden"@);
    assert("macos-option-as-alt"@ != "macos-title-hidden"@);
    assert("macos-option-as-alt"@ != "macos-fullsize-content-view"@);
    assert("macos-option-as-alt"@ != "macos-has-shadow"@);
    assert("macos-option-as-alt"@ != "macos-borderless-game"@);
    assert("macos-option-as-alt"@ != "macos-disallow-hidpi"@);
    assert("macos-option-as-alt"@ != "help"@);
    assert("macos-option-as-alt"@ != "version"@);
    assert("macos-tabbing-identifier"@ != "fullscreen"@);
    assert("macos-tabbing-identifier"@ != "resizable"@);
    assert("macos-tabbing-identifier"@ != "decorations"@);
    assert("macos-tabbing-identifier"@ != "transparent"@);
    assert("macos-tabbing-identifier"@ != "maximized"@);
    assert("macos-tabbing-identifier"@ != "macos-titlebar-transparent"@);
    assert("macos-tabbing-identifier"@ != "macos-titlebar-hidden"@);
    assert("macos-tabbing-identifier"@ != "macos-titlebar-buttons-hidden"@);
    assert("macos-tabbing-identifier"@ != "macos-title-hidden"@);
    assert("macos-tabbing-identifier"@ != "macos-fullsize-content-view"@);
    assert("macos-tabbing-identifier"@ != "macos-has-shadow"@);
    assert("macos-tabbing-identifier"@ != "macos-borderless-game"@);
    assert("macos-tabbing-identifier"@ != "macos-disallow-hidpi"@);
    assert("macos-tabbing-identifier"@ != "help"@);
    assert("macos-tabbing-identifier"@ != "version"@);
    assert("fullscreen"@ != "resizable"@);
    assert("fullscreen"@ != "decorations"@);
    assert("fullscreen"@ != "transparent"@);
    assert("fullscreen"@ != "maximized"@);
    assert("fullscreen"@ != "macos-titlebar-transparent"@);
    assert("fullscreen"@ != "macos-titlebar-hidden"@);
    assert("fullscreen"@ != "macos-titlebar-buttons-hidden"@);
    assert("fullscreen"@ != "macos-title-hidden"@);
    assert("fullscreen"@ != "macos-fullsize-content-view"@);
    assert("fullscreen"@ != "macos-has-shadow"@);
    assert("fullscreen"@ != "macos-borderless-game"@);
    assert("fullscreen"@ != "macos-disallow-hidpi"@);
    assert("fullscreen"@ != "help"@);
    assert("fullscreen"@ != "version"@);
    assert("resizable"@ != "decorations"@);
    assert("resizable"@ != "transparent"@);
    assert("resizable"@[0] != "maximized"@[0]);
    assert("resizable"@ != "maximized"@);
    assert("resizable"@ != "macos-titlebar-transparent"@);
    assert("resizable"@ != "macos-titlebar-hidden"@);
    assert("resizable"@ != "macos-titlebar-buttons-hidden"@);
    assert("resizable"@ != "macos-title-hidden"@);
    assert("resizable"@ != "macos-fullsize-content-view"@);
    assert("resizable"@ != "macos-has-shadow"@);
    assert("resizable"@ != "macos-borderless-game"@);
    assert("resizable"@ != "macos-disallow-hidpi"@);
    assert("resizable"@ != "help"@);
    assert("resizable"@ != "version"@);
    assert("decorations"@[0] != "transparent"@[0]);
    assert("decorations"@ != "transparent"@);
    assert("decorations"@ != "maximized"@);
    assert("decorations"@ != "macos-titlebar-transparent"@);
    assert("decorations"@ != "macos-titlebar-hidden"@);
    assert("decorations"@ != "macos-titlebar-buttons-hidden"@);
    assert("decorations"@ != "macos-title-hidden"@);
    assert("decorations"@ != "macos-fullsize-content-view"@);
    assert("decorations"@ != "macos-has-shadow"@);
    assert("decorations"@ != "macos-borderless-game"@);
    assert("decorations"@ != "macos-disallow-hidpi"@);
    assert("decorations"@ != "help"@);
    assert("decorations"@ != "version"@);
    assert("transparent"@ != "maximized"@);
    assert("transparent"@ != "macos-titlebar-transparent"@);
    assert("transparent"@ != "macos-titlebar-hidden"@);
    assert("transparent"@ != "macos-titlebar-buttons-hidden"@);
    assert("transparent"@ != "macos-title-hidden"@);
    assert("transparent"@ != "macos-fullsize-content-view"@);
    assert("transparent"@ != "macos-has-shadow"@);
    assert("transparent"@ != "macos-borderless-game"@);
    assert("transparent"@ != "macos-disallow-hidpi"@);
    assert("transparent"@ != "help"@);
    assert("transparent"@ != "version"@);
    assert("maximized"@ != "macos-titlebar-transparent"@);
    assert("maximized"@ != "macos-titlebar-hidden"@);
    assert("maximized"@ != "macos-titlebar-buttons-hidden"@);
    assert("maximized"@ != "macos-title-hidden"@);
    assert("maximized"@ != "macos-fullsize-content-view"@);
    assert("maximized"@ != "macos-has-shadow"@);
    assert("maximized"@ != "macos-borderless-game"@);
    assert("maximized"@ != "macos-disallow-hidpi"@);
    assert("maximized"@ != "help"@);
    assert("maximized"@ != "version"@);
    assert("macos-titlebar-transparent"@ != "macos-titlebar-hidden"@);
    assert("macos-titlebar-transparent"@ != "macos-titlebar-buttons-hidden"@);
    assert("macos-titlebar-transparent"@ != "macos-title-hidden"@);
    assert("macos-titlebar-transparent"@ != "macos-fullsize-content-view"@);
    assert("macos-titlebar-transparent"@ != "macos-has-shadow"@);
    assert("macos-titlebar-transparent"@ != "macos-borderless-game"@);
    assert("macos-titlebar-transparent"@ != "macos-disallow-hidpi"@);
    assert("macos-titlebar-transparent"@ != "help"@);
    assert("macos-titlebar-transparent"@ != "version"@);
    assert("macos-titlebar-hidden"@ != "macos-titlebar-buttons-hidden"@);
    assert("macos-titlebar-hidden"@ != "macos-title-hidden"@);
    assert("macos-titlebar-hidden"@ != "macos-fullsize-content-view"@);
    assert("macos-titlebar-hidden"@ != "macos-has-shadow"@);
    assert("macos-titlebar-hidden"@[6] != "macos-borderless-game"@[6]);
    assert("macos-titlebar-hidden"@ != "macos-borderless-game"@);
    assert("macos-titlebar-hidden"@ != "macos-disallow-hidpi"@);
    assert("macos-titlebar-hidden"@ != "help"@);
    assert("macos-titlebar-hidden"@ != "version"@);
    assert("macos-titlebar-buttons-hidden"@ != "macos-title-hidden"@);
    assert("macos-titlebar-buttons-hidden"@ != "macos-fullsize-content-view"@);
    assert("macos-titlebar-buttons-hidden"@ != "macos-has-shadow"@);
    assert("macos-titlebar-buttons-hidden"@ != "macos-borderless-game"@);
    assert("macos-titlebar-buttons-hidden"@ != "macos-disallow-hidpi"@);
    assert("macos-titlebar-buttons-hidden"@ != "help"@);
    assert("macos-titlebar-buttons-hidden"@ != "version"@);
    assert("macos-title-hidden"@ != "macos-fullsize-content-view"@);
    assert("macos-title-hidden"@ != "macos-has-shadow"@);
    assert("macos-title-hidden"@ != "macos-borderless-game"@);
    assert("macos-title-hidden"@ != "macos-disallow-hidpi"@);
    assert("macos-title-hidden"@ != "help"@);
    assert("macos-title-hidden"@ != "version"@);
    assert("macos-fullsize-content-view"@ != "macos-has-shadow"@);
    assert("macos-fullsize-content-view"@ != "macos-borderless-game"@);
    assert("macos-fullsize-content-view"@ != "macos-disallow-hidpi"@);
    assert("macos-fullsize-content-view"@ != "help"@);
    assert("macos-fullsize-content-view"@ != "version"@);
    assert("macos-has-shadow"@ != "macos-borderless-game"@);
    assert("macos-has-shadow"@ != "macos-disallow-hidpi"@);
    assert("macos-has-shadow"@ != "help"@);
    assert("macos-has-shadow"@ != "version"@);
    assert("macos-borderless-game"@ != "macos-disallow-hidpi"@);
    assert("macos-borderless-game"@ != "help"@);
    assert("macos-borderless-game"@ != "version"@);
    assert("macos-disallow-hidpi"@ != "help"@);
    assert("macos-disallow-hidpi"@ != "version"@);
    assert("help"@ != "version"@);
}

proof fn lemma_long_arg(s: ParserView, arg: Seq<char>, name: Seq<char>)
    requires
        arg.len() >= 2,
        arg[0] == '-',
        arg[1] == '-',
        arg.skip(2) == name,
    ensures
        apply_arg(s, arg) == apply_flag(s, long_flag(name)),
{
}

proof fn lemma_short_arg(s: ParserView, arg: Seq<char>, c: char)
    requires
        arg.len() == 2,
        arg[0] == '-',
        arg[1] == c,
        c != '-',
    ensures
        apply_arg(s, arg) == apply_flag(s, short_flag(c)),
{
    assert(arg.skip(1) =~= seq![c]);
    assert(seq![c].drop_first() =~= Seq::<char>::empty());
    reveal_with_fuel(apply_short_flags, 2);
}

proof fn lemma_toggle_effect(s: ParserView, b: BoolSetting, field_value: bool, flipped: WindowView)
    requires
        bool_setting(s.window, b) == field_value,
        with_bool(s.window, b, !field_value) == flipped,
    ensures
        apply_flag(s, FlagMeaning::Toggle(b)) == (ParserView { window: flipped, ..s }, ArgActionView::Continue),
{
}

proof fn lemma_long_toggle_fullscreen(s: ParserView)
    ensures
        apply_arg(s, "--fullscreen"@) == (ParserView { window: WindowView { fullscreen: !s.window.fullscreen, ..s.window }, ..s }, ArgActionView::Continue),
{
        lemma_long_flag_names();
        crate::config::lemma_bool_settings_are_their_fields(s.window, !s.window.fullscreen);
        reveal_strlit("--fullscreen");
        reveal_strlit("fullscreen");
        assert("--fullscreen"@.skip(2) =~= "fullscreen"@);
        lemma_long_arg(s, "--fullscreen"@, "fullscreen"@);
        lemma_toggle_effect(s, BoolSetting::Fullscreen, s.window.fullscreen, WindowView { fullscreen: !s.window.fullscreen, ..s.window });
}

proof fn lemma_long_toggle_resizable(s: ParserView)
    ensures
        apply_arg(s, "--resizable"@) == (ParserView { window: WindowView { resizable: !s.window.resizable, ..s.window }, ..s }, ArgActionView::Continue),
{
        lemma_long_flag_names();
        crate::config::lemma_bool_settings_are_their_fields(s.window, !s.window.resizable);
        reveal_strlit("--resizable");
        reveal_strlit("resizable");
        assert("--resizable"@.skip(2) =~= "resizable"@);
        lemma_long_arg(s, "--resizable"@, "resizable"@);
        lemma_toggle_effect(s, BoolSetting::Resizable, s.window.resizable, WindowView { resizable: !s.window.resizable, ..s.window });
}

proof fn lemma_long_toggle_decorations(s: ParserView)
    ensures
        apply_arg(s, "--decorations"@) == (ParserView { window: WindowView { decorations: !s.window.decorations, ..s.window }, ..s }, ArgActionView::Continue),
{
        lemma_long_flag_names();
        crate::config::lemma_bool_settings_are_their_fields(s.window, !s.window.decorations);
        reveal_strlit("--decorations");
        reveal_strlit("decorations");
        assert("--decorations"@.skip(2) =~= "decorations"@);
        lemma_long_arg(s, "--decorations"@, "decorations"@);
        lemma_toggle_effect(s, BoolSetting::Decorations, s.window.decorations, WindowView { decorations: !s.window.decorations, ..s.window });
}

proof fn lemma_long_toggle_transparent(s: ParserView)
    ensures
        apply_arg(s, "--transparent"@) == (ParserView { window: WindowView { transparent: !s.window.transparent, ..s.window }, ..s }, ArgActionView::Continue),
{
        lemma_long_flag_names();
        crate::config::lemma_bool_settings_are_their_fields(s.window, !s.window.transparent);
        reveal_strlit("--transparent");
        reveal_strlit("transparent");
        assert("--transparent"@.skip(2) =~= "transparent"@);
        lemma_long_arg(s, "--transparent"@, "transparent"@);
        lemma_toggle_effect(s, BoolSetting::Transparent, s.window.transparent, WindowView { transparent: !s.window.transparent, ..s.window });
}

proof fn lemma_long_toggle_maximized(s: ParserView)
    ensures
        apply_arg(s, "--maximized"@) == (ParserView { window: WindowView { maximized: !s.window.maximized, ..s.window }, ..s }, ArgActionView::Continue),
{
        lemma_long_flag_names();
        crate::config::lemma_bool_settings_are_their_fields(s.window, !s.window.maximized);
        reveal_strlit("--maximized");
        reveal_strlit("maximized");
        assert("--maximized"@.skip(2) =~= "maximized"@);
        lemma_long_arg(s, "--maximized"@, "maximized"@);
        lemma_toggle_effect(s, BoolSetting::Maximized, s.window.maximized, WindowView { maximized: !s.window.maximized, ..s.window });
}

proof fn lemma_long_toggle_macos_titlebar_transparent(s: ParserView)
    ensures
        apply_arg(s, "--macos-titlebar-transparent"@) == (ParserView { window: WindowView { macos_titlebar_transparent: !s.window.macos_titlebar_transparent, ..s.window }, ..s }, ArgActionView::Continue),
{
        lemma_long_flag_names();
        crate::config::lemma_bool_settings_are_their_fields(s.window, !s.window.macos_titlebar_transparent);
        reveal_strlit("--macos-titlebar-transparent");
        reveal_strlit("macos-titlebar-transparent");
        assert("--macos-titlebar-transparent"@.skip(2) =~= "macos-titlebar-transparent"@);
        lemma_long_arg(s, "--macos-titlebar-transparent"@, "macos-titlebar-transparent"@);
        lemma_toggle_effect(s, BoolSetting::MacosTitlebarTransparent, s.window.macos_titlebar_transparent, WindowView { macos_titlebar_transparent: !s.window.macos_titlebar_transparent, ..s.window });
}

proof fn lemma_long_toggle_macos_titlebar_hidden(s: ParserView)
    ensures
        apply_arg(s, "--macos-titlebar-hidden"@) == (ParserView { window: WindowView { macos_titlebar_hidden: !s.window.macos_titlebar_hidden, ..s.window }, ..s }, ArgActionView::Continue),
{
        lemma_long_flag_names();
        crate::config::lemma_bool_settings_are_their_fields(s.window, !s.window.macos_titlebar_hidden);
        reveal_strlit("--macos-titlebar-hidden");
        reveal_strlit("macos-titlebar-hidden");
        assert("--macos-titlebar-hidden"@.skip(2) =~= "macos-titlebar-hidden"@);
        lemma_long_arg(s, "--macos-titlebar-hidden"@, "macos-titlebar-hidden"@);
        lemma_toggle_effect(s, BoolSetting::MacosTitlebarHidden, s.window.macos_titlebar_hidden, WindowView { macos_titlebar_hidden: !s.window.macos_titlebar_hidden, ..s.window });
}

proof fn lemma_long_toggle_macos_titlebar_buttons_hidden(s: ParserView)
    ensures
        apply_arg(s, "--macos-titlebar-buttons-hidden"@) == (ParserView { window: WindowView { macos_titlebar_buttons_hidden: !s.window.macos_titlebar_buttons_hidden, ..s.window }, ..s }, ArgActionView::Continue),
{
        lemma_long_flag_names();
        crate::config::lemma_bool_settings_are_their_fields(s.window, !s.window.macos_titlebar_buttons_hidden);
        reveal_strlit("--macos-titlebar-buttons-hidden");
        reveal_strlit("macos-titlebar-buttons-hidden");
        assert("--macos-titlebar-buttons-hidden"@.skip(2) =~= "macos-titlebar-buttons-hidden"@);
        lemma_long_arg(s, "--macos-titlebar-buttons-hidden"@, "macos-titlebar-buttons-hidden"@);
        lemma_toggle_effect(s, BoolSetting::MacosTitlebarButtonsHidden, s.window.macos_titlebar_buttons_hidden, WindowView { macos_titlebar_buttons_hidden: !s.window.macos_titlebar_buttons_hidden, ..s.window });
}

proof fn lemma_long_toggle_macos_title_hidden(s: ParserView)
    ensures
        apply_arg(s, "--macos-title-hidden"@) == (ParserView { window: WindowView { macos_title_hidden: !s.window.macos_title_hidden, ..s.window }, ..s }, ArgActionView::Continue),
{
        lemma_long_flag_names();
        crate::config::lemma_bool_settings_are_their_fields(s.window, !s.window.macos_title_hidden);
        reveal_strlit("--macos-title-hidden");
        reveal_strlit("macos-title-hidden");
        assert("--macos-title-hidden"@.skip(2) =~= "macos-title-hidden"@);
        lemma_long_arg(s, "--macos-title-hidden"@, "macos-title-hidden"@);
        lemma_toggle_effect(s, BoolSetting::MacosTitleHidden, s.window.macos_title_hidden, WindowView { macos_title_hidden: !s.window.macos_title_hidden, ..s.window });
}

proof fn lemma_long_toggle_macos_fullsize_content_view(s: ParserView)
    ensures
        apply_arg(s, "--macos-fullsize-content-view"@) == (ParserView { window: WindowView { macos_fullsize_content_view: !s.window.macos_fullsize_content_view, ..s.window }, ..s }, ArgActionView::Continue),
{
        lemma_long_flag_names();
        crate::config::lemma_bool_settings_are_their_fields(s.window, !s.window.macos_fullsize_content_view);
        reveal_strlit("--macos-fullsize-content-view");
        reveal_strlit("macos-fullsize-content-view");
        assert("--macos-fullsize-content-view"@.skip(2) =~= "macos-fullsize-content-view"@);
        lemma_long_arg(s, "--macos-fullsize-content-view"@, "macos-fullsize-content-view"@);
        lemma_toggle_effect(s, BoolSetting::MacosFullsizeContentView, s.window.macos_fullsize_content_view, WindowView { macos_fullsize_content_view: !s.window.macos_fullsize_content_view, ..s.window });
}

proof fn lemma_long_toggle_macos_has_shadow(s: ParserView)
    ensures
        apply_arg(s, "--macos-has-shadow"@) == (ParserView { window: WindowView { macos_has_shadow: !s.window.macos_has_shadow, ..s.window }, ..s }, ArgActionView::Continue),
{
        lemma_long_flag_names();
        crate::config::lemma_bool_settings_are_their_fields(s.window, !s.window.macos_has_shadow);
        reveal_strlit("--macos-has-shadow");
        reveal_strlit("macos-has-shadow");
        assert("--macos-has-shadow"@.skip(2) =~= "macos-has-shadow"@);
        lemma_long_arg(s, "--macos-has-shadow"@, "macos-has-shadow"@);
        lemma_toggle_effect(s, BoolSetting::MacosHasShadow, s.window.macos_has_shadow, WindowView { macos_has_shadow: !s.window.macos_has_shadow, ..s.window });
}

proof fn lemma_long_toggle_macos_borderless_game(s: ParserView)
    ensures
        apply_arg(s, "--macos-borderless-game"@) == (ParserView { window: WindowView { macos_borderless_game: !s.window.macos_borderless_game, ..s.window }, ..s }, ArgActionView::Continue),
{
        lemma_long_flag_names();
        crate::config::lemma_bool_settings_are_their_fields(s.window, !s.window.macos_borderless_game);
        reveal_strlit("--macos-borderless-game");
        reveal_strlit("macos-borderless-game");
        assert("--macos-borderless-game"@.skip(2) =~= "macos-borderless-game"@);
        lemma_long_arg(s, "--macos-borderless-game"@, "macos-borderless-game"@);
        lemma_toggle_effect(s, BoolSetting::MacosBorderlessGame, s.window.macos_borderless_game, WindowView { macos_borderless_game: !s.window.macos_borderless_game, ..s.window });
}

proof fn lemma_long_toggle_macos_disallow_hidpi(s: ParserView)
    ensures
        apply_arg(s, "--macos-disallow-hidpi"@) == (ParserView { window: WindowView { macos_disallow_hidpi: !s.window.macos_disallow_hidpi, ..s.window }, ..s }, ArgActionView::Continue),
{
        lemma_long_flag_names();
        crate::config::lemma_bool_settings_are_their_fields(s.window, !s.window.macos_disallow_hidpi);
        reveal_strlit("--macos-disallow-hidpi");
        reveal_strlit("macos-disallow-hidpi");
        assert("--macos-disallow-hidpi"@.skip(2) =~= "macos-disallow-hidpi"@);
        lemma_long_arg(s, "--macos-disallow-hidpi"@, "macos-disallow-hidpi"@);
        lemma_toggle_effect(s, BoolSetting::MacosDisallowHidpi, s.window.macos_disallow_hidpi, WindowView { macos_disallow_hidpi: !s.window.macos_disallow_hidpi, ..s.window });
}

/// Each toggle flag flips the setting of its own name and nothing else:
/// every other setting, and what is pending, stay as they were.
pub proof fn lemma_long_toggle_flags(s: ParserView)
    ensures
        apply_arg(s, "--fullscreen"@) == (
            ParserView { window: WindowView { fullscreen: !s.window.fullscreen, ..s.window }, ..s },
            ArgActionView::Continue,
        ),
        apply_arg(s, "--resizable"@) == (
            ParserView { window: WindowView { resizable: !s.window.resizable, ..s.window }, ..s },
            ArgActionView::Continue,
        ),
        apply_arg(s, "--decorations"@) == (
            ParserView { window: WindowView { decorations: !s.window.decorations, ..s.window }, ..s },
            ArgActionView::Continue,
        ),
        apply_arg(s, "--transparent"@) == (
            ParserView { window: WindowView { transparent: !s.window.transparent, ..s.window }, ..s },
            ArgActionView::Continue,
        ),
        apply_arg(s, "--maximized"@) == (
            ParserView { window: WindowView { maximized: !s.window.maximized, ..s.window }, ..s },
            ArgActionView::Continue,
        ),
        apply_arg(s, "--macos-titlebar-transparent"@) == (
            ParserView { window: WindowView { macos_titlebar_transparent: !s.window.macos_titlebar_transparent, ..s.window }, ..s },
            ArgActionView::Continue,
        ),
        apply_arg(s, "--macos-titlebar-hidden"@) == (
            ParserView { window: WindowView { macos_titlebar_hidden: !s.window.macos_titlebar_hidden, ..s.window }, ..s },
            ArgActionView::Continue,
        ),
        apply_arg(s, "--macos-titlebar-buttons-hidden"@) == (
            ParserView { window: WindowView { macos_titlebar_buttons_hidden: !s.window.macos_titlebar_buttons_hidden, ..s.window }, ..s },
            ArgActionView::Continue,
        ),
        apply_arg(s, "--macos-title-hidden"@) == (
            ParserView { window: WindowView { macos_title_hidden: !s.window.macos_title_hidden, ..s.window }, ..s },
            ArgActionView::Continue,
        ),
        apply_arg(s, "--macos-fullsize-content-view"@) == (
            ParserView { window: WindowView { macos_fullsize_content_view: !s.window.macos_fullsize_content_view, ..s.window }, ..s },
            ArgActionView::Continue,
        ),
        apply_arg(s, "--macos-has-shadow"@) == (
            ParserView { window: WindowView { macos_has_shadow: !s.window.macos_has_shadow, ..s.window }, ..s },
            ArgActionView::Continue,
        ),
        apply_arg(s, "--macos-borderless-game"@) == (
            ParserView { window: WindowView { macos_borderless_game: !s.window.macos_borderless_game, ..s.window }, ..s },
            ArgActionView::Continue,
        ),
        apply_arg(s, "--macos-disallow-hidpi"@) == (
            ParserView { window: WindowView { macos_disallow_hidpi: !s.window.macos_disallow_hidpi, ..s.window }, ..s },
            ArgActionView::Continue,
        ),
{
    lemma_long_toggle_fullscreen(s);
    lemma_long_toggle_resizable(s);
    lemma_long_toggle_decorations(s);
    lemma_long_toggle_transparent(s);
    lemma_long_toggle_maximized(s);
    lemma_long_toggle_macos_titlebar_transparent(s);
    lemma_long_toggle_macos_titlebar_hidden(s);
    lemma_long_toggle_macos_titlebar_buttons_hidden(s);
    lemma_long_toggle_macos_title_hidden(s);
    lemma_long_toggle_macos_fullsize_content_view(s);
    lemma_long_toggle_macos_has_shadow(s);
    lemma_long_toggle_macos_borderless_game(s);
    lemma_long_toggle_macos_disallow_hidpi(s);
}

/// Each value flag sets the setting of its own name to the next plain
/// argument: a text as it is, a number when it is a `u32`, a position when
/// it has the form `x,y`; nothing else changes, and nothing stays pending.
pub proof fn lemma_long_value_flags(s: ParserView, v: Seq<char>)
    requires
        v.len() == 0 || v[0] != '-',
    ensures
        apply_arg(apply_arg(s, "--title"@).0, v) == (
            ParserView { window: WindowView { title: v, ..s.window }, pending: None },
            ArgActionView::Continue,
        ),
        parse_u32(v) is Ok ==> apply_arg(apply_arg(s, "--width"@).0, v) == (
            ParserView { window: WindowView { width: parse_u32(v)->Ok_0, ..s.window }, pending: None },
            ArgActionView::Continue,
        ),
        parse_u32(v) is Ok ==> apply_arg(apply_arg(s, "--height"@).0, v) == (
            ParserView { window: WindowView { height: parse_u32(v)->Ok_0, ..s.window }, pending: None },
            ArgActionView::Continue,
        ),
        parse_u32(v) is Ok ==> apply_arg(apply_arg(s, "--x"@).0, v) == (
            ParserView { window: WindowView { x: parse_u32(v)->Ok_0, ..s.window }, pending: None },
            ArgActionView::Continue,
        ),
        parse_u32(v) is Ok ==> apply_arg(apply_arg(s, "--y"@).0, v) == (
            ParserView { window: WindowView { y: parse_u32(v)->Ok_0, ..s.window }, pending: None },
            ArgActionView::Continue,
        ),
        position_value(v) is Some ==> apply_arg(apply_arg(s, "--position"@).0, v) == (
            ParserView { window: WindowView { position: position_value(v), ..s.window }, pending: None },
            ArgActionView::Continue,
        ),
        parse_u32(v) is Ok ==> apply_arg(apply_arg(s, "--min-width"@).0, v) == (
            ParserView { window: WindowView { min_width: parse_u32(v)->Ok_0, ..s.window }, pending: None },
            ArgActionView::Continue,
        ),
        parse_u32(v) is Ok ==> apply_arg(apply_arg(s, "--min-height"@).0, v) == (
            ParserView { window: WindowView { min_height: parse_u32(v)->Ok_0, ..s.window }, pending: None },
            ArgActionView::Continue,
        ),
        parse_u32(v) is Ok ==> apply_arg(apply_arg(s, "--max-width"@).0, v) == (
            ParserView { window: WindowView { max_width: parse_u32(v)->Ok_0, ..s.window }, pending: None },
            ArgActionView::Continue,
        ),
        parse_u32(v) is Ok ==> apply_arg(apply_arg(s, "--max-height"@).0, v) == (
            ParserView { window: WindowView { max_height: parse_u32(v)->Ok_0, ..s.window }, pending: None },
            ArgActionView::Continue,
        ),
        apply_arg(apply_arg(s, "--macos-option-as-alt"@).0, v) == (
            ParserView { window: WindowView { macos_option_as_alt: v, ..s.window }, pending: None },
            ArgActionView::Continue,
        ),
        apply_arg(apply_arg(s, "--macos-tabbing-identifier"@).0, v) == (
            ParserView { window: WindowView { macos_tabbing_identifier: v, ..s.window }, pending: None },
            ArgActionView::Continue,
        ),
{
    lemma_long_flag_names();
    reveal_strlit("--title");
    reveal_strlit("title");
    assert("--title"@.skip(2) =~= "title"@);
    reveal_strlit("--width");
    reveal_strlit("width");
    assert("--width"@.skip(2) =~= "width"@);
    reveal_strlit("--height");
    reveal_strlit("height");
    assert("--height"@.skip(2) =~= "height"@);
    reveal_strlit("--x");
    reveal_strlit("x");
    assert("--x"@.skip(2) =~= "x"@);
    reveal_strlit("--y");
    reveal_strlit("y");
    assert("--y"@.skip(2) =~= "y"@);
    reveal_strlit("--position");
    reveal_strlit("position");
    assert("--position"@.skip(2) =~= "position"@);
    reveal_strlit("--min-width");
    reveal_strlit("min-width");
    assert("--min-width"@.skip(2) =~= "min-width"@);
    reveal_strlit("--min-height");
    reveal_strlit("min-height");
    assert("--min-height"@.skip(2) =~= "min-height"@);
    reveal_strlit("--max-width");
    reveal_strlit("max-width");
    assert("--max-width"@.skip(2) =~= "max-width"@);
    reveal_strlit("--max-height");
    reveal_strlit("max-height");
    assert("--max-height"@.skip(2) =~= "max-height"@);
    reveal_strlit("--macos-option-as-alt");
    reveal_strlit("macos-option-as-alt");
    assert("--macos-option-as-alt"@.skip(2) =~= "macos-option-as-alt"@);
    reveal_strlit("--macos-tabbing-identifier");
    reveal_strlit("macos-tabbing-identifier");
    assert("--macos-tabbing-identifier"@.skip(2) =~= "macos-tabbing-identifier"@);
}

/// `--help` and `--version` end the reading with the request of their own
/// names, and change nothing.
pub proof fn lemma_help_and_version_flags(s: ParserView)
    ensures
        apply_arg(s, "--help"@) == (s, ArgActionView::Help),
        apply_arg(s, "--version"@) == (s, ArgActionView::Version),
        apply_arg(s, "-H"@) == (s, ArgActionView::Help),
        apply_arg(s, "-V"@) == (s, ArgActionView::Version),
{
    lemma_long_flag_names();
    reveal_strlit("--help");
    reveal_strlit("help");
    assert("--help"@.skip(2) =~= "help"@);
    reveal_strlit("--version");
    reveal_strlit("version");
    assert("--version"@.skip(2) =~= "version"@);
    reveal_strlit("-H");
    assert("-H"@.len() == 2 && "-H"@[0] == '-' && "-H"@[1] == 'H');
    reveal_with_fuel(apply_short_flags, 2);
    assert("-H"@.skip(1) =~= seq!['H']);
    assert(seq!['H'].drop_first() =~= Seq::<char>::empty());
    reveal_strlit("-V");
    assert("-V"@.len() == 2 && "-V"@[0] == '-' && "-V"@[1] == 'V');
    reveal_with_fuel(apply_short_flags, 2);
    assert("-V"@.skip(1) =~= seq!['V']);
    assert(seq!['V'].drop_first() =~= Seq::<char>::empty());
}

proof fn lemma_short_toggle_f(s: ParserView)
    ensures
        apply_arg(s, "-f"@) == (ParserView { window: WindowView { fullscreen: !s.window.fullscreen, ..s.window }, ..s }, ArgActionView::Continue),
{
        crate::config::lemma_bool_settings_are_their_fields(s.window, !s.window.fullscreen);
        reveal_strlit("-f");
        assert("-f"@.len() == 2 && "-f"@[0] == '-' && "-f"@[1] == 'f');
        lemma_short_arg(s, "-f"@, 'f');
        lemma_toggle_effect(s, BoolSetting::Fullscreen, s.window.fullscreen, WindowView { fullscreen: !s.window.fullscreen, ..s.window });
}

proof fn lemma_short_toggle_r(s: ParserView)
    ensures
        apply_arg(s, "-r"@) == (ParserView { window: WindowView { resizable: !s.window.resizable, ..s.window }, ..s }, ArgActionView::Continue),
{
        crate::config::lemma_bool_settings_are_their_fields(s.window, !s.window.resizable);
        reveal_strlit("-r");
        assert("-r"@.len() == 2 && "-r"@[0] == '-' && "-r"@[1] == 'r');
        lemma_short_arg(s, "-r"@, 'r');
        lemma_toggle_effect(s, BoolSetting::Resizable, s.window.resizable, WindowView { resizable: !s.window.resizable, ..s.window });
}

proof fn lemma_short_toggle_d(s: ParserView)
    ensures
        apply_arg(s, "-d"@) == (ParserView { window: WindowView { decorations: !s.window.decorations, ..s.window }, ..s }, ArgActionView::Continue),
{
        crate::config::lemma_bool_settings_are_their_fields(s.window, !s.window.decorations);
        reveal_strlit("-d");
        assert("-d"@.len() == 2 && "-d"@[0] == '-' && "-d"@[1] == 'd');
        lemma_short_arg(s, "-d"@, 'd');
        lemma_toggle_effect(s, BoolSetting::Decorations, s.window.decorations, WindowView { decorations: !s.window.decorations, ..s.window });
}

proof fn lemma_short_toggle_upper_t(s: ParserView)
    ensures
        apply_arg(s, "-T"@) == (ParserView { window: WindowView { transparent: !s.window.transparent, ..s.window }, ..s }, ArgActionView::Continue),
{
        crate::config::lemma_bool_settings_are_their_fields(s.window, !s.window.transparent);
        reveal_strlit("-T");
        assert("-T"@.len() == 2 && "-T"@[0] == '-' && "-T"@[1] == 'T');
        lemma_short_arg(s, "-T"@, 'T');
        lemma_toggle_effect(s, BoolSetting::Transparent, s.window.transparent, WindowView { transparent: !s.window.transparent, ..s.window });
}

proof fn lemma_short_toggle_m(s: ParserView)
    ensures
        apply_arg(s, "-m"@) == (ParserView { window: WindowView { maximized: !s.window.maximized, ..s.window }, ..s }, ArgActionView::Continue),
{
        crate::config::lemma_bool_settings_are_their_fields(s.window, !s.window.maximized);
        reveal_strlit("-m");
        assert("-m"@.len() == 2 && "-m"@[0] == '-' && "-m"@[1] == 'm');
        lemma_short_arg(s, "-m"@, 'm');
        lemma_toggle_effect(s, BoolSetting::Maximized, s.window.maximized, WindowView { maximized: !s.window.maximized, ..s.window });
}

/// Each one-letter toggle flag flips the setting it stands for and
/// nothing else.
pub proof fn lemma_short_toggle_flags(s: ParserView)
    ensures
        apply_arg(s, "-f"@) == (
            ParserView { window: WindowView { fullscreen: !s.window.fullscreen, ..s.window }, ..s },
            ArgActionView::Continue,
        ),
        apply_arg(s, "-r"@) == (
            ParserView { window: WindowView { resizable: !s.window.resizable, ..s.window }, ..s },
            ArgActionView::Continue,
        ),
        apply_arg(s, "-d"@) == (
            ParserView { window: WindowView { decorations: !s.window.decorations, ..s.window }, ..s },
            ArgActionView::Continue,
        ),
        apply_arg(s, "-T"@) == (
            ParserView { window: WindowView { transparent: !s.window.transparent, ..s.window }, ..s },
            ArgActionView::Continue,
        ),
        apply_arg(s, "-m"@) == (
            ParserView { window: WindowView { maximized: !s.window.maximized, ..s.window }, ..s },
            ArgActionView::Continue,
        ),
{
    lemma_short_toggle_f(s);
    lemma_short_toggle_r(s);
    lemma_short_toggle_d(s);
    lemma_short_toggle_upper_t(s);
    lemma_short_toggle_m(s);
}

/// Each one-letter value flag sets the setting it stands for to the next
/// plain argument, and nothing else.
pub proof fn lemma_short_value_flags(s: ParserView, v: Seq<char>)
    requires
        v.len() == 0 || v[0] != '-',
    ensures
        apply_arg(apply_arg(s, "-t"@).0, v) == (
            ParserView { window: WindowView { title: v, ..s.window }, pending: None },
            ArgActionView::Continue,
        ),
        parse_u32(v) is Ok ==> apply_arg(apply_arg(s, "-w"@).0, v) == (
            ParserView { window: WindowView { width: parse_u32(v)->Ok_0, ..s.window }, pending: None },
            ArgActionView::Continue,
        ),
        parse_u32(v) is Ok ==> apply_arg(apply_arg(s, "-h"@).0, v) == (
            ParserView { window: WindowView { height: parse_u32(v)->Ok_0, ..s.window }, pending: None },
            ArgActionView::Continue,
        ),
        parse_u32(v) is Ok ==> apply_arg(apply_arg(s, "-x"@).0, v) == (
            ParserView { window: WindowView { x: parse_u32(v)->Ok_0, ..s.window }, pending: None },
            ArgActionView::Continue,
        ),
        parse_u32(v) is Ok ==> apply_arg(apply_arg(s, "-y"@).0, v) == (
            ParserView { window: WindowView { y: parse_u32(v)->Ok_0, ..s.window }, pending: None },
            ArgActionView::Continue,
        ),
{
    reveal_strlit("-t");
    assert("-t"@.len() == 2 && "-t"@[0] == '-' && "-t"@[1] == 't');
    reveal_with_fuel(apply_short_flags, 2);
    assert("-t"@.skip(1) =~= seq!['t']);
    assert(seq!['t'].drop_first() =~= Seq::<char>::empty());
    reveal_strlit("-w");
    assert("-w"@.len() == 2 && "-w"@[0] == '-' && "-w"@[1] == 'w');
    reveal_with_fuel(apply_short_flags, 2);
    assert("-w"@.skip(1) =~= seq!['w']);
    assert(seq!['w'].drop_first() =~= Seq::<char>::empty());
    reveal_strlit("-h");
    assert("-h"@.len() == 2 && "-h"@[0] == '-' && "-h"@[1] == 'h');
    reveal_with_fuel(apply_short_flags, 2);
    assert("-h"@.skip(1) =~= seq!['h']);
    assert(seq!['h'].drop_first() =~= Seq::<char>::empty());
    reveal_strlit("-x");
    assert("-x"@.len() == 2 && "-x"@[0] == '-' && "-x"@[1] == 'x');
    reveal_with_fuel(apply_short_flags, 2);
    assert("-x"@.skip(1) =~= seq!['x']);
    assert(seq!['x'].drop_first() =~= Seq::<char>::empty());
    reveal_strlit("-y");
    assert("-y"@.len() == 2 && "-y"@[0] == '-' && "-y"@[1] == 'y');
    reveal_with_fuel(apply_short_flags, 2);
    assert("-y"@.skip(1) =~= seq!['y']);
    assert(seq!['y'].drop_first() =~= Seq::<char>::empty());
}

impl ArgParser {
    /// Starts reading with the default settings and nothing pending.
    pub fn new() -> (p: Self)
        ensures
            p@ == (ParserView { window: default_window(), pending: None }),
    {
        ArgParser { config: Config::default(), pending: None }
    }

    fn apply_flag(&mut self, f: FlagMeaning) -> (a: ArgAction)
        ensures
            (final(self)@, a@) == apply_flag(old(self)@, f),
    {
        match f {
            FlagMeaning::Value(p) => {
                self.pending = Some(p);
                ArgAction::Continue
            },
            FlagMeaning::Toggle(b) => {
                self.config.window.toggle(b);
                ArgAction::Continue
            },
            FlagMeaning::Help => ArgAction::Help,
            FlagMeaning::Version => ArgAction::Version,
            FlagMeaning::Ignored => ArgAction::Continue,
        }
    }

    fn apply_value(&mut self, p: PendingValue, arg: String, chars: &Vec<char>)
        requires
            chars@ == arg@,
        ensures
            final(self)@ == (ParserView {
                window: apply_value(old(self)@.window, p, arg@),
                ..old(self)@
            }),
    {
        match p {
            PendingValue::Text(t) => self.config.window.set_text(t, arg),
            PendingValue::Number(n) => {
                match parse_u32_chars(chars) {
                    Ok(v) => self.config.window.set_number(n, v),
                    Err(_) => {},
                }
            },
            PendingValue::Position => {
                let parts = split_chars(chars, ',');
                if parts.len() == 2 {
                    assert(views_of(parts@)[0] == parts@[0]@);
                    assert(views_of(parts@)[1] == parts@[1]@);
                    let x = parse_u32_chars(&trim_chars(&parts[0]));
                    let y = parse_u32_chars(&trim_chars(&parts[1]));
                    match (x, y) {
                        (Ok(x), Ok(y)) => self.config.window.position = Some((x, y)),
                        _ => {},
                    }
                }
            },
        }
    }

    /// Reads one command-line argument.
    pub fn step(&mut self, arg: String) -> (a: ArgAction)
        ensures
            (final(self)@, a@) == apply_arg(old(self)@, arg@),
    {
        let chars = to_chars(arg.as_str());
        if chars.len() >= 2 && chars[0] == '-' && chars[1] == '-' {
            let name = skip_chars(&chars, 2);
            let f = long_flag_meaning(&name);
            self.apply_flag(f)
        } else if chars.len() >= 1 && chars[0] == '-' {
            let ghost start = self@;
            let n = chars.len();
            let mut i: usize = 1;
            assert(chars@.skip(1) == chars@.skip(i as int));
            assert(apply_arg(start, arg@) == apply_short_flags(start, chars@.skip(1)));
            while i < n
                invariant
                    apply_arg(old(self)@, arg@) == apply_short_flags(start, chars@.skip(1)),
                    n == chars@.len(),
                    1 <= i <= n,
                    chars@ == arg@,
                    apply_short_flags(start, chars@.skip(1)) == apply_short_flags(
                        self@,
                        chars@.skip(i as int),
                    ),
                decreases n - i,
            {
                assert(chars@.skip(i as int)[0] == chars@[i as int]);
                assert(chars@.skip(i as int).drop_first() =~= chars@.skip(i + 1));
                let f = short_flag_meaning(chars[i]);
                let a = self.apply_flag(f);
                match a {
                    ArgAction::Continue => {},
                    _ => {
                        return a;
                    },
                }
                i = i + 1;
            }
            assert(chars@.skip(n as int) =~= Seq::<char>::empty());
            ArgAction::Continue
        } else {
            match self.pending {
                Some(p) => {
                    self.pending = None;
                    self.apply_value(p, arg, &chars);
                    ArgAction::Continue
                },
                None => ArgAction::LoadConfig(arg),
            }
        }
    }
}

} // verus!
