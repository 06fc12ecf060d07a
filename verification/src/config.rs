//! The window configuration: its settings, their defaults, and how an INI
//! file sets them.

use crate::ini::{
    bool_error_message, ini_default_settings, ini_entries, ini_get, ini_getboolcoerce, ini_new,
    ini_read, ini_text_entries, ini_value, is_casefolded, is_false_word, is_true_word,
    opt_string_view, IniEntries,
};
use crate::text::{
    ascii_lower, ascii_lower_seq, eq_ignore_ascii_case, parse_u32, parse_u32_chars, split_chars, split_on, to_chars,
    chars_eq_ignore_ascii_case, trim, trim_chars, views_of, IntErrorKind,
};
use configparser::ini::Ini;
use vstd::prelude::*;

verus! {

/// How the window is set up.
#[derive(Clone, Debug)]
pub struct Window {
    pub title: String,
    pub width: u32,
    pub height: u32,
    pub x: u32,
    pub y: u32,
    pub position: Option<(u32, u32)>,
    pub fullscreen: bool,
    pub resizable: bool,
    pub decorations: bool,
    pub transparent: bool,
    pub maximized: bool,
    pub min_width: u32,
    pub min_height: u32,
    pub max_width: u32,
    pub max_height: u32,
    // macOS
    pub macos_titlebar_transparent: bool,
    pub macos_titlebar_hidden: bool,
    pub macos_titlebar_buttons_hidden: bool,
    pub macos_title_hidden: bool,
    pub macos_fullsize_content_view: bool,
    pub macos_has_shadow: bool,
    pub macos_option_as_alt: String,
    pub macos_tabbing_identifier: String,
    pub macos_borderless_game: bool,
    pub macos_disallow_hidpi: bool,
}

/// A [`Window`] as a value, its strings taken as character sequences.
pub struct WindowView {
    pub title: Seq<char>,
    pub width: u32,
    pub height: u32,
    pub x: u32,
    pub y: u32,
    pub position: Option<(u32, u32)>,
    pub fullscreen: bool,
    pub resizable: bool,
    pub decorations: bool,
    pub transparent: bool,
    pub maximized: bool,
    pub min_width: u32,
    pub min_height: u32,
    pub max_width: u32,
    pub max_height: u32,
    pub macos_titlebar_transparent: bool,
    pub macos_titlebar_hidden: bool,
    pub macos_titlebar_buttons_hidden: bool,
    pub macos_title_hidden: bool,
    pub macos_fullsize_content_view: bool,
    pub macos_has_shadow: bool,
    pub macos_option_as_alt: Seq<char>,
    pub macos_tabbing_identifier: Seq<char>,
    pub macos_borderless_game: bool,
    pub macos_disallow_hidpi: bool,
}

impl View for Window {
    type V = WindowView;

    open spec fn view(&self) -> WindowView {
        WindowView {
            title: self.title@,
            width: self.width,
            height: self.height,
            x: self.x,
            y: self.y,
            position: self.position,
            fullscreen: self.fullscreen,
            resizable: self.resizable,
            decorations: self.decorations,
            transparent: self.transparent,
            maximized: self.maximized,
            min_width: self.min_width,
            min_height: self.min_height,
            max_width: self.max_width,
            max_height: self.max_height,
            macos_titlebar_transparent: self.macos_titlebar_transparent,
            macos_titlebar_hidden: self.macos_titlebar_hidden,
            macos_titlebar_buttons_hidden: self.macos_titlebar_buttons_hidden,
            macos_title_hidden: self.macos_title_hidden,
            macos_fullsize_content_view: self.macos_fullsize_content_view,
            macos_has_shadow: self.macos_has_shadow,
            macos_option_as_alt: self.macos_option_as_alt@,
            macos_tabbing_identifier: self.macos_tabbing_identifier@,
            macos_borderless_game: self.macos_borderless_game,
            macos_disallow_hidpi: self.macos_disallow_hidpi,
        }
    }
}

/// The window settings when nothing sets them: an 800 by 600 window titled
/// `cava`, resizable and decorated, with a shadow on macOS.
pub open spec fn default_window() -> WindowView {
    WindowView {
        title: "cava"@,
        width: 800,
        height: 600,
        x: 0,
        y: 0,
        position: None,
        fullscreen: false,
        resizable: true,
        decorations: true,
        transparent: false,
        maximized: false,
        min_width: 0,
        min_height: 0,
        max_width: 0,
        max_height: 0,
        macos_titlebar_transparent: false,
        macos_titlebar_hidden: false,
        macos_titlebar_buttons_hidden: false,
        macos_title_hidden: false,
        macos_fullsize_content_view: false,
        macos_has_shadow: true,
        macos_option_as_alt: ""@,
        macos_tabbing_identifier: ""@,
        macos_borderless_game: false,
        macos_disallow_hidpi: false,
    }
}

impl Default for Window {
    fn default() -> (w: Self)
        ensures
            w@ == default_window(),
    {
        Window {
            title: "cava".to_owned(),
            width: 800,
            height: 600,
            x: 0,
            y: 0,
            position: None,
            fullscreen: false,
            resizable: true,
            decorations: true,
            transparent: false,
            maximized: false,
            min_width: 0,
            min_height: 0,
            max_width: 0,
            max_height: 0,
            macos_titlebar_transparent: false,
            macos_titlebar_hidden: false,
            macos_titlebar_buttons_hidden: false,
            macos_title_hidden: false,
            macos_fullsize_content_view: false,
            macos_has_shadow: true,
            macos_option_as_alt: "".to_owned(),
            macos_tabbing_identifier: "".to_owned(),
            macos_borderless_game: false,
            macos_disallow_hidpi: false,
        }
    }
}

/// The whole configuration of the program.
#[derive(Clone, Debug)]
pub struct Config {
    pub window: Window,
}

impl Default for Config {
    fn default() -> (c: Self)
        ensures
            c.window@ == default_window(),
    {
        Config { window: Window::default() }
    }
}


/// A yes-or-no window setting.
#[derive(Clone, Copy, Debug, PartialEq, Eq, Structural)]
pub enum BoolSetting {
    Fullscreen,
    Resizable,
    Decorations,
    Transparent,
    Maximized,
    MacosTitlebarTransparent,
    MacosTitlebarHidden,
    MacosTitlebarButtonsHidden,
    MacosTitleHidden,
    MacosFullsizeContentView,
    MacosHasShadow,
    MacosBorderlessGame,
    MacosDisallowHidpi,
}

/// A numeric window setting.
#[derive(Clone, Copy, Debug, PartialEq, Eq, Structural)]
pub enum NumberSetting {
    Width,
    Height,
    X,
    Y,
    MinWidth,
    MinHeight,
    MaxWidth,
    MaxHeight,
}

/// A text window setting.
#[derive(Clone, Copy, Debug, PartialEq, Eq, Structural)]
pub enum TextSetting {
    Title,
    MacosOptionAsAlt,
    MacosTabbingIdentifier,
}

/// The value of a yes-or-no setting.
pub open spec fn bool_setting(w: WindowView, s: BoolSetting) -> bool {
    match s {
        BoolSetting::Fullscreen => w.fullscreen,
        BoolSetting::Resizable => w.resizable,
        BoolSetting::Decorations => w.decorations,
        BoolSetting::Transparent => w.transparent,
        BoolSetting::Maximized => w.maximized,
        BoolSetting::MacosTitlebarTransparent => w.macos_titlebar_transparent,
        BoolSetting::MacosTitlebarHidden => w.macos_titlebar_hidden,
        BoolSetting::MacosTitlebarButtonsHidden => w.macos_titlebar_buttons_hidden,
        BoolSetting::MacosTitleHidden => w.macos_title_hidden,
        BoolSetting::MacosFullsizeContentView => w.macos_fullsize_content_view,
        BoolSetting::MacosHasShadow => w.macos_has_shadow,
        BoolSetting::MacosBorderlessGame => w.macos_borderless_game,
        BoolSetting::MacosDisallowHidpi => w.macos_disallow_hidpi,
    }
}

/// `w` with the yes-or-no setting `s` set to `b`.
pub open spec fn with_bool(w: WindowView, s: BoolSetting, b: bool) -> WindowView {
    WindowView {
        fullscreen: if s == BoolSetting::Fullscreen { b } else { w.fullscreen },
        resizable: if s == BoolSetting::Resizable { b } else { w.resizable },
        decorations: if s == BoolSetting::Decorations { b } else { w.decorations },
        transparent: if s == BoolSetting::Transparent { b } else { w.transparent },
        maximized: if s == BoolSetting::Maximized { b } else { w.maximized },
        macos_titlebar_transparent: if s == BoolSetting::MacosTitlebarTransparent { b } else { w.macos_titlebar_transparent },
        macos_titlebar_hidden: if s == BoolSetting::MacosTitlebarHidden { b } else { w.macos_titlebar_hidden },
        macos_titlebar_buttons_hidden: if s == BoolSetting::MacosTitlebarButtonsHidden { b } else { w.macos_titlebar_buttons_hidden },
        macos_title_hidden: if s == BoolSetting::MacosTitleHidden { b } else { w.macos_title_hidden },
        macos_fullsize_content_view: if s == BoolSetting::MacosFullsizeContentView { b } else { w.macos_fullsize_content_view },
        macos_has_shadow: if s == BoolSetting::MacosHasShadow { b } else { w.macos_has_shadow },
        macos_borderless_game: if s == BoolSetting::MacosBorderlessGame { b } else { w.macos_borderless_game },
        macos_disallow_hidpi: if s == BoolSetting::MacosDisallowHidpi { b } else { w.macos_disallow_hidpi },
        ..w
    }
}

/// `w` with the yes-or-no setting `s` flipped.
pub open spec fn toggled(w: WindowView, s: BoolSetting) -> WindowView {
    with_bool(w, s, !bool_setting(w, s))
}

/// `w` with the numeric setting `s` set to `v`.
pub open spec fn with_number(w: WindowView, s: NumberSetting, v: u32) -> WindowView {
    WindowView {
        width: if s == NumberSetting::Width { v } else { w.width },
        height: if s == NumberSetting::Height { v } else { w.height },
        x: if s == NumberSetting::X { v } else { w.x },
        y: if s == NumberSetting::Y { v } else { w.y },
        min_width: if s == NumberSetting::MinWidth { v } else { w.min_width },
        min_height: if s == NumberSetting::MinHeight { v } else { w.min_height },
        max_width: if s == NumberSetting::MaxWidth { v } else { w.max_width },
        max_height: if s == NumberSetting::MaxHeight { v } else { w.max_height },
        ..w
    }
}

/// `w` with the text setting `s` set to `t`.
pub open spec fn with_text(w: WindowView, s: TextSetting, t: Seq<char>) -> WindowView {
    match s {
        TextSetting::Title => WindowView { title: t, ..w },
        TextSetting::MacosOptionAsAlt => WindowView { macos_option_as_alt: t, ..w },
        TextSetting::MacosTabbingIdentifier => WindowView { macos_tabbing_identifier: t, ..w },
    }
}

impl Window {
    /// The value of the yes-or-no setting `s`.
    pub fn bool_setting(&self, s: BoolSetting) -> (b: bool)
        ensures
            b == bool_setting(self@, s),
    {
        match s {
            BoolSetting::Fullscreen => self.fullscreen,
            BoolSetting::Resizable => self.resizable,
            BoolSetting::Decorations => self.decorations,
            BoolSetting::Transparent => self.transparent,
            BoolSetting::Maximized => self.maximized,
            BoolSetting::MacosTitlebarTransparent => self.macos_titlebar_transparent,
            BoolSetting::MacosTitlebarHidden => self.macos_titlebar_hidden,
            BoolSetting::MacosTitlebarButtonsHidden => self.macos_titlebar_buttons_hidden,
            BoolSetting::MacosTitleHidden => self.macos_title_hidden,
            BoolSetting::MacosFullsizeContentView => self.macos_fullsize_content_view,
            BoolSetting::MacosHasShadow => self.macos_has_shadow,
            BoolSetting::MacosBorderlessGame => self.macos_borderless_game,
            BoolSetting::MacosDisallowHidpi => self.macos_disallow_hidpi,
        }
    }

    /// Sets the yes-or-no setting `s` to `b`.
    pub fn set_bool(&mut self, s: BoolSetting, b: bool)
        ensures
            final(self)@ == with_bool(old(self)@, s, b),
    {
        if s == BoolSetting::Fullscreen {
            self.fullscreen = b;
        }
        if s == BoolSetting::Resizable {
            self.resizable = b;
        }
        if s == BoolSetting::Decorations {
            self.decorations = b;
        }
        if s == BoolSetting::Transparent {
            self.transparent = b;
        }
        if s == BoolSetting::Maximized {
            self.maximized = b;
        }
        if s == BoolSetting::MacosTitlebarTransparent {
            self.macos_titlebar_transparent = b;
        }
        if s == BoolSetting::MacosTitlebarHidden {
            self.macos_titlebar_hidden = b;
        }
        if s == BoolSetting::MacosTitlebarButtonsHidden {
            self.macos_titlebar_buttons_hidden = b;
        }
        if s == BoolSetting::MacosTitleHidden {
            self.macos_title_hidden = b;
        }
        if s == BoolSetting::MacosFullsizeContentView {
            self.macos_fullsize_content_view = b;
        }
        if s == BoolSetting::MacosHasShadow {
            self.macos_has_shadow = b;
        }
        if s == BoolSetting::MacosBorderlessGame {
            self.macos_borderless_game = b;
        }
        if s == BoolSetting::MacosDisallowHidpi {
            self.macos_disallow_hidpi = b;
        }
    }

    /// Flips the yes-or-no setting `s`.
    pub fn toggle(&mut self, s: BoolSetting)
        ensures
            final(self)@ == toggled(old(self)@, s),
    {
        let b = self.bool_setting(s);
        self.set_bool(s, !b);
    }

    /// Sets the numeric setting `s` to `v`.
    pub fn set_number(&mut self, s: NumberSetting, v: u32)
        ensures
            final(self)@ == with_number(old(self)@, s, v),
    {
        match s {
            NumberSetting::Width => self.width = v,
            NumberSetting::Height => self.height = v,
            NumberSetting::X => self.x = v,
            NumberSetting::Y => self.y = v,
            NumberSetting::MinWidth => self.min_width = v,
            NumberSetting::MinHeight => self.min_height = v,
            NumberSetting::MaxWidth => self.max_width = v,
            NumberSetting::MaxHeight => self.max_height = v,
        }
    }

    /// Sets the text setting `s` to `t`.
    pub fn set_text(&mut self, s: TextSetting, t: String)
        ensures
            final(self)@ == with_text(old(self)@, s, t@),
    {
        match s {
            TextSetting::Title => self.title = t,
            TextSetting::MacosOptionAsAlt => self.macos_option_as_alt = t,
            TextSetting::MacosTabbingIdentifier => self.macos_tabbing_identifier = t,
        }
    }
}


/// Why a configuration text could not be read.
#[derive(Clone, Debug)]
pub enum ConfigError {
    /// The text is no INI; the message is the INI reader's.
    Read(String),
    /// A numeric setting holds `value`, which is no `u32`.
    Number { value: String, kind: IntErrorKind },
    /// A yes-or-no setting holds a value that is no boolean word; the
    /// message is the INI reader's.
    Bool(String),
    /// The position `value` does not have the form `x,y`.
    Position(String),
    /// The `x` of the position `value` is no `u32`.
    PositionX { value: String, kind: IntErrorKind },
    /// The `y` of the position `value` is no `u32`.
    PositionY { value: String, kind: IntErrorKind },
}

/// A [`ConfigError`] as a value, its strings taken as character sequences.
pub enum ConfigErrorView {
    Read(Seq<char>),
    Number { value: Seq<char>, kind: IntErrorKind },
    Bool(Seq<char>),
    Position(Seq<char>),
    PositionX { value: Seq<char>, kind: IntErrorKind },
    PositionY { value: Seq<char>, kind: IntErrorKind },
}

impl View for ConfigError {
    type V = ConfigErrorView;

    open spec fn view(&self) -> ConfigErrorView {
        match self {
            ConfigError::Read(m) => ConfigErrorView::Read(m@),
            ConfigError::Number { value, kind } => ConfigErrorView::Number {
                value: value@,
                kind: *kind,
            },
            ConfigError::Bool(m) => ConfigErrorView::Bool(m@),
            ConfigError::Position(v) => ConfigErrorView::Position(v@),
            ConfigError::PositionX { value, kind } => ConfigErrorView::PositionX {
                value: value@,
                kind: *kind,
            },
            ConfigError::PositionY { value, kind } => ConfigErrorView::PositionY {
                value: value@,
                kind: *kind,
            },
        }
    }
}

/// The window settings that a configuration result holds, or its error.
pub open spec fn window_result(r: Result<Config, ConfigError>) -> Result<WindowView, ConfigErrorView> {
    match r {
        Ok(c) => Ok(c.window@),
        Err(e) => Err(e@),
    }
}

/// The window settings that reading a configuration starts from: those of
/// `default` when it is given, else the defaults.
pub open spec fn base_window(default: Option<Config>) -> WindowView {
    match default {
        Some(c) => c.window@,
        None => default_window(),
    }
}

/// One setting that a configuration file may hold under `[window]`.
#[derive(Clone, Copy, Debug, PartialEq, Eq, Structural)]
pub enum IniStep {
    Text(TextSetting),
    Number(NumberSetting),
    Bool(BoolSetting),
}

/// The key under which a configuration file holds a setting.
pub open spec fn ini_key(step: IniStep) -> Seq<char> {
    match step {
        IniStep::Text(TextSetting::Title) => "title"@,
        IniStep::Text(TextSetting::MacosOptionAsAlt) => "macos_option_as_alt"@,
        IniStep::Text(TextSetting::MacosTabbingIdentifier) => "macos_tabbing_identifier"@,
        IniStep::Number(NumberSetting::Width) => "width"@,
        IniStep::Number(NumberSetting::Height) => "height"@,
        IniStep::Number(NumberSetting::X) => "x"@,
        IniStep::Number(NumberSetting::Y) => "y"@,
        IniStep::Number(NumberSetting::MinWidth) => "min_width"@,
        IniStep::Number(NumberSetting::MinHeight) => "min_height"@,
        IniStep::Number(NumberSetting::MaxWidth) => "max_width"@,
        IniStep::Number(NumberSetting::MaxHeight) => "max_height"@,
        IniStep::Bool(BoolSetting::Fullscreen) => "fullscreen"@,
        IniStep::Bool(BoolSetting::Resizable) => "resizable"@,
        IniStep::Bool(BoolSetting::Decorations) => "decorations"@,
        IniStep::Bool(BoolSetting::Transparent) => "transparent"@,
        IniStep::Bool(BoolSetting::Maximized) => "maximized"@,
        IniStep::Bool(BoolSetting::MacosTitlebarTransparent) => "macos_titlebar_transparent"@,
        IniStep::Bool(BoolSetting::MacosTitlebarHidden) => "macos_titlebar_hidden"@,
        IniStep::Bool(BoolSetting::MacosTitlebarButtonsHidden) => "macos_titlebar_buttons_hidden"@,
        IniStep::Bool(BoolSetting::MacosTitleHidden) => "macos_title_hidden"@,
        IniStep::Bool(BoolSetting::MacosFullsizeContentView) => "macos_fullsize_content_view"@,
        IniStep::Bool(BoolSetting::MacosHasShadow) => "macos_has_shadow"@,
        IniStep::Bool(BoolSetting::MacosBorderlessGame) => "macos_borderless_game"@,
        IniStep::Bool(BoolSetting::MacosDisallowHidpi) => "macos_disallow_hidpi"@,
    }
}

/// The settings a configuration file is read for, in the order they are
/// read; the position comes after them.
pub open spec fn ini_steps() -> Seq<IniStep> {
    seq![
        IniStep::Text(TextSetting::Title),
        IniStep::Number(NumberSetting::Width),
        IniStep::Number(NumberSetting::Height),
        IniStep::Bool(BoolSetting::Fullscreen),
        IniStep::Bool(BoolSetting::Resizable),
        IniStep::Bool(BoolSetting::Decorations),
        IniStep::Bool(BoolSetting::Transparent),
        IniStep::Bool(BoolSetting::Maximized),
        IniStep::Number(NumberSetting::MinWidth),
        IniStep::Number(NumberSetting::MinHeight),
        IniStep::Number(NumberSetting::MaxWidth),
        IniStep::Number(NumberSetting::MaxHeight),
        IniStep::Bool(BoolSetting::MacosTitlebarTransparent),
        IniStep::Bool(BoolSetting::MacosTitlebarHidden),
        IniStep::Bool(BoolSetting::MacosTitlebarButtonsHidden),
        IniStep::Bool(BoolSetting::MacosTitleHidden),
        IniStep::Bool(BoolSetting::MacosFullsizeContentView),
        IniStep::Bool(BoolSetting::MacosHasShadow),
        IniStep::Bool(BoolSetting::MacosBorderlessGame),
        IniStep::Bool(BoolSetting::MacosDisallowHidpi),
        IniStep::Text(TextSetting::MacosOptionAsAlt),
        IniStep::Text(TextSetting::MacosTabbingIdentifier),
    ]
}

/// What the entry for `step` in section `window` does to `w`: a text is
/// taken as it is, a number must be a `u32`, a yes-or-no setting must be a
/// boolean word; a missing entry changes nothing.
pub open spec fn ini_step(entries: IniEntries, w: WindowView, step: IniStep) -> Result<
    WindowView,
    ConfigErrorView,
> {
    match ini_value(entries, "window"@, ini_key(step)) {
        None => Ok(w),
        Some(v) => match step {
            IniStep::Text(t) => Ok(with_text(w, t, v)),
            IniStep::Number(n) => match parse_u32(v) {
                Ok(x) => Ok(with_number(w, n, x)),
                Err(kind) => Err(ConfigErrorView::Number { value: v, kind }),
            },
            IniStep::Bool(b) => if is_true_word(v) {
                Ok(with_bool(w, b, true))
            } else if is_false_word(v) {
                Ok(with_bool(w, b, false))
            } else {
                Err(ConfigErrorView::Bool(bool_error_message("window"@, ini_key(step))))
            },
        },
    }
}

/// `w` after the entries for `steps`, in order; the first error ends it.
pub open spec fn apply_ini_steps(entries: IniEntries, w: WindowView, steps: Seq<IniStep>) -> Result<
    WindowView,
    ConfigErrorView,
>
    decreases steps.len(),
{
    if steps.len() == 0 {
        Ok(w)
    } else {
        match ini_step(entries, w, steps[0]) {
            Ok(w2) => apply_ini_steps(entries, w2, steps.drop_first()),
            Err(e) => Err(e),
        }
    }
}

/// What the `position` entry does to `w`: `none` (in any case) or an empty
/// value changes nothing; otherwise it must be two `u32`s, each possibly
/// surrounded by whitespace, separated by one comma.
pub open spec fn ini_position(entries: IniEntries, w: WindowView) -> Result<
    WindowView,
    ConfigErrorView,
> {
    match ini_value(entries, "window"@, "position"@) {
        None => Ok(w),
        Some(pos) => if eq_ignore_ascii_case(pos, "none"@) || pos.len() == 0 {
            Ok(w)
        } else {
            let parts = split_on(pos, ',');
            if parts.len() != 2 {
                Err(ConfigErrorView::Position(pos))
            } else {
                match parse_u32(trim(parts[0])) {
                    Err(kind) => Err(ConfigErrorView::PositionX { value: pos, kind }),
                    Ok(x) => match parse_u32(trim(parts[1])) {
                        Err(kind) => Err(ConfigErrorView::PositionY { value: pos, kind }),
                        Ok(y) => Ok(WindowView { position: Some((x, y)), ..w }),
                    },
                }
            }
        },
    }
}

/// The window settings that the INI `entries` make of `base`.
pub open spec fn window_from_ini(entries: IniEntries, base: WindowView) -> Result<
    WindowView,
    ConfigErrorView,
> {
    match apply_ini_steps(entries, base, ini_steps()) {
        Ok(w) => ini_position(entries, w),
        Err(e) => Err(e),
    }
}

fn ini_step_order() -> (steps: Vec<IniStep>)
    ensures
        steps@ == ini_steps(),
{
    let steps = vec![
        IniStep::Text(TextSetting::Title),
        IniStep::Number(NumberSetting::Width),
        IniStep::Number(NumberSetting::Height),
        IniStep::Bool(BoolSetting::Fullscreen),
        IniStep::Bool(BoolSetting::Resizable),
        IniStep::Bool(BoolSetting::Decorations),
        IniStep::Bool(BoolSetting::Transparent),
        IniStep::Bool(BoolSetting::Maximized),
        IniStep::Number(NumberSetting::MinWidth),
        IniStep::Number(NumberSetting::MinHeight),
        IniStep::Number(NumberSetting::MaxWidth),
        IniStep::Number(NumberSetting::MaxHeight),
        IniStep::Bool(BoolSetting::MacosTitlebarTransparent),
        IniStep::Bool(BoolSetting::MacosTitlebarHidden),
        IniStep::Bool(BoolSetting::MacosTitlebarButtonsHidden),
        IniStep::Bool(BoolSetting::MacosTitleHidden),
        IniStep::Bool(BoolSetting::MacosFullsizeContentView),
        IniStep::Bool(BoolSetting::MacosHasShadow),
        IniStep::Bool(BoolSetting::MacosBorderlessGame),
        IniStep::Bool(BoolSetting::MacosDisallowHidpi),
        IniStep::Text(TextSetting::MacosOptionAsAlt),
        IniStep::Text(TextSetting::MacosTabbingIdentifier),
    ];
    assert(steps@ =~= ini_steps());
    steps
}

fn ini_key_str(step: IniStep) -> (key: &'static str)
    ensures
        key@ == ini_key(step),
{
    match step {
        IniStep::Text(TextSetting::Title) => "title",
        IniStep::Text(TextSetting::MacosOptionAsAlt) => "macos_option_as_alt",
        IniStep::Text(TextSetting::MacosTabbingIdentifier) => "macos_tabbing_identifier",
        IniStep::Number(NumberSetting::Width) => "width",
        IniStep::Number(NumberSetting::Height) => "height",
        IniStep::Number(NumberSetting::X) => "x",
        IniStep::Number(NumberSetting::Y) => "y",
        IniStep::Number(NumberSetting::MinWidth) => "min_width",
        IniStep::Number(NumberSetting::MinHeight) => "min_height",
        IniStep::Number(NumberSetting::MaxWidth) => "max_width",
        IniStep::Number(NumberSetting::MaxHeight) => "max_height",
        IniStep::Bool(BoolSetting::Fullscreen) => "fullscreen",
        IniStep::Bool(BoolSetting::Resizable) => "resizable",
        IniStep::Bool(BoolSetting::Decorations) => "decorations",
        IniStep::Bool(BoolSetting::Transparent) => "transparent",
        IniStep::Bool(BoolSetting::Maximized) => "maximized",
        IniStep::Bool(BoolSetting::MacosTitlebarTransparent) => "macos_titlebar_transparent",
        IniStep::Bool(BoolSetting::MacosTitlebarHidden) => "macos_titlebar_hidden",
        IniStep::Bool(BoolSetting::MacosTitlebarButtonsHidden) => "macos_titlebar_buttons_hidden",
        IniStep::Bool(BoolSetting::MacosTitleHidden) => "macos_title_hidden",
        IniStep::Bool(BoolSetting::MacosFullsizeContentView) => "macos_fullsize_content_view",
        IniStep::Bool(BoolSetting::MacosHasShadow) => "macos_has_shadow",
        IniStep::Bool(BoolSetting::MacosBorderlessGame) => "macos_borderless_game",
        IniStep::Bool(BoolSetting::MacosDisallowHidpi) => "macos_disallow_hidpi",
    }
}


/// Flipping a yes-or-no setting twice leaves the window as it was.
pub proof fn lemma_toggle_twice(w: WindowView, s: BoolSetting)
    ensures
        toggled(toggled(w, s), s) == w,
{
}

/// Whether a configuration can be read, and with which error it fails,
/// does not depend on the settings it is read over: two bases give the
/// same error, or both succeed.
pub proof fn lemma_ini_error_independent_of_base(entries: IniEntries, w1: WindowView, w2: WindowView)
    ensures
        (window_from_ini(entries, w1) is Err) == (window_from_ini(entries, w2) is Err),
        window_from_ini(entries, w1) is Err ==> window_from_ini(entries, w1)
            == window_from_ini(entries, w2),
{
    lemma_ini_steps_error_independent_of_base(entries, w1, w2, ini_steps());
}

proof fn lemma_ini_steps_error_independent_of_base(
    entries: IniEntries,
    w1: WindowView,
    w2: WindowView,
    steps: Seq<IniStep>,
)
    ensures
        (apply_ini_steps(entries, w1, steps) is Err) == (apply_ini_steps(entries, w2, steps) is Err),
        apply_ini_steps(entries, w1, steps) is Err ==> apply_ini_steps(entries, w1, steps)
            == apply_ini_steps(entries, w2, steps),
    decreases steps.len(),
{
    if steps.len() > 0 {
        match (ini_step(entries, w1, steps[0]), ini_step(entries, w2, steps[0])) {
            (Ok(v1), Ok(v2)) => {
                lemma_ini_steps_error_independent_of_base(entries, v1, v2, steps.drop_first());
            },
            _ => {},
        }
    }
}

/// A configuration with no entry in section `window` changes nothing: it
/// gives back the settings it is read over.
pub proof fn lemma_ini_without_window_entries(entries: IniEntries, base: WindowView)
    requires
        forall|key: Seq<char>| !entries.contains_key(("window"@, key)),
    ensures
        window_from_ini(entries, base) == Ok::<WindowView, ConfigErrorView>(base),
{
    lemma_ini_steps_without_entries(entries, base, ini_steps());
}

proof fn lemma_ini_steps_without_entries(entries: IniEntries, w: WindowView, steps: Seq<IniStep>)
    requires
        forall|key: Seq<char>| !entries.contains_key(("window"@, key)),
    ensures
        apply_ini_steps(entries, w, steps) == Ok::<WindowView, ConfigErrorView>(w),
    decreases steps.len(),
{
    if steps.len() > 0 {
        assert(!entries.contains_key(("window"@, ini_key(steps[0]))));
        lemma_ini_steps_without_entries(entries, w, steps.drop_first());
    }
}

/// Each yes-or-no setting reads and writes the window field of its own
/// name, and writing it leaves every other field as it was.
pub proof fn lemma_bool_settings_are_their_fields(w: WindowView, b: bool)
    ensures
        bool_setting(w, BoolSetting::Fullscreen) == w.fullscreen,
        bool_setting(w, BoolSetting::Resizable) == w.resizable,
        bool_setting(w, BoolSetting::Decorations) == w.decorations,
        bool_setting(w, BoolSetting::Transparent) == w.transparent,
        bool_setting(w, BoolSetting::Maximized) == w.maximized,
        bool_setting(w, BoolSetting::MacosTitlebarTransparent) == w.macos_titlebar_transparent,
        bool_setting(w, BoolSetting::MacosTitlebarHidden) == w.macos_titlebar_hidden,
        bool_setting(w, BoolSetting::MacosTitlebarButtonsHidden) == w.macos_titlebar_buttons_hidden,
        bool_setting(w, BoolSetting::MacosTitleHidden) == w.macos_title_hidden,
        bool_setting(w, BoolSetting::MacosFullsizeContentView) == w.macos_fullsize_content_view,
        bool_setting(w, BoolSetting::MacosHasShadow) == w.macos_has_shadow,
        bool_setting(w, BoolSetting::MacosBorderlessGame) == w.macos_borderless_game,
        bool_setting(w, BoolSetting::MacosDisallowHidpi) == w.macos_disallow_hidpi,
        with_bool(w, BoolSetting::Fullscreen, b) == (WindowView { fullscreen: b, ..w }),
        with_bool(w, BoolSetting::Resizable, b) == (WindowView { resizable: b, ..w }),
        with_bool(w, BoolSetting::Decorations, b) == (WindowView { decorations: b, ..w }),
        with_bool(w, BoolSetting::Transparent, b) == (WindowView { transparent: b, ..w }),
        with_bool(w, BoolSetting::Maximized, b) == (WindowView { maximized: b, ..w }),
        with_bool(w, BoolSetting::MacosTitlebarTransparent, b) == (WindowView { macos_titlebar_transparent: b, ..w }),
        with_bool(w, BoolSetting::MacosTitlebarHidden, b) == (WindowView { macos_titlebar_hidden: b, ..w }),
        with_bool(w, BoolSetting::MacosTitlebarButtonsHidden, b) == (WindowView { macos_titlebar_buttons_hidden: b, ..w }),
        with_bool(w, BoolSetting::MacosTitleHidden, b) == (WindowView { macos_title_hidden: b, ..w }),
        with_bool(w, BoolSetting::MacosFullsizeContentView, b) == (WindowView { macos_fullsize_content_view: b, ..w }),
        with_bool(w, BoolSetting::MacosHasShadow, b) == (WindowView { macos_has_shadow: b, ..w }),
        with_bool(w, BoolSetting::MacosBorderlessGame, b) == (WindowView { macos_borderless_game: b, ..w }),
        with_bool(w, BoolSetting::MacosDisallowHidpi, b) == (WindowView { macos_disallow_hidpi: b, ..w }),
{
}

/// Each numeric setting writes the window field of its own name, and
/// leaves every other field as it was.
pub proof fn lemma_number_settings_are_their_fields(w: WindowView, v: u32)
    ensures
        with_number(w, NumberSetting::Width, v) == (WindowView { width: v, ..w }),
        with_number(w, NumberSetting::Height, v) == (WindowView { height: v, ..w }),
        with_number(w, NumberSetting::X, v) == (WindowView { x: v, ..w }),
        with_number(w, NumberSetting::Y, v) == (WindowView { y: v, ..w }),
        with_number(w, NumberSetting::MinWidth, v) == (WindowView { min_width: v, ..w }),
        with_number(w, NumberSetting::MinHeight, v) == (WindowView { min_height: v, ..w }),
        with_number(w, NumberSetting::MaxWidth, v) == (WindowView { max_width: v, ..w }),
        with_number(w, NumberSetting::MaxHeight, v) == (WindowView { max_height: v, ..w }),
{
}

/// Each text setting writes the window field of its own name, and leaves
/// every other field as it was.
pub proof fn lemma_text_settings_are_their_fields(w: WindowView, t: Seq<char>)
    ensures
        with_text(w, TextSetting::Title, t) == (WindowView { title: t, ..w }),
        with_text(w, TextSetting::MacosOptionAsAlt, t) == (WindowView { macos_option_as_alt: t, ..w }),
        with_text(w, TextSetting::MacosTabbingIdentifier, t) == (WindowView { macos_tabbing_identifier: t, ..w }),
{
}

/// The window is opened with the settings of the same names: its title,
/// its size, and each yes-or-no setting as it is set.
pub proof fn lemma_plan_carries_settings(w: WindowView)
    ensures
        window_plan(w).title == w.title,
        window_plan(w).inner_size == (w.width, w.height),
        window_plan(w).resizable == w.resizable,
        window_plan(w).decorations == w.decorations,
        window_plan(w).transparent == w.transparent,
        window_plan(w).maximized == w.maximized,
        window_plan(w).fullscreen == w.fullscreen,
        window_plan(w).macos_titlebar_transparent == w.macos_titlebar_transparent,
        window_plan(w).macos_titlebar_hidden == w.macos_titlebar_hidden,
        window_plan(w).macos_titlebar_buttons_hidden == w.macos_titlebar_buttons_hidden,
        window_plan(w).macos_title_hidden == w.macos_title_hidden,
        window_plan(w).macos_fullsize_content_view == w.macos_fullsize_content_view,
        window_plan(w).macos_has_shadow == w.macos_has_shadow,
        window_plan(w).macos_borderless_game == w.macos_borderless_game,
        window_plan(w).macos_disallow_hidpi == w.macos_disallow_hidpi,
        w.position is Some ==> window_plan(w).position == w.position,
        w.max_width == 0 && w.max_height == 0 ==> window_plan(w).max_inner_size is None,
        w.macos_tabbing_identifier.len() > 0 ==> window_plan(w).macos_tabbing_identifier == Some(w.macos_tabbing_identifier),
{
}

/// The Option-as-Alt mode that a name gives does not depend on the case of
/// its ASCII letters.
pub proof fn lemma_option_as_alt_ignores_case(name: Seq<char>)
    ensures
        option_as_alt(name) == option_as_alt(ascii_lower_seq(name)),
{
    lemma_ascii_lower_seq_idempotent(name);
}

/// The names `none`, `only_left`, `only_right` and `both`, in any case of
/// their letters, give the modes of those names; a name that is none of
/// them gives `Neither`.
pub proof fn lemma_option_as_alt_names(name: Seq<char>)
    ensures
        ascii_lower_seq(name) == "none"@ ==> option_as_alt(name) == OptionAsAlt::Neither,
        ascii_lower_seq(name) == "only_left"@ ==> option_as_alt(name) == OptionAsAlt::OnlyLeft,
        ascii_lower_seq(name) == "only_right"@ ==> option_as_alt(name) == OptionAsAlt::OnlyRight,
        ascii_lower_seq(name) == "both"@ ==> option_as_alt(name) == OptionAsAlt::Both,
        ascii_lower_seq(name) != "none"@ && ascii_lower_seq(name) != "only_left"@
            && ascii_lower_seq(name) != "only_right"@ && ascii_lower_seq(name) != "both"@
            ==> option_as_alt(name) == OptionAsAlt::Neither,
{
    reveal_strlit("none");
    reveal_strlit("only_left");
    reveal_strlit("only_right");
    reveal_strlit("both");
    lemma_lowercase_word_is_its_own_lower("none"@);
    lemma_lowercase_word_is_its_own_lower("only_left"@);
    lemma_lowercase_word_is_its_own_lower("only_right"@);
    lemma_lowercase_word_is_its_own_lower("both"@);
    assert("none"@ != "only_left"@);
    assert("none"@ != "only_right"@);
    assert("none"@[0] != "both"@[0]);
    assert("none"@ != "both"@);
    assert("only_left"@ != "both"@);
    assert("only_right"@ != "both"@);
    assert("only_left"@[5] != "only_right"@[5]);
    assert("only_left"@ != "only_right"@);
}

proof fn lemma_lowercase_word_is_its_own_lower(word: Seq<char>)
    requires
        forall|i: int| 0 <= i < word.len() ==> !('A' <= #[trigger] word[i] && word[i] <= 'Z'),
    ensures
        ascii_lower_seq(word) == word,
{
    assert(ascii_lower_seq(word) =~= word);
}

proof fn lemma_ascii_lower_seq_idempotent(s: Seq<char>)
    ensures
        ascii_lower_seq(ascii_lower_seq(s)) == ascii_lower_seq(s),
{
    assert forall|i: int| 0 <= i < s.len() implies ascii_lower(ascii_lower(s[i])) == ascii_lower(
        s[i],
    ) by {
        let c = s[i];
        if 'A' <= c && c <= 'Z' {
            assert((((c as u32) + 32) as char) as u32 == (c as u32) + 32);
        }
    }
    assert(ascii_lower_seq(ascii_lower_seq(s)) =~= ascii_lower_seq(s));
}

/// A window is never opened smaller than 1 by 1 pixels, and a largest size,
/// when there is one, is at least 2 by 2 pixels.
pub proof fn lemma_plan_sizes(w: WindowView)
    ensures
        window_plan(w).min_inner_size.0 >= 1,
        window_plan(w).min_inner_size.1 >= 1,
        window_plan(w).max_inner_size matches Some(m) ==> m.0 >= 2 && m.1 >= 2,
        window_plan(w).min_inner_size.0 >= w.min_width,
        window_plan(w).min_inner_size.1 >= w.min_height,
{
}

/// The place of a setting in [`ini_steps`]; `x` and `y` are not read from
/// a configuration file.
spec fn ini_step_index(step: IniStep) -> int {
    match step {
        IniStep::Text(TextSetting::Title) => 0,
        IniStep::Number(NumberSetting::Width) => 1,
        IniStep::Number(NumberSetting::Height) => 2,
        IniStep::Bool(BoolSetting::Fullscreen) => 3,
        IniStep::Bool(BoolSetting::Resizable) => 4,
        IniStep::Bool(BoolSetting::Decorations) => 5,
        IniStep::Bool(BoolSetting::Transparent) => 6,
        IniStep::Bool(BoolSetting::Maximized) => 7,
        IniStep::Number(NumberSetting::MinWidth) => 8,
        IniStep::Number(NumberSetting::MinHeight) => 9,
        IniStep::Number(NumberSetting::MaxWidth) => 10,
        IniStep::Number(NumberSetting::MaxHeight) => 11,
        IniStep::Bool(BoolSetting::MacosTitlebarTransparent) => 12,
        IniStep::Bool(BoolSetting::MacosTitlebarHidden) => 13,
        IniStep::Bool(BoolSetting::MacosTitlebarButtonsHidden) => 14,
        IniStep::Bool(BoolSetting::MacosTitleHidden) => 15,
        IniStep::Bool(BoolSetting::MacosFullsizeContentView) => 16,
        IniStep::Bool(BoolSetting::MacosHasShadow) => 17,
        IniStep::Bool(BoolSetting::MacosBorderlessGame) => 18,
        IniStep::Bool(BoolSetting::MacosDisallowHidpi) => 19,
        IniStep::Text(TextSetting::MacosOptionAsAlt) => 20,
        IniStep::Text(TextSetting::MacosTabbingIdentifier) => 21,
        IniStep::Number(NumberSetting::X) => -1,
        IniStep::Number(NumberSetting::Y) => -1,
    }
}

proof fn lemma_ini_step_indices()
    ensures
        ini_steps().len() == 22,
        forall|i: int| 0 <= i < 22 ==> ini_step_index(#[trigger] ini_steps()[i]) == i,
{
    assert forall|i: int| 0 <= i < 22 implies ini_step_index(#[trigger] ini_steps()[i]) == i by {
        if i == 0 {
        } else if i == 1 {
        } else if i == 2 {
        } else if i == 3 {
        } else if i == 4 {
        } else if i == 5 {
        } else if i == 6 {
        } else if i == 7 {
        } else if i == 8 {
        } else if i == 9 {
        } else if i == 10 {
        } else if i == 11 {
        } else if i == 12 {
        } else if i == 13 {
        } else if i == 14 {
        } else if i == 15 {
        } else if i == 16 {
        } else if i == 17 {
        } else if i == 18 {
        } else if i == 19 {
        } else if i == 20 {
        } else if i == 21 {
        }
    }
}

/// Distinct settings are read under distinct keys, and none of them under
/// `position`.
proof fn lemma_ini_key_injective(a: IniStep, b: IniStep)
    ensures
        ini_key(a) == ini_key(b) ==> a == b,
        ini_key(a) != "position"@,
{
    reveal_strlit("title");
    assert("title"@.len() == 5);
    reveal_strlit("width");
    assert("width"@.len() == 5);
    reveal_strlit("height");
    assert("height"@.len() == 6);
    reveal_strlit("fullscreen");
    assert("fullscreen"@.len() == 10);
    reveal_strlit("resizable");
    assert("resizable"@.len() == 9);
    reveal_strlit("decorations");
    assert("decorations"@.len() == 11);
    reveal_strlit("transparent");
    assert("transparent"@.len() == 11);
    reveal_strlit("maximized");
    assert("maximized"@.len() == 9);
    reveal_strlit("min_width");
    assert("min_width"@.len() == 9);
    reveal_strlit("min_height");
    assert("min_height"@.len() == 10);
    reveal_strlit("max_width");
    assert("max_width"@.len() == 9);
    reveal_strlit("max_height");
    assert("max_height"@.len() == 10);
    reveal_strlit("macos_titlebar_transparent");
    assert("macos_titlebar_transparent"@.len() == 26);
    reveal_strlit("macos_titlebar_hidden");
    assert("macos_titlebar_hidden"@.len() == 21);
    reveal_strlit("macos_titlebar_buttons_hidden");
    assert("macos_titlebar_buttons_hidden"@.len() == 29);
    reveal_strlit("macos_title_hidden");
    assert("macos_title_hidden"@.len() == 18);
    reveal_strlit("macos_fullsize_content_view");
    assert("macos_fullsize_content_view"@.len() == 27);
    reveal_strlit("macos_has_shadow");
    assert("macos_has_shadow"@.len() == 16);
    reveal_strlit("macos_borderless_game");
    assert("macos_borderless_game"@.len() == 21);
    reveal_strlit("macos_disallow_hidpi");
    assert("macos_disallow_hidpi"@.len() == 20);
    reveal_strlit("macos_option_as_alt");
    assert("macos_option_as_alt"@.len() == 19);
    reveal_strlit("macos_tabbing_identifier");
    assert("macos_tabbing_identifier"@.len() == 24);
    reveal_strlit("x");
    assert("x"@.len() == 1);
    reveal_strlit("y");
    assert("y"@.len() == 1);
    reveal_strlit("position");
    assert("position"@.len() == 8);
    assert("title"@[0] != "width"@[0]);
    assert("title"@ != "width"@);
    assert("title"@ != "height"@);
    assert("title"@ != "fullscreen"@);
    assert("title"@ != "resizable"@);
    assert("title"@ != "decorations"@);
    assert("title"@ != "transparent"@);
    assert("title"@ != "maximized"@);
    assert("title"@ != "min_width"@);
    assert("title"@ != "min_height"@);
    assert("title"@ != "max_width"@);
    assert("title"@ != "max_height"@);
    assert("title"@ != "macos_titlebar_transparent"@);
    assert("title"@ != "macos_titlebar_hidden"@);
    assert("title"@ != "macos_titlebar_buttons_hidden"@);
    assert("title"@ != "macos_title_hidden"@);
    assert("title"@ != "macos_fullsize_content_view"@);
    assert("title"@ != "macos_has_shadow"@);
    assert("title"@ != "macos_borderless_game"@);
    assert("title"@ != "macos_disallow_hidpi"@);
    assert("title"@ != "macos_option_as_alt"@);
    assert("title"@ != "macos_tabbing_identifier"@);
    assert("title"@ != "x"@);
    assert("title"@ != "y"@);
    assert("title"@ != "position"@);
    assert("width"@ != "height"@);
    assert("width"@ != "fullscreen"@);
    assert("width"@ != "resizable"@);
    assert("width"@ != "decorations"@);
    assert("width"@ != "transparent"@);
    assert("width"@ != "maximized"@);
    assert("width"@ != "min_width"@);
    assert("width"@ != "min_height"@);
    assert("width"@ != "max_width"@);
    assert("width"@ != "max_height"@);
    assert("width"@ != "macos_titlebar_transparent"@);
    assert("width"@ != "macos_titlebar_hidden"@);
    assert("width"@ != "macos_titlebar_buttons_hidden"@);
    assert("width"@ != "macos_title_hidden"@);
    assert("width"@ != "macos_fullsize_content_view"@);
    assert("width"@ != "macos_has_shadow"@);
    assert("width"@ != "macos_borderless_game"@);
    assert("width"@ != "macos_disallow_hidpi"@);
    assert("width"@ != "macos_option_as_alt"@);
    assert("width"@ != "macos_tabbing_identifier"@);
    assert("width"@ != "x"@);
    assert("width"@ != "y"@);
    assert("width"@ != "position"@);
    assert("height"@ != "fullscreen"@);
    assert("height"@ != "resizable"@);
    assert("height"@ != "decorations"@);
    assert("height"@ != "transparent"@);
    assert("height"@ != "maximized"@);
    assert("height"@ != "min_width"@);
    assert("height"@ != "min_height"@);
    assert("height"@ != "max_width"@);
    assert("height"@ != "max_height"@);
    assert("height"@ != "macos_titlebar_transparent"@);
    assert("height"@ != "macos_titlebar_hidden"@);
    assert("height"@ != "macos_titlebar_buttons_hidden"@);
    assert("height"@ != "macos_title_hidden"@);
    assert("height"@ != "macos_fullsize_content_view"@);
    assert("height"@ != "macos_has_shadow"@);
    assert("height"@ != "macos_borderless_game"@);
    assert("height"@ != "macos_disallow_hidpi"@);
    assert("height"@ != "macos_option_as_alt"@);
    assert("height"@ != "macos_tabbing_identifier"@);
    assert("height"@ != "x"@);
    assert("height"@ != "y"@);
    assert("height"@ != "position"@);
    assert("fullscreen"@ != "resizable"@);
    assert("fullscreen"@ != "decorations"@);
    assert("fullscreen"@ != "transparent"@);
    assert("fullscreen"@ != "maximized"@);
    assert("fullscreen"@ != "min_width"@);
    assert("fullscreen"@[0] != "min_height"@[0]);
    assert("fullscreen"@ != "min_height"@);
    assert("fullscreen"@ != "max_width"@);
    assert("fullscreen"@[0] != "max_height"@[0]);
    assert("fullscreen"@ != "max_height"@);
    assert("fullscreen"@ != "macos_titlebar_transparent"@);
    assert("fullscreen"@ != "macos_titlebar_hidden"@);
    assert("fullscreen"@ != "macos_titlebar_buttons_hidden"@);
    assert("fullscreen"@ != "macos_title_hidden"@);
    assert("fullscreen"@ != "macos_fullsize_content_view"@);
    assert("fullscreen"@ != "macos_has_shadow"@);
    assert("fullscreen"@ != "macos_borderless_game"@);
    assert("fullscreen"@ != "macos_disallow_hidpi"@);
    assert("fullscreen"@ != "macos_option_as_alt"@);
    assert("fullscreen"@ != "macos_tabbing_identifier"@);
    assert("fullscreen"@ != "x"@);
    assert("fullscreen"@ != "y"@);
    assert("fullscreen"@ != "position"@);
    assert("resizable"@ != "decorations"@);
    assert("resizable"@ != "transparent"@);
    assert("resizable"@[0] != "maximized"@[0]);
    assert("resizable"@ != "maximized"@);
    assert("resizable"@[0] != "min_width"@[0]);
    assert("resizable"@ != "min_width"@);
    assert("resizable"@ != "min_height"@);
    assert("resizable"@[0] != "max_width"@[0]);
    assert("resizable"@ != "max_width"@);
    assert("resizable"@ != "max_height"@);
    assert("resizable"@ != "macos_titlebar_transparent"@);
    assert("resizable"@ != "macos_titlebar_hidden"@);
    assert("resizable"@ != "macos_titlebar_buttons_hidden"@);
    assert("resizable"@ != "macos_title_hidden"@);
    assert("resizable"@ != "macos_fullsize_content_view"@);
    assert("resizable"@ != "macos_has_shadow"@);
    assert("resizable"@ != "macos_borderless_game"@);
    assert("resizable"@ != "macos_disallow_hidpi"@);
    assert("resizable"@ != "macos_option_as_alt"@);
    assert("resizable"@ != "macos_tabbing_identifier"@);
    assert("resizable"@ != "x"@);
    assert("resizable"@ != "y"@);
    assert("resizable"@ != "position"@);
    assert("decorations"@[0] != "transparent"@[0]);
    assert("decorations"@ != "transparent"@);
    assert("decorations"@ != "maximized"@);
    assert("decorations"@ != "min_width"@);
    assert("decorations"@ != "min_height"@);
    assert("decorations"@ != "max_width"@);
    assert("decorations"@ != "max_height"@);
    assert("decorations"@ != "macos_titlebar_transparent"@);
    assert("decorations"@ != "macos_titlebar_hidden"@);
    assert("decorations"@ != "macos_titlebar_buttons_hidden"@);
    assert("decorations"@ != "macos_title_hidden"@);
    assert("decorations"@ != "macos_fullsize_content_view"@);
    assert("decorations"@ != "macos_has_shadow"@);
    assert("decorations"@ != "macos_borderless_game"@);
    assert("decorations"@ != "macos_disallow_hidpi"@);
    assert("decorations"@ != "macos_option_as_alt"@);
    assert("decorations"@ != "macos_tabbing_identifier"@);
    assert("decorations"@ != "x"@);
    assert("decorations"@ != "y"@);
    assert("decorations"@ != "position"@);
    assert("transparent"@ != "maximized"@);
    assert("transparent"@ != "min_width"@);
    assert("transparent"@ != "min_height"@);
    assert("transparent"@ != "max_width"@);
    assert("transparent"@ != "max_height"@);
    assert("transparent"@ != "macos_titlebar_transparent"@);
    assert("transparent"@ != "macos_titlebar_hidden"@);
    assert("transparent"@ != "macos_titlebar_buttons_hidden"@);
    assert("transparent"@ != "macos_title_hidden"@);
    assert("transparent"@ != "macos_fullsize_content_view"@);
    assert("transparent"@ != "macos_has_shadow"@);
    assert("transparent"@ != "macos_borderless_game"@);
    assert("transparent"@ != "macos_disallow_hidpi"@);
    assert("transparent"@ != "macos_option_as_alt"@);
    assert("transparent"@ != "macos_tabbing_identifier"@);
    assert("transparent"@ != "x"@);
    assert("transparent"@ != "y"@);
    assert("transparent"@ != "position"@);
    assert("maximized"@[1] != "min_width"@[1]);
    assert("maximized"@ != "min_width"@);
    assert("maximized"@ != "min_height"@);
    assert("maximized"@[3] != "max_width"@[3]);
    assert("maximized"@ != "max_width"@);
    assert("maximized"@ != "max_height"@);
    assert("maximized"@ != "macos_titlebar_transparent"@);
    assert("maximized"@ != "macos_titlebar_hidden"@);
    assert("maximized"@ != "macos_titlebar_buttons_hidden"@);
    assert("maximized"@ != "macos_title_hidden"@);
    assert("maximized"@ != "macos_fullsize_content_view"@);
    assert("maximized"@ != "macos_has_shadow"@);
    assert("maximized"@ != "macos_borderless_game"@);
    assert("maximized"@ != "macos_disallow_hidpi"@);
    assert("maximized"@ != "macos_option_as_alt"@);
    assert("maximized"@ != "macos_tabbing_identifier"@);
    assert("maximized"@ != "x"@);
    assert("maximized"@ != "y"@);
    assert("maximized"@ != "position"@);
    assert("min_width"@ != "min_height"@);
    assert("min_width"@[1] != "max_width"@[1]);
    assert("min_width"@ != "max_width"@);
    assert("min_width"@ != "max_height"@);
    assert("min_width"@ != "macos_titlebar_transparent"@);
    assert("min_width"@ != "macos_titlebar_hidden"@);
    assert("min_width"@ != "macos_titlebar_buttons_hidden"@);
    assert("min_width"@ != "macos_title_hidden"@);
    assert("min_width"@ != "macos_fullsize_content_view"@);
    assert("min_width"@ != "macos_has_shadow"@);
    assert("min_width"@ != "macos_borderless_game"@);
    assert("min_width"@ != "macos_disallow_hidpi"@);
    assert("min_width"@ != "macos_option_as_alt"@);
    assert("min_width"@ != "macos_tabbing_identifier"@);
    assert("min_width"@ != "x"@);
    assert("min_width"@ != "y"@);
    assert("min_width"@ != "position"@);
    assert("min_height"@ != "max_width"@);
    assert("min_height"@[1] != "max_height"@[1]);
    assert("min_height"@ != "max_height"@);
    assert("min_height"@ != "macos_titlebar_transparent"@);
    assert("min_height"@ != "macos_titlebar_hidden"@);
    assert("min_height"@ != "macos_titlebar_buttons_hidden"@);
    assert("min_height"@ != "macos_title_hidden"@);
    assert("min_height"@ != "macos_fullsize_content_view"@);
    assert("min_height"@ != "macos_has_shadow"@);
    assert("min_height"@ != "macos_borderless_game"@);
    assert("min_height"@ != "macos_disallow_hidpi"@);
    assert("min_height"@ != "macos_option_as_alt"@);
    assert("min_height"@ != "macos_tabbing_identifier"@);
    assert("min_height"@ != "x"@);
    assert("min_height"@ != "y"@);
    assert("min_height"@ != "position"@);
    assert("max_width"@ != "max_height"@);
    assert("max_width"@ != "macos_titlebar_transparent"@);
    assert("max_width"@ != "macos_titlebar_hidden"@);
    assert("max_width"@ != "macos_titlebar_buttons_hidden"@);
    assert("max_width"@ != "macos_title_hidden"@);
    assert("max_width"@ != "macos_fullsize_content_view"@);
    assert("max_width"@ != "macos_has_shadow"@);
    assert("max_width"@ != "macos_borderless_game"@);
    assert("max_width"@ != "macos_disallow_hidpi"@);
    assert("max_width"@ != "macos_option_as_alt"@);
    assert("max_width"@ != "macos_tabbing_identifier"@);
    assert("max_width"@ != "x"@);
    assert("max_width"@ != "y"@);
    assert("max_width"@ != "position"@);
    assert("max_height"@ != "macos_titlebar_transparent"@);
    assert("max_height"@ != "macos_titlebar_hidden"@);
    assert("max_height"@ != "macos_titlebar_buttons_hidden"@);
    assert("max_height"@ != "macos_title_hidden"@);
    assert("max_height"@ != "macos_fullsize_content_view"@);
    assert("max_height"@ != "macos_has_shadow"@);
    assert("max_height"@ != "macos_borderless_game"@);
    assert("max_height"@ != "macos_disallow_hidpi"@);
    assert("max_height"@ != "macos_option_as_alt"@);
    assert("max_height"@ != "macos_tabbing_identifier"@);
    assert("max_height"@ != "x"@);
    assert("max_height"@ != "y"@);
    assert("max_height"@ != "position"@);
    assert("macos_titlebar_transparent"@ != "macos_titlebar_hidden"@);
    assert("macos_titlebar_transparent"@ != "macos_titlebar_buttons_hidden"@);
    assert("macos_titlebar_transparent"@ != "macos_title_hidden"@);
    assert("macos_titlebar_transparent"@ != "macos_fullsize_content_view"@);
    assert("macos_titlebar_transparent"@ != "macos_has_shadow"@);
    assert("macos_titlebar_transparent"@ != "macos_borderless_game"@);
    assert("macos_titlebar_transparent"@ != "macos_disallow_hidpi"@);
    assert("macos_titlebar_transparent"@ != "macos_option_as_alt"@);
    assert("macos_titlebar_transparent"@ != "macos_tabbing_identifier"@);
    assert("macos_titlebar_transparent"@ != "x"@);
    assert("macos_titlebar_transparent"@ != "y"@);
    assert("macos_titlebar_transparent"@ != "position"@);
    assert("macos_titlebar_hidden"@ != "macos_titlebar_buttons_hidden"@);
    assert("macos_titlebar_hidden"@ != "macos_title_hidden"@);
    assert("macos_titlebar_hidden"@ != "macos_fullsize_content_view"@);
    assert("macos_titlebar_hidden"@ != "macos_has_shadow"@);
    assert("macos_titlebar_hidden"@[6] != "macos_borderless_game"@[6]);
    assert("macos_titlebar_hidden"@ != "macos_borderless_game"@);
    assert("macos_titlebar_hidden"@ != "macos_disallow_hidpi"@);
    assert("macos_titlebar_hidden"@ != "macos_option_as_alt"@);
    assert("macos_titlebar_hidden"@ != "macos_tabbing_identifier"@);
    assert("macos_titlebar_hidden"@ != "x"@);
    assert("macos_titlebar_hidden"@ != "y"@);
    assert("macos_titlebar_hidden"@ != "position"@);
    assert("macos_titlebar_buttons_hidden"@ != "macos_title_hidden"@);
    assert("macos_titlebar_buttons_hidden"@ != "macos_fullsize_content_view"@);
    assert("macos_titlebar_buttons_hidden"@ != "macos_has_shadow"@);
    assert("macos_titlebar_buttons_hidden"@ != "macos_borderless_game"@);
    assert("macos_titlebar_buttons_hidden"@ != "macos_disallow_hidpi"@);
    assert("macos_titlebar_buttons_hidden"@ != "macos_option_as_alt"@);
    assert("macos_titlebar_buttons_hidden"@ != "macos_tabbing_identifier"@);
    assert("macos_titlebar_buttons_hidden"@ != "x"@);
    assert("macos_titlebar_buttons_hidden"@ != "y"@);
    assert("macos_titlebar_buttons_hidden"@ != "position"@);
    assert("macos_title_hidden"@ != "macos_fullsize_content_view"@);
    assert("macos_title_hidden"@ != "macos_has_shadow"@);
    assert("macos_title_hidden"@ != "macos_borderless_game"@);
    assert("macos_title_hidden"@ != "macos_disallow_hidpi"@);
    assert("macos_title_hidden"@ != "macos_option_as_alt"@);
    assert("macos_title_hidden"@ != "macos_tabbing_identifier"@);
    assert("macos_title_hidden"@ != "x"@);
    assert("macos_title_hidden"@ != "y"@);
    assert("macos_title_hidden"@ != "position"@);
    assert("macos_fullsize_content_view"@ != "macos_has_shadow"@);
    assert("macos_fullsize_content_view"@ != "macos_borderless_game"@);
    assert("macos_fullsize_content_view"@ != "macos_disallow_hidpi"@);
    assert("macos_fullsize_content_view"@ != "macos_option_as_alt"@);
    assert("macos_fullsize_content_view"@ != "macos_tabbing_identifier"@);
    assert("macos_fullsize_content_view"@ != "x"@);
    assert("macos_fullsize_content_view"@ != "y"@);
    assert("macos_fullsize_content_view"@ != "position"@);
    assert("macos_has_shadow"@ != "macos_borderless_game"@);
    assert("macos_has_shadow"@ != "macos_disallow_hidpi"@);
    assert("macos_has_shadow"@ != "macos_option_as_alt"@);
    assert("macos_has_shadow"@ != "macos_tabbing_identifier"@);
    assert("macos_has_shadow"@ != "x"@);
    assert("macos_has_shadow"@ != "y"@);
    assert("macos_has_shadow"@ != "position"@);
    assert("macos_borderless_game"@ != "macos_disallow_hidpi"@);
    assert("macos_borderless_game"@ != "macos_option_as_alt"@);
    assert("macos_borderless_game"@ != "macos_tabbing_identifier"@);
    assert("macos_borderless_game"@ != "x"@);
    assert("macos_borderless_game"@ != "y"@);
    assert("macos_borderless_game"@ != "position"@);
    assert("macos_disallow_hidpi"@ != "macos_option_as_alt"@);
    assert("macos_disallow_hidpi"@ != "macos_tabbing_identifier"@);
    assert("macos_disallow_hidpi"@ != "x"@);
    assert("macos_disallow_hidpi"@ != "y"@);
    assert("macos_disallow_hidpi"@ != "position"@);
    assert("macos_option_as_alt"@ != "macos_tabbing_identifier"@);
    assert("macos_option_as_alt"@ != "x"@);
    assert("macos_option_as_alt"@ != "y"@);
    assert("macos_option_as_alt"@ != "position"@);
    assert("macos_tabbing_identifier"@ != "x"@);
    assert("macos_tabbing_identifier"@ != "y"@);
    assert("macos_tabbing_identifier"@ != "position"@);
    assert("x"@[0] != "y"@[0]);
    assert("x"@ != "y"@);
    assert("x"@ != "position"@);
    assert("y"@ != "position"@);
}

proof fn lemma_apply_single_entry(
    entries: IniEntries,
    w: WindowView,
    steps: Seq<IniStep>,
    key: Seq<char>,
    j: int,
)
    requires
        forall|k: Seq<char>| k != key ==> ini_value(entries, "window"@, k) is None,
        forall|i: int| 0 <= i < steps.len() && i != j ==> ini_key(#[trigger] steps[i]) != key,
    ensures
        0 <= j < steps.len() ==> apply_ini_steps(entries, w, steps) == ini_step(entries, w, steps[j]),
        !(0 <= j < steps.len()) ==> apply_ini_steps(entries, w, steps) == Ok::<WindowView, ConfigErrorView>(w),
    decreases steps.len(),
{
    if steps.len() > 0 {
        let rest = steps.drop_first();
        assert forall|i: int| 0 <= i < rest.len() && i != j - 1 implies ini_key(#[trigger] rest[i]) != key by {
            assert(rest[i] == steps[i + 1]);
        }
        if j == 0 {
            lemma_apply_single_entry(entries, w, rest, key, -1);
            match ini_step(entries, w, steps[0]) {
                Ok(w2) => {
                    lemma_apply_single_entry(entries, w2, rest, key, -1);
                },
                Err(_) => {},
            }
        } else {
            assert(ini_key(steps[0]) != key);
            assert(ini_step(entries, w, steps[0]) == Ok::<WindowView, ConfigErrorView>(w));
            lemma_apply_single_entry(entries, w, rest, key, j - 1);
            if 0 <= j < steps.len() {
                assert(rest[j - 1] == steps[j]);
            }
        }
    }
}

/// When the only entry in section `window` is the one for `step`, reading
/// the configuration does just what that entry does.
proof fn lemma_only_entry_of_step(entries: IniEntries, base: WindowView, step: IniStep)
    requires
        0 <= ini_step_index(step),
        forall|k: Seq<char>| k != ini_key(step) ==> ini_value(entries, "window"@, k) is None,
    ensures
        window_from_ini(entries, base) == ini_step(entries, base, step),
{
    lemma_ini_step_indices();
    let j = ini_step_index(step);
    assert(ini_steps()[j] == step);
    assert forall|i: int| 0 <= i < ini_steps().len() && i != j implies ini_key(
        #[trigger] ini_steps()[i],
    ) != ini_key(step) by {
        lemma_ini_key_injective(ini_steps()[i], step);
    }
    lemma_apply_single_entry(entries, base, ini_steps(), ini_key(step), j);
    lemma_ini_key_injective(step, step);
}

/// When the only entry in section `window` is under a key that names no
/// setting read from a file, reading the configuration changes nothing.
proof fn lemma_only_entry_unread(entries: IniEntries, base: WindowView, step: IniStep)
    requires
        ini_step_index(step) < 0,
        forall|k: Seq<char>| k != ini_key(step) ==> ini_value(entries, "window"@, k) is None,
    ensures
        window_from_ini(entries, base) == Ok::<WindowView, ConfigErrorView>(base),
{
    lemma_ini_step_indices();
    assert forall|i: int| 0 <= i < ini_steps().len() implies ini_key(#[trigger] ini_steps()[i])
        != ini_key(step) by {
        lemma_ini_key_injective(ini_steps()[i], step);
    }
    lemma_apply_single_entry(entries, base, ini_steps(), ini_key(step), -1);
    lemma_ini_key_injective(step, step);
}

proof fn lemma_only_text_entry(entries: IniEntries, base: WindowView, t: TextSetting, v: Seq<char>)
    requires
        ini_value(entries, "window"@, ini_key(IniStep::Text(t))) == Some(v),
        forall|k: Seq<char>| k != ini_key(IniStep::Text(t)) ==> ini_value(entries, "window"@, k) is None,
    ensures
        window_from_ini(entries, base) == read_ok(with_text(base, t, v)),
{
    lemma_only_entry_of_step(entries, base, IniStep::Text(t));
}

proof fn lemma_only_number_entry(entries: IniEntries, base: WindowView, n: NumberSetting, v: Seq<char>)
    requires
        0 <= ini_step_index(IniStep::Number(n)),
        ini_value(entries, "window"@, ini_key(IniStep::Number(n))) == Some(v),
        forall|k: Seq<char>| k != ini_key(IniStep::Number(n)) ==> ini_value(entries, "window"@, k) is None,
        parse_u32(v) is Ok,
    ensures
        window_from_ini(entries, base) == read_ok(with_number(base, n, parse_u32(v)->Ok_0)),
{
    lemma_only_entry_of_step(entries, base, IniStep::Number(n));
}

proof fn lemma_only_bool_entry(entries: IniEntries, base: WindowView, b: BoolSetting, v: Seq<char>)
    requires
        ini_value(entries, "window"@, ini_key(IniStep::Bool(b))) == Some(v),
        forall|k: Seq<char>| k != ini_key(IniStep::Bool(b)) ==> ini_value(entries, "window"@, k) is None,
        is_true_word(v) || is_false_word(v),
    ensures
        window_from_ini(entries, base) == read_ok(with_bool(base, b, is_true_word(v))),
{
    lemma_only_entry_of_step(entries, base, IniStep::Bool(b));
}

/// The window settings read successfully, as a result.
pub open spec fn read_ok(w: WindowView) -> Result<WindowView, ConfigErrorView> {
    Ok(w)
}

proof fn lemma_ini_key_title(entries: IniEntries, base: WindowView, key: Seq<char>, v: Seq<char>)
    requires
        ini_value(entries, "window"@, key) == Some(v),
        forall|k: Seq<char>| k != key ==> ini_value(entries, "window"@, k) is None,
    ensures
        key == "title"@ ==> window_from_ini(entries, base) == read_ok((WindowView { title: v, ..base }),),
{
    if key == "title"@ {
        lemma_only_text_entry(entries, base, TextSetting::Title, v);
    }
}

proof fn lemma_ini_key_macos_option_as_alt(entries: IniEntries, base: WindowView, key: Seq<char>, v: Seq<char>)
    requires
        ini_value(entries, "window"@, key) == Some(v),
        forall|k: Seq<char>| k != key ==> ini_value(entries, "window"@, k) is None,
    ensures
        key == "macos_option_as_alt"@ ==> window_from_ini(entries, base) == read_ok((WindowView { macos_option_as_alt: v, ..base }),),
{
    if key == "macos_option_as_alt"@ {
        lemma_only_text_entry(entries, base, TextSetting::MacosOptionAsAlt, v);
    }
}

proof fn lemma_ini_key_macos_tabbing_identifier(entries: IniEntries, base: WindowView, key: Seq<char>, v: Seq<char>)
    requires
        ini_value(entries, "window"@, key) == Some(v),
        forall|k: Seq<char>| k != key ==> ini_value(entries, "window"@, k) is None,
    ensures
        key == "macos_tabbing_identifier"@ ==> window_from_ini(entries, base) == read_ok((WindowView { macos_tabbing_identifier: v, ..base }),),
{
    if key == "macos_tabbing_identifier"@ {
        lemma_only_text_entry(entries, base, TextSetting::MacosTabbingIdentifier, v);
    }
}

proof fn lemma_ini_key_width(entries: IniEntries, base: WindowView, key: Seq<char>, v: Seq<char>)
    requires
        ini_value(entries, "window"@, key) == Some(v),
        forall|k: Seq<char>| k != key ==> ini_value(entries, "window"@, k) is None,
    ensures
        key == "width"@ && parse_u32(v) is Ok ==> window_from_ini(entries, base) == read_ok((WindowView { width: parse_u32(v)->Ok_0, ..base }),),
{
    if key == "width"@ && parse_u32(v) is Ok {
        lemma_only_number_entry(entries, base, NumberSetting::Width, v);
    }
}

proof fn lemma_ini_key_height(entries: IniEntries, base: WindowView, key: Seq<char>, v: Seq<char>)
    requires
        ini_value(entries, "window"@, key) == Some(v),
        forall|k: Seq<char>| k != key ==> ini_value(entries, "window"@, k) is None,
    ensures
        key == "height"@ && parse_u32(v) is Ok ==> window_from_ini(entries, base) == read_ok((WindowView { height: parse_u32(v)->Ok_0, ..base }),),
{
    if key == "height"@ && parse_u32(v) is Ok {
        lemma_only_number_entry(entries, base, NumberSetting::Height, v);
    }
}

proof fn lemma_ini_key_min_width(entries: IniEntries, base: WindowView, key: Seq<char>, v: Seq<char>)
    requires
        ini_value(entries, "window"@, key) == Some(v),
        forall|k: Seq<char>| k != key ==> ini_value(entries, "window"@, k) is None,
    ensures
        key == "min_width"@ && parse_u32(v) is Ok ==> window_from_ini(entries, base) == read_ok((WindowView { min_width: parse_u32(v)->Ok_0, ..base }),),
{
    if key == "min_width"@ && parse_u32(v) is Ok {
        lemma_only_number_entry(entries, base, NumberSetting::MinWidth, v);
    }
}

proof fn lemma_ini_key_min_height(entries: IniEntries, base: WindowView, key: Seq<char>, v: Seq<char>)
    requires
        ini_value(entries, "window"@, key) == Some(v),
        forall|k: Seq<char>| k != key ==> ini_value(entries, "window"@, k) is None,
    ensures
        key == "min_height"@ && parse_u32(v) is Ok ==> window_from_ini(entries, base) == read_ok((WindowView { min_height: parse_u32(v)->Ok_0, ..base }),),
{
    if key == "min_height"@ && parse_u32(v) is Ok {
        lemma_only_number_entry(entries, base, NumberSetting::MinHeight, v);
    }
}

proof fn lemma_ini_key_max_width(entries: IniEntries, base: WindowView, key: Seq<char>, v: Seq<char>)
    requires
        ini_value(entries, "window"@, key) == Some(v),
        forall|k: Seq<char>| k != key ==> ini_value(entries, "window"@, k) is None,
    ensures
        key == "max_width"@ && parse_u32(v) is Ok ==> window_from_ini(entries, base) == read_ok((WindowView { max_width: parse_u32(v)->Ok_0, ..base }),),
{
    if key == "max_width"@ && parse_u32(v) is Ok {
        lemma_only_number_entry(entries, base, NumberSetting::MaxWidth, v);
    }
}

proof fn lemma_ini_key_max_height(entries: IniEntries, base: WindowView, key: Seq<char>, v: Seq<char>)
    requires
        ini_value(entries, "window"@, key) == Some(v),
        forall|k: Seq<char>| k != key ==> ini_value(entries, "window"@, k) is None,
    ensures
        key == "max_height"@ && parse_u32(v) is Ok ==> window_from_ini(entries, base) == read_ok((WindowView { max_height: parse_u32(v)->Ok_0, ..base }),),
{
    if key == "max_height"@ && parse_u32(v) is Ok {
        lemma_only_number_entry(entries, base, NumberSetting::MaxHeight, v);
    }
}

proof fn lemma_ini_key_fullscreen(entries: IniEntries, base: WindowView, key: Seq<char>, v: Seq<char>)
    requires
        ini_value(entries, "window"@, key) == Some(v),
        forall|k: Seq<char>| k != key ==> ini_value(entries, "window"@, k) is None,
    ensures
        key == "fullscreen"@ && (is_true_word(v) || is_false_word(v)) ==> window_from_ini( entries, base,) == read_ok((WindowView { fullscreen: is_true_word(v), ..base })),
{
    if key == "fullscreen"@ && (is_true_word(v) || is_false_word(v)) {
        lemma_only_bool_entry(entries, base, BoolSetting::Fullscreen, v);
    }
}

proof fn lemma_ini_key_resizable(entries: IniEntries, base: WindowView, key: Seq<char>, v: Seq<char>)
    requires
        ini_value(entries, "window"@, key) == Some(v),
        forall|k: Seq<char>| k != key ==> ini_value(entries, "window"@, k) is None,
    ensures
        key == "resizable"@ && (is_true_word(v) || is_false_word(v)) ==> window_from_ini( entries, base,) == read_ok((WindowView { resizable: is_true_word(v), ..base })),
{
    if key == "resizable"@ && (is_true_word(v) || is_false_word(v)) {
        lemma_only_bool_entry(entries, base, BoolSetting::Resizable, v);
    }
}

proof fn lemma_ini_key_decorations(entries: IniEntries, base: WindowView, key: Seq<char>, v: Seq<char>)
    requires
        ini_value(entries, "window"@, key) == Some(v),
        forall|k: Seq<char>| k != key ==> ini_value(entries, "window"@, k) is None,
    ensures
        key == "decorations"@ && (is_true_word(v) || is_false_word(v)) ==> window_from_ini( entries, base,) == read_ok((WindowView { decorations: is_true_word(v), ..base })),
{
    if key == "decorations"@ && (is_true_word(v) || is_false_word(v)) {
        lemma_only_bool_entry(entries, base, BoolSetting::Decorations, v);
    }
}

proof fn lemma_ini_key_transparent(entries: IniEntries, base: WindowView, key: Seq<char>, v: Seq<char>)
    requires
        ini_value(entries, "window"@, key) == Some(v),
        forall|k: Seq<char>| k != key ==> ini_value(entries, "window"@, k) is None,
    ensures
        key == "transparent"@ && (is_true_word(v) || is_false_word(v)) ==> window_from_ini( entries, base,) == read_ok((WindowView { transparent: is_true_word(v), ..base })),
{
    if key == "transparent"@ && (is_true_word(v) || is_false_word(v)) {
        lemma_only_bool_entry(entries, base, BoolSetting::Transparent, v);
    }
}

proof fn lemma_ini_key_maximized(entries: IniEntries, base: WindowView, key: Seq<char>, v: Seq<char>)
    requires
        ini_value(entries, "window"@, key) == Some(v),
        forall|k: Seq<char>| k != key ==> ini_value(entries, "window"@, k) is None,
    ensures
        key == "maximized"@ && (is_true_word(v) || is_false_word(v)) ==> window_from_ini( entries, base,) == read_ok((WindowView { maximized: is_true_word(v), ..base })),
{
    if key == "maximized"@ && (is_true_word(v) || is_false_word(v)) {
        lemma_only_bool_entry(entries, base, BoolSetting::Maximized, v);
    }
}

proof fn lemma_ini_key_macos_titlebar_transparent(entries: IniEntries, base: WindowView, key: Seq<char>, v: Seq<char>)
    requires
        ini_value(entries, "window"@, key) == Some(v),
        forall|k: Seq<char>| k != key ==> ini_value(entries, "window"@, k) is None,
    ensures
        key == "macos_titlebar_transparent"@ && (is_true_word(v) || is_false_word(v)) ==> window_from_ini( entries, base,) == read_ok((WindowView { macos_titlebar_transparent: is_true_word(v), ..base })),
{
    if key == "macos_titlebar_transparent"@ && (is_true_word(v) || is_false_word(v)) {
        lemma_only_bool_entry(entries, base, BoolSetting::MacosTitlebarTransparent, v);
    }
}

proof fn lemma_ini_key_macos_titlebar_hidden(entries: IniEntries, base: WindowView, key: Seq<char>, v: Seq<char>)
    requires
        ini_value(entries, "window"@, key) == Some(v),
        forall|k: Seq<char>| k != key ==> ini_value(entries, "window"@, k) is None,
    ensures
        key == "macos_titlebar_hidden"@ && (is_true_word(v) || is_false_word(v)) ==> window_from_ini( entries, base,) == read_ok((WindowView { macos_titlebar_hidden: is_true_word(v), ..base })),
{
    if key == "macos_titlebar_hidden"@ && (is_true_word(v) || is_false_word(v)) {
        lemma_only_bool_entry(entries, base, BoolSetting::MacosTitlebarHidden, v);
    }
}

proof fn lemma_ini_key_macos_titlebar_buttons_hidden(entries: IniEntries, base: WindowView, key: Seq<char>, v: Seq<char>)
    requires
        ini_value(entries, "window"@, key) == Some(v),
        forall|k: Seq<char>| k != key ==> ini_value(entries, "window"@, k) is None,
    ensures
        key == "macos_titlebar_buttons_hidden"@ && (is_true_word(v) || is_false_word(v)) ==> window_from_ini( entries, base,) == read_ok((WindowView { macos_titlebar_buttons_hidden: is_true_word(v), ..base })),
{
    if key == "macos_titlebar_buttons_hidden"@ && (is_true_word(v) || is_false_word(v)) {
        lemma_only_bool_entry(entries, base, BoolSetting::MacosTitlebarButtonsHidden, v);
    }
}

proof fn lemma_ini_key_macos_title_hidden(entries: IniEntries, base: WindowView, key: Seq<char>, v: Seq<char>)
    requires
        ini_value(entries, "window"@, key) == Some(v),
        forall|k: Seq<char>| k != key ==> ini_value(entries, "window"@, k) is None,
    ensures
        key == "macos_title_hidden"@ && (is_true_word(v) || is_false_word(v)) ==> window_from_ini( entries, base,) == read_ok((WindowView { macos_title_hidden: is_true_word(v), ..base })),
{
    if key == "macos_title_hidden"@ && (is_true_word(v) || is_false_word(v)) {
        lemma_only_bool_entry(entries, base, BoolSetting::MacosTitleHidden, v);
    }
}

proof fn lemma_ini_key_macos_fullsize_content_view(entries: IniEntries, base: WindowView, key: Seq<char>, v: Seq<char>)
    requires
        ini_value(entries, "window"@, key) == Some(v),
        forall|k: Seq<char>| k != key ==> ini_value(entries, "window"@, k) is None,
    ensures
        key == "macos_fullsize_content_view"@ && (is_true_word(v) || is_false_word(v)) ==> window_from_ini( entries, base,) == read_ok((WindowView { macos_fullsize_content_view: is_true_word(v), ..base })),
{
    if key == "macos_fullsize_content_view"@ && (is_true_word(v) || is_false_word(v)) {
        lemma_only_bool_entry(entries, base, BoolSetting::MacosFullsizeContentView, v);
    }
}

proof fn lemma_ini_key_macos_has_shadow(entries: IniEntries, base: WindowView, key: Seq<char>, v: Seq<char>)
    requires
        ini_value(entries, "window"@, key) == Some(v),
        forall|k: Seq<char>| k != key ==> ini_value(entries, "window"@, k) is None,
    ensures
        key == "macos_has_shadow"@ && (is_true_word(v) || is_false_word(v)) ==> window_from_ini( entries, base,) == read_ok((WindowView { macos_has_shadow: is_true_word(v), ..base })),
{
    if key == "macos_has_shadow"@ && (is_true_word(v) || is_false_word(v)) {
        lemma_only_bool_entry(entries, base, BoolSetting::MacosHasShadow, v);
    }
}

proof fn lemma_ini_key_macos_borderless_game(entries: IniEntries, base: WindowView, key: Seq<char>, v: Seq<char>)
    requires
        ini_value(entries, "window"@, key) == Some(v),
        forall|k: Seq<char>| k != key ==> ini_value(entries, "window"@, k) is None,
    ensures
        key == "macos_borderless_game"@ && (is_true_word(v) || is_false_word(v)) ==> window_from_ini( entries, base,) == read_ok((WindowView { macos_borderless_game: is_true_word(v), ..base })),
{
    if key == "macos_borderless_game"@ && (is_true_word(v) || is_false_word(v)) {
        lemma_only_bool_entry(entries, base, BoolSetting::MacosBorderlessGame, v);
    }
}

proof fn lemma_ini_key_macos_disallow_hidpi(entries: IniEntries, base: WindowView, key: Seq<char>, v: Seq<char>)
    requires
        ini_value(entries, "window"@, key) == Some(v),
        forall|k: Seq<char>| k != key ==> ini_value(entries, "window"@, k) is None,
    ensures
        key == "macos_disallow_hidpi"@ && (is_true_word(v) || is_false_word(v)) ==> window_from_ini( entries, base,) == read_ok((WindowView { macos_disallow_hidpi: is_true_word(v), ..base })),
{
    if key == "macos_disallow_hidpi"@ && (is_true_word(v) || is_false_word(v)) {
        lemma_only_bool_entry(entries, base, BoolSetting::MacosDisallowHidpi, v);
    }
}

proof fn lemma_ini_key_x(entries: IniEntries, base: WindowView, key: Seq<char>, v: Seq<char>)
    requires
        ini_value(entries, "window"@, key) == Some(v),
        forall|k: Seq<char>| k != key ==> ini_value(entries, "window"@, k) is None,
    ensures
        key == "x"@ || key == "y"@ ==> window_from_ini(entries, base) == read_ok(base),
{
    if key == "x"@ {
        lemma_only_entry_unread(entries, base, IniStep::Number(NumberSetting::X));
    }
    if key == "y"@ {
        lemma_only_entry_unread(entries, base, IniStep::Number(NumberSetting::Y));
    }
}

/// Each key of section `window` sets the setting of its own name: when it
/// is the only entry in that section, reading the configuration gives back
/// the base with just that setting changed (a text as it is, a number when
/// it is a `u32`, a yes-or-no setting when the value is a boolean word).
/// The keys `x` and `y` are not read from a file and change nothing.
pub proof fn lemma_ini_key_sets_its_setting(
    entries: IniEntries,
    base: WindowView,
    key: Seq<char>,
    v: Seq<char>,
)
    requires
        ini_value(entries, "window"@, key) == Some(v),
        forall|k: Seq<char>| k != key ==> ini_value(entries, "window"@, k) is None,
    ensures
        key == "title"@ ==> window_from_ini(entries, base) == read_ok(
            (WindowView { title: v, ..base }),
        ),
        key == "macos_option_as_alt"@ ==> window_from_ini(entries, base) == read_ok(
            (WindowView { macos_option_as_alt: v, ..base }),
        ),
        key == "macos_tabbing_identifier"@ ==> window_from_ini(entries, base) == read_ok(
            (WindowView { macos_tabbing_identifier: v, ..base }),
        ),
        key == "width"@ && parse_u32(v) is Ok ==> window_from_ini(entries, base) == read_ok(
            (WindowView { width: parse_u32(v)->Ok_0, ..base }),
        ),
        key == "height"@ && parse_u32(v) is Ok ==> window_from_ini(entries, base) == read_ok(
            (WindowView { height: parse_u32(v)->Ok_0, ..base }),
        ),
        key == "min_width"@ && parse_u32(v) is Ok ==> window_from_ini(entries, base) == read_ok(
            (WindowView { min_width: parse_u32(v)->Ok_0, ..base }),
        ),
        key == "min_height"@ && parse_u32(v) is Ok ==> window_from_ini(entries, base) == read_ok(
            (WindowView { min_height: parse_u32(v)->Ok_0, ..base }),
        ),
        key == "max_width"@ && parse_u32(v) is Ok ==> window_from_ini(entries, base) == read_ok(
            (WindowView { max_width: parse_u32(v)->Ok_0, ..base }),
        ),
        key == "max_height"@ && parse_u32(v) is Ok ==> window_from_ini(entries, base) == read_ok(
            (WindowView { max_height: parse_u32(v)->Ok_0, ..base }),
        ),
        key == "fullscreen"@ && (is_true_word(v) || is_false_word(v)) ==> window_from_ini(
            entries,
            base,
        ) == read_ok((WindowView { fullscreen: is_true_word(v), ..base })),
        key == "resizable"@ && (is_true_word(v) || is_false_word(v)) ==> window_from_ini(
            entries,
            base,
        ) == read_ok((WindowView { resizable: is_true_word(v), ..base })),
        key == "decorations"@ && (is_true_word(v) || is_false_word(v)) ==> window_from_ini(
            entries,
            base,
        ) == read_ok((WindowView { decorations: is_true_word(v), ..base })),
        key == "transparent"@ && (is_true_word(v) || is_false_word(v)) ==> window_from_ini(
            entries,
            base,
        ) == read_ok((WindowView { transparent: is_true_word(v), ..base })),
        key == "maximized"@ && (is_true_word(v) || is_false_word(v)) ==> window_from_ini(
            entries,
            base,
        ) == read_ok((WindowView { maximized: is_true_word(v), ..base })),
        key == "macos_titlebar_transparent"@ && (is_true_word(v) || is_false_word(v)) ==> window_from_ini(
            entries,
            base,
        ) == read_ok((WindowView { macos_titlebar_transparent: is_true_word(v), ..base })),
        key == "macos_titlebar_hidden"@ && (is_true_word(v) || is_false_word(v)) ==> window_from_ini(
            entries,
            base,
        ) == read_ok((WindowView { macos_titlebar_hidden: is_true_word(v), ..base })),
        key == "macos_titlebar_buttons_hidden"@ && (is_true_word(v) || is_false_word(v)) ==> window_from_ini(
            entries,
            base,
        ) == read_ok((WindowView { macos_titlebar_buttons_hidden: is_true_word(v), ..base })),
        key == "macos_title_hidden"@ && (is_true_word(v) || is_false_word(v)) ==> window_from_ini(
            entries,
            base,
        ) == read_ok((WindowView { macos_title_hidden: is_true_word(v), ..base })),
        key == "macos_fullsize_content_view"@ && (is_true_word(v) || is_false_word(v)) ==> window_from_ini(
            entries,
            base,
        ) == read_ok((WindowView { macos_fullsize_content_view: is_true_word(v), ..base })),
        key == "macos_has_shadow"@ && (is_true_word(v) || is_false_word(v)) ==> window_from_ini(
            entries,
            base,
        ) == read_ok((WindowView { macos_has_shadow: is_true_word(v), ..base })),
        key == "macos_borderless_game"@ && (is_true_word(v) || is_false_word(v)) ==> window_from_ini(
            entries,
            base,
        ) == read_ok((WindowView { macos_borderless_game: is_true_word(v), ..base })),
        key == "macos_disallow_hidpi"@ && (is_true_word(v) || is_false_word(v)) ==> window_from_ini(
            entries,
            base,
        ) == read_ok((WindowView { macos_disallow_hidpi: is_true_word(v), ..base })),
        key == "x"@ || key == "y"@ ==> window_from_ini(entries, base) == read_ok(base),
{
    lemma_ini_key_title(entries, base, key, v);
    lemma_ini_key_macos_option_as_alt(entries, base, key, v);
    lemma_ini_key_macos_tabbing_identifier(entries, base, key, v);
    lemma_ini_key_width(entries, base, key, v);
    lemma_ini_key_height(entries, base, key, v);
    lemma_ini_key_min_width(entries, base, key, v);
    lemma_ini_key_min_height(entries, base, key, v);
    lemma_ini_key_max_width(entries, base, key, v);
    lemma_ini_key_max_height(entries, base, key, v);
    lemma_ini_key_fullscreen(entries, base, key, v);
    lemma_ini_key_resizable(entries, base, key, v);
    lemma_ini_key_decorations(entries, base, key, v);
    lemma_ini_key_transparent(entries, base, key, v);
    lemma_ini_key_maximized(entries, base, key, v);
    lemma_ini_key_macos_titlebar_transparent(entries, base, key, v);
    lemma_ini_key_macos_titlebar_hidden(entries, base, key, v);
    lemma_ini_key_macos_titlebar_buttons_hidden(entries, base, key, v);
    lemma_ini_key_macos_title_hidden(entries, base, key, v);
    lemma_ini_key_macos_fullsize_content_view(entries, base, key, v);
    lemma_ini_key_macos_has_shadow(entries, base, key, v);
    lemma_ini_key_macos_borderless_game(entries, base, key, v);
    lemma_ini_key_macos_disallow_hidpi(entries, base, key, v);
    lemma_ini_key_x(entries, base, key, v);
}

/// The section and key names that configuration reading looks up are all
/// in the form that the case folding of a case-insensitive INI leaves as
/// it is.
proof fn lemma_ini_names_casefolded(step: IniStep)
    ensures
        is_casefolded("window"@),
        is_casefolded("position"@),
        is_casefolded(ini_key(step)),
{
    reveal_strlit("window");
    reveal_strlit("position");
    reveal_strlit("title");
    reveal_strlit("macos_option_as_alt");
    reveal_strlit("macos_tabbing_identifier");
    reveal_strlit("width");
    reveal_strlit("height");
    reveal_strlit("x");
    reveal_strlit("y");
    reveal_strlit("min_width");
    reveal_strlit("min_height");
    reveal_strlit("max_width");
    reveal_strlit("max_height");
    reveal_strlit("fullscreen");
    reveal_strlit("resizable");
    reveal_strlit("decorations");
    reveal_strlit("transparent");
    reveal_strlit("maximized");
    reveal_strlit("macos_titlebar_transparent");
    reveal_strlit("macos_titlebar_hidden");
    reveal_strlit("macos_titlebar_buttons_hidden");
    reveal_strlit("macos_title_hidden");
    reveal_strlit("macos_fullsize_content_view");
    reveal_strlit("macos_has_shadow");
    reveal_strlit("macos_borderless_game");
    reveal_strlit("macos_disallow_hidpi");
}

impl Config {
    /// Reads the configuration that `ini` holds, starting from `default`
    /// (or from the defaults when it is `None`). The settings under
    /// `[window]` are read in the order of [`ini_steps`], then the position;
    /// the first value that cannot be read is the error.
    pub fn from_ini(ini: &Ini, default: Option<Config>) -> (r: Result<Config, ConfigError>)
        requires
            ini_default_settings(*ini),
        ensures
            window_result(r) == window_from_ini(ini_entries(*ini), base_window(default)),
    {
        let ghost entries = ini_entries(*ini);
        let ghost base = base_window(default);
        let mut config = match default {
            Some(c) => c,
            None => Config::default(),
        };
        let steps = ini_step_order();
        let n = steps.len();
        let mut i: usize = 0;
        assert(ini_steps().skip(0) =~= ini_steps());
        while i < n
            invariant
                steps@ == ini_steps(),
                n == steps@.len(),
                i <= n,
                ini_default_settings(*ini),
                entries == ini_entries(*ini),
                base == base_window(default),
                apply_ini_steps(entries, base, ini_steps()) == apply_ini_steps(
                    entries,
                    config.window@,
                    ini_steps().skip(i as int),
                ),
            decreases n - i,
        {
            let step = steps[i];
            proof {
                lemma_ini_names_casefolded(step);
                assert(ini_steps().skip(i as int)[0] == step);
                assert(ini_steps().skip(i as int).drop_first() =~= ini_steps().skip(i + 1));
            }
            let key = ini_key_str(step);
            match step {
                IniStep::Text(t) => {
                    if let Some(v) = ini_get(ini, "window", key) {
                        config.window.set_text(t, v);
                    }
                },
                IniStep::Number(setting) => {
                    if let Some(v) = ini_get(ini, "window", key) {
                        let chars = to_chars(v.as_str());
                        match parse_u32_chars(&chars) {
                            Ok(x) => config.window.set_number(setting, x),
                            Err(kind) => {
                                return Err(ConfigError::Number { value: v, kind });
                            },
                        }
                    }
                },
                IniStep::Bool(setting) => {
                    match ini_getboolcoerce(ini, "window", key) {
                        Ok(Some(b)) => config.window.set_bool(setting, b),
                        Ok(None) => {},
                        Err(message) => {
                            return Err(ConfigError::Bool(message));
                        },
                    }
                },
            }
            i = i + 1;
        }
        assert(ini_steps().skip(n as int) =~= Seq::<IniStep>::empty());
        proof {
            lemma_ini_names_casefolded(IniStep::Text(TextSetting::Title));
        }
        if let Some(pos) = ini_get(ini, "window", "position") {
            let chars = to_chars(pos.as_str());
            if !chars_eq_ignore_ascii_case(&chars, "none") && chars.len() != 0 {
                let parts = split_chars(&chars, ',');
                if parts.len() != 2 {
                    return Err(ConfigError::Position(pos));
                }
                assert(views_of(parts@)[0] == parts@[0]@);
                assert(views_of(parts@)[1] == parts@[1]@);
                let x_chars = trim_chars(&parts[0]);
                let x = match parse_u32_chars(&x_chars) {
                    Ok(x) => x,
                    Err(kind) => {
                        return Err(ConfigError::PositionX { value: pos, kind });
                    },
                };
                let y_chars = trim_chars(&parts[1]);
                let y = match parse_u32_chars(&y_chars) {
                    Ok(y) => y,
                    Err(kind) => {
                        return Err(ConfigError::PositionY { value: pos, kind });
                    },
                };
                config.window.position = Some((x, y));
            }
        }
        Ok(config)
    }

    /// Reads the configuration that the INI `text` holds, starting from
    /// `default` (or from the defaults when it is `None`); a text that is no
    /// INI is a [`ConfigError::Read`] with the INI reader's message.
    pub fn from_ini_str(text: String, default: Option<Config>) -> (r: Result<Config, ConfigError>)
        ensures
            match ini_text_entries(text@) {
                Ok(entries) => window_result(r) == window_from_ini(entries, base_window(default)),
                Err(message) => window_result(r) == Err::<WindowView, ConfigErrorView>(
                    ConfigErrorView::Read(message),
                ),
            },
    {
        let mut ini = ini_new();
        match ini_read(&mut ini, text) {
            Ok(()) => {},
            Err(message) => {
                return Err(ConfigError::Read(message));
            },
        }
        Config::from_ini(&ini, default)
    }

    /// How the window is to be opened with these settings.
    pub fn window_plan(&self) -> (plan: WindowPlan)
        ensures
            plan@ == window_plan(self.window@),
    {
        let w = &self.window;
        let position = match w.position {
            Some(p) => Some(p),
            None => if w.x > 0 || w.y > 0 {
                Some((w.x, w.y))
            } else {
                None
            },
        };
        let min_inner_size = (
            if w.min_width > 0 {
                w.min_width
            } else {
                1
            },
            if w.min_height > 0 {
                w.min_height
            } else {
                1
            },
        );
        let max_inner_size = if w.max_width > 0 || w.max_height > 0 {
            Some(
                (
                    if w.max_width > 0 {
                        if w.max_width < 2 {
                            2
                        } else {
                            w.max_width
                        }
                    } else {
                        u32::MAX
                    },
                    if w.max_height > 0 {
                        if w.max_height < 2 {
                            2
                        } else {
                            w.max_height
                        }
                    } else {
                        u32::MAX
                    },
                ),
            )
        } else {
            None
        };
        let option_chars = to_chars(w.macos_option_as_alt.as_str());
        let macos_option_as_alt = if option_chars.len() == 0 {
            None
        } else {
            Some(option_as_alt_from(&option_chars))
        };
        let tabbing_chars = to_chars(w.macos_tabbing_identifier.as_str());
        let macos_tabbing_identifier = if tabbing_chars.len() == 0 {
            None
        } else {
            Some(w.macos_tabbing_identifier.clone())
        };
        WindowPlan {
            title: w.title.clone(),
            inner_size: (w.width, w.height),
            resizable: w.resizable,
            decorations: w.decorations,
            transparent: w.transparent,
            maximized: w.maximized,
            fullscreen: w.fullscreen,
            position,
            min_inner_size,
            max_inner_size,
            macos_titlebar_transparent: w.macos_titlebar_transparent,
            macos_titlebar_hidden: w.macos_titlebar_hidden,
            macos_titlebar_buttons_hidden: w.macos_titlebar_buttons_hidden,
            macos_title_hidden: w.macos_title_hidden,
            macos_fullsize_content_view: w.macos_fullsize_content_view,
            macos_has_shadow: w.macos_has_shadow,
            macos_borderless_game: w.macos_borderless_game,
            macos_disallow_hidpi: w.macos_disallow_hidpi,
            macos_option_as_alt,
            macos_tabbing_identifier,
        }
    }
}

/// How the Option key acts on macOS.
#[derive(Clone, Copy, Debug, PartialEq, Eq, Structural)]
pub enum OptionAsAlt {
    /// Neither Option key acts as Alt.
    Neither,
    /// The left Option key acts as Alt.
    OnlyLeft,
    /// The right Option key acts as Alt.
    OnlyRight,
    /// Both Option keys act as Alt.
    Both,
}

/// The Option-as-Alt mode that a setting names (`none`, `only_left`,
/// `only_right` or `both`, in any case); any other name means `Neither`.
pub open spec fn option_as_alt(name: Seq<char>) -> OptionAsAlt {
    if eq_ignore_ascii_case(name, "none"@) {
        OptionAsAlt::Neither
    } else if eq_ignore_ascii_case(name, "only_left"@) {
        OptionAsAlt::OnlyLeft
    } else if eq_ignore_ascii_case(name, "only_right"@) {
        OptionAsAlt::OnlyRight
    } else if eq_ignore_ascii_case(name, "both"@) {
        OptionAsAlt::Both
    } else {
        OptionAsAlt::Neither
    }
}

fn option_as_alt_from(name: &Vec<char>) -> (mode: OptionAsAlt)
    ensures
        mode == option_as_alt(name@),
{
    if chars_eq_ignore_ascii_case(name, "none") {
        OptionAsAlt::Neither
    } else if chars_eq_ignore_ascii_case(name, "only_left") {
        OptionAsAlt::OnlyLeft
    } else if chars_eq_ignore_ascii_case(name, "only_right") {
        OptionAsAlt::OnlyRight
    } else if chars_eq_ignore_ascii_case(name, "both") {
        OptionAsAlt::Both
    } else {
        OptionAsAlt::Neither
    }
}

/// The attributes a window is opened with.
#[derive(Debug)]
pub struct WindowPlan {
    pub title: String,
    /// Inner width and height, in logical pixels.
    pub inner_size: (u32, u32),
    pub resizable: bool,
    pub decorations: bool,
    pub transparent: bool,
    pub maximized: bool,
    /// Borderless fullscreen on the current monitor.
    pub fullscreen: bool,
    /// Outer position, in logical pixels; `None` leaves it to the system.
    pub position: Option<(u32, u32)>,
    pub min_inner_size: (u32, u32),
    /// `None` sets no largest size.
    pub max_inner_size: Option<(u32, u32)>,
    pub macos_titlebar_transparent: bool,
    pub macos_titlebar_hidden: bool,
    pub macos_titlebar_buttons_hidden: bool,
    pub macos_title_hidden: bool,
    pub macos_fullsize_content_view: bool,
    pub macos_has_shadow: bool,
    pub macos_borderless_game: bool,
    pub macos_disallow_hidpi: bool,
    /// `None` leaves the Option keys as the system has them.
    pub macos_option_as_alt: Option<OptionAsAlt>,
    /// `None` sets no tabbing identifier.
    pub macos_tabbing_identifier: Option<String>,
}

/// A [`WindowPlan`] as a value, its strings taken as character sequences.
pub struct WindowPlanView {
    pub title: Seq<char>,
    pub inner_size: (u32, u32),
    pub resizable: bool,
    pub decorations: bool,
    pub transparent: bool,
    pub maximized: bool,
    pub fullscreen: bool,
    pub position: Option<(u32, u32)>,
    pub min_inner_size: (u32, u32),
    pub max_inner_size: Option<(u32, u32)>,
    pub macos_titlebar_transparent: bool,
    pub macos_titlebar_hidden: bool,
    pub macos_titlebar_buttons_hidden: bool,
    pub macos_title_hidden: bool,
    pub macos_fullsize_content_view: bool,
    pub macos_has_shadow: bool,
    pub macos_borderless_game: bool,
    pub macos_disallow_hidpi: bool,
    pub macos_option_as_alt: Option<OptionAsAlt>,
    pub macos_tabbing_identifier: Option<Seq<char>>,
}

impl View for WindowPlan {
    type V = WindowPlanView;

    open spec fn view(&self) -> WindowPlanView {
        WindowPlanView {
            title: self.title@,
            inner_size: self.inner_size,
            resizable: self.resizable,
            decorations: self.decorations,
            transparent: self.transparent,
            maximized: self.maximized,
            fullscreen: self.fullscreen,
            position: self.position,
            min_inner_size: self.min_inner_size,
            max_inner_size: self.max_inner_size,
            macos_titlebar_transparent: self.macos_titlebar_transparent,
            macos_titlebar_hidden: self.macos_titlebar_hidden,
            macos_titlebar_buttons_hidden: self.macos_titlebar_buttons_hidden,
            macos_title_hidden: self.macos_title_hidden,
            macos_fullsize_content_view: self.macos_fullsize_content_view,
            macos_has_shadow: self.macos_has_shadow,
            macos_borderless_game: self.macos_borderless_game,
            macos_disallow_hidpi: self.macos_disallow_hidpi,
            macos_option_as_alt: self.macos_option_as_alt,
            macos_tabbing_identifier: opt_string_view(self.macos_tabbing_identifier),
        }
    }
}

/// How a window with the settings `w` is opened: the size given, borderless
/// fullscreen when asked for; placed at `position` when it is set, else at
/// `x`, `y` when either is nonzero; at least 1 by 1 pixels, and at least
/// the nonzero smallest sizes given; at most the nonzero largest sizes
/// given, each at least 2, with no bound on a side that has none; the
/// macOS Option-as-Alt mode and tabbing identifier when they are not empty.
pub open spec fn window_plan(w: WindowView) -> WindowPlanView {
    WindowPlanView {
        title: w.title,
        inner_size: (w.width, w.height),
        resizable: w.resizable,
        decorations: w.decorations,
        transparent: w.transparent,
        maximized: w.maximized,
        fullscreen: w.fullscreen,
        position: match w.position {
            Some(p) => Some(p),
            None => if w.x > 0 || w.y > 0 {
                Some((w.x, w.y))
            } else {
                None
            },
        },
        min_inner_size: (
            if w.min_width > 0 {
                w.min_width
            } else {
                1
            },
            if w.min_height > 0 {
                w.min_height
            } else {
                1
            },
        ),
        max_inner_size: if w.max_width > 0 || w.max_height > 0 {
            Some(
                (
                    if w.max_width > 0 {
                        if w.max_width < 2 {
                            2
                        } else {
                            w.max_width
                        }
                    } else {
                        u32::MAX
                    },
                    if w.max_height > 0 {
                        if w.max_height < 2 {
                            2
                        } else {
                            w.max_height
                        }
                    } else {
                        u32::MAX
                    },
                ),
            )
        } else {
            None
        },
        macos_titlebar_transparent: w.macos_titlebar_transparent,
        macos_titlebar_hidden: w.macos_titlebar_hidden,
        macos_titlebar_buttons_hidden: w.macos_titlebar_buttons_hidden,
        macos_title_hidden: w.macos_title_hidden,
        macos_fullsize_content_view: w.macos_fullsize_content_view,
        macos_has_shadow: w.macos_has_shadow,
        macos_borderless_game: w.macos_borderless_game,
        macos_disallow_hidpi: w.macos_disallow_hidpi,
        macos_option_as_alt: if w.macos_option_as_alt.len() == 0 {
            None
        } else {
            Some(option_as_alt(w.macos_option_as_alt))
        },
        macos_tabbing_identifier: if w.macos_tabbing_identifier.len() == 0 {
            None
        } else {
            Some(w.macos_tabbing_identifier)
        },
    }
}

} // verus!
