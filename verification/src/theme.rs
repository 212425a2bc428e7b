//! Colour themes: their names, how a theme is chosen by name, how the
//! current choice is encoded, and the palette of each theme.

use vstd::prelude::*;
use crate::text::{
    ascii_lower, chars_of, equals_str, lower_all, lower_chars, trim, trim_end, trim_exec, trim_start,
};

verus! {

/// A colour theme.
#[derive(Clone, Copy, Debug, PartialEq, Eq, Structural)]
pub enum Name {
    Dragon,
    Wave,
}

/// A colour given by its red, green and blue parts.
#[derive(Clone, Copy, Debug, PartialEq, Eq, Structural)]
pub struct Rgb {
    pub r: u8,
    pub g: u8,
    pub b: u8,
}

/// The colours of one theme.
#[derive(Clone, Copy, Debug, PartialEq, Eq, Structural)]
pub struct Palette {
    pub shell_background: Rgb,
    pub panel_background: Rgb,
    pub elevated_background: Rgb,
    pub text_color: Rgb,
    pub muted_text: Rgb,
    pub border_color: Rgb,
    pub accent_blue: Rgb,
    pub accent_cyan: Rgb,
    pub accent_green: Rgb,
    pub accent_gold: Rgb,
    pub accent_pink: Rgb,
    pub accent_red: Rgb,
    pub selected_background: Rgb,
    pub selected_text: Rgb,
    pub contrast_text: Rgb,
}

pub open spec fn rgb(r: u8, g: u8, b: u8) -> Rgb {
    Rgb { r, g, b }
}

pub open spec fn spec_dragon_palette() -> Palette {
    Palette {
        shell_background: rgb(18, 20, 20),
        panel_background: rgb(24, 22, 22),
        elevated_background: rgb(34, 30, 34),
        text_color: rgb(197, 201, 197),
        muted_text: rgb(114, 113, 105),
        border_color: rgb(84, 84, 100),
        accent_blue: rgb(139, 164, 176),
        accent_cyan: rgb(142, 164, 162),
        accent_green: rgb(138, 154, 123),
        accent_gold: rgb(196, 178, 138),
        accent_pink: rgb(162, 146, 163),
        accent_red: rgb(196, 116, 110),
        selected_background: rgb(45, 79, 103),
        selected_text: rgb(200, 204, 200),
        contrast_text: rgb(18, 20, 20),
    }
}

pub open spec fn spec_wave_palette() -> Palette {
    Palette {
        shell_background: rgb(29, 32, 39),
        panel_background: rgb(34, 36, 49),
        elevated_background: rgb(41, 44, 60),
        text_color: rgb(220, 215, 186),
        muted_text: rgb(127, 132, 156),
        border_color: rgb(84, 88, 112),
        accent_blue: rgb(124, 153, 199),
        accent_cyan: rgb(122, 168, 196),
        accent_green: rgb(152, 187, 108),
        accent_gold: rgb(229, 192, 123),
        accent_pink: rgb(211, 188, 192),
        accent_red: rgb(228, 104, 118),
        selected_background: rgb(58, 74, 104),
        selected_text: rgb(236, 229, 199),
        contrast_text: rgb(29, 32, 39),
    }
}

fn make_rgb(r: u8, g: u8, b: u8) -> (c: Rgb)
    ensures
        c == rgb(r, g, b),
{
    Rgb { r, g, b }
}

impl Name {
    pub open spec fn spec_slug(self) -> Seq<char> {
        match self {
            Name::Dragon => "kanagawa-dragon"@,
            Name::Wave => "kanagawa-wave"@,
        }
    }

    pub open spec fn spec_display_name(self) -> Seq<char> {
        match self {
            Name::Dragon => "Kanagawa Dragon"@,
            Name::Wave => "Kanagawa Wave"@,
        }
    }

    /// The number under which a theme choice is stored.
    pub open spec fn spec_code(self) -> u8 {
        match self {
            Name::Dragon => 0,
            Name::Wave => 1,
        }
    }

    /// The theme a stored number stands for; unknown numbers fall back to
    /// the default theme.
    pub open spec fn spec_from_code(code: u8) -> Name {
        if code == 0 {
            Name::Dragon
        } else if code == 1 {
            Name::Wave
        } else {
            spec_default_theme()
        }
    }

    /// The theme a name selects (after trimming and ASCII lower-casing).
    pub open spec fn spec_parse(value: Seq<char>) -> Option<Name> {
        let k = lower_chars(trim(value));
        if k == "dragon"@ || k == "kanagawa-dragon"@ {
            Some(Name::Dragon)
        } else if k == "wave"@ || k == "kanagawa-wave"@ || k == "terminal"@ {
            Some(Name::Wave)
        } else {
            None
        }
    }

    pub open spec fn spec_palette(self) -> Palette {
        match self {
            Name::Dragon => spec_dragon_palette(),
            Name::Wave => spec_wave_palette(),
        }
    }

    /// Every theme, in listing order.
    pub fn all() -> (r: Vec<Name>)
        ensures
            r@ == seq![Name::Dragon, Name::Wave],
    {
        vec![Name::Dragon, Name::Wave]
    }

    /// The identifier of the theme.
    pub fn slug(&self) -> (r: &'static str)
        ensures
            r@ == self.spec_slug(),
    {
        match self {
            Name::Dragon => "kanagawa-dragon",
            Name::Wave => "kanagawa-wave",
        }
    }

    /// The name shown to the operator.
    pub fn display_name(&self) -> (r: &'static str)
        ensures
            r@ == self.spec_display_name(),
    {
        match self {
            Name::Dragon => "Kanagawa Dragon",
            Name::Wave => "Kanagawa Wave",
        }
    }

    /// The number under which this theme choice is stored.
    pub fn code(self) -> (r: u8)
        ensures
            r == self.spec_code(),
    {
        match self {
            Name::Dragon => 0,
            Name::Wave => 1,
        }
    }

    /// The theme a stored number stands for.
    pub fn from_code(code: u8) -> (r: Name)
        ensures
            r == Name::spec_from_code(code),
    {
        if code == 0 {
            Name::Dragon
        } else if code == 1 {
            Name::Wave
        } else {
            default_theme()
        }
    }

    /// Chooses a theme by name; an unknown name gives the message shown to
    /// the operator.
    pub fn parse(value: &str) -> (r: Result<Name, String>)
        ensures
            match r {
                Ok(n) => Name::spec_parse(value@) == Some(n),
                Err(m) => Name::spec_parse(value@) is None && m@ == "unknown theme `"@ + value@
                    + "`; run --list-themes to see valid theme names"@,
            },
    {
        let k = lower_all(&trim_exec(&chars_of(value)));
        if equals_str(&k, "dragon") || equals_str(&k, "kanagawa-dragon") {
            Ok(Name::Dragon)
        } else if equals_str(&k, "wave") || equals_str(&k, "kanagawa-wave") || equals_str(
            &k,
            "terminal",
        ) {
            Ok(Name::Wave)
        } else {
            let mut m = "unknown theme `".to_owned();
            m.append(value);
            m.append("`; run --list-themes to see valid theme names");
            Err(m)
        }
    }

    /// The colours of the theme.
    pub fn palette(self) -> (p: Palette)
        ensures
            p == self.spec_palette(),
    {
        match self {
            Name::Dragon => Palette {
                shell_background: make_rgb(18, 20, 20),
                panel_background: make_rgb(24, 22, 22),
                elevated_background: make_rgb(34, 30, 34),
                text_color: make_rgb(197, 201, 197),
                muted_text: make_rgb(114, 113, 105),
                border_color: make_rgb(84, 84, 100),
                accent_blue: make_rgb(139, 164, 176),
                accent_cyan: make_rgb(142, 164, 162),
                accent_green: make_rgb(138, 154, 123),
                accent_gold: make_rgb(196, 178, 138),
                accent_pink: make_rgb(162, 146, 163),
                accent_red: make_rgb(196, 116, 110),
                selected_background: make_rgb(45, 79, 103),
                selected_text: make_rgb(200, 204, 200),
                contrast_text: make_rgb(18, 20, 20),
            },
            Name::Wave => Palette {
                shell_background: make_rgb(29, 32, 39),
                panel_background: make_rgb(34, 36, 49),
                elevated_background: make_rgb(41, 44, 60),
                text_color: make_rgb(220, 215, 186),
                muted_text: make_rgb(127, 132, 156),
                border_color: make_rgb(84, 88, 112),
                accent_blue: make_rgb(124, 153, 199),
                accent_cyan: make_rgb(122, 168, 196),
                accent_green: make_rgb(152, 187, 108),
                accent_gold: make_rgb(229, 192, 123),
                accent_pink: make_rgb(211, 188, 192),
                accent_red: make_rgb(228, 104, 118),
                selected_background: make_rgb(58, 74, 104),
                selected_text: make_rgb(236, 229, 199),
                contrast_text: make_rgb(29, 32, 39),
            },
        }
    }
}

impl std::str::FromStr for Name {
    type Err = String;

    fn from_str(value: &str) -> (r: Result<Name, String>)
        ensures
            match r {
                Ok(n) => Name::spec_parse(value@) == Some(n),
                Err(m) => Name::spec_parse(value@) is None && m@ == "unknown theme `"@ + value@
                    + "`; run --list-themes to see valid theme names"@,
            },
    {
        Name::parse(value)
    }
}

pub open spec fn spec_default_theme() -> Name {
    Name::Wave
}

/// The theme used when none has been chosen.
pub fn default_theme() -> (r: Name)
    ensures
        r == spec_default_theme(),
{
    Name::Wave
}

/// The theme chosen for the console, kept as the number it is stored under.
#[derive(Debug, Clone, Copy)]
pub struct ThemeSetting {
    code: u8,
}

impl View for ThemeSetting {
    type V = u8;

    closed spec fn view(&self) -> u8 {
        self.code
    }
}

impl ThemeSetting {
    /// The setting the console starts with: the default theme.
    pub fn new() -> (r: ThemeSetting)
        ensures
            r@ == spec_default_theme().spec_code(),
    {
        ThemeSetting { code: Name::Wave.code() }
    }

    /// A setting read back from its stored number.
    pub fn from_code(code: u8) -> (r: ThemeSetting)
        ensures
            r@ == code,
    {
        ThemeSetting { code }
    }

    /// The number the setting is stored under.
    pub fn code(&self) -> (r: u8)
        ensures
            r == self@,
    {
        self.code
    }
}

/// Chooses the theme.
pub fn set_theme(setting: &mut ThemeSetting, name: Name)
    ensures
        final(setting)@ == name.spec_code(),
{
    setting.code = name.code();
}

/// The theme chosen; a stored number that stands for no theme gives the
/// default theme.
pub fn theme_name(setting: &ThemeSetting) -> (r: Name)
    ensures
        r == Name::spec_from_code(setting@),
{
    Name::from_code(setting.code)
}

// ---------------------------------------------------------------------------
// Laws
// ---------------------------------------------------------------------------

/// Storing a theme choice and reading it back gives the same theme, and a
/// number that stands for no theme reads as the default theme.
pub proof fn lemma_theme_code_round_trip(n: Name, code: u8)
    ensures
        Name::spec_from_code(n.spec_code()) == n,
        code > 1 ==> Name::spec_from_code(code) == spec_default_theme(),
{
}

/// A setting left by `set_theme` with a theme gives that theme back through
/// `theme_name`; a fresh setting gives the default theme.
pub proof fn lemma_theme_name_gives_back_set_theme(after: ThemeSetting, n: Name)
    requires
        after@ == n.spec_code(),
    ensures
        Name::spec_from_code(after@) == n,
        Name::spec_from_code(spec_default_theme().spec_code()) == spec_default_theme(),
{
}

/// A theme's slug chooses that theme again.
pub proof fn lemma_slug_selects_theme(n: Name)
    ensures
        Name::spec_parse(n.spec_slug()) == Some(n),
{
    reveal_strlit("kanagawa-dragon");
    reveal_strlit("kanagawa-wave");
    reveal_strlit("dragon");
    reveal_strlit("wave");
    reveal_strlit("terminal");
    let s = n.spec_slug();
    assert(trim_start(s) == s);
    assert(trim_end(s) == s);
    assert(lower_chars(s) =~= s);
}

} // verus!
