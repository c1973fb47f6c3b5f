use vstd::prelude::*;

verus! {

/// The colour themes the application offers.
#[derive(Clone, Copy, Debug, PartialEq, Eq, Structural)]
pub enum PlumeTheme {
    PlumeDark,
    Mint,
    Blue,
    Red,
}

/// The six colours of a theme, each as `0xRRGGBB`.
#[derive(Clone, Copy, Debug, PartialEq, Eq, Structural)]
pub struct PaletteColors {
    pub background: u32,
    pub text: u32,
    pub primary: u32,
    pub success: u32,
    pub danger: u32,
    pub warning: u32,
}

/// A named custom theme: the name it is registered under and its colours.
pub struct ThemePalette {
    pub name: String,
    pub colors: PaletteColors,
}

/// The red channel of a `0xRRGGBB` colour.
pub open spec fn red(c: u32) -> int {
    (c / 0x10000) as int
}

/// The green channel of a `0xRRGGBB` colour.
pub open spec fn green(c: u32) -> int {
    ((c / 0x100) % 0x100) as int
}

/// The blue channel of a `0xRRGGBB` colour.
pub open spec fn blue(c: u32) -> int {
    (c % 0x100) as int
}

/// The sum of the three channels.
pub open spec fn brightness(c: u32) -> int {
    red(c) + green(c) + blue(c)
}

/// The themes in the order they are offered.
pub open spec fn all_themes() -> Seq<PlumeTheme> {
    seq![PlumeTheme::PlumeDark, PlumeTheme::Mint, PlumeTheme::Blue, PlumeTheme::Red]
}

/// The name under which a theme is shown and registered.
pub open spec fn theme_label(theme: PlumeTheme) -> Seq<char> {
    match theme {
        PlumeTheme::PlumeDark => "Plume Dark"@,
        PlumeTheme::Mint => "Mint"@,
        PlumeTheme::Blue => "Blue"@,
        PlumeTheme::Red => "Red"@,
    }
}

/// The colours of each theme.
pub open spec fn theme_colors(theme: PlumeTheme) -> PaletteColors {
    match theme {
        PlumeTheme::PlumeDark => PaletteColors {
            background: 0x282021,
            text: 0xf2d5cf,
            primary: 0xd3869b,
            success: 0xd9a6b3,
            danger: 0xe78a8a,
            warning: 0xf4b8c4,
        },
        PlumeTheme::Mint => PaletteColors {
            background: 0x1e2e28,
            text: 0xd4ece1,
            primary: 0x55b182,
            success: 0x7dcda3,
            danger: 0xe27a7a,
            warning: 0xe6c37c,
        },
        PlumeTheme::Blue => PaletteColors {
            background: 0x1a2130,
            text: 0xd6e5fa,
            primary: 0x4d8bd9,
            success: 0x7bb1e6,
            danger: 0xe46c6c,
            warning: 0xe8c17b,
        },
        PlumeTheme::Red => PaletteColors {
            background: 0x2d1a1b,
            text: 0xf7d9da,
            primary: 0xd9464e,
            success: 0xdf7c7e,
            danger: 0xe84a4a,
            warning: 0xe3b772,
        },
    }
}

impl Default for PlumeTheme {
    fn default() -> (theme: Self)
        ensures
            theme == PlumeTheme::PlumeDark,
    {
        PlumeTheme::PlumeDark
    }
}

impl PlumeTheme {
    /// Every theme, in the order they are offered.
    pub fn all() -> (themes: Vec<PlumeTheme>)
        ensures
            themes@ == all_themes(),
    {
        let themes = vec![PlumeTheme::PlumeDark, PlumeTheme::Mint, PlumeTheme::Blue, PlumeTheme::Red];
        assert(themes@ =~= all_themes());
        themes
    }

    /// The name of the theme as shown to the user.
    pub fn label(&self) -> (name: &'static str)
        ensures
            name@ == theme_label(*self),
    {
        match self {
            PlumeTheme::PlumeDark => "Plume Dark",
            PlumeTheme::Mint => "Mint",
            PlumeTheme::Blue => "Blue",
            PlumeTheme::Red => "Red",
        }
    }

    /// The custom theme that this choice stands for: registered under its label, with its
    /// colours.
    pub fn palette(self) -> (palette: ThemePalette)
        ensures
            palette.name@ == theme_label(self),
            palette.colors == theme_colors(self),
            red(palette.colors.background) <= 0x30 && green(palette.colors.background) <= 0x30
                && blue(palette.colors.background) <= 0x30,
            red(palette.colors.text) >= 0xc0 && green(palette.colors.text) >= 0xc0 && blue(
                palette.colors.text,
            ) >= 0xc0,
    {
        match self {
            PlumeTheme::PlumeDark => Self::plume_dark(),
            PlumeTheme::Mint => Self::mint(),
            PlumeTheme::Blue => Self::blue(),
            PlumeTheme::Red => Self::red(),
        }
    }

    fn plume_dark() -> (palette: ThemePalette)
        ensures
            palette.name@ == theme_label(PlumeTheme::PlumeDark),
            palette.colors == theme_colors(PlumeTheme::PlumeDark),
    {
        ThemePalette {
            name: String::from_str("Plume Dark"),
            colors: PaletteColors {
                background: 0x282021,
                text: 0xf2d5cf,
                primary: 0xd3869b,
                success: 0xd9a6b3,
                danger: 0xe78a8a,
                warning: 0xf4b8c4,
            },
        }
    }

    fn mint() -> (palette: ThemePalette)
        ensures
            palette.name@ == theme_label(PlumeTheme::Mint),
            palette.colors == theme_colors(PlumeTheme::Mint),
    {
        ThemePalette {
            name: String::from_str("Mint"),
            colors: PaletteColors {
                background: 0x1e2e28,
                text: 0xd4ece1,
                primary: 0x55b182,
                success: 0x7dcda3,
                danger: 0xe27a7a,
                warning: 0xe6c37c,
            },
        }
    }

    fn blue() -> (palette: ThemePalette)
        ensures
            palette.name@ == theme_label(PlumeTheme::Blue),
            palette.colors == theme_colors(PlumeTheme::Blue),
    {
        ThemePalette {
            name: String::from_str("Blue"),
            colors: PaletteColors {
                background: 0x1a2130,
                text: 0xd6e5fa,
                primary: 0x4d8bd9,
                success: 0x7bb1e6,
                danger: 0xe46c6c,
                warning: 0xe8c17b,
            },
        }
    }

    fn red() -> (palette: ThemePalette)
        ensures
            palette.name@ == theme_label(PlumeTheme::Red),
            palette.colors == theme_colors(PlumeTheme::Red),
    {
        ThemePalette {
            name: String::from_str("Red"),
            colors: PaletteColors {
                background: 0x2d1a1b,
                text: 0xf7d9da,
                primary: 0xd9464e,
                success: 0xdf7c7e,
                danger: 0xe84a4a,
                warning: 0xe3b772,
            },
        }
    }
}

/// Every theme is offered, exactly once.
pub proof fn lemma_each_theme_offered_once(theme: PlumeTheme)
    ensures
        all_themes().contains(theme),
        all_themes().filter(|t: PlumeTheme| t == theme).len() == 1,
{
    reveal_with_fuel(Seq::filter, 5);
    let s = all_themes();
    assert(s.drop_last() =~= seq![PlumeTheme::PlumeDark, PlumeTheme::Mint, PlumeTheme::Blue]);
    assert(s.drop_last().drop_last() =~= seq![PlumeTheme::PlumeDark, PlumeTheme::Mint]);
    assert(s.drop_last().drop_last().drop_last() =~= seq![PlumeTheme::PlumeDark]);
    assert(s.drop_last().drop_last().drop_last().drop_last() =~= Seq::<PlumeTheme>::empty());
    match theme {
        PlumeTheme::PlumeDark => assert(s[0] == theme),
        PlumeTheme::Mint => assert(s[1] == theme),
        PlumeTheme::Blue => assert(s[2] == theme),
        PlumeTheme::Red => assert(s[3] == theme),
    }
}

/// Different themes are shown under different names, so a name picks out one theme.
pub proof fn lemma_labels_distinct(a: PlumeTheme, b: PlumeTheme)
    requires
        a != b,
    ensures
        theme_label(a) != theme_label(b),
{
    reveal_strlit("Plume Dark");
    reveal_strlit("Mint");
    reveal_strlit("Blue");
    reveal_strlit("Red");
    assert(theme_label(a).len() != theme_label(b).len() || theme_label(a)[0] != theme_label(b)[0]);
}


/// Every theme is dark: each channel of the background is at most `0x30`, each channel of the
/// text at least `0xc0`; the accent colours are all brighter than the background; and the
/// danger colour is red above all.
pub proof fn lemma_themes_are_dark(theme: PlumeTheme)
    ensures
        red(theme_colors(theme).background) <= 0x30,
        green(theme_colors(theme).background) <= 0x30,
        blue(theme_colors(theme).background) <= 0x30,
        red(theme_colors(theme).text) >= 0xc0,
        green(theme_colors(theme).text) >= 0xc0,
        blue(theme_colors(theme).text) >= 0xc0,
        brightness(theme_colors(theme).background) < brightness(theme_colors(theme).primary),
        brightness(theme_colors(theme).background) < brightness(theme_colors(theme).success),
        brightness(theme_colors(theme).background) < brightness(theme_colors(theme).danger),
        brightness(theme_colors(theme).background) < brightness(theme_colors(theme).warning),
        red(theme_colors(theme).danger) > green(theme_colors(theme).danger),
        red(theme_colors(theme).danger) > blue(theme_colors(theme).danger),
{
}

} // verus!
