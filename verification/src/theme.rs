//! Colour themes: three palettes and the design that maps each interface
//! role and each named selector to a style.

use vstd::prelude::*;

use crate::text::chars_of;
use crate::text::eq_str;

verus! {

/// The colour themes.
#[derive(Clone, Copy, Debug, PartialEq, Eq, Structural)]
pub enum ThemeKind {
    Neutral,
    Safe,
    Danger,
}

/// A 24-bit colour.
#[derive(Clone, Copy, Debug, PartialEq, Eq, Structural)]
pub struct Rgb {
    pub r: u8,
    pub g: u8,
    pub b: u8,
}

/// The colours of a theme.
#[derive(Clone, Copy, Debug, PartialEq, Eq, Structural)]
pub struct Palette {
    pub surface0: Rgb,
    pub surface1: Rgb,
    pub surface2: Rgb,
    pub border: Rgb,
    pub text: Rgb,
    pub muted: Rgb,
    pub accent: Rgb,
    pub accent_low: Rgb,
    pub success: Rgb,
    pub warning: Rgb,
    pub danger: Rgb,
    pub selection: Rgb,
}

/// A colour of the palette, by name.
#[derive(Clone, Copy, Debug, PartialEq, Eq, Structural)]
pub enum ColorToken {
    Surface0,
    Surface1,
    Surface2,
    Border,
    Text,
    Muted,
    Accent,
    AccentLow,
    Success,
    Warning,
    Danger,
    Selection,
}

/// A text style: foreground and background colours (the terminal's own where
/// absent), bold and underlined.
#[derive(Clone, Copy, Debug, PartialEq, Eq, Structural)]
pub struct StyleSpec {
    pub fg: Option<Rgb>,
    pub bg: Option<Rgb>,
    pub bold: bool,
    pub underlined: bool,
}

/// The parts of the interface that a design styles.
#[derive(Clone, Copy, Debug, PartialEq, Eq, Structural)]
pub enum Role {
    AppBackground,
    Header,
    HeaderBrand,
    HeaderMode,
    Panel,
    PanelFocused,
    PanelTitle,
    Text,
    TextMuted,
    ListItem,
    ListItemSelected,
    Command,
    CommandFocused,
    PromptPrefix,
    PromptInput,
    Footer,
    FooterKey,
    HelpOverlay,
    HelpTitle,
    Status,
    StatusSuccess,
    StatusWarning,
    StatusDanger,
    Button,
    ButtonPrimary,
    ButtonDanger,
    ButtonFocused,
    Input,
    InputFocused,
    Badge,
    BadgeSuccess,
    BadgeWarning,
    BadgeDanger,
    TableHeader,
    TableCell,
    TableCellSelected,
}

/// The style of a role.
#[derive(Clone, Copy, Debug, PartialEq, Eq, Structural)]
pub struct RoleStyle {
    pub role: Role,
    pub style: StyleSpec,
}

/// The style of a named selector.
#[derive(Clone, Copy, Debug)]
pub struct SelectorStyle {
    pub selector: &'static str,
    pub style: StyleSpec,
}

/// A palette with the styles of roles and of named selectors; a later entry
/// for the same role or selector takes precedence.
#[derive(Debug)]
pub struct Design {
    pub palette: Palette,
    pub roles: Vec<RoleStyle>,
    pub selectors: Vec<SelectorStyle>,
}

/// A theme: its name and its design.
#[derive(Debug)]
pub struct Theme {
    pub name: &'static str,
    pub design: Design,
}

/// The style with nothing set.
pub open spec fn plain() -> StyleSpec {
    StyleSpec { fg: None, bg: None, bold: false, underlined: false }
}

/// The style with nothing set.
pub fn style() -> (s: StyleSpec)
    ensures
        s == plain(),
{
    StyleSpec { fg: None, bg: None, bold: false, underlined: false }
}

impl StyleSpec {
    /// The style with foreground `c`.
    pub fn fg(self, c: Rgb) -> (s: StyleSpec)
        ensures
            s == (StyleSpec { fg: Some(c), ..self }),
    {
        StyleSpec { fg: Some(c), ..self }
    }

    /// The style with background `c`.
    pub fn bg(self, c: Rgb) -> (s: StyleSpec)
        ensures
            s == (StyleSpec { bg: Some(c), ..self }),
    {
        StyleSpec { bg: Some(c), ..self }
    }

    /// The style in bold.
    pub fn bold(self) -> (s: StyleSpec)
        ensures
            s == (StyleSpec { bold: true, ..self }),
    {
        StyleSpec { bold: true, ..self }
    }

    /// The style underlined.
    pub fn underlined(self) -> (s: StyleSpec)
        ensures
            s == (StyleSpec { underlined: true, ..self }),
    {
        StyleSpec { underlined: true, ..self }
    }
}

/// The style of the last entry for `role`.
pub open spec fn role_lookup(entries: Seq<RoleStyle>, role: Role) -> Option<StyleSpec>
    decreases entries.len(),
{
    if entries.len() == 0 {
        None
    } else if entries.last().role == role {
        Some(entries.last().style)
    } else {
        role_lookup(entries.drop_last(), role)
    }
}

/// The style of the last entry for `selector`.
pub open spec fn selector_lookup(entries: Seq<SelectorStyle>, selector: Seq<char>) -> Option<
    StyleSpec,
>
    decreases entries.len(),
{
    if entries.len() == 0 {
        None
    } else if entries.last().selector@ == selector {
        Some(entries.last().style)
    } else {
        selector_lookup(entries.drop_last(), selector)
    }
}

/// The colour of a palette that a token names.
pub open spec fn token_color(p: Palette, token: ColorToken) -> Rgb {
    match token {
        ColorToken::Surface0 => p.surface0,
        ColorToken::Surface1 => p.surface1,
        ColorToken::Surface2 => p.surface2,
        ColorToken::Border => p.border,
        ColorToken::Text => p.text,
        ColorToken::Muted => p.muted,
        ColorToken::Accent => p.accent,
        ColorToken::AccentLow => p.accent_low,
        ColorToken::Success => p.success,
        ColorToken::Warning => p.warning,
        ColorToken::Danger => p.danger,
        ColorToken::Selection => p.selection,
    }
}

/// The style that the base design gives each role.
pub open spec fn role_style_spec(p: Palette, role: Role) -> StyleSpec {
    match role {
        Role::AppBackground => StyleSpec { fg: Some(p.text), bg: Some(p.surface0), bold: false, underlined: false },
        Role::Header => StyleSpec { fg: Some(p.text), bg: Some(p.surface1), bold: false, underlined: false },
        Role::HeaderBrand => StyleSpec { fg: Some(p.surface0), bg: Some(p.accent), bold: true, underlined: false },
        Role::HeaderMode => StyleSpec { fg: Some(p.text), bg: Some(p.accent_low), bold: true, underlined: false },
        Role::Panel => StyleSpec { fg: Some(p.text), bg: Some(p.surface1), bold: false, underlined: false },
        Role::PanelFocused => StyleSpec { fg: Some(p.accent), bg: Some(p.surface1), bold: false, underlined: false },
        Role::PanelTitle => StyleSpec { fg: Some(p.accent), bg: None, bold: true, underlined: false },
        Role::Text => StyleSpec { fg: Some(p.text), bg: Some(p.surface1), bold: false, underlined: false },
        Role::TextMuted => StyleSpec { fg: Some(p.muted), bg: Some(p.surface1), bold: false, underlined: false },
        Role::ListItem => StyleSpec { fg: Some(p.text), bg: Some(p.surface1), bold: false, underlined: false },
        Role::ListItemSelected => StyleSpec { fg: Some(p.text), bg: Some(p.selection), bold: true, underlined: false },
        Role::Command => StyleSpec { fg: Some(p.text), bg: Some(p.surface1), bold: false, underlined: false },
        Role::CommandFocused => StyleSpec { fg: Some(p.accent), bg: Some(p.surface1), bold: false, underlined: false },
        Role::PromptPrefix => StyleSpec { fg: Some(p.accent), bg: None, bold: true, underlined: false },
        Role::PromptInput => StyleSpec { fg: Some(p.text), bg: None, bold: false, underlined: false },
        Role::Footer => StyleSpec { fg: Some(p.text), bg: Some(p.surface1), bold: false, underlined: false },
        Role::FooterKey => StyleSpec { fg: Some(p.accent), bg: None, bold: true, underlined: false },
        Role::HelpOverlay => StyleSpec { fg: Some(p.text), bg: Some(p.surface2), bold: false, underlined: false },
        Role::HelpTitle => StyleSpec { fg: Some(p.accent), bg: None, bold: true, underlined: false },
        Role::Status => StyleSpec { fg: Some(p.muted), bg: None, bold: false, underlined: false },
        Role::StatusSuccess => StyleSpec { fg: Some(p.success), bg: None, bold: true, underlined: false },
        Role::StatusWarning => StyleSpec { fg: Some(p.warning), bg: None, bold: true, underlined: false },
        Role::StatusDanger => StyleSpec { fg: Some(p.danger), bg: None, bold: true, underlined: false },
        Role::Button => StyleSpec { fg: Some(p.text), bg: Some(p.surface2), bold: false, underlined: false },
        Role::ButtonPrimary => StyleSpec { fg: Some(p.surface0), bg: Some(p.accent), bold: true, underlined: false },
        Role::ButtonDanger => StyleSpec { fg: Some(p.surface0), bg: Some(p.danger), bold: true, underlined: false },
        Role::ButtonFocused => StyleSpec { fg: Some(p.accent), bg: None, bold: false, underlined: true },
        Role::Input => StyleSpec { fg: Some(p.text), bg: Some(p.surface2), bold: false, underlined: false },
        Role::InputFocused => StyleSpec { fg: Some(p.text), bg: Some(p.surface2), bold: false, underlined: true },
        Role::Badge => StyleSpec { fg: Some(p.surface0), bg: Some(p.accent_low), bold: false, underlined: false },
        Role::BadgeSuccess => StyleSpec { fg: Some(p.surface0), bg: Some(p.success), bold: true, underlined: false },
        Role::BadgeWarning => StyleSpec { fg: Some(p.surface0), bg: Some(p.warning), bold: true, underlined: false },
        Role::BadgeDanger => StyleSpec { fg: Some(p.surface0), bg: Some(p.danger), bold: true, underlined: false },
        Role::TableHeader => StyleSpec { fg: Some(p.surface0), bg: Some(p.accent), bold: true, underlined: false },
        Role::TableCell => StyleSpec { fg: Some(p.text), bg: Some(p.surface1), bold: false, underlined: false },
        Role::TableCellSelected => StyleSpec { fg: Some(p.text), bg: Some(p.selection), bold: false, underlined: false },
    }
}

/// The role entries of the base design, in order.
pub open spec fn role_table(p: Palette) -> Seq<RoleStyle> {
    seq![
        RoleStyle { role: Role::AppBackground, style: role_style_spec(p, Role::AppBackground) },
        RoleStyle { role: Role::Header, style: role_style_spec(p, Role::Header) },
        RoleStyle { role: Role::HeaderBrand, style: role_style_spec(p, Role::HeaderBrand) },
        RoleStyle { role: Role::HeaderMode, style: role_style_spec(p, Role::HeaderMode) },
        RoleStyle { role: Role::Panel, style: role_style_spec(p, Role::Panel) },
        RoleStyle { role: Role::PanelFocused, style: role_style_spec(p, Role::PanelFocused) },
        RoleStyle { role: Role::PanelTitle, style: role_style_spec(p, Role::PanelTitle) },
        RoleStyle { role: Role::Text, style: role_style_spec(p, Role::Text) },
        RoleStyle { role: Role::TextMuted, style: role_style_spec(p, Role::TextMuted) },
        RoleStyle { role: Role::ListItem, style: role_style_spec(p, Role::ListItem) },
        RoleStyle { role: Role::ListItemSelected, style: role_style_spec(p, Role::ListItemSelected) },
        RoleStyle { role: Role::Command, style: role_style_spec(p, Role::Command) },
        RoleStyle { role: Role::CommandFocused, style: role_style_spec(p, Role::CommandFocused) },
        RoleStyle { role: Role::PromptPrefix, style: role_style_spec(p, Role::PromptPrefix) },
        RoleStyle { role: Role::PromptInput, style: role_style_spec(p, Role::PromptInput) },
        RoleStyle { role: Role::Footer, style: role_style_spec(p, Role::Footer) },
        RoleStyle { role: Role::FooterKey, style: role_style_spec(p, Role::FooterKey) },
        RoleStyle { role: Role::HelpOverlay, style: role_style_spec(p, Role::HelpOverlay) },
        RoleStyle { role: Role::HelpTitle, style: role_style_spec(p, Role::HelpTitle) },
        RoleStyle { role: Role::Status, style: role_style_spec(p, Role::Status) },
        RoleStyle { role: Role::StatusSuccess, style: role_style_spec(p, Role::StatusSuccess) },
        RoleStyle { role: Role::StatusWarning, style: role_style_spec(p, Role::StatusWarning) },
        RoleStyle { role: Role::StatusDanger, style: role_style_spec(p, Role::StatusDanger) },
        RoleStyle { role: Role::Button, style: role_style_spec(p, Role::Button) },
        RoleStyle { role: Role::ButtonPrimary, style: role_style_spec(p, Role::ButtonPrimary) },
        RoleStyle { role: Role::ButtonDanger, style: role_style_spec(p, Role::ButtonDanger) },
        RoleStyle { role: Role::ButtonFocused, style: role_style_spec(p, Role::ButtonFocused) },
        RoleStyle { role: Role::Input, style: role_style_spec(p, Role::Input) },
        RoleStyle { role: Role::InputFocused, style: role_style_spec(p, Role::InputFocused) },
        RoleStyle { role: Role::Badge, style: role_style_spec(p, Role::Badge) },
        RoleStyle { role: Role::BadgeSuccess, style: role_style_spec(p, Role::BadgeSuccess) },
        RoleStyle { role: Role::BadgeWarning, style: role_style_spec(p, Role::BadgeWarning) },
        RoleStyle { role: Role::BadgeDanger, style: role_style_spec(p, Role::BadgeDanger) },
        RoleStyle { role: Role::TableHeader, style: role_style_spec(p, Role::TableHeader) },
        RoleStyle { role: Role::TableCell, style: role_style_spec(p, Role::TableCell) },
        RoleStyle { role: Role::TableCellSelected, style: role_style_spec(p, Role::TableCellSelected) },
    ]
}

/// The selector entries of the base design, in order.
pub open spec fn selector_table(p: Palette) -> Seq<(Seq<char>, StyleSpec)> {
    seq![
        ("rdg.repository.border"@, StyleSpec { fg: Some(p.warning), bg: None, bold: false, underlined: false }),
        ("rdg.content.border"@, StyleSpec { fg: Some(p.success), bg: None, bold: false, underlined: false }),
        ("rdg.git.border"@, StyleSpec { fg: Some(p.accent), bg: None, bold: false, underlined: false }),
        ("rdg.rsync.border"@, StyleSpec { fg: Some(p.danger), bg: None, bold: false, underlined: false }),
        ("rdg.file.checkbox"@, StyleSpec { fg: Some(p.text), bg: None, bold: false, underlined: false }),
        ("rdg.header.selected_count"@, StyleSpec { fg: Some(p.success), bg: None, bold: true, underlined: false }),
        ("git.clean"@, StyleSpec { fg: Some(p.muted), bg: None, bold: false, underlined: false }),
        ("git.header"@, StyleSpec { fg: Some(p.accent), bg: None, bold: true, underlined: false }),
        ("git.changed"@, StyleSpec { fg: Some(p.warning), bg: None, bold: false, underlined: false }),
        ("git.untracked"@, StyleSpec { fg: Some(p.success), bg: None, bold: false, underlined: false }),
        ("git.deleted"@, StyleSpec { fg: Some(p.danger), bg: None, bold: false, underlined: false }),
        ("diff.hunk"@, StyleSpec { fg: Some(p.accent), bg: None, bold: false, underlined: false }),
        ("diff.header"@, StyleSpec { fg: Some(p.warning), bg: None, bold: true, underlined: false }),
        ("diff.add"@, StyleSpec { fg: Some(p.success), bg: None, bold: false, underlined: false }),
        ("diff.remove"@, StyleSpec { fg: Some(p.danger), bg: None, bold: false, underlined: false }),
        ("diff.emphasis"@, StyleSpec { fg: Some(p.success), bg: None, bold: true, underlined: false }),
        ("diff.binary"@, StyleSpec { fg: Some(p.warning), bg: None, bold: true, underlined: false }),
        ("rsync.header"@, StyleSpec { fg: Some(p.accent), bg: None, bold: true, underlined: false }),
        ("rsync.command"@, StyleSpec { fg: Some(p.accent), bg: None, bold: false, underlined: false }),
        ("rsync.add"@, StyleSpec { fg: Some(p.success), bg: None, bold: false, underlined: false }),
        ("rsync.remove"@, StyleSpec { fg: Some(p.danger), bg: None, bold: false, underlined: false }),
        ("rsync.delete"@, StyleSpec { fg: Some(p.danger), bg: None, bold: true, underlined: false }),
        ("rsync.unchanged"@, StyleSpec { fg: Some(p.muted), bg: None, bold: false, underlined: false }),
        ("rsync.error"@, StyleSpec { fg: Some(p.danger), bg: None, bold: true, underlined: false }),
    ]
}

/// The names and styles of selector entries.
pub open spec fn selector_entries(v: Seq<SelectorStyle>) -> Seq<(Seq<char>, StyleSpec)> {
    v.map_values(|e: SelectorStyle| (e.selector@, e.style))
}

impl Design {
    /// A design with `palette` and no styles yet.
    pub fn new(palette: Palette) -> (d: Design)
        ensures
            d.palette == palette,
            d.roles@ == Seq::<RoleStyle>::empty(),
            d.selectors@ == Seq::<SelectorStyle>::empty(),
    {
        Design { palette, roles: Vec::new(), selectors: Vec::new() }
    }

    /// The design with `style` for `role`.
    pub fn role(self, role: Role, style: StyleSpec) -> (d: Design)
        ensures
            d.palette == self.palette,
            d.roles@ == self.roles@.push(RoleStyle { role, style }),
            d.selectors@ == self.selectors@,
    {
        let mut d = self;
        d.roles.push(RoleStyle { role, style });
        d
    }

    /// The design with `style` for the selector `selector`.
    pub fn selector(self, selector: &'static str, style: StyleSpec) -> (d: Design)
        ensures
            d.palette == self.palette,
            d.roles@ == self.roles@,
            d.selectors@ == self.selectors@.push(SelectorStyle { selector, style }),
    {
        let mut d = self;
        d.selectors.push(SelectorStyle { selector, style });
        d
    }

    /// The style of `role`: that of its last entry, or the plain style.
    pub fn role_style(&self, role: Role) -> (s: StyleSpec)
        ensures
            s == (match role_lookup(self.roles@, role) {
                Some(s) => s,
                None => plain(),
            }),
    {
        let mut i = self.roles.len();
        assert(self.roles@.take(i as int) =~= self.roles@);
        while i > 0
            invariant
                i <= self.roles@.len(),
                role_lookup(self.roles@, role) == role_lookup(self.roles@.take(i as int), role),
            decreases i,
        {
            assert(self.roles@.take(i as int).drop_last() =~= self.roles@.take(i - 1));
            if self.roles[i - 1].role == role {
                return self.roles[i - 1].style;
            }
            i = i - 1;
        }
        style()
    }

    /// The style of the selector `selector`: that of its last entry, or the
    /// plain style.
    pub fn style(&self, selector: &str) -> (s: StyleSpec)
        ensures
            s == (match selector_lookup(self.selectors@, selector@) {
                Some(s) => s,
                None => plain(),
            }),
    {
        let name = chars_of(selector);
        let mut i = self.selectors.len();
        assert(self.selectors@.take(i as int) =~= self.selectors@);
        while i > 0
            invariant
                i <= self.selectors@.len(),
                name@ == selector@,
                selector_lookup(self.selectors@, selector@) == selector_lookup(
                    self.selectors@.take(i as int),
                    selector@,
                ),
            decreases i,
        {
            assert(self.selectors@.take(i as int).drop_last() =~= self.selectors@.take(i - 1));
            if eq_str(&name, self.selectors[i - 1].selector) {
                return self.selectors[i - 1].style;
            }
            i = i - 1;
        }
        style()
    }

    /// The colour that `token` names.
    pub fn color(&self, token: ColorToken) -> (c: Rgb)
        ensures
            c == token_color(self.palette, token),
    {
        match token {
            ColorToken::Surface0 => self.palette.surface0,
            ColorToken::Surface1 => self.palette.surface1,
            ColorToken::Surface2 => self.palette.surface2,
            ColorToken::Border => self.palette.border,
            ColorToken::Text => self.palette.text,
            ColorToken::Muted => self.palette.muted,
            ColorToken::Accent => self.palette.accent,
            ColorToken::AccentLow => self.palette.accent_low,
            ColorToken::Success => self.palette.success,
            ColorToken::Warning => self.palette.warning,
            ColorToken::Danger => self.palette.danger,
            ColorToken::Selection => self.palette.selection,
        }
    }
}

/// The design that every theme shares, over the theme's palette.
pub fn base_design(palette: Palette) -> (d: Design)
    ensures
        d.palette == palette,
        d.roles@ == role_table(palette),
        selector_entries(d.selectors@) == selector_table(palette),
{
    let d = Design::new(palette)
        .role(Role::AppBackground, style().fg(palette.text).bg(palette.surface0))
        .role(Role::Header, style().fg(palette.text).bg(palette.surface1))
        .role(Role::HeaderBrand, style().fg(palette.surface0).bg(palette.accent).bold())
        .role(Role::HeaderMode, style().fg(palette.text).bg(palette.accent_low).bold())
        .role(Role::Panel, style().fg(palette.text).bg(palette.surface1))
        .role(Role::PanelFocused, style().fg(palette.accent).bg(palette.surface1))
        .role(Role::PanelTitle, style().fg(palette.accent).bold())
        .role(Role::Text, style().fg(palette.text).bg(palette.surface1))
        .role(Role::TextMuted, style().fg(palette.muted).bg(palette.surface1))
        .role(Role::ListItem, style().fg(palette.text).bg(palette.surface1))
        .role(Role::ListItemSelected, style().fg(palette.text).bg(palette.selection).bold())
        .role(Role::Command, style().fg(palette.text).bg(palette.surface1))
        .role(Role::CommandFocused, style().fg(palette.accent).bg(palette.surface1))
        .role(Role::PromptPrefix, style().fg(palette.accent).bold())
        .role(Role::PromptInput, style().fg(palette.text))
        .role(Role::Footer, style().fg(palette.text).bg(palette.surface1))
        .role(Role::FooterKey, style().fg(palette.accent).bold())
        .role(Role::HelpOverlay, style().fg(palette.text).bg(palette.surface2))
        .role(Role::HelpTitle, style().fg(palette.accent).bold())
        .role(Role::Status, style().fg(palette.muted))
        .role(Role::StatusSuccess, style().fg(palette.success).bold())
        .role(Role::StatusWarning, style().fg(palette.warning).bold())
        .role(Role::StatusDanger, style().fg(palette.danger).bold())
        .role(Role::Button, style().fg(palette.text).bg(palette.surface2))
        .role(Role::ButtonPrimary, style().fg(palette.surface0).bg(palette.accent).bold())
        .role(Role::ButtonDanger, style().fg(palette.surface0).bg(palette.danger).bold())
        .role(Role::ButtonFocused, style().fg(palette.accent).underlined())
        .role(Role::Input, style().fg(palette.text).bg(palette.surface2))
        .role(Role::InputFocused, style().fg(palette.text).bg(palette.surface2).underlined())
        .role(Role::Badge, style().fg(palette.surface0).bg(palette.accent_low))
        .role(Role::BadgeSuccess, style().fg(palette.surface0).bg(palette.success).bold())
        .role(Role::BadgeWarning, style().fg(palette.surface0).bg(palette.warning).bold())
        .role(Role::BadgeDanger, style().fg(palette.surface0).bg(palette.danger).bold())
        .role(Role::TableHeader, style().fg(palette.surface0).bg(palette.accent).bold())
        .role(Role::TableCell, style().fg(palette.text).bg(palette.surface1))
        .role(Role::TableCellSelected, style().fg(palette.text).bg(palette.selection))
        .selector("rdg.repository.border", style().fg(palette.warning))
        .selector("rdg.content.border", style().fg(palette.success))
        .selector("rdg.git.border", style().fg(palette.accent))
        .selector("rdg.rsync.border", style().fg(palette.danger))
        .selector("rdg.file.checkbox", style().fg(palette.text))
        .selector("rdg.header.selected_count", style().fg(palette.success).bold())
        .selector("git.clean", style().fg(palette.muted))
        .selector("git.header", style().fg(palette.accent).bold())
        .selector("git.changed", style().fg(palette.warning))
        .selector("git.untracked", style().fg(palette.success))
        .selector("git.deleted", style().fg(palette.danger))
        .selector("diff.hunk", style().fg(palette.accent))
        .selector("diff.header", style().fg(palette.warning).bold())
        .selector("diff.add", style().fg(palette.success))
        .selector("diff.remove", style().fg(palette.danger))
        .selector("diff.emphasis", style().fg(palette.success).bold())
        .selector("diff.binary", style().fg(palette.warning).bold())
        .selector("rsync.header", style().fg(palette.accent).bold())
        .selector("rsync.command", style().fg(palette.accent))
        .selector("rsync.add", style().fg(palette.success))
        .selector("rsync.remove", style().fg(palette.danger))
        .selector("rsync.delete", style().fg(palette.danger).bold())
        .selector("rsync.unchanged", style().fg(palette.muted))
        .selector("rsync.error", style().fg(palette.danger).bold())
    ;
    assert(d.roles@ =~= role_table(palette));
    assert(selector_entries(d.selectors@) =~= selector_table(palette));
    d
}

/// The palette of each theme.
pub open spec fn palette_spec(kind: ThemeKind) -> Palette {
    match kind {
        ThemeKind::Neutral => Palette {
            surface0: Rgb { r: 14, g: 17, b: 22 },
            surface1: Rgb { r: 23, g: 28, b: 36 },
            surface2: Rgb { r: 33, g: 40, b: 52 },
            border: Rgb { r: 85, g: 95, b: 109 },
            text: Rgb { r: 232, g: 236, b: 241 },
            muted: Rgb { r: 151, g: 161, b: 175 },
            accent: Rgb { r: 89, g: 165, b: 216 },
            accent_low: Rgb { r: 34, g: 80, b: 111 },
            success: Rgb { r: 81, g: 178, b: 118 },
            warning: Rgb { r: 226, g: 173, b: 83 },
            danger: Rgb { r: 222, g: 96, b: 92 },
            selection: Rgb { r: 38, g: 72, b: 96 },
        },
        ThemeKind::Safe => Palette {
            surface0: Rgb { r: 11, g: 20, b: 16 },
            surface1: Rgb { r: 20, g: 35, b: 27 },
            surface2: Rgb { r: 28, g: 48, b: 36 },
            border: Rgb { r: 70, g: 132, b: 98 },
            text: Rgb { r: 232, g: 241, b: 235 },
            muted: Rgb { r: 148, g: 171, b: 156 },
            accent: Rgb { r: 75, g: 190, b: 121 },
            accent_low: Rgb { r: 28, g: 92, b: 56 },
            success: Rgb { r: 75, g: 190, b: 121 },
            warning: Rgb { r: 226, g: 173, b: 83 },
            danger: Rgb { r: 222, g: 96, b: 92 },
            selection: Rgb { r: 31, g: 83, b: 54 },
        },
        ThemeKind::Danger => Palette {
            surface0: Rgb { r: 24, g: 13, b: 13 },
            surface1: Rgb { r: 39, g: 22, b: 22 },
            surface2: Rgb { r: 55, g: 31, b: 31 },
            border: Rgb { r: 143, g: 76, b: 72 },
            text: Rgb { r: 246, g: 232, b: 230 },
            muted: Rgb { r: 182, g: 145, b: 140 },
            accent: Rgb { r: 228, g: 93, b: 86 },
            accent_low: Rgb { r: 111, g: 36, b: 34 },
            success: Rgb { r: 81, g: 178, b: 118 },
            warning: Rgb { r: 226, g: 173, b: 83 },
            danger: Rgb { r: 228, g: 93, b: 86 },
            selection: Rgb { r: 96, g: 39, b: 37 },
        },
    }
}

/// The position of each role in the declaration of `Role`.
pub open spec fn role_index(role: Role) -> int {
    match role {
        Role::AppBackground => 0,
        Role::Header => 1,
        Role::HeaderBrand => 2,
        Role::HeaderMode => 3,
        Role::Panel => 4,
        Role::PanelFocused => 5,
        Role::PanelTitle => 6,
        Role::Text => 7,
        Role::TextMuted => 8,
        Role::ListItem => 9,
        Role::ListItemSelected => 10,
        Role::Command => 11,
        Role::CommandFocused => 12,
        Role::PromptPrefix => 13,
        Role::PromptInput => 14,
        Role::Footer => 15,
        Role::FooterKey => 16,
        Role::HelpOverlay => 17,
        Role::HelpTitle => 18,
        Role::Status => 19,
        Role::StatusSuccess => 20,
        Role::StatusWarning => 21,
        Role::StatusDanger => 22,
        Role::Button => 23,
        Role::ButtonPrimary => 24,
        Role::ButtonDanger => 25,
        Role::ButtonFocused => 26,
        Role::Input => 27,
        Role::InputFocused => 28,
        Role::Badge => 29,
        Role::BadgeSuccess => 30,
        Role::BadgeWarning => 31,
        Role::BadgeDanger => 32,
        Role::TableHeader => 33,
        Role::TableCell => 34,
        Role::TableCellSelected => 35,
    }
}

/// The role at each position of the declaration of `Role`.
pub open spec fn role_at(i: int) -> Role {
    if i == 0 {
        Role::AppBackground
    } else if i == 1 {
        Role::Header
    } else if i == 2 {
        Role::HeaderBrand
    } else if i == 3 {
        Role::HeaderMode
    } else if i == 4 {
        Role::Panel
    } else if i == 5 {
        Role::PanelFocused
    } else if i == 6 {
        Role::PanelTitle
    } else if i == 7 {
        Role::Text
    } else if i == 8 {
        Role::TextMuted
    } else if i == 9 {
        Role::ListItem
    } else if i == 10 {
        Role::ListItemSelected
    } else if i == 11 {
        Role::Command
    } else if i == 12 {
        Role::CommandFocused
    } else if i == 13 {
        Role::PromptPrefix
    } else if i == 14 {
        Role::PromptInput
    } else if i == 15 {
        Role::Footer
    } else if i == 16 {
        Role::FooterKey
    } else if i == 17 {
        Role::HelpOverlay
    } else if i == 18 {
        Role::HelpTitle
    } else if i == 19 {
        Role::Status
    } else if i == 20 {
        Role::StatusSuccess
    } else if i == 21 {
        Role::StatusWarning
    } else if i == 22 {
        Role::StatusDanger
    } else if i == 23 {
        Role::Button
    } else if i == 24 {
        Role::ButtonPrimary
    } else if i == 25 {
        Role::ButtonDanger
    } else if i == 26 {
        Role::ButtonFocused
    } else if i == 27 {
        Role::Input
    } else if i == 28 {
        Role::InputFocused
    } else if i == 29 {
        Role::Badge
    } else if i == 30 {
        Role::BadgeSuccess
    } else if i == 31 {
        Role::BadgeWarning
    } else if i == 32 {
        Role::BadgeDanger
    } else if i == 33 {
        Role::TableHeader
    } else if i == 34 {
        Role::TableCell
    } else {
        Role::TableCellSelected
    }
}

/// The last entry for a role decides its style.
proof fn lemma_role_lookup_at(entries: Seq<RoleStyle>, i: int, role: Role)
    requires
        0 <= i < entries.len(),
        entries[i].role == role,
        forall|j: int| i < j < entries.len() ==> entries[j].role != role,
    ensures
        role_lookup(entries, role) == Some(entries[i].style),
    decreases entries.len(),
{
    if i < entries.len() - 1 {
        lemma_role_lookup_at(entries.drop_last(), i, role);
    }
}

/// The base design styles every role, and each with the style that
/// `role_style_spec` gives it.
pub proof fn lemma_base_design_covers_roles(p: Palette, role: Role)
    ensures
        role_lookup(role_table(p), role) == Some(role_style_spec(p, role)),
{
    let t = role_table(p);
    let u = Seq::new(36, |j: int| RoleStyle { role: role_at(j), style: role_style_spec(p, role_at(j)) });
    assert(t =~= u);
    assert forall|j: int| 0 <= j < 36 implies role_index(role_at(j)) == j by {}
    match role {
        Role::AppBackground => {}
        Role::Header => {}
        Role::HeaderBrand => {}
        Role::HeaderMode => {}
        Role::Panel => {}
        Role::PanelFocused => {}
        Role::PanelTitle => {}
        Role::Text => {}
        Role::TextMuted => {}
        Role::ListItem => {}
        Role::ListItemSelected => {}
        Role::Command => {}
        Role::CommandFocused => {}
        Role::PromptPrefix => {}
        Role::PromptInput => {}
        Role::Footer => {}
        Role::FooterKey => {}
        Role::HelpOverlay => {}
        Role::HelpTitle => {}
        Role::Status => {}
        Role::StatusSuccess => {}
        Role::StatusWarning => {}
        Role::StatusDanger => {}
        Role::Button => {}
        Role::ButtonPrimary => {}
        Role::ButtonDanger => {}
        Role::ButtonFocused => {}
        Role::Input => {}
        Role::InputFocused => {}
        Role::Badge => {}
        Role::BadgeSuccess => {}
        Role::BadgeWarning => {}
        Role::BadgeDanger => {}
        Role::TableHeader => {}
        Role::TableCell => {}
        Role::TableCellSelected => {}
    }
    assert(role_at(role_index(role)) == role);
    lemma_role_lookup_at(t, role_index(role), role);
}

impl ThemeKind {
    /// The theme's name.
    pub open spec fn name_spec(self) -> &'static str {
        match self {
            ThemeKind::Neutral => "neutral",
            ThemeKind::Safe => "safe",
            ThemeKind::Danger => "danger",
        }
    }

    /// The theme's name.
    pub fn name(self) -> (s: &'static str)
        ensures
            s@ == self.name_spec()@,
    {
        match self {
            ThemeKind::Neutral => "neutral",
            ThemeKind::Safe => "safe",
            ThemeKind::Danger => "danger",
        }
    }

    /// The theme's palette.
    pub fn palette(self) -> (p: Palette)
        ensures
            p == palette_spec(self),
    {
        match self {
            ThemeKind::Neutral => Palette {
                surface0: Rgb { r: 14, g: 17, b: 22 },
                surface1: Rgb { r: 23, g: 28, b: 36 },
                surface2: Rgb { r: 33, g: 40, b: 52 },
                border: Rgb { r: 85, g: 95, b: 109 },
                text: Rgb { r: 232, g: 236, b: 241 },
                muted: Rgb { r: 151, g: 161, b: 175 },
                accent: Rgb { r: 89, g: 165, b: 216 },
                accent_low: Rgb { r: 34, g: 80, b: 111 },
                success: Rgb { r: 81, g: 178, b: 118 },
                warning: Rgb { r: 226, g: 173, b: 83 },
                danger: Rgb { r: 222, g: 96, b: 92 },
                selection: Rgb { r: 38, g: 72, b: 96 },
            },
            ThemeKind::Safe => Palette {
                surface0: Rgb { r: 11, g: 20, b: 16 },
                surface1: Rgb { r: 20, g: 35, b: 27 },
                surface2: Rgb { r: 28, g: 48, b: 36 },
                border: Rgb { r: 70, g: 132, b: 98 },
                text: Rgb { r: 232, g: 241, b: 235 },
                muted: Rgb { r: 148, g: 171, b: 156 },
                accent: Rgb { r: 75, g: 190, b: 121 },
                accent_low: Rgb { r: 28, g: 92, b: 56 },
                success: Rgb { r: 75, g: 190, b: 121 },
                warning: Rgb { r: 226, g: 173, b: 83 },
                danger: Rgb { r: 222, g: 96, b: 92 },
                selection: Rgb { r: 31, g: 83, b: 54 },
            },
            ThemeKind::Danger => Palette {
                surface0: Rgb { r: 24, g: 13, b: 13 },
                surface1: Rgb { r: 39, g: 22, b: 22 },
                surface2: Rgb { r: 55, g: 31, b: 31 },
                border: Rgb { r: 143, g: 76, b: 72 },
                text: Rgb { r: 246, g: 232, b: 230 },
                muted: Rgb { r: 182, g: 145, b: 140 },
                accent: Rgb { r: 228, g: 93, b: 86 },
                accent_low: Rgb { r: 111, g: 36, b: 34 },
                success: Rgb { r: 81, g: 178, b: 118 },
                warning: Rgb { r: 226, g: 173, b: 83 },
                danger: Rgb { r: 228, g: 93, b: 86 },
                selection: Rgb { r: 96, g: 39, b: 37 },
            },
        }
    }

    /// The theme: its name, and the base design over its palette.
    pub fn theme(self) -> (t: Theme)
        ensures
            t.name@ == self.name_spec()@,
            t.design.palette == palette_spec(self),
            t.design.roles@ == role_table(palette_spec(self)),
            selector_entries(t.design.selectors@) == selector_table(palette_spec(self)),
    {
        Theme { name: self.name(), design: base_design(self.palette()) }
    }
}

impl Theme {
    /// The style of `role`.
    pub fn style(&self, role: Role) -> (s: StyleSpec)
        ensures
            s == (match role_lookup(self.design.roles@, role) {
                Some(s) => s,
                None => plain(),
            }),
    {
        self.design.role_style(role)
    }

    /// The style of the selector `selector`.
    pub fn selector(&self, selector: &str) -> (s: StyleSpec)
        ensures
            s == (match selector_lookup(self.design.selectors@, selector@) {
                Some(s) => s,
                None => plain(),
            }),
    {
        self.design.style(selector)
    }

    /// The colour that `token` names.
    pub fn color(&self, token: ColorToken) -> (c: Rgb)
        ensures
            c == token_color(self.design.palette, token),
    {
        self.design.color(token)
    }

    /// The theme's palette.
    pub fn palette(&self) -> (p: Palette)
        ensures
            p == self.design.palette,
    {
        self.design.palette
    }
}

} // verus!
