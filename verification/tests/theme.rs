use rdg::theme::{base_design, style, ColorToken, Rgb, Role, ThemeKind};

#[test]
fn themes_have_names_and_palettes() {
    let neutral = ThemeKind::Neutral.theme();
    assert_eq!(neutral.name, "neutral");
    assert_eq!(neutral.palette().surface0, Rgb { r: 14, g: 17, b: 22 });
    assert_eq!(ThemeKind::Safe.theme().name, "safe");
    assert_eq!(ThemeKind::Danger.theme().palette().accent, Rgb { r: 228, g: 93, b: 86 });
    assert_eq!(neutral.color(ColorToken::Warning), Rgb { r: 226, g: 173, b: 83 });
}

#[test]
fn roles_and_selectors_take_palette_colours() {
    let theme = ThemeKind::Neutral.theme();
    let p = theme.palette();
    let brand = theme.style(Role::HeaderBrand);
    assert_eq!(brand.fg, Some(p.surface0));
    assert_eq!(brand.bg, Some(p.accent));
    assert!(brand.bold);
    let focused = theme.style(Role::InputFocused);
    assert!(focused.underlined);
    let add = theme.selector("diff.add");
    assert_eq!(add.fg, Some(p.success));
    assert_eq!(add.bg, None);
    assert_eq!(theme.selector("no.such.selector"), style());
}

#[test]
fn base_design_styles_every_role_once() {
    let d = base_design(ThemeKind::Safe.palette());
    assert_eq!(d.roles.len(), 36);
    assert_eq!(d.selectors.len(), 24);
    assert_eq!(d.role_style(Role::Status).fg, Some(d.palette.muted));
}
