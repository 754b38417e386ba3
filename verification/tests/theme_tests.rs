use changegate::present::{change_counts, diff_line_class, kind_symbol, DiffLineClass};
use changegate::theme::{Rgb, Theme, ThemeVariant};
use changegate::types::{ChangeKind, FileChange};

#[test]
fn cycle_visits_every_palette_and_returns() {
    let v0 = ThemeVariant::Zinc;
    let v1 = v0.cycle();
    let v2 = v1.cycle();
    let v3 = v2.cycle();
    let v4 = v3.cycle();
    assert_eq!(v1, ThemeVariant::Nord);
    assert_eq!(v2, ThemeVariant::Cyberpunk);
    assert_eq!(v3, ThemeVariant::SolarizedDark);
    assert_eq!(v4, ThemeVariant::Zinc);
}

#[test]
fn palette_names() {
    assert_eq!(ThemeVariant::Zinc.name(), "Zinc");
    assert_eq!(ThemeVariant::Nord.name(), "Nord");
    assert_eq!(ThemeVariant::Cyberpunk.name(), "Cyberpunk");
    assert_eq!(ThemeVariant::SolarizedDark.name(), "Solarized Dark");
}

#[test]
fn zinc_palette_colors() {
    let t = Theme::new(ThemeVariant::Zinc);
    assert_eq!(t.variant, ThemeVariant::Zinc);
    assert_eq!(t.bg_primary, Rgb { r: 9, g: 9, b: 11 });
    assert_eq!(t.status_success, Rgb { r: 34, g: 197, b: 94 });
    assert_eq!(t.status_info, Rgb { r: 59, g: 130, b: 246 });
}

#[test]
fn nord_palette_colors() {
    let t = Theme::new(ThemeVariant::Nord);
    assert_eq!(t.bg_primary, Rgb { r: 46, g: 52, b: 64 });
    assert_eq!(t.border_focus, Rgb { r: 136, g: 192, b: 208 });
}

#[test]
fn default_theme_is_zinc() {
    let t = Theme::default();
    assert_eq!(t.variant, ThemeVariant::Zinc);
    assert_eq!(t.bg_secondary, Rgb { r: 24, g: 24, b: 27 });
}

fn entry(kind: ChangeKind) -> FileChange {
    FileChange {
        path: "f".to_string(),
        kind,
        timestamp: 0,
        diff: None,
    }
}

#[test]
fn counts_split_by_kind() {
    let changes = vec![
        entry(ChangeKind::Create),
        entry(ChangeKind::Modify),
        entry(ChangeKind::Modify),
        entry(ChangeKind::Remove),
        entry(ChangeKind::Create),
    ];
    assert_eq!(change_counts(&changes), (2, 2, 1));
    assert_eq!(change_counts(&Vec::new()), (0, 0, 0));
}

#[test]
fn kind_symbols() {
    assert_eq!(kind_symbol(ChangeKind::Create), "A");
    assert_eq!(kind_symbol(ChangeKind::Modify), "M");
    assert_eq!(kind_symbol(ChangeKind::Remove), "D");
}

#[test]
fn diff_lines_classified_by_leading_character() {
    assert_eq!(diff_line_class("+added"), DiffLineClass::Added);
    assert_eq!(diff_line_class("-removed"), DiffLineClass::Removed);
    assert_eq!(diff_line_class("@@ hunk"), DiffLineClass::Hunk);
    assert_eq!(diff_line_class(" context"), DiffLineClass::Context);
    assert_eq!(diff_line_class(""), DiffLineClass::Context);
}
