use cosmic_ext_tweaks::grid::{grid_positions, GridMetrics, Spacing};
use cosmic_ext_tweaks::icons::IconCacheKey;
use cosmic_ext_tweaks::style::{
    appearance, background, card, destructive_button, link_button, panel_style, standard_button, ButtonKind,
    ColorRule, Paint, Part, Radius, Shade,
};

fn spacing() -> Spacing {
    Spacing {
        space_none: 0,
        space_xxxs: 4,
        space_xxs: 8,
        space_xs: 12,
        space_s: 16,
        space_m: 24,
        space_l: 32,
        space_xl: 48,
        space_xxl: 64,
        space_xxxl: 128,
    }
}

#[test]
fn grid_fits_four_columns() {
    let g = GridMetrics::new(1000, 240, 8);
    assert_eq!(g.cols, 4);
    assert_eq!(g.item_width, (1000 - 3 * 8) / 4);
    assert_eq!(g.column_spacing, 8);
}

#[test]
fn grid_narrow_width_has_one_column() {
    let g = GridMetrics::new(100, 240, 8);
    assert_eq!(g.cols, 1);
    assert_eq!(g.item_width, 100);
}

#[test]
fn grid_custom_uses_theme_spacing() {
    let g = GridMetrics::custom(&spacing(), 1000);
    // cards at least 240 + 2 * 16 = 272 wide, 8 apart
    assert_eq!(g.cols, 3);
    assert_eq!(g.item_width, (1000 - 2 * 8) / 3);
    assert_eq!(g.column_spacing, 8);
}

#[test]
fn grid_positions_fill_rows() {
    let p = grid_positions(7, 3);
    assert_eq!(p, vec![(0, 0), (0, 1), (0, 2), (1, 0), (1, 1), (1, 2), (2, 0)]);
    assert_eq!(grid_positions(2, 0), vec![(1, 0), (2, 0)]);
    assert!(grid_positions(0, 4).is_empty());
}

#[test]
fn icon_key_keeps_name_and_size() {
    let k = IconCacheKey::new("edit-undo-symbolic", 16);
    assert_eq!(k.name, "edit-undo-symbolic");
    assert_eq!(k.size, 16);
    assert_eq!(k, IconCacheKey::new("edit-undo-symbolic", 16));
}

#[test]
fn standard_button_colors() {
    let b = standard_button();
    assert_eq!(b.active.background, Some(Paint::Of(Part::Button, Shade::Hover)));
    assert_eq!(b.active.text_color, None);
    assert_eq!(b.pressed.background, Some(Paint::Of(Part::Button, Shade::Pressed)));
    assert_eq!(b.disabled.background, Some(Paint::Of(Part::Button, Shade::HalfBase)));
    assert_eq!(b.hovered, b.active);
    assert_eq!(b.active.border_radius, Radius::Xl);
    assert_eq!(b.active.outline_width, 0);
}

#[test]
fn destructive_button_colors_text() {
    let b = destructive_button();
    assert_eq!(b.active.background, Some(Paint::Of(Part::DestructiveButton, Shade::Hover)));
    assert_eq!(b.active.text_color, Some(Paint::Of(Part::DestructiveButton, Shade::On)));
    assert_eq!(b.disabled.icon_color, Some(Paint::Of(Part::DestructiveButton, Shade::OnDisabled)));
}

#[test]
fn link_button_is_accent_and_square() {
    let b = link_button();
    assert_eq!(b.active.background, None);
    assert_eq!(b.active.text_color, Some(Paint::Of(Part::Accent, Shade::Base)));
    assert_eq!(b.active.border_radius, Radius::Zero);
}

#[test]
fn focused_button_is_outlined() {
    let s = appearance(true, false, false, ButtonKind::Standard, ColorRule::Hovered);
    assert_eq!(s.outline_width, 1);
    assert_eq!(s.outline_color, Paint::Of(Part::Accent, Shade::Base));
    assert_eq!(s.border_width, 2);
    assert_eq!(s.border_color, Paint::Clear);
}

#[test]
fn selected_image_button_has_accent_border_only() {
    let s = appearance(false, true, false, ButtonKind::Image, ColorRule::Hovered);
    assert_eq!(s.border_width, 2);
    assert_eq!(s.border_color, Paint::Of(Part::Accent, Shade::Base));
    assert_eq!(s.outline_width, 0);
    assert_eq!(s.border_radius, Radius::S);
    let f = appearance(true, false, false, ButtonKind::Image, ColorRule::Hovered);
    assert_eq!(f.outline_width, 0);
    let plain = appearance(false, false, false, ButtonKind::Image, ColorRule::Hovered);
    assert_eq!(plain.border_width, 0);
}

#[test]
fn icon_buttons_show_colors_only_disabled() {
    let s = appearance(false, false, false, ButtonKind::Icon, ColorRule::Hovered);
    assert_eq!(s.text_color, None);
    let d = appearance(false, false, true, ButtonKind::Icon, ColorRule::Disabled);
    assert_eq!(d.text_color, Some(Paint::Of(Part::IconButton, Shade::OnDisabled)));
    let v = appearance(false, true, false, ButtonKind::IconVertical, ColorRule::Hovered);
    assert_eq!(v.overlay, Some(Paint::IconButtonSelected));
    assert_eq!(v.border_radius, Radius::M);
}

#[test]
fn list_item_selected_uses_accent() {
    let s = appearance(false, true, false, ButtonKind::ListItem, ColorRule::Hovered);
    assert_eq!(s.background, Some(Paint::Of(Part::PrimaryComponent, Shade::Hover)));
    assert_eq!(s.text_color, Some(Paint::Of(Part::Accent, Shade::Base)));
    assert_eq!(s.border_radius, Radius::Square);
}

#[test]
fn containers() {
    assert_eq!(background().radius, Radius::Xs);
    assert_eq!(background().background, Paint::Of(Part::Background, Shade::Base));
    assert_eq!(card().background, Paint::Of(Part::PrimaryComponent, Shade::Base));
    assert_eq!(card().radius, Radius::S);
    assert_eq!(panel_style().radius, Radius::Zero);
    assert_eq!(panel_style().text_color, Paint::Of(Part::Background, Shade::On));
    for c in [background(), card(), panel_style()] {
        assert_eq!(c.border_width, 0);
        assert_eq!(c.border_color, Paint::Clear);
        assert_eq!((c.shadow.color, c.shadow.offset_x, c.shadow.offset_y, c.shadow.blur_radius), (Paint::Clear, 0, 0, 0));
    }
}
