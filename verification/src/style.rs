//! How the tool's buttons and containers are painted.
//!
//! Colors and corner radii are named by the slot of the desktop theme they are
//! taken from; the program resolves them against the theme in use. What is
//! decided here is which slot goes where.

use vstd::prelude::*;

verus! {

/// A colored part of the desktop theme.
#[derive(Clone, Copy, Debug, PartialEq, Eq, Structural)]
pub enum Part {
    /// The window background.
    Background,
    /// The component drawn on the background.
    BackgroundComponent,
    /// The component drawn on the primary container.
    PrimaryComponent,
    /// The accent color.
    Accent,
    Button,
    TextButton,
    AccentButton,
    DestructiveButton,
    IconButton,
    /// The fully transparent component.
    Transparent,
}

/// A shade of a part.
#[derive(Clone, Copy, Debug, PartialEq, Eq, Structural)]
pub enum Shade {
    Base,
    Hover,
    Pressed,
    /// The color drawn on the part.
    On,
    /// The color drawn on the part when it is disabled.
    OnDisabled,
    /// The base at half its opacity.
    HalfBase,
}

/// A color, named by where it comes from.
#[derive(Clone, Copy, Debug, PartialEq, Eq, Structural)]
pub enum Paint {
    Of(Part, Shade),
    /// The color that marks a selected icon button.
    IconButtonSelected,
    /// No color at all.
    Clear,
}

/// A corner radius of the theme, or square corners.
#[derive(Clone, Copy, Debug, PartialEq, Eq, Structural)]
pub enum Radius {
    Zero,
    Xs,
    S,
    M,
    Xl,
    Square,
}

/// The kinds of button of the toolkit.
#[derive(Clone, Copy, Debug, PartialEq, Eq, Structural)]
pub enum ButtonKind {
    Standard,
    Text,
    Suggested,
    Destructive,
    Transparent,
    Icon,
    IconVertical,
    HeaderBar,
    NavToggle,
    Image,
    Link,
    Custom,
    AppletMenu,
    AppletIcon,
    MenuFolder,
    MenuItem,
    MenuRoot,
    ListItem,
}

/// Which colors a button state takes from its component: its background,
/// then its text and icon colors.
#[derive(Clone, Copy, Debug, PartialEq, Eq, Structural)]
pub enum ColorRule {
    /// The hover shade under the `On` color (used at rest and on hover).
    Hovered,
    /// The pressed shade under the `On` color.
    Pressed,
    /// The base at half opacity under the disabled `On` color.
    Disabled,
}

/// How a button is painted.
#[derive(Clone, Copy, Debug, PartialEq, Eq, Structural)]
pub struct ButtonStyle {
    pub background: Option<Paint>,
    pub overlay: Option<Paint>,
    pub text_color: Option<Paint>,
    pub icon_color: Option<Paint>,
    pub border_radius: Radius,
    pub border_width: u8,
    pub border_color: Paint,
    pub outline_width: u8,
    pub outline_color: Paint,
}

/// A shadow: its color, its offset and its blur radius.
#[derive(Clone, Copy, Debug, PartialEq, Eq, Structural)]
pub struct Shadow {
    pub color: Paint,
    pub offset_x: i32,
    pub offset_y: i32,
    pub blur_radius: u32,
}

/// The toolkit's default shadow: clear, not offset, not blurred.
pub open spec fn no_shadow() -> Shadow {
    Shadow { color: Paint::Clear, offset_x: 0, offset_y: 0, blur_radius: 0 }
}

/// How a container is painted: colors, corner radius, border and shadow.
#[derive(Clone, Copy, Debug, PartialEq, Eq, Structural)]
pub struct ContainerStyle {
    pub icon_color: Paint,
    pub text_color: Paint,
    pub background: Paint,
    pub radius: Radius,
    pub border_width: u8,
    pub border_color: Paint,
    pub shadow: Shadow,
}

/// How a button is painted in each of its states.
#[derive(Clone, Copy, Debug, PartialEq, Eq, Structural)]
pub struct ButtonStates {
    pub active: ButtonStyle,
    pub disabled: ButtonStyle,
    pub hovered: ButtonStyle,
    pub pressed: ButtonStyle,
}

/// The colors a rule takes from a part: background, text, icon.
pub open spec fn rule_colors(rule: ColorRule, part: Part) -> (Paint, Option<Paint>, Option<Paint>) {
    match rule {
        ColorRule::Hovered => (Paint::Of(part, Shade::Hover), Some(Paint::Of(part, Shade::On)), Some(Paint::Of(part, Shade::On))),
        ColorRule::Pressed => (Paint::Of(part, Shade::Pressed), Some(Paint::Of(part, Shade::On)), Some(Paint::Of(part, Shade::On))),
        ColorRule::Disabled => (
            Paint::Of(part, Shade::HalfBase),
            Some(Paint::Of(part, Shade::OnDisabled)),
            Some(Paint::Of(part, Shade::OnDisabled)),
        ),
    }
}

/// A button style with nothing painted.
pub open spec fn blank_style() -> ButtonStyle {
    ButtonStyle {
        background: None,
        overlay: None,
        text_color: None,
        icon_color: None,
        border_radius: Radius::Zero,
        border_width: 0,
        border_color: Paint::Clear,
        outline_width: 0,
        outline_color: Paint::Clear,
    }
}

/// The part whose colors a filled button takes.
pub open spec fn filled_part(kind: ButtonKind) -> Part {
    match kind {
        ButtonKind::Text => Part::TextButton,
        ButtonKind::Suggested => Part::AccentButton,
        ButtonKind::Destructive => Part::DestructiveButton,
        ButtonKind::Transparent => Part::Transparent,
        _ => Part::Button,
    }
}

/// The corner radius of a kind of button, before an image button's own.
pub open spec fn kind_radius(kind: ButtonKind) -> Radius {
    match kind {
        ButtonKind::IconVertical => Radius::M,
        ButtonKind::NavToggle | ButtonKind::Image | ButtonKind::MenuFolder | ButtonKind::MenuItem => Radius::S,
        ButtonKind::Link | ButtonKind::AppletMenu => Radius::Zero,
        ButtonKind::ListItem => Radius::Square,
        _ => Radius::Xl,
    }
}

/// The colors of a button of a kind before its corners and focus are drawn.
pub open spec fn painted(selected: bool, disabled: bool, kind: ButtonKind, rule: ColorRule) -> ButtonStyle {
    let b = blank_style();
    match kind {
        ButtonKind::Standard => {
            let (bg, _, _) = rule_colors(rule, Part::Button);
            ButtonStyle { background: Some(bg), ..b }
        },
        ButtonKind::Text | ButtonKind::Suggested | ButtonKind::Destructive | ButtonKind::Transparent => {
            let (bg, text, icon) = rule_colors(rule, filled_part(kind));
            ButtonStyle { background: Some(bg), text_color: text, icon_color: icon, ..b }
        },
        ButtonKind::Icon | ButtonKind::IconVertical | ButtonKind::HeaderBar | ButtonKind::NavToggle => {
            let (bg, text, icon) = rule_colors(rule, Part::IconButton);
            ButtonStyle {
                background: Some(bg),
                overlay: if kind == ButtonKind::IconVertical && selected { Some(Paint::IconButtonSelected) } else { None },
                icon_color: if disabled { icon } else { None },
                text_color: if disabled { text } else { None },
                ..b
            }
        },
        ButtonKind::Image => ButtonStyle {
            text_color: Some(Paint::Of(Part::Accent, Shade::Base)),
            icon_color: Some(Paint::Of(Part::Accent, Shade::Base)),
            ..b
        },
        ButtonKind::Link => ButtonStyle {
            icon_color: Some(Paint::Of(Part::Accent, Shade::Base)),
            text_color: Some(Paint::Of(Part::Accent, Shade::Base)),
            ..b
        },
        ButtonKind::Custom | ButtonKind::MenuRoot => b,
        ButtonKind::AppletMenu | ButtonKind::AppletIcon => {
            let (bg, _, _) = rule_colors(rule, Part::TextButton);
            ButtonStyle {
                background: Some(bg),
                icon_color: Some(Paint::Of(Part::Background, Shade::On)),
                text_color: Some(Paint::Of(Part::Background, Shade::On)),
                ..b
            }
        },
        ButtonKind::MenuFolder => {
            let (bg, _, _) = rule_colors(rule, Part::BackgroundComponent);
            ButtonStyle {
                background: Some(bg),
                icon_color: Some(Paint::Of(Part::BackgroundComponent, Shade::On)),
                text_color: Some(Paint::Of(Part::BackgroundComponent, Shade::On)),
                ..b
            }
        },
        ButtonKind::MenuItem => {
            let (bg, text, icon) = rule_colors(rule, Part::BackgroundComponent);
            ButtonStyle { background: Some(bg), icon_color: icon, text_color: text, ..b }
        },
        ButtonKind::ListItem => if selected {
            ButtonStyle {
                background: Some(Paint::Of(Part::PrimaryComponent, Shade::Hover)),
                icon_color: Some(Paint::Of(Part::Accent, Shade::Base)),
                text_color: Some(Paint::Of(Part::Accent, Shade::Base)),
                ..b
            }
        } else {
            let (bg, text, icon) = rule_colors(rule, Part::BackgroundComponent);
            ButtonStyle { background: Some(bg), icon_color: icon, text_color: text, ..b }
        },
    }
}

/// How a button is painted. An image button gets the small radius and, when
/// focused or selected, a border of the accent color, and nothing more; every
/// other kind gets its radius and, when focused, an accent outline with a
/// clear border.
pub open spec fn appearance_spec(focused: bool, selected: bool, disabled: bool, kind: ButtonKind, rule: ColorRule) -> ButtonStyle {
    let p = ButtonStyle { border_radius: kind_radius(kind), ..painted(selected, disabled, kind, rule) };
    if kind == ButtonKind::Image {
        if focused || selected {
            ButtonStyle { border_width: 2, border_color: Paint::Of(Part::Accent, Shade::Base), ..p }
        } else {
            p
        }
    } else if focused {
        ButtonStyle {
            outline_width: 1,
            outline_color: Paint::Of(Part::Accent, Shade::Base),
            border_width: 2,
            border_color: Paint::Clear,
            ..p
        }
    } else {
        p
    }
}

/// The colors a rule takes from a part: background, text, icon.
fn colors(rule: ColorRule, part: Part) -> (c: (Paint, Option<Paint>, Option<Paint>))
    ensures
        c == rule_colors(rule, part),
{
    match rule {
        ColorRule::Hovered => (Paint::Of(part, Shade::Hover), Some(Paint::Of(part, Shade::On)), Some(Paint::Of(part, Shade::On))),
        ColorRule::Pressed => (Paint::Of(part, Shade::Pressed), Some(Paint::Of(part, Shade::On)), Some(Paint::Of(part, Shade::On))),
        ColorRule::Disabled => (
            Paint::Of(part, Shade::HalfBase),
            Some(Paint::Of(part, Shade::OnDisabled)),
            Some(Paint::Of(part, Shade::OnDisabled)),
        ),
    }
}

/// How a button of a kind is painted in a state, its colors taken by `rule`.
pub fn appearance(focused: bool, selected: bool, disabled: bool, kind: ButtonKind, rule: ColorRule) -> (s: ButtonStyle)
    ensures
        s == appearance_spec(focused, selected, disabled, kind, rule),
{
    let mut radius = Radius::Xl;
    let mut s = ButtonStyle {
        background: None,
        overlay: None,
        text_color: None,
        icon_color: None,
        border_radius: Radius::Zero,
        border_width: 0,
        border_color: Paint::Clear,
        outline_width: 0,
        outline_color: Paint::Clear,
    };
    match kind {
        ButtonKind::Standard | ButtonKind::Text | ButtonKind::Suggested | ButtonKind::Destructive
        | ButtonKind::Transparent => {
            let part = match kind {
                ButtonKind::Standard => Part::Button,
                ButtonKind::Text => Part::TextButton,
                ButtonKind::Suggested => Part::AccentButton,
                ButtonKind::Destructive => Part::DestructiveButton,
                _ => Part::Transparent,
            };
            let (bg, text, icon) = colors(rule, part);
            s.background = Some(bg);
            if kind != ButtonKind::Standard {
                s.text_color = text;
                s.icon_color = icon;
            }
        },
        ButtonKind::Icon | ButtonKind::IconVertical | ButtonKind::HeaderBar | ButtonKind::NavToggle => {
            if kind == ButtonKind::IconVertical {
                radius = Radius::M;
                if selected {
                    s.overlay = Some(Paint::IconButtonSelected);
                }
            }
            if kind == ButtonKind::NavToggle {
                radius = Radius::S;
            }
            let (bg, text, icon) = colors(rule, Part::IconButton);
            s.background = Some(bg);
            s.icon_color = if disabled { icon } else { None };
            s.text_color = if disabled { text } else { None };
        },
        ButtonKind::Image => {
            s.background = None;
            s.text_color = Some(Paint::Of(Part::Accent, Shade::Base));
            s.icon_color = Some(Paint::Of(Part::Accent, Shade::Base));
            s.border_radius = Radius::S;
            if focused || selected {
                s.border_width = 2;
                s.border_color = Paint::Of(Part::Accent, Shade::Base);
            }
            return s;
        },
        ButtonKind::Link => {
            s.background = None;
            s.icon_color = Some(Paint::Of(Part::Accent, Shade::Base));
            s.text_color = Some(Paint::Of(Part::Accent, Shade::Base));
            radius = Radius::Zero;
        },
        ButtonKind::Custom => {},
        ButtonKind::AppletMenu => {
            let (bg, _, _) = colors(rule, Part::TextButton);
            s.background = Some(bg);
            s.icon_color = Some(Paint::Of(Part::Background, Shade::On));
            s.text_color = Some(Paint::Of(Part::Background, Shade::On));
            radius = Radius::Zero;
        },
        ButtonKind::AppletIcon => {
            let (bg, _, _) = colors(rule, Part::TextButton);
            s.background = Some(bg);
            s.icon_color = Some(Paint::Of(Part::Background, Shade::On));
            s.text_color = Some(Paint::Of(Part::Background, Shade::On));
        },
        ButtonKind::MenuFolder => {
            let (bg, _, _) = colors(rule, Part::BackgroundComponent);
            s.background = Some(bg);
            s.icon_color = Some(Paint::Of(Part::BackgroundComponent, Shade::On));
            s.text_color = Some(Paint::Of(Part::BackgroundComponent, Shade::On));
            radius = Radius::S;
        },
        ButtonKind::MenuItem => {
            let (bg, text, icon) = colors(rule, Part::BackgroundComponent);
            s.background = Some(bg);
            s.icon_color = icon;
            s.text_color = text;
            radius = Radius::S;
        },
        ButtonKind::MenuRoot => {
            s.background = None;
            s.icon_color = None;
            s.text_color = None;
        },
        ButtonKind::ListItem => {
            radius = Radius::Square;
            let (bg, text, icon) = colors(rule, Part::BackgroundComponent);
            if selected {
                s.background = Some(Paint::Of(Part::PrimaryComponent, Shade::Hover));
                s.icon_color = Some(Paint::Of(Part::Accent, Shade::Base));
                s.text_color = Some(Paint::Of(Part::Accent, Shade::Base));
            } else {
                s.background = Some(bg);
                s.icon_color = icon;
                s.text_color = text;
            }
        },
    }
    s.border_radius = radius;
    if focused {
        s.outline_width = 1;
        s.outline_color = Paint::Of(Part::Accent, Shade::Base);
        s.border_width = 2;
        s.border_color = Paint::Clear;
    }
    s
}

/// A button of a kind painted in its four states: at rest and hovered with
/// the hover shade, pressed with the pressed shade, disabled with the base at
/// half opacity; never focused or selected.
pub open spec fn states_spec(kind: ButtonKind) -> ButtonStates {
    ButtonStates {
        active: appearance_spec(false, false, false, kind, ColorRule::Hovered),
        disabled: appearance_spec(false, false, true, kind, ColorRule::Disabled),
        hovered: appearance_spec(false, false, false, kind, ColorRule::Hovered),
        pressed: appearance_spec(false, false, false, kind, ColorRule::Pressed),
    }
}

fn button_states(kind: ButtonKind) -> (b: ButtonStates)
    ensures
        b == states_spec(kind),
{
    ButtonStates {
        active: appearance(false, false, false, kind, ColorRule::Hovered),
        disabled: appearance(false, false, true, kind, ColorRule::Disabled),
        hovered: appearance(false, false, false, kind, ColorRule::Hovered),
        pressed: appearance(false, false, false, kind, ColorRule::Pressed),
    }
}

/// The tool's standard button.
pub fn standard_button() -> (b: ButtonStates)
    ensures
        b == states_spec(ButtonKind::Standard),
{
    button_states(ButtonKind::Standard)
}

/// The tool's destructive button.
pub fn destructive_button() -> (b: ButtonStates)
    ensures
        b == states_spec(ButtonKind::Destructive),
{
    button_states(ButtonKind::Destructive)
}

/// The tool's link button.
pub fn link_button() -> (b: ButtonStates)
    ensures
        b == states_spec(ButtonKind::Link),
{
    button_states(ButtonKind::Link)
}

/// A container painted like the window background, with extra-small corners,
/// no border and no shadow.
pub fn background() -> (c: ContainerStyle)
    ensures
        c == (ContainerStyle {
            icon_color: Paint::Of(Part::Background, Shade::On),
            text_color: Paint::Of(Part::Background, Shade::On),
            background: Paint::Of(Part::Background, Shade::Base),
            radius: Radius::Xs,
            border_width: 0,
            border_color: Paint::Clear,
            shadow: no_shadow(),
        }),
{
    ContainerStyle {
        icon_color: Paint::Of(Part::Background, Shade::On),
        text_color: Paint::Of(Part::Background, Shade::On),
        background: Paint::Of(Part::Background, Shade::Base),
        radius: Radius::Xs,
        border_width: 0,
        border_color: Paint::Clear,
        shadow: Shadow { color: Paint::Clear, offset_x: 0, offset_y: 0, blur_radius: 0 },
    }
}

/// A card: painted like the primary container's component, small corners, no
/// border and no shadow.
pub fn card() -> (c: ContainerStyle)
    ensures
        c == (ContainerStyle {
            icon_color: Paint::Of(Part::PrimaryComponent, Shade::On),
            text_color: Paint::Of(Part::PrimaryComponent, Shade::On),
            background: Paint::Of(Part::PrimaryComponent, Shade::Base),
            radius: Radius::S,
            border_width: 0,
            border_color: Paint::Clear,
            shadow: no_shadow(),
        }),
{
    ContainerStyle {
        icon_color: Paint::Of(Part::PrimaryComponent, Shade::On),
        text_color: Paint::Of(Part::PrimaryComponent, Shade::On),
        background: Paint::Of(Part::PrimaryComponent, Shade::Base),
        radius: Radius::S,
        border_width: 0,
        border_color: Paint::Clear,
        shadow: Shadow { color: Paint::Clear, offset_x: 0, offset_y: 0, blur_radius: 0 },
    }
}

/// A panel: painted like the window background, without rounded corners, no
/// border and no shadow.
pub fn panel_style() -> (c: ContainerStyle)
    ensures
        c == (ContainerStyle {
            icon_color: Paint::Of(Part::Background, Shade::On),
            text_color: Paint::Of(Part::Background, Shade::On),
            background: Paint::Of(Part::Background, Shade::Base),
            radius: Radius::Zero,
            border_width: 0,
            border_color: Paint::Clear,
            shadow: no_shadow(),
        }),
{
    ContainerStyle {
        icon_color: Paint::Of(Part::Background, Shade::On),
        text_color: Paint::Of(Part::Background, Shade::On),
        background: Paint::Of(Part::Background, Shade::Base),
        radius: Radius::Zero,
        border_width: 0,
        border_color: Paint::Clear,
        shadow: Shadow { color: Paint::Clear, offset_x: 0, offset_y: 0, blur_radius: 0 },
    }
}

} // verus!
