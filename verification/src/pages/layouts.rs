use vstd::prelude::*;

use crate::strings::{opt_text, str_len_is_zero};

verus! {

/// The edge of the screen a panel or dock sits on.
#[derive(Clone, Copy, Debug, PartialEq, Eq, Structural)]
pub enum Position {
    Top,
    Bottom,
    Left,
    Right,
}

impl Position {
    /// The localization key of the position's label.
    pub fn label_key(&self) -> (k: &'static str)
        ensures
            k@ == position_key(*self),
    {
        match self {
            Position::Top => "top",
            Position::Bottom => "bottom",
            Position::Left => "left",
            Position::Right => "right",
        }
    }
}

/// The localization key of a position's label.
pub open spec fn position_key(p: Position) -> Seq<char> {
    match p {
        Position::Top => "top"@,
        Position::Bottom => "bottom"@,
        Position::Left => "left"@,
        Position::Right => "right"@,
    }
}

/// How a panel or dock is drawn in a layout preview.
#[derive(Clone, Copy, Debug, PartialEq, Eq, Structural)]
pub struct PanelProperties {
    pub position: Position,
    pub extend: bool,
    pub hidden: bool,
    pub size: usize,
}

impl PanelProperties {
    pub fn new(position: Position, extend: bool, hidden: bool, size: usize) -> (p: Self)
        ensures
            p == (PanelProperties { position, extend, hidden, size }),
    {
        PanelProperties { position, extend, hidden, size }
    }
}

/// A small picture of a desktop layout: its panel, its dock and how many
/// icons the dock shows.
#[derive(Clone, Copy, Debug, PartialEq, Eq, Structural)]
pub struct LayoutPreview {
    pub panel: PanelProperties,
    pub dock: PanelProperties,
    pub dock_icons: u8,
    pub show_window: bool,
}

impl LayoutPreview {
    /// The preview a new layout starts from: an extended panel at the top and
    /// an extended dock at the bottom, both 20 high, six dock icons.
    pub fn default() -> (p: Self)
        ensures
            p == default_preview(),
    {
        LayoutPreview {
            panel: PanelProperties::new(Position::Top, true, false, 20),
            dock: PanelProperties::new(Position::Bottom, true, false, 20),
            dock_icons: 6,
            show_window: true,
        }
    }
}

/// The preview a new layout starts from.
pub open spec fn default_preview() -> LayoutPreview {
    LayoutPreview {
        panel: PanelProperties { position: Position::Top, extend: true, hidden: false, size: 20 },
        dock: PanelProperties { position: Position::Bottom, extend: true, hidden: false, size: 20 },
        dock_icons: 6,
        show_window: true,
    }
}

/// Which bar of a layout a control edits.
#[derive(Clone, Copy, Debug, PartialEq, Eq, Structural)]
pub enum PanelType {
    Panel,
    Dock,
}

/// The properties of one bar of a preview.
pub open spec fn props_of(p: LayoutPreview, t: PanelType) -> PanelProperties {
    match t {
        PanelType::Panel => p.panel,
        PanelType::Dock => p.dock,
    }
}

/// The preview with one bar's properties replaced.
pub open spec fn with_props(p: LayoutPreview, t: PanelType, props: PanelProperties) -> LayoutPreview {
    match t {
        PanelType::Panel => LayoutPreview { panel: props, ..p },
        PanelType::Dock => LayoutPreview { dock: props, ..p },
    }
}

/// The dialog that saves the current desktop as a named layout.
#[derive(Debug)]
pub struct CreateLayoutDialog {
    pub name: String,
    pub preview: LayoutPreview,
    pub error: Option<String>,
}

/// A control of a bar's section in the create-layout dialog, with the value
/// it shows.
#[derive(Clone, Copy, Debug, PartialEq, Eq, Structural)]
pub enum DialogControl {
    /// The switch that shows the bar.
    Show(bool),
    /// The switch that stretches the bar along its edge.
    Extend(bool),
    /// The position picker of the bar.
    Position(PanelType),
    /// The size, from `SIZE_MIN` to `SIZE_MAX` by one.
    Size(usize),
    /// The number of dock icons, from `DOCK_ICONS_MIN` to `DOCK_ICONS_MAX` by one.
    DockIcons(u8),
}

/// The smallest size offered for a bar.
pub const SIZE_MIN: usize = 0;
/// The largest size offered for a bar.
pub const SIZE_MAX: usize = 50;
/// The fewest dock icons offered.
pub const DOCK_ICONS_MIN: u8 = 1;
/// The most dock icons offered.
pub const DOCK_ICONS_MAX: u8 = 20;

/// What the dialog's main button does.
#[derive(Debug)]
pub enum CreateAction {
    /// Show the dialog again with an error: the name must not be empty.
    ShowError(CreateLayoutDialog),
    /// Finish the dialog.
    Complete,
}

impl CreateLayoutDialog {
    pub fn new(name: String, preview: LayoutPreview, error: Option<String>) -> (d: Self)
        ensures
            d == (CreateLayoutDialog { name, preview, error }),
    {
        CreateLayoutDialog { name, preview, error }
    }

    fn with_preview(&self, preview: LayoutPreview) -> (d: Self)
        ensures
            d.name@ == self.name@,
            d.preview == preview,
            opt_text(d.error) == opt_text(self.error),
    {
        CreateLayoutDialog::new(self.name.clone(), preview, crate::strings::clone_opt_string(&self.error))
    }

    /// The controls of a bar's section, in order: show, extend, position and
    /// size, and for the dock the number of icons.
    pub fn section(&self, panel_type: PanelType) -> (v: Vec<DialogControl>)
        ensures
            v@ == seq![
                DialogControl::Show(!props_of(self.preview, panel_type).hidden),
                DialogControl::Extend(props_of(self.preview, panel_type).extend),
                DialogControl::Position(panel_type),
                DialogControl::Size(props_of(self.preview, panel_type).size),
            ] + (if panel_type == PanelType::Dock {
                seq![DialogControl::DockIcons(self.preview.dock_icons)]
            } else {
                Seq::empty()
            }),
    {
        let props = match panel_type {
            PanelType::Panel => self.preview.panel,
            PanelType::Dock => self.preview.dock,
        };
        let mut v: Vec<DialogControl> = Vec::new();
        v.push(DialogControl::Show(!props.hidden));
        v.push(DialogControl::Extend(props.extend));
        v.push(DialogControl::Position(panel_type));
        v.push(DialogControl::Size(props.size));
        if panel_type == PanelType::Dock {
            v.push(DialogControl::DockIcons(self.preview.dock_icons));
        }
        proof {
            let base = seq![
                DialogControl::Show(!props.hidden),
                DialogControl::Extend(props.extend),
                DialogControl::Position(panel_type),
                DialogControl::Size(props.size),
            ];
            if panel_type == PanelType::Dock {
                assert(v@ =~= base + seq![DialogControl::DockIcons(self.preview.dock_icons)]);
            } else {
                assert(v@ =~= base + Seq::<DialogControl>::empty());
            }
        }
        v
    }

    /// The dialog after the "show" toggle of a bar is switched to `shown`.
    pub fn toggled_shown(&self, panel_type: PanelType, shown: bool) -> (d: Self)
        ensures
            d.name@ == self.name@,
            opt_text(d.error) == opt_text(self.error),
            d.preview == with_props(self.preview, panel_type,
                PanelProperties { hidden: !shown, ..props_of(self.preview, panel_type) }),
    {
        let mut preview = self.preview;
        match panel_type {
            PanelType::Panel => preview.panel.hidden = !shown,
            PanelType::Dock => preview.dock.hidden = !shown,
        }
        self.with_preview(preview)
    }

    /// The dialog after the "extend" toggle of a bar is switched.
    pub fn toggled_extend(&self, panel_type: PanelType, extend: bool) -> (d: Self)
        ensures
            d.name@ == self.name@,
            opt_text(d.error) == opt_text(self.error),
            d.preview == with_props(self.preview, panel_type,
                PanelProperties { extend, ..props_of(self.preview, panel_type) }),
    {
        let mut preview = self.preview;
        match panel_type {
            PanelType::Panel => preview.panel.extend = extend,
            PanelType::Dock => preview.dock.extend = extend,
        }
        self.with_preview(preview)
    }

    /// The dialog after a bar's size is set.
    pub fn sized(&self, panel_type: PanelType, size: usize) -> (d: Self)
        ensures
            d.name@ == self.name@,
            opt_text(d.error) == opt_text(self.error),
            d.preview == with_props(self.preview, panel_type,
                PanelProperties { size, ..props_of(self.preview, panel_type) }),
    {
        let mut preview = self.preview;
        match panel_type {
            PanelType::Panel => preview.panel.size = size,
            PanelType::Dock => preview.dock.size = size,
        }
        self.with_preview(preview)
    }

    /// The dialog after the number of dock icons is set.
    pub fn with_dock_icons(&self, dock_icons: u8) -> (d: Self)
        ensures
            d.name@ == self.name@,
            opt_text(d.error) == opt_text(self.error),
            d.preview == (LayoutPreview { dock_icons, ..self.preview }),
    {
        let mut preview = self.preview;
        preview.dock_icons = dock_icons;
        self.with_preview(preview)
    }

    /// What the dialog's main button does: with an empty name it shows the
    /// dialog again with the empty-name error (the given text, localized);
    /// otherwise it completes the dialog.
    pub fn primary_action(&self, empty_name_error: String) -> (a: CreateAction)
        ensures
            self.name@.len() == 0 ==> (a matches CreateAction::ShowError(d) && d.name@ == self.name@
                && d.preview == self.preview && opt_text(d.error) == Some(empty_name_error@)),
            self.name@.len() != 0 ==> a is Complete,
    {
        if str_len_is_zero(self.name.as_str()) {
            CreateAction::ShowError(CreateLayoutDialog::new(self.name.clone(), self.preview, Some(empty_name_error)))
        } else {
            CreateAction::Complete
        }
    }
}

} // verus!

verus! {

/// A saved desktop layout: its panel configuration (serialized) and its preview.
#[derive(Debug)]
pub struct Layout {
    pub id: u128,
    pub name: String,
    pub custom: bool,
    pub schema: String,
    pub preview: LayoutPreview,
}

/// The value of a layout.
pub struct LayoutView {
    pub id: u128,
    pub name: Seq<char>,
    pub custom: bool,
    pub schema: Seq<char>,
    pub preview: LayoutPreview,
}

impl View for Layout {
    type V = LayoutView;

    open spec fn view(&self) -> LayoutView {
        LayoutView { id: self.id, name: self.name@, custom: self.custom, schema: self.schema@, preview: self.preview }
    }
}

impl Layout {
    /// A copy of the layout.
    pub fn copy(&self) -> (l: Layout)
        ensures
            l@ == self@,
    {
        Layout {
            id: self.id,
            name: self.name.clone(),
            custom: self.custom,
            schema: self.schema.clone(),
            preview: self.preview,
        }
    }

    /// A new custom layout with a fresh identifier for the given panel
    /// configuration and preview.
    pub fn new(name: String, schema: String, preview: LayoutPreview) -> (l: Layout)
        ensures
            l.name@ == name@,
            l.custom,
            l.schema@ == schema@,
            l.preview == preview,
    {
        Layout { id: crate::ids::new_v4(), name, custom: true, schema, preview }
    }
}

impl Layout {
    /// Whether the layout's picture is drawn as picked: a layout is picked and
    /// it has this layout's name.
    pub fn is_selected(&self, selected: &Option<Layout>) -> (r: bool)
        ensures
            r == match selected {
                Some(s) => s.name@ == self.name@,
                None => false,
            },
    {
        match selected {
            Some(s) => crate::strings::same_text(s.name.as_str(), self.name.as_str()),
            None => false,
        }
    }
}

/// The positions offered for a bar, in the order shown: left, top, right, bottom.
pub fn position_choices() -> (v: Vec<Position>)
    ensures
        v@ == seq![Position::Left, Position::Top, Position::Right, Position::Bottom],
{
    let v = vec![Position::Left, Position::Top, Position::Right, Position::Bottom];
    assert(v@ =~= seq![Position::Left, Position::Top, Position::Right, Position::Bottom]);
    v
}

/// The values of a list of layouts.
pub open spec fn layout_views(v: Seq<Layout>) -> Seq<LayoutView> {
    Seq::new(v.len(), |i: int| v[i]@)
}

/// The layouts whose identifier is not `id`, in order.
pub open spec fn without_id(s: Seq<LayoutView>, id: u128) -> Seq<LayoutView>
    decreases s.len(),
{
    if s.len() == 0 {
        s
    } else if s.last().id == id {
        without_id(s.drop_last(), id)
    } else {
        without_id(s.drop_last(), id).push(s.last())
    }
}

/// The layouts page: the layouts found, the one picked, and the positions
/// chosen in the create dialog for the panel and the dock.
#[derive(Debug)]
pub struct Layouts {
    pub layouts: Vec<Layout>,
    pub selected_layout: Option<Layout>,
    pub panel_position: Position,
    pub dock_position: Position,
}

/// What the layouts page is told.
#[derive(Debug)]
pub enum Message {
    Select(Layout),
    Apply,
    Delete,
    LoadLayouts(Vec<Layout>),
    Create(String, LayoutPreview),
    /// The file of the layout with this identifier was deleted.
    Deleted(u128),
}

/// What the layouts page asks of the program.
#[derive(Debug)]
pub enum Action {
    /// Load this panel configuration onto the desktop.
    LoadTemplate(String),
    /// Delete the file of the layout with this identifier if it is there; on
    /// success report `Deleted`.
    DeleteFile(u128),
    /// Capture the desktop's panel configuration, write it as a new layout of
    /// this name and preview unless its file exists, and report the layouts
    /// found then with `LoadLayouts`.
    Create(String, LayoutPreview),
}

/// How the layouts page answers a message: its next state and its request.
pub open spec fn layouts_step(old: Layouts, fin: Layouts, message: Message, action: Option<Action>) -> bool {
    &&& fin.panel_position == old.panel_position
    &&& fin.dock_position == old.dock_position
    &&& match message {
        Message::LoadLayouts(list) => action is None
            && layout_views(fin.layouts@) == layout_views(list@)
            && opt_layout(fin.selected_layout) == opt_layout(old.selected_layout),
        Message::Select(l) => action is None
            && layout_views(fin.layouts@) == layout_views(old.layouts@)
            && opt_layout(fin.selected_layout) == Some(l@),
        Message::Apply => layout_views(fin.layouts@) == layout_views(old.layouts@)
            && fin.selected_layout is None
            && match old.selected_layout {
                Some(s) => (action matches Some(Action::LoadTemplate(t)) && t@ == s.schema@),
                None => action is None,
            },
        Message::Delete => layout_views(fin.layouts@) == layout_views(old.layouts@)
            && opt_layout(fin.selected_layout) == opt_layout(old.selected_layout)
            && match old.selected_layout {
                Some(s) => (action matches Some(Action::DeleteFile(id)) && id == s.id),
                None => action is None,
            },
        Message::Deleted(id) => action is None
            && layout_views(fin.layouts@) == without_id(layout_views(old.layouts@), id)
            && fin.selected_layout is None,
        Message::Create(name, preview) => (action matches Some(Action::Create(n, p)) && n@ == name@
            && p == preview)
            && layout_views(fin.layouts@) == layout_views(old.layouts@)
            && opt_layout(fin.selected_layout) == opt_layout(old.selected_layout),
    }
}

/// The value of an optional layout.
pub open spec fn opt_layout(o: Option<Layout>) -> Option<LayoutView> {
    match o {
        Some(l) => Some(l@),
        None => None,
    }
}

impl Layouts {
    /// The page before any layout is loaded: the create dialog puts the panel
    /// at the top and the dock at the bottom.
    pub fn new() -> (l: Layouts)
        ensures
            l.layouts@.len() == 0,
            l.selected_layout is None,
            l.panel_position == Position::Top,
            l.dock_position == Position::Bottom,
    {
        Layouts { layouts: Vec::new(), selected_layout: None, panel_position: Position::Top, dock_position: Position::Bottom }
    }

    /// Picks the position shown for one bar in the create dialog.
    pub fn select_position(&mut self, panel_type: PanelType, position: Position)
        ensures
            final(self).layouts@ == old(self).layouts@,
            final(self).selected_layout == old(self).selected_layout,
            panel_type == PanelType::Panel ==> final(self).panel_position == position
                && final(self).dock_position == old(self).dock_position,
            panel_type == PanelType::Dock ==> final(self).dock_position == position
                && final(self).panel_position == old(self).panel_position,
    {
        match panel_type {
            PanelType::Panel => self.panel_position = position,
            PanelType::Dock => self.dock_position = position,
        }
    }

    fn remove_id(v: &Vec<Layout>, id: u128) -> (r: Vec<Layout>)
        ensures
            layout_views(r@) == without_id(layout_views(v@), id),
    {
        let mut out: Vec<Layout> = Vec::new();
        let ghost all = layout_views(v@);
        let n = v.len();
        let mut k: usize = 0;
        assert(layout_views(out@) =~= without_id(all.take(0), id));
        while k < n
            invariant
                n == v@.len(),
                all == layout_views(v@),
                k <= n,
                layout_views(out@) == without_id(all.take(k as int), id),
            decreases n - k,
        {
            assert(all.take(k + 1).drop_last() =~= all.take(k as int));
            assert(all.take(k + 1).last() == v@[k as int]@);
            if v[k].id != id {
                let c = v[k].copy();
                out.push(c);
                assert(layout_views(out@) =~= layout_views(out@).drop_last().push(c@));
                assert(layout_views(out@).drop_last() =~= without_id(all.take(k as int), id));
            }
            k = k + 1;
        }
        assert(all.take(n as int) =~= all);
        out
    }

    /// Handles a message: loading replaces the layouts; selecting picks one;
    /// applying loads the picked layout and clears the pick; deleting asks to
    /// delete the picked layout's file, and once it is deleted clears the
    /// pick and drops layouts of that identifier; creating is asked of the
    /// program.
    pub fn update(&mut self, message: Message) -> (action: Option<Action>)
        ensures
            layouts_step(*old(self), *final(self), message, action),
    {
        match message {
            Message::LoadLayouts(list) => {
                self.layouts = list;
                None
            },
            Message::Select(layout) => {
                self.selected_layout = Some(layout);
                None
            },
            Message::Apply => {
                let a = match &self.selected_layout {
                    Some(layout) => Some(Action::LoadTemplate(layout.schema.clone())),
                    None => None,
                };
                self.selected_layout = None;
                a
            },
            Message::Delete => match &self.selected_layout {
                Some(layout) => Some(Action::DeleteFile(layout.id)),
                None => None,
            },
            Message::Deleted(id) => {
                self.selected_layout = None;
                self.layouts = Self::remove_id(&self.layouts, id);
                None
            },
            Message::Create(name, preview) => Some(Action::Create(name, preview)),
        }
    }
}

} // verus!
