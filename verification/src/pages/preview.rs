//! How a layout preview is arranged: where the panel and the dock sit in the
//! small picture of the desktop, how far each stretches, and what fills the
//! rest.

use vstd::prelude::*;

use super::layouts::{LayoutPreview, PanelProperties, PanelType, Position};

verus! {

/// The direction in which a box lays out what it holds.
#[derive(Clone, Copy, Debug, PartialEq, Eq, Structural)]
pub enum Axis {
    Row,
    Column,
}

/// How far a bar is drawn along one direction.
#[derive(Clone, Copy, Debug, PartialEq, Eq, Structural)]
pub enum Extent {
    /// As far as there is room.
    Fill,
    /// As far as its contents need.
    Shrink,
    /// The bar's size.
    Fixed(usize),
    /// Not set: the toolkit's default, which is as far as the contents need.
    Auto,
}

/// A piece of the picture.
#[derive(Clone, Copy, Debug, PartialEq, Eq, Structural)]
pub enum Piece {
    /// The panel, with its width and height.
    Panel(Extent, Extent),
    /// The dock, with its width and height.
    Dock(Extent, Extent),
    /// Room that grows sideways.
    HorizontalSpace,
    /// Room that grows downwards.
    VerticalSpace,
}

/// One place of the picture's outer box: a piece, or a box of pieces with
/// whether it fills the width and whether it centers what it holds.
#[derive(Debug)]
pub enum Slot {
    Piece(Piece),
    Group(Axis, Vec<Piece>, bool, bool),
}

/// The value of a place.
pub enum SlotView {
    Piece(Piece),
    Group(Axis, Seq<Piece>, bool, bool),
}

impl View for Slot {
    type V = SlotView;

    open spec fn view(&self) -> SlotView {
        match self {
            Slot::Piece(p) => SlotView::Piece(*p),
            Slot::Group(a, v, fill, centered) => SlotView::Group(*a, v@, *fill, *centered),
        }
    }
}

/// The values of the places of a box.
pub open spec fn slot_views(v: Seq<Slot>) -> Seq<SlotView> {
    Seq::new(v.len(), |i: int| v[i]@)
}

/// The style of the container around a picture or a bar.
#[derive(Clone, Copy, Debug, PartialEq, Eq, Structural)]
pub enum Frame {
    /// The theme's background.
    Background,
    /// The theme's secondary container.
    Secondary,
    /// The panel style (`style::panel_style`).
    Panel,
}

/// The picture: its outer box (a column or a row, which centers what it
/// holds unless it is empty), the places in it, the box's height and whether
/// it fills the width, the frame and padding around it, and how each bar that
/// is shown is drawn.
#[derive(Debug)]
pub struct Arrangement {
    pub axis: Axis,
    pub slots: Vec<Slot>,
    pub height: u16,
    pub fills_width: bool,
    pub frame: Frame,
    pub padding: u16,
    pub panel_look: Option<BarLook>,
    pub dock_look: Option<BarLook>,
}

/// How a bar itself is drawn: a run of squares of side `side` less five
/// (two for the panel, one per icon for the dock), in a row or a column,
/// with room between the panel's two squares when it is stretched, painted as
/// a panel when stretched and as the background otherwise.
#[derive(Clone, Copy, Debug, PartialEq, Eq, Structural)]
pub struct BarLook {
    pub squares: usize,
    pub side: usize,
    pub along_row: bool,
    pub gap: bool,
    pub frame: Frame,
}

/// The bar lies along the top or bottom edge.
pub open spec fn horizontal(p: Position) -> bool {
    p == Position::Top || p == Position::Bottom
}

/// How far a bar stretches along its edge.
pub open spec fn stretch(extend: bool) -> Extent {
    if extend { Extent::Fill } else { Extent::Shrink }
}

/// The panel piece when the panel is shown: stretched along its edge and as
/// deep as its size.
pub open spec fn panel_piece(p: PanelProperties) -> Piece {
    if horizontal(p.position) {
        Piece::Panel(stretch(p.extend), Extent::Fixed(p.size))
    } else {
        Piece::Panel(Extent::Fixed(p.size), stretch(p.extend))
    }
}

/// The dock piece next to a shown panel: stretched along its edge.
pub open spec fn dock_piece(d: PanelProperties) -> Piece {
    if horizontal(d.position) {
        Piece::Dock(stretch(d.extend), Extent::Auto)
    } else {
        Piece::Dock(Extent::Auto, stretch(d.extend))
    }
}

/// A piece alone in its place.
pub open spec fn one(p: Piece) -> SlotView {
    SlotView::Piece(p)
}

/// Room that grows sideways, when `b` holds.
pub open spec fn space_if(b: bool) -> Seq<SlotView> {
    if b { seq![one(Piece::HorizontalSpace)] } else { Seq::empty() }
}

/// The picture with both bars shown.
pub open spec fn both_shown(p: PanelProperties, d: PanelProperties) -> (Axis, Seq<SlotView>) {
    let pp = one(panel_piece(p));
    let dd = one(dock_piece(d));
    let dp = dock_piece(d);
    let pn = panel_piece(p);
    let h = one(Piece::HorizontalSpace);
    let v = one(Piece::VerticalSpace);
    match (p.position, d.position) {
        (Position::Top, Position::Top) => (Axis::Column, seq![pp, h, dd]),
        (Position::Top, Position::Bottom) => (Axis::Column, seq![pp, v, h, dd]),
        (Position::Top, Position::Left) => (Axis::Column, seq![pp, SlotView::Group(Axis::Row, seq![dp], true, false)]),
        (Position::Top, Position::Right) => (
            Axis::Column,
            seq![pp, SlotView::Group(Axis::Row, seq![Piece::HorizontalSpace, dp], true, false)],
        ),
        (Position::Bottom, Position::Top) => (Axis::Column, seq![dd, v, h, pp]),
        (Position::Bottom, Position::Bottom) => (Axis::Column, seq![v, h, pp, dd]),
        (Position::Bottom, Position::Left) => (
            Axis::Row,
            seq![dd, SlotView::Group(Axis::Column, seq![Piece::VerticalSpace, Piece::HorizontalSpace, pn], false, true)],
        ),
        (Position::Bottom, Position::Right) => (
            Axis::Row,
            space_if(!p.extend) + seq![SlotView::Group(Axis::Column, seq![Piece::VerticalSpace, pn], false, false)]
                + space_if(!p.extend) + seq![dd],
        ),
        (Position::Left, Position::Top) => (
            Axis::Row,
            seq![pp] + space_if(!d.extend) + seq![SlotView::Group(Axis::Column, seq![dp, Piece::VerticalSpace], false, true)]
                + space_if(!d.extend),
        ),
        (Position::Left, Position::Bottom) => (
            Axis::Row,
            seq![pp] + space_if(!d.extend) + seq![
                SlotView::Group(Axis::Column, seq![Piece::VerticalSpace, Piece::HorizontalSpace, dp], false, true),
            ] + space_if(!d.extend),
        ),
        (Position::Left, Position::Left) => (Axis::Row, seq![pp, dd, h]),
        (Position::Left, Position::Right) => (Axis::Row, seq![pp, h, dd]),
        (Position::Right, Position::Top) => (
            Axis::Row,
            space_if(!d.extend) + seq![SlotView::Group(Axis::Column, seq![dp, Piece::VerticalSpace], false, true)]
                + space_if(!d.extend) + seq![pp],
        ),
        (Position::Right, Position::Bottom) => (
            Axis::Row,
            space_if(!d.extend) + seq![SlotView::Group(Axis::Column, seq![Piece::VerticalSpace, dp], false, true)]
                + space_if(!d.extend) + seq![pp],
        ),
        (Position::Right, Position::Left) => (Axis::Row, seq![dd, h, pp]),
        (Position::Right, Position::Right) => (Axis::Row, seq![h, dd, pp]),
    }
}

/// The place holds the panel.
pub open spec fn is_panel_slot(s: SlotView) -> bool {
    s matches SlotView::Piece(Piece::Panel(_, _))
}

/// The place holds the dock.
pub open spec fn is_dock_slot(s: SlotView) -> bool {
    s matches SlotView::Piece(Piece::Dock(_, _))
}

/// The place holds only room.
pub open spec fn is_space_slot(s: SlotView) -> bool {
    s matches SlotView::Piece(Piece::HorizontalSpace) || s matches SlotView::Piece(Piece::VerticalSpace)
}

/// The picture of a preview: nothing when both bars are hidden; the one bar
/// shown at its edge; or both as `both_shown` places them.
pub open spec fn arrangement_spec(l: LayoutPreview) -> (Axis, Seq<SlotView>) {
    match (l.panel.hidden, l.dock.hidden) {
        (true, true) => (Axis::Column, Seq::empty()),
        (true, false) => match l.dock.position {
            Position::Top => (Axis::Column, seq![one(Piece::Dock(stretch(l.dock.extend), Extent::Auto))]),
            Position::Bottom => (
                Axis::Column,
                seq![one(Piece::VerticalSpace), one(Piece::Dock(stretch(l.dock.extend), Extent::Auto))],
            ),
            Position::Left => (Axis::Row, seq![one(Piece::Dock(Extent::Auto, Extent::Auto))]),
            Position::Right => (
                Axis::Row,
                seq![one(Piece::HorizontalSpace), one(Piece::Dock(Extent::Auto, Extent::Auto))],
            ),
        },
        (false, true) => match l.panel.position {
            Position::Top => (Axis::Column, seq![one(panel_piece(l.panel))]),
            Position::Bottom => (Axis::Column, seq![one(Piece::VerticalSpace), one(panel_piece(l.panel))]),
            Position::Left => (Axis::Row, seq![one(panel_piece(l.panel)), one(Piece::HorizontalSpace)]),
            Position::Right => (Axis::Row, seq![one(Piece::HorizontalSpace), one(panel_piece(l.panel))]),
        },
        (false, false) => both_shown(l.panel, l.dock),
    }
}

/// How a bar of the preview is drawn.
pub open spec fn look_spec(l: LayoutPreview, t: PanelType) -> BarLook {
    match t {
        PanelType::Panel => BarLook {
            squares: 2,
            side: l.panel.size,
            along_row: horizontal(l.panel.position),
            gap: l.panel.extend,
            frame: if l.panel.extend { Frame::Panel } else { Frame::Background },
        },
        PanelType::Dock => BarLook {
            squares: l.dock_icons as usize,
            side: l.dock.size,
            along_row: horizontal(l.dock.position),
            gap: false,
            frame: if l.dock.extend { Frame::Panel } else { Frame::Background },
        },
    }
}

/// A bar shown alone sits at its edge: the picture is a column for a top or
/// bottom bar and a row for a left or right one; the bar is its first place
/// at the top or left edge and its last place at the bottom or right edge, and
/// every other place is room.
pub proof fn lemma_lone_bar_at_its_edge(l: LayoutPreview)
    requires
        l.panel.hidden != l.dock.hidden,
    ensures
        ({
            let bar = if l.dock.hidden { l.panel } else { l.dock };
            let is_bar = |s: SlotView| if l.dock.hidden { is_panel_slot(s) } else { is_dock_slot(s) };
            let (axis, slots) = arrangement_spec(l);
            &&& axis == (if horizontal(bar.position) { Axis::Column } else { Axis::Row })
            &&& slots.len() >= 1
            &&& (bar.position == Position::Top || bar.position == Position::Left) ==> {
                &&& is_bar(slots[0])
                &&& forall|i: int| 0 < i < slots.len() ==> is_space_slot(#[trigger] slots[i])
            }
            &&& (bar.position == Position::Bottom || bar.position == Position::Right) ==> {
                &&& is_bar(slots[slots.len() - 1])
                &&& forall|i: int| 0 <= i < slots.len() - 1 ==> is_space_slot(#[trigger] slots[i])
            }
        }),
{
}

/// With both bars shown, a panel at the top or left edge is the picture's
/// first place and a panel at the right edge its last place.
pub proof fn lemma_panel_at_its_edge_beside_the_dock(l: LayoutPreview)
    requires
        !l.panel.hidden,
        !l.dock.hidden,
    ensures
        ({
            let slots = arrangement_spec(l).1;
            &&& slots.len() >= 1
            &&& (l.panel.position == Position::Top || l.panel.position == Position::Left) ==> is_panel_slot(slots[0])
            &&& l.panel.position == Position::Right ==> is_panel_slot(slots[slots.len() - 1])
        }),
{
}

fn is_horizontal(p: Position) -> (r: bool)
    ensures
        r == horizontal(p),
{
    match p {
        Position::Top | Position::Bottom => true,
        _ => false,
    }
}

fn stretched(extend: bool) -> (e: Extent)
    ensures
        e == stretch(extend),
{
    if extend { Extent::Fill } else { Extent::Shrink }
}

fn panel_of(p: PanelProperties) -> (r: Piece)
    ensures
        r == panel_piece(p),
{
    if is_horizontal(p.position) {
        Piece::Panel(stretched(p.extend), Extent::Fixed(p.size))
    } else {
        Piece::Panel(Extent::Fixed(p.size), stretched(p.extend))
    }
}

fn dock_of(d: PanelProperties) -> (r: Piece)
    ensures
        r == dock_piece(d),
{
    if is_horizontal(d.position) {
        Piece::Dock(stretched(d.extend), Extent::Auto)
    } else {
        Piece::Dock(Extent::Auto, stretched(d.extend))
    }
}

/// Adds a piece to a box.
fn put(v: &mut Vec<Slot>, p: Piece)
    ensures
        slot_views(final(v)@) == slot_views(old(v)@).push(SlotView::Piece(p)),
{
    v.push(Slot::Piece(p));
    assert(slot_views(v@) =~= slot_views(old(v)@).push(SlotView::Piece(p)));
}

/// Adds room that grows sideways to a box when `b` holds.
fn put_space_if(v: &mut Vec<Slot>, b: bool)
    ensures
        slot_views(final(v)@) == slot_views(old(v)@) + space_if(b),
{
    if b {
        put(v, Piece::HorizontalSpace);
        assert(slot_views(v@) =~= slot_views(old(v)@) + space_if(b));
    } else {
        assert(slot_views(v@) =~= slot_views(old(v)@) + space_if(b));
    }
}

/// Adds a box of pieces to a box.
fn put_group(v: &mut Vec<Slot>, axis: Axis, pieces: Vec<Piece>, fill: bool, centered: bool)
    ensures
        slot_views(final(v)@) == slot_views(old(v)@).push(SlotView::Group(axis, pieces@, fill, centered)),
{
    let ghost ps = pieces@;
    v.push(Slot::Group(axis, pieces, fill, centered));
    assert(slot_views(v@) =~= slot_views(old(v)@).push(SlotView::Group(axis, ps, fill, centered)));
}

fn pieces1(a: Piece) -> (v: Vec<Piece>)
    ensures
        v@ == seq![a],
{
    let mut v: Vec<Piece> = Vec::new();
    v.push(a);
    assert(v@ =~= seq![a]);
    v
}

fn pieces2(a: Piece, b: Piece) -> (v: Vec<Piece>)
    ensures
        v@ == seq![a, b],
{
    let mut v: Vec<Piece> = Vec::new();
    v.push(a);
    v.push(b);
    assert(v@ =~= seq![a, b]);
    v
}

fn pieces3(a: Piece, b: Piece, c: Piece) -> (v: Vec<Piece>)
    ensures
        v@ == seq![a, b, c],
{
    let mut v: Vec<Piece> = Vec::new();
    v.push(a);
    v.push(b);
    v.push(c);
    assert(v@ =~= seq![a, b, c]);
    v
}

/// The picture with both bars shown.
fn both(p: PanelProperties, d: PanelProperties) -> (r: (Axis, Vec<Slot>))
    ensures
        (r.0, slot_views(r.1@)) == both_shown(p, d),
{
    let pp = panel_of(p);
    let dd = dock_of(d);
    let h = Piece::HorizontalSpace;
    let vs = Piece::VerticalSpace;
    let mut s: Vec<Slot> = Vec::new();
    assert(slot_views(s@) =~= Seq::<SlotView>::empty());
    let axis = match (p.position, d.position) {
        (Position::Top, Position::Top) => {
            put(&mut s, pp); put(&mut s, h); put(&mut s, dd);
            Axis::Column
        },
        (Position::Top, Position::Bottom) => {
            put(&mut s, pp); put(&mut s, vs); put(&mut s, h); put(&mut s, dd);
            Axis::Column
        },
        (Position::Top, Position::Left) => {
            put(&mut s, pp); put_group(&mut s, Axis::Row, pieces1(dd), true, false);
            Axis::Column
        },
        (Position::Top, Position::Right) => {
            put(&mut s, pp); put_group(&mut s, Axis::Row, pieces2(h, dd), true, false);
            Axis::Column
        },
        (Position::Bottom, Position::Top) => {
            put(&mut s, dd); put(&mut s, vs); put(&mut s, h); put(&mut s, pp);
            Axis::Column
        },
        (Position::Bottom, Position::Bottom) => {
            put(&mut s, vs); put(&mut s, h); put(&mut s, pp); put(&mut s, dd);
            Axis::Column
        },
        (Position::Bottom, Position::Left) => {
            put(&mut s, dd); put_group(&mut s, Axis::Column, pieces3(vs, h, pp), false, true);
            Axis::Row
        },
        (Position::Bottom, Position::Right) => {
            put_space_if(&mut s, !p.extend);
            put_group(&mut s, Axis::Column, pieces2(vs, pp), false, false);
            put_space_if(&mut s, !p.extend);
            put(&mut s, dd);
            Axis::Row
        },
        (Position::Left, Position::Top) => {
            put(&mut s, pp);
            put_space_if(&mut s, !d.extend);
            put_group(&mut s, Axis::Column, pieces2(dd, vs), false, true);
            put_space_if(&mut s, !d.extend);
            Axis::Row
        },
        (Position::Left, Position::Bottom) => {
            put(&mut s, pp);
            put_space_if(&mut s, !d.extend);
            put_group(&mut s, Axis::Column, pieces3(vs, h, dd), false, true);
            put_space_if(&mut s, !d.extend);
            Axis::Row
        },
        (Position::Left, Position::Left) => {
            put(&mut s, pp); put(&mut s, dd); put(&mut s, h);
            Axis::Row
        },
        (Position::Left, Position::Right) => {
            put(&mut s, pp); put(&mut s, h); put(&mut s, dd);
            Axis::Row
        },
        (Position::Right, Position::Top) => {
            put_space_if(&mut s, !d.extend);
            put_group(&mut s, Axis::Column, pieces2(dd, vs), false, true);
            put_space_if(&mut s, !d.extend);
            put(&mut s, pp);
            Axis::Row
        },
        (Position::Right, Position::Bottom) => {
            put_space_if(&mut s, !d.extend);
            put_group(&mut s, Axis::Column, pieces2(vs, dd), false, true);
            put_space_if(&mut s, !d.extend);
            put(&mut s, pp);
            Axis::Row
        },
        (Position::Right, Position::Left) => {
            put(&mut s, dd); put(&mut s, h); put(&mut s, pp);
            Axis::Row
        },
        (Position::Right, Position::Right) => {
            put(&mut s, h); put(&mut s, dd); put(&mut s, pp);
            Axis::Row
        },
    };
    proof {
        assert(slot_views(s@) =~= both_shown(p, d).1);
    }
    (axis, s)
}

impl LayoutPreview {
    /// The picture of the preview, `height` high, framed as a secondary
    /// container with `padding` around it. A column fills the width; a row
    /// is as wide as what it holds. Each bar shown is drawn as `bar_look` says.
    pub fn view(&self, padding: u16, height: u16) -> (r: Arrangement)
        ensures
            (r.axis, slot_views(r.slots@)) == arrangement_spec(*self),
            r.height == height,
            r.fills_width == (r.axis == Axis::Column),
            r.frame == Frame::Secondary,
            r.padding == padding,
            r.panel_look == if self.panel.hidden { None } else { Some(look_spec(*self, PanelType::Panel)) },
            r.dock_look == if self.dock.hidden { None } else { Some(look_spec(*self, PanelType::Dock)) },
    {
        let (axis, slots) = self.place();
        let panel_look = if self.panel.hidden { None } else { Some(self.bar_look(PanelType::Panel)) };
        let dock_look = if self.dock.hidden { None } else { Some(self.bar_look(PanelType::Dock)) };
        Arrangement {
            axis,
            slots,
            height,
            fills_width: match axis {
                Axis::Column => true,
                Axis::Row => false,
            },
            frame: Frame::Secondary,
            padding,
            panel_look,
            dock_look,
        }
    }

    /// The outer box of the picture and the places in it.
    fn place(&self) -> (r: (Axis, Vec<Slot>))
        ensures
            (r.0, slot_views(r.1@)) == arrangement_spec(*self),
    {
        if !self.panel.hidden && !self.dock.hidden {
            return both(self.panel, self.dock);
        }
        let mut s: Vec<Slot> = Vec::new();
        assert(slot_views(s@) =~= Seq::<SlotView>::empty());
        let axis = if self.panel.hidden && self.dock.hidden {
            Axis::Column
        } else if self.panel.hidden {
            let along = Piece::Dock(stretched(self.dock.extend), Extent::Auto);
            let side = Piece::Dock(Extent::Auto, Extent::Auto);
            match self.dock.position {
                Position::Top => {
                    put(&mut s, along);
                    Axis::Column
                },
                Position::Bottom => {
                    put(&mut s, Piece::VerticalSpace);
                    put(&mut s, along);
                    Axis::Column
                },
                Position::Left => {
                    put(&mut s, side);
                    Axis::Row
                },
                Position::Right => {
                    put(&mut s, Piece::HorizontalSpace);
                    put(&mut s, side);
                    Axis::Row
                },
            }
        } else {
            let pp = panel_of(self.panel);
            match self.panel.position {
                Position::Top => {
                    put(&mut s, pp);
                    Axis::Column
                },
                Position::Bottom => {
                    put(&mut s, Piece::VerticalSpace);
                    put(&mut s, pp);
                    Axis::Column
                },
                Position::Left => {
                    put(&mut s, pp);
                    put(&mut s, Piece::HorizontalSpace);
                    Axis::Row
                },
                Position::Right => {
                    put(&mut s, Piece::HorizontalSpace);
                    put(&mut s, pp);
                    Axis::Row
                },
            }
        };
        proof {
            assert(slot_views(s@) =~= arrangement_spec(*self).1);
        }
        (axis, s)
    }

    /// How one bar of the preview is drawn.
    pub fn bar_look(&self, panel_type: PanelType) -> (b: BarLook)
        ensures
            b == look_spec(*self, panel_type),
    {
        match panel_type {
            PanelType::Panel => BarLook {
                squares: 2,
                side: self.panel.size,
                along_row: is_horizontal(self.panel.position),
                gap: self.panel.extend,
                frame: if self.panel.extend { Frame::Panel } else { Frame::Background },
            },
            PanelType::Dock => BarLook {
                squares: self.dock_icons as usize,
                side: self.dock.size,
                along_row: is_horizontal(self.dock.position),
                gap: false,
                frame: if self.dock.extend { Frame::Panel } else { Frame::Background },
            },
        }
    }
}

} // verus!
