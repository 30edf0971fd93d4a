//! The sliders and switches of the dock and panel pages: their ranges, steps,
//! marks and the values they show.

use vstd::prelude::*;

use super::autohide::AutoHide;
use super::dock::Dock;
use super::panel::Panel;
use super::panel_size::{name, size_name, size_value, to_u32};

verus! {

/// The unit a slider's value is shown in.
#[derive(Clone, Copy, Debug, PartialEq, Eq, Structural)]
pub enum Unit {
    Pixels,
    Milliseconds,
}

/// A slider: the localization key of its label, its range and step, the
/// values it marks, the value it shows and the unit it shows it in.
#[derive(Debug)]
pub struct Slider {
    pub label_key: &'static str,
    pub min: u32,
    pub max: u32,
    pub step: u32,
    pub marks: Vec<u32>,
    pub value: u32,
    pub unit: Unit,
}

/// The value of a slider.
pub struct SliderView {
    pub label_key: Seq<char>,
    pub min: u32,
    pub max: u32,
    pub step: u32,
    pub marks: Seq<u32>,
    pub value: u32,
    pub unit: Unit,
}

impl View for Slider {
    type V = SliderView;

    open spec fn view(&self) -> SliderView {
        SliderView {
            label_key: self.label_key@,
            min: self.min,
            max: self.max,
            step: self.step,
            marks: self.marks@,
            value: self.value,
            unit: self.unit,
        }
    }
}

/// The values of a list of sliders.
pub open spec fn slider_views(v: Seq<Slider>) -> Seq<SliderView> {
    Seq::new(v.len(), |i: int| v[i]@)
}

/// A slider in pixels with a step of one and no marks.
pub open spec fn pixels(label: Seq<char>, max: u32, value: u32) -> SliderView {
    SliderView { label_key: label, min: 0, max, step: 1, marks: Seq::empty(), value, unit: Unit::Pixels }
}

/// The sliders of the animation section: how long before hiding and how long
/// sliding take (up to four seconds by a tenth, marked each second), and the
/// size of the strip that brings a hidden bar back (4 to 32 px by 4).
pub open spec fn animation_spec(a: AutoHide) -> Seq<SliderView> {
    seq![
        SliderView {
            label_key: "wait-time"@,
            min: 0,
            max: 4000,
            step: 100,
            marks: seq![1000, 2000, 3000],
            value: a.wait_time,
            unit: Unit::Milliseconds,
        },
        SliderView {
            label_key: "transition-time"@,
            min: 0,
            max: 4000,
            step: 100,
            marks: seq![1000, 2000, 3000],
            value: a.transition_time,
            unit: Unit::Milliseconds,
        },
        SliderView {
            label_key: "handle-size"@,
            min: 4,
            max: 32,
            step: 4,
            marks: seq![8, 12, 16, 20, 24, 28],
            value: a.handle_size,
            unit: Unit::Pixels,
        },
    ]
}

fn slider(label_key: &'static str, min: u32, max: u32, step: u32, marks: Vec<u32>, value: u32, unit: Unit) -> (s: Slider)
    ensures
        s@ == (SliderView { label_key: label_key@, min, max, step, marks: marks@, value, unit }),
{
    Slider { label_key, min, max, step, marks, value, unit }
}

fn px(label_key: &'static str, max: u32, value: u32) -> (s: Slider)
    ensures
        s@ == pixels(label_key@, max, value),
{
    let marks: Vec<u32> = Vec::new();
    assert(marks@ =~= Seq::<u32>::empty());
    slider(label_key, 0, max, 1, marks, value, Unit::Pixels)
}

/// The animation section's sliders.
pub fn animation_sliders(a: AutoHide) -> (v: Vec<Slider>)
    ensures
        slider_views(v@) == animation_spec(a),
{
    let seconds = vec![1000u32, 2000, 3000];
    let seconds2 = vec![1000u32, 2000, 3000];
    let handles = vec![8u32, 12, 16, 20, 24, 28];
    assert(seconds@ =~= seq![1000u32, 2000, 3000]);
    assert(seconds2@ =~= seq![1000u32, 2000, 3000]);
    assert(handles@ =~= seq![8u32, 12, 16, 20, 24, 28]);
    let mut v: Vec<Slider> = Vec::new();
    v.push(slider("wait-time", 0, 4000, 100, seconds, a.wait_time, Unit::Milliseconds));
    v.push(slider("transition-time", 0, 4000, 100, seconds2, a.transition_time, Unit::Milliseconds));
    v.push(slider("handle-size", 4, 32, 4, handles, a.handle_size, Unit::Pixels));
    assert(slider_views(v@) =~= animation_spec(a));
    v
}

/// The dock page: padding (up to 28 px), margin (up to 20 px) and spacing
/// (up to 28 px), then the animation section.
pub open spec fn dock_spec(d: Dock) -> (Seq<SliderView>, Seq<SliderView>) {
    (
        seq![pixels("padding"@, 28, d.padding), pixels("margin"@, 20, d.margin as u32), pixels("spacing"@, 28, d.spacing)],
        animation_spec(d.autohide),
    )
}

/// The panel page's size slider: from 16 to 112 px by 4, marked at the
/// named sizes, showing the size's slider position.
pub open spec fn size_slider_spec(p: Panel) -> SliderView {
    SliderView {
        label_key: "size"@,
        min: 16,
        max: 112,
        step: 4,
        marks: seq![32, 40, 56, 64, 96],
        value: size_value(p.panel_size) as u32,
        unit: Unit::Pixels,
    }
}

/// What the panel page shows.
#[derive(Debug)]
pub struct PanelControls {
    /// The switch that runs the panel.
    pub show_panel: bool,
    /// The switch that forces icon buttons in the panel.
    pub force_icons: bool,
    pub size: Slider,
    /// The label of the size, beside its slider.
    pub size_label: &'static str,
    pub sliders: Vec<Slider>,
    pub animation: Vec<Slider>,
}

impl Dock {
    /// The dock page's sliders, then its animation section's.
    pub fn controls(&self) -> (r: (Vec<Slider>, Vec<Slider>))
        ensures
            (slider_views(r.0@), slider_views(r.1@)) == dock_spec(*self),
    {
        let mut v: Vec<Slider> = Vec::new();
        v.push(px("padding", 28, self.padding));
        v.push(px("margin", 20, self.margin as u32));
        v.push(px("spacing", 28, self.spacing));
        assert(slider_views(v@) =~= dock_spec(*self).0);
        (v, animation_sliders(self.autohide))
    }
}

impl Panel {
    /// The panel page: its two switches, the size slider and its label,
    /// padding (up to 20 px), margin (up to 20 px) and spacing (up to 28 px),
    /// then the animation section.
    pub fn controls(&self) -> (c: PanelControls)
        ensures
            c.show_panel == self.show_panel,
            c.force_icons == self.force_icons,
            c.size@ == size_slider_spec(*self),
            c.size_label@ == size_name(self.panel_size),
            slider_views(c.sliders@) == seq![
                pixels("padding"@, 20, self.padding),
                pixels("margin"@, 20, self.margin as u32),
                pixels("spacing"@, 28, self.spacing),
            ],
            slider_views(c.animation@) == animation_spec(self.autohide),
    {
        let marks = vec![32u32, 40, 56, 64, 96];
        assert(marks@ =~= seq![32u32, 40, 56, 64, 96]);
        let size = slider("size", 16, 112, 4, marks, to_u32(self.panel_size), Unit::Pixels);
        let mut v: Vec<Slider> = Vec::new();
        v.push(px("padding", 20, self.padding));
        v.push(px("margin", 20, self.margin as u32));
        v.push(px("spacing", 28, self.spacing));
        assert(slider_views(v@) =~= seq![
            pixels("padding"@, 20, self.padding),
            pixels("margin"@, 20, self.margin as u32),
            pixels("spacing"@, 28, self.spacing),
        ]);
        PanelControls {
            show_panel: self.show_panel,
            force_icons: self.force_icons,
            size,
            size_label: name(self.panel_size),
            sliders: v,
            animation: animation_sliders(self.autohide),
        }
    }
}

} // verus!
