use vstd::prelude::*;

verus! {

/// The height of a panel: one of the named sizes or a custom one in pixels.
#[derive(Clone, Copy, Debug, PartialEq, Eq, Structural)]
pub enum PanelSize {
    XS,
    S,
    M,
    L,
    XL,
    Custom(u32),
}

/// The label of the slider step `i` (steps of 4 px from 16 px to 112 px).
pub open spec fn step_label(i: int) -> Seq<char> {
    if i == 0 { "XS-4"@ }
    else if i == 1 { "XS-3"@ }
    else if i == 2 { "XS-2"@ }
    else if i == 3 { "XS-1"@ }
    else if i == 4 { "XS"@ }
    else if i == 5 { "S-1"@ }
    else if i == 6 { "S"@ }
    else if i == 7 { "S+1"@ }
    else if i == 8 { "S+2"@ }
    else if i == 9 { "S+3"@ }
    else if i == 10 { "M"@ }
    else if i == 11 { "M+1"@ }
    else if i == 12 { "L"@ }
    else if i == 13 { "L+1"@ }
    else if i == 14 { "L+2"@ }
    else if i == 15 { "L+3"@ }
    else if i == 16 { "XL-4"@ }
    else if i == 17 { "XL-3"@ }
    else if i == 18 { "XL-2"@ }
    else if i == 19 { "XL-1"@ }
    else if i == 20 { "XL"@ }
    else if i == 21 { "XL+1"@ }
    else if i == 22 { "XL+2"@ }
    else if i == 23 { "XL+3"@ }
    else if i == 24 { "XL+4"@ }
    else { "XL+4"@ }
}

/// The pixel size of a custom size, snapped into the slider's range.
pub open spec fn clamp_size(c: int) -> int {
    if c < 16 { 16 } else if c > 112 { 112 } else { c }
}

/// The label shown for a panel size.
pub open spec fn size_name(s: PanelSize) -> Seq<char> {
    match s {
        PanelSize::XS => "XS"@,
        PanelSize::S => "S"@,
        PanelSize::M => "M"@,
        PanelSize::L => "L"@,
        PanelSize::XL => "XL"@,
        PanelSize::Custom(c) => step_label((clamp_size(c as int) - 16) / 4),
    }
}

/// The slider position of a panel size, in pixels.
pub open spec fn size_value(s: PanelSize) -> int {
    match s {
        PanelSize::XS => 32,
        PanelSize::S => 40,
        PanelSize::M => 56,
        PanelSize::L => 64,
        PanelSize::XL => 96,
        PanelSize::Custom(c) => clamp_size(c as int) / 4 * 4,
    }
}

fn step_text(i: usize) -> (t: &'static str)
    requires
        i <= 24,
    ensures
        t@ == step_label(i as int),
{
    proof {
        reveal_strlit("XS-4"); reveal_strlit("XS-3"); reveal_strlit("XS-2"); reveal_strlit("XS-1");
        reveal_strlit("XS"); reveal_strlit("S-1"); reveal_strlit("S"); reveal_strlit("S+1");
        reveal_strlit("S+2"); reveal_strlit("S+3"); reveal_strlit("M"); reveal_strlit("M+1");
        reveal_strlit("L"); reveal_strlit("L+1"); reveal_strlit("L+2"); reveal_strlit("L+3");
        reveal_strlit("XL-4"); reveal_strlit("XL-3"); reveal_strlit("XL-2"); reveal_strlit("XL-1");
        reveal_strlit("XL"); reveal_strlit("XL+1"); reveal_strlit("XL+2"); reveal_strlit("XL+3");
        reveal_strlit("XL+4");
    }
    match i {
        0 => "XS-4",
        1 => "XS-3",
        2 => "XS-2",
        3 => "XS-1",
        4 => "XS",
        5 => "S-1",
        6 => "S",
        7 => "S+1",
        8 => "S+2",
        9 => "S+3",
        10 => "M",
        11 => "M+1",
        12 => "L",
        13 => "L+1",
        14 => "L+2",
        15 => "L+3",
        16 => "XL-4",
        17 => "XL-3",
        18 => "XL-2",
        19 => "XL-1",
        20 => "XL",
        21 => "XL+1",
        22 => "XL+2",
        23 => "XL+3",
        24 => "XL+4",
        _ => "XL+4",
    }
}

/// The label of a panel size: the name of a named size; for a custom size,
/// the label of the slider step it falls on (sizes outside 16..=112 px are
/// taken as the nearest end).
pub fn name(size: PanelSize) -> (t: &'static str)
    ensures
        t@ == size_name(size),
{
    let custom = match size {
        PanelSize::XS => return "XS",
        PanelSize::S => return "S",
        PanelSize::M => return "M",
        PanelSize::L => return "L",
        PanelSize::XL => return "XL",
        PanelSize::Custom(custom) => custom,
    };
    let clamped = if custom < 16 { 16 } else if custom > 112 { 112 } else { custom };
    step_text(((clamped - 16) / 4) as usize)
}

/// The slider position of a panel size in pixels: fixed values for the named
/// sizes; a custom size snapped into 16..=112 and down to a multiple of 4.
pub fn to_u32(size: PanelSize) -> (v: u32)
    ensures
        v == size_value(size),
        16 <= v <= 112,
        v % 4 == 0,
{
    match size {
        PanelSize::XS => 32,
        PanelSize::S => 40,
        PanelSize::M => 56,
        PanelSize::L => 64,
        PanelSize::XL => 96,
        PanelSize::Custom(custom) => {
            let clamped = if custom < 16 { 16 } else if custom > 112 { 112 } else { custom };
            clamped / 4 * 4
        },
    }
}

/// Snapping is idempotent: the slider position of a size, taken as a custom
/// size, has that same slider position.
pub proof fn lemma_size_value_idempotent(s: PanelSize)
    ensures
        size_value(PanelSize::Custom(size_value(s) as u32)) == size_value(s),
{
}

/// A size and its slider position carry the same label.
pub proof fn lemma_name_of_slider_position(s: PanelSize)
    ensures
        size_name(PanelSize::Custom(size_value(s) as u32)) == size_name(s),
{
    reveal_strlit("XS");
    reveal_strlit("S");
    reveal_strlit("M");
    reveal_strlit("L");
    reveal_strlit("XL");
    match s {
        PanelSize::Custom(c) => {
            let v = clamp_size(c as int);
            assert((v / 4 * 4 - 16) / 4 == (v - 16) / 4);
        },
        _ => {},
    }
}

} // verus!
