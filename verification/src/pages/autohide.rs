use vstd::prelude::*;

verus! {

/// How a hidden panel or dock reappears: the delay before it hides, how long
/// it takes to slide, and the size of the strip that brings it back.
#[derive(Clone, Copy, Debug, PartialEq, Eq, Structural)]
pub struct AutoHide {
    pub wait_time: u32,
    pub transition_time: u32,
    pub handle_size: u32,
}

} // verus!

verus! {

/// What the tool reads from a panel's configuration.
#[derive(Debug)]
pub struct PanelConfigValues {
    /// The name the configuration gives its panel.
    pub name: String,
    pub padding: u32,
    pub margin: u16,
    pub spacing: u32,
    pub size: super::panel_size::PanelSize,
    pub autohide: Option<AutoHide>,
}

/// The auto-hide settings of a configuration, or `fallback` when it has none.
pub fn autohide_or(config: &PanelConfigValues, fallback: AutoHide) -> (a: AutoHide)
    ensures
        a == match config.autohide {
            Some(a) => a,
            None => fallback,
        },
{
    match config.autohide {
        Some(a) => a,
        None => fallback,
    }
}

} // verus!
