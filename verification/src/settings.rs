use vstd::prelude::*;

verus! {

/// The tabs of the overlay's main window.
#[derive(PartialEq, Eq, Structural, Clone, Copy, Debug)]
pub enum Tabs {
    Esp,
    Aim,
    Misc,
    Gsettings,
    Trigger,
}

/// Options shown under the "General Options" tab.
#[derive(PartialEq, Eq, Structural, Clone, Copy, Debug)]
pub struct GeneralSetting {
    pub show_borders: bool,
}

impl Default for GeneralSetting {
    fn default() -> (res: Self)
        ensures
            !res.show_borders,
    {
        GeneralSetting { show_borders: false }
    }
}

/// The "Misc" tab; it holds no options yet.
#[derive(PartialEq, Eq, Structural, Clone, Copy, Debug)]
pub struct Misc {}

} // verus!
