//! Equalizer presets as the tray and the popup see them.

use vstd::prelude::*;

verus! {

/// Number of equalizer bands (32 Hz to 16 kHz).
pub const NUM_BANDS: usize = 10;

/// Commands sent from the tray to the main loop.
#[derive(Debug)]
pub enum TrayCommand {
    ApplyEqPreset(String),
}

/// State snapshot sent to the popup for rendering.
#[derive(Debug)]
pub struct PopupState {
    pub presets: Vec<String>,
    pub active_preset: Option<String>,
    pub synced: bool,
    pub is_connected: bool,
}

/// Commands from the tray or the main thread to the popup window.
#[derive(Debug)]
pub enum PopupCommand {
    /// Show the popup at the given screen coordinates (or toggle it if visible).
    Show { x: i32, y: i32, state: PopupState },
    /// Hide the popup, e.g. when the headset disconnects.
    Hide,
    /// Update the popup's state without changing its visibility.
    UpdateState(PopupState),
}

/// Controls the equalizer popup; implemented by the windowing layer.
pub trait EqPopupController {
    fn send(&self, cmd: PopupCommand);
}

/// The preset last chosen, and whether the headset is known to hold it.
#[derive(Debug)]
pub struct SelectedProfile {
    pub active_preset: Option<String>,
    pub synced: bool,
}

impl Default for SelectedProfile {
    fn default() -> (r: SelectedProfile)
        ensures
            r.active_preset is None,
            !r.synced,
    {
        SelectedProfile { active_preset: None, synced: false }
    }
}

/// A named equalizer curve: one gain per band, in hundredths of a decibel.
#[derive(Debug)]
pub struct EqPreset {
    pub name: String,
    pub bands: [i32; NUM_BANDS],
}

/// The gains of the built-in presets, in the order of `builtin_names`.
pub open spec fn builtin_bands() -> Seq<Seq<i32>> {
    seq![
        seq![0i32, 0, 0, 0, 0, 0, 0, 0, 0, 0],
        seq![600i32, 500, 300, 100, 0, 0, 0, 0, 0, 0],
        seq![0i32, 0, 0, 0, 0, 100, 200, 400, 500, 600],
        seq![500i32, 400, 200, 0, -200i32, -200i32, 0, 200, 400, 500],
        seq![-200i32, -100i32, 0, 200, 400, 400, 300, 100, 0, -100i32],
    ]
}

fn preset(name: &str, bands: [i32; NUM_BANDS]) -> (r: EqPreset)
    ensures
        r.name@ == name@,
        r.bands@ == bands@,
{
    EqPreset { name: name.to_owned(), bands }
}

/// The presets that ship with the library.
pub fn builtin_presets() -> (r: Vec<EqPreset>)
    ensures
        r@.len() == 5,
        forall|i: int|
            0 <= i < 5 ==> #[trigger] r@[i].name@ == builtin_names()[i] && r@[i].bands@
                == builtin_bands()[i],
{
    let r = vec![
        preset("Flat", [0, 0, 0, 0, 0, 0, 0, 0, 0, 0]),
        preset("Bass Boost", [600, 500, 300, 100, 0, 0, 0, 0, 0, 0]),
        preset("Treble Boost", [0, 0, 0, 0, 0, 100, 200, 400, 500, 600]),
        preset("V-Shape", [500, 400, 200, 0, -200, -200, 0, 200, 400, 500]),
        preset("Vocal", [-200, -100, 0, 200, 400, 400, 300, 100, 0, -100]),
    ];
    assert(r@[0].bands@ =~= builtin_bands()[0]);
    assert(r@[1].bands@ =~= builtin_bands()[1]);
    assert(r@[2].bands@ =~= builtin_bands()[2]);
    assert(r@[3].bands@ =~= builtin_bands()[3]);
    assert(r@[4].bands@ =~= builtin_bands()[4]);
    r
}

/// The names of the presets that ship with the library.
pub open spec fn builtin_names() -> Seq<Seq<char>> {
    seq!["Flat"@, "Bass Boost"@, "Treble Boost"@, "V-Shape"@, "Vocal"@]
}

/// Whether `name` is the name of a built-in preset.
pub fn is_builtin(name: &str) -> (r: bool)
    ensures
        r == builtin_names().contains(name@),
{
    let n = name.to_owned();
    let presets = builtin_presets();
    let mut i: usize = 0;
    while i < 5
        invariant
            i <= 5,
            n@ == name@,
            presets@.len() == 5,
            forall|k: int| 0 <= k < 5 ==> #[trigger] presets@[k].name@ == builtin_names()[k],
            forall|k: int| 0 <= k < i ==> builtin_names()[k] != name@,
        decreases 5 - i,
    {
        if presets[i].name == n {
            assert(builtin_names()[i as int] == name@);
            return true;
        }
        i = i + 1;
    }
    assert(!builtin_names().contains(name@)) by {
        if builtin_names().contains(name@) {
            let k = choose|k: int| 0 <= k < builtin_names().len() && builtin_names()[k] == name@;
            assert(0 <= k < 5);
        }
    }
    false
}

/// The position of the active preset among the preset names, if it is listed.
pub fn active_preset_index(presets: &Vec<String>, active: &Option<String>) -> (r: Option<usize>)
    ensures
        match *active {
            None => r is None,
            Some(name) => match r {
                Some(i) => i < presets@.len() && presets@[i as int]@ == name@ && forall|k: int|
                    0 <= k < i ==> presets@[k]@ != name@,
                None => forall|k: int| 0 <= k < presets@.len() ==> presets@[k]@ != name@,
            },
        },
{
    match active {
        None => None,
        Some(name) => {
            let mut i: usize = 0;
            while i < presets.len()
                invariant
                    i <= presets@.len(),
                    *active == Some(*name),
                    forall|k: int| 0 <= k < i ==> presets@[k]@ != name@,
                decreases presets@.len() - i,
            {
                if presets[i] == *name {
                    return Some(i);
                }
                i = i + 1;
            }
            None
        },
    }
}

} // verus!
