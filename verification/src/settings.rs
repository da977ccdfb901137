//! The declarative settings model for one light fixture.

use vstd::prelude::*;

verus! {

/// Rendering mode of a fixture: hue/saturation/intensity, or correlated
/// colour temperature.
#[derive(Clone, Copy, PartialEq, Eq, Structural, Debug)]
pub enum LightMode {
    Hsi,
    Cct,
}

/// The state of the settings that should be written to a light.
///
/// Two snapshots are equal iff every field matches exactly.
#[derive(Clone, Copy, PartialEq, Eq, Structural, Debug)]
pub struct LightSettingsState {
    /// Range: [0, 0x53)
    pub hue: u8,

    /// Range: [0, 100]
    pub intensity: u8,

    /// Range: [0, 100]
    pub saturation: u8,

    /// Range: [0, 24]; each unit is one 133.33 K step above the 3200 K floor,
    /// covering 3200 K to 5600 K.
    pub temperature: u8,

    pub mode: LightMode,
    pub enabled: bool,
}

impl LightSettingsState {
    /// Every scalar field lies within its documented domain.
    pub open spec fn valid(self) -> bool {
        &&& self.hue < 83
        &&& self.saturation <= 100
        &&& self.intensity <= 100
        &&& self.temperature <= 24
    }

    /// The snapshot a fresh session starts from.
    pub open spec fn spec_default() -> LightSettingsState {
        LightSettingsState {
            hue: 0,
            intensity: 50,
            saturation: 100,
            temperature: 0,
            mode: LightMode::Cct,
            enabled: true,
        }
    }
}

impl Default for LightSettingsState {
    fn default() -> (s: Self)
        ensures
            s == LightSettingsState::spec_default(),
            s.valid(),
    {
        LightSettingsState {
            hue: 0,
            intensity: 50,
            saturation: 100,
            temperature: 0,
            mode: LightMode::Cct,
            enabled: true,
        }
    }
}

} // verus!
