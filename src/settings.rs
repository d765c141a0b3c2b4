use vstd::prelude::*;

use crate::error::CommandError;

verus! {

/// Highest noise-cancelling level (full noise cancelling).
pub const MAX_NOISE_CANCELLING: u8 = 2;

/// Highest ambient volume step.
pub const MAX_VOLUME: u8 = 19;

/// Highest value of the voice passthrough toggle.
pub const MAX_VOICE: u8 = 1;

/// The logical headset settings that one control packet carries.
#[derive(Debug, Clone, Copy, PartialEq, Eq, Structural)]
pub struct Settings {
    /// Active processing on or off.
    pub enabled: bool,
    /// 0: ambient / off, 1: wind cancelling, 2: full noise cancelling.
    pub noise_cancelling_level: u8,
    /// Ambient volume step, 0 to 19.
    pub volume: u8,
    /// Voice passthrough toggle, 0 or 1.
    pub voice_passthrough: u8,
}

/// The ranges of the four fields, as plain values.
pub open spec fn fields_in_range(noise_cancelling_level: u8, volume: u8, voice: u8) -> bool {
    &&& noise_cancelling_level <= MAX_NOISE_CANCELLING
    &&& volume <= MAX_VOLUME
    &&& voice <= MAX_VOICE
}

impl Settings {
    /// Every field lies within its declared range.
    pub open spec fn wf(&self) -> bool {
        fields_in_range(self.noise_cancelling_level, self.volume, self.voice_passthrough)
    }

    /// Builds settings from raw field values, rejecting any that lie out of range.
    pub fn new(enabled: bool, noise_cancelling_level: u8, volume: u8, voice_passthrough: u8) -> (r:
        Result<Settings, CommandError>)
        ensures
            fields_in_range(noise_cancelling_level, volume, voice_passthrough) <==> r is Ok,
            r is Ok ==> r->Ok_0 == (Settings {
                enabled,
                noise_cancelling_level,
                volume,
                voice_passthrough,
            }),
            r is Ok ==> r->Ok_0.wf(),
            r is Err ==> r->Err_0 == CommandError::InvalidSettings,
    {
        if noise_cancelling_level > MAX_NOISE_CANCELLING || volume > MAX_VOLUME || voice_passthrough
            > MAX_VOICE {
            Err(CommandError::InvalidSettings)
        } else {
            Ok(Settings { enabled, noise_cancelling_level, volume, voice_passthrough })
        }
    }
}

} // verus!
