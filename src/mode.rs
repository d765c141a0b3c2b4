use vstd::prelude::*;

use crate::error::CommandError;
use crate::packet::{encode, encoded, sum_bytes};
use crate::settings::Settings;

verus! {

/// The named operating modes of the headset.
#[derive(Debug, Clone, Copy, PartialEq, Eq, Structural)]
pub enum Mode {
    NoiseCancelling,
    WindCancelling,
    AmbientSound,
    Disable,
}

/// The mode that a name denotes, by exact comparison with the four literals.
pub open spec fn mode_named(name: Seq<char>) -> Option<Mode> {
    if name == "noise-cancelling"@ {
        Some(Mode::NoiseCancelling)
    } else if name == "wind-cancelling"@ {
        Some(Mode::WindCancelling)
    } else if name == "ambient-sound"@ {
        Some(Mode::AmbientSound)
    } else if name == "disable"@ {
        Some(Mode::Disable)
    } else {
        None
    }
}

/// Character-by-character equality of two strings.
fn same_text(a: &str, b: &str) -> (r: bool)
    ensures
        r == (a@ == b@),
{
    let n = a.unicode_len();
    if n != b.unicode_len() {
        return false;
    }
    let mut i: usize = 0;
    while i < n
        invariant
            n == a@.len(),
            n == b@.len(),
            i <= n,
            a@.take(i as int) == b@.take(i as int),
        decreases n - i,
    {
        if a.get_char(i) != b.get_char(i) {
            return false;
        }
        assert(a@.take(i as int + 1) =~= a@.take(i as int).push(a@[i as int]));
        assert(b@.take(i as int + 1) =~= b@.take(i as int).push(b@[i as int]));
        i = i + 1;
    }
    assert(a@ =~= a@.take(n as int));
    assert(b@ =~= b@.take(n as int));
    true
}

impl Mode {
    /// The canonical settings of each mode.
    pub open spec fn settings_spec(self) -> Settings {
        match self {
            Mode::NoiseCancelling => Settings {
                enabled: true,
                noise_cancelling_level: 2,
                volume: 0,
                voice_passthrough: 0,
            },
            Mode::WindCancelling => Settings {
                enabled: true,
                noise_cancelling_level: 1,
                volume: 0,
                voice_passthrough: 0,
            },
            Mode::AmbientSound => Settings {
                enabled: true,
                noise_cancelling_level: 0,
                volume: 19,
                voice_passthrough: 0,
            },
            Mode::Disable => Settings {
                enabled: false,
                noise_cancelling_level: 0,
                volume: 0,
                voice_passthrough: 0,
            },
        }
    }

    /// Looks a mode up by its exact name.
    pub fn from_name(name: &str) -> (r: Result<Mode, CommandError>)
        ensures
            mode_named(name@) is Some <==> r is Ok,
            r is Ok ==> r->Ok_0 == mode_named(name@)->Some_0,
            r is Err ==> r->Err_0 == CommandError::UnknownMode,
    {
        if same_text(name, "noise-cancelling") {
            Ok(Mode::NoiseCancelling)
        } else if same_text(name, "wind-cancelling") {
            Ok(Mode::WindCancelling)
        } else if same_text(name, "ambient-sound") {
            Ok(Mode::AmbientSound)
        } else if same_text(name, "disable") {
            Ok(Mode::Disable)
        } else {
            Err(CommandError::UnknownMode)
        }
    }

    /// The canonical settings of this mode; they are always in range.
    pub fn settings(self) -> (r: Settings)
        ensures
            r == self.settings_spec(),
            r.wf(),
    {
        match self {
            Mode::NoiseCancelling => Settings {
                enabled: true,
                noise_cancelling_level: 2,
                volume: 0,
                voice_passthrough: 0,
            },
            Mode::WindCancelling => Settings {
                enabled: true,
                noise_cancelling_level: 1,
                volume: 0,
                voice_passthrough: 0,
            },
            Mode::AmbientSound => Settings {
                enabled: true,
                noise_cancelling_level: 0,
                volume: 19,
                voice_passthrough: 0,
            },
            Mode::Disable => Settings {
                enabled: false,
                noise_cancelling_level: 0,
                volume: 0,
                voice_passthrough: 0,
            },
        }
    }
}

/// The settings of the mode with this exact name; any other name is an
/// unknown mode, and no settings come back.
pub fn resolve(mode_name: &str) -> (r: Result<Settings, CommandError>)
    ensures
        mode_named(mode_name@) is Some <==> r is Ok,
        r is Ok ==> r->Ok_0 == mode_named(mode_name@)->Some_0.settings_spec(),
        r is Ok ==> r->Ok_0.wf(),
        r is Err ==> r->Err_0 == CommandError::UnknownMode,
{
    match Mode::from_name(mode_name) {
        Ok(mode) => Ok(mode.settings()),
        Err(e) => Err(e),
    }
}

/// The control packet for the mode with this exact name; an unknown name
/// yields no packet.
pub fn packet_for_mode(mode_name: &str) -> (r: Result<[u8; 17], CommandError>)
    ensures
        mode_named(mode_name@) is Some <==> r is Ok,
        r is Ok ==> r->Ok_0@ == encoded(mode_named(mode_name@)->Some_0.settings_spec()),
        r is Err ==> r->Err_0 == CommandError::UnknownMode,
{
    match resolve(mode_name) {
        Ok(settings) => Ok(encode(&settings)),
        Err(e) => Err(e),
    }
}

/// Each mode's packet is a fixed seventeen-byte frame; the checksums are
/// 147, 146, 164 and 129 for noise cancelling, wind cancelling, ambient sound
/// and disable.
pub proof fn lemma_mode_packets(m: Mode)
    ensures
        encoded(m.settings_spec()) == match m {
            Mode::NoiseCancelling => seq![
                62u8, 12, 0, 0, 0, 0, 8, 104, 2, 16, 2, 2, 1, 0, 0, 147, 60,
            ],
            Mode::WindCancelling => seq![
                62u8, 12, 0, 0, 0, 0, 8, 104, 2, 16, 2, 1, 1, 0, 0, 146, 60,
            ],
            Mode::AmbientSound => seq![
                62u8, 12, 0, 0, 0, 0, 8, 104, 2, 16, 2, 0, 1, 0, 19, 164, 60,
            ],
            Mode::Disable => seq![62u8, 12, 0, 0, 0, 0, 8, 104, 2, 0, 2, 0, 1, 0, 0, 129, 60],
        },
{
    let s = m.settings_spec();
    reveal_with_fuel(sum_bytes, 15);
    assert(encoded(s) =~= match m {
        Mode::NoiseCancelling => seq![62u8, 12, 0, 0, 0, 0, 8, 104, 2, 16, 2, 2, 1, 0, 0, 147, 60],
        Mode::WindCancelling => seq![62u8, 12, 0, 0, 0, 0, 8, 104, 2, 16, 2, 1, 1, 0, 0, 146, 60],
        Mode::AmbientSound => seq![62u8, 12, 0, 0, 0, 0, 8, 104, 2, 16, 2, 0, 1, 0, 19, 164, 60],
        Mode::Disable => seq![62u8, 12, 0, 0, 0, 0, 8, 104, 2, 0, 2, 0, 1, 0, 0, 129, 60],
    });
}

} // verus!
