//! Power modes and the settings each of them applies.

use vstd::prelude::*;

verus! {

/// A power mode that can be applied to the CPU.
#[derive(Clone, Copy, Debug, PartialEq, Eq, Structural)]
pub enum Mode {
    /// Favour low power: turbo off, performance capped at half.
    PowerSave,
    /// Full performance range with turbo boost disabled.
    Performance,
    /// Full performance range with turbo boost enabled.
    Turbo,
}

/// A CPU frequency scaling governor that a mode selects.
#[derive(Clone, Copy, Debug, PartialEq, Eq, Structural)]
pub enum Governor {
    Performance,
    Powersave,
}

impl Governor {
    /// The governor's name as the kernel spells it.
    pub open spec fn name_spec(self) -> Seq<char> {
        match self {
            Governor::Performance => "performance"@,
            Governor::Powersave => "powersave"@,
        }
    }

    /// The governor's name as the kernel spells it.
    pub fn name(&self) -> (r: &'static str)
        ensures
            r@ == self.name_spec(),
    {
        match self {
            Governor::Performance => "performance",
            Governor::Powersave => "powersave",
        }
    }
}

/// The values that applying a mode writes.
#[derive(Clone, Copy, Debug, PartialEq, Eq, Structural)]
pub struct Settings {
    /// Value for the HWP dynamic boost flag (written best-effort).
    pub hwp_dynamic_boost: bool,
    /// Lower bound of the performance range, in percent.
    pub min_perf_pct: u8,
    /// Upper bound of the performance range, in percent.
    pub max_perf_pct: u8,
    /// Value for the flag that disables turbo boost.
    pub no_turbo: bool,
    /// Governor written to every CPU policy.
    pub governor: Governor,
}

impl Settings {
    /// The performance range is a valid range of percentages.
    pub open spec fn wf(self) -> bool {
        self.min_perf_pct <= self.max_perf_pct <= 100
    }
}

/// The settings of `mode`, field by field.
pub open spec fn settings_spec(mode: Mode) -> Settings {
    Settings {
        hwp_dynamic_boost: !(mode is PowerSave),
        min_perf_pct: 0,
        max_perf_pct: if mode is PowerSave { 50 } else { 100 },
        no_turbo: !(mode is Turbo),
        governor: if mode is PowerSave { Governor::Powersave } else { Governor::Performance },
    }
}

/// The settings that applying `mode` writes: power saving caps performance
/// at 50% and selects the powersave governor; the two performance modes
/// open the full range and select the performance governor, and differ only
/// in whether turbo boost stays disabled.
pub fn settings_for(mode: Mode) -> (s: Settings)
    ensures
        s == settings_spec(mode),
        s.wf(),
        s.min_perf_pct == 0,
        mode is PowerSave ==> s.max_perf_pct == 50 && s.no_turbo && !s.hwp_dynamic_boost
            && s.governor == Governor::Powersave,
        mode is Performance ==> s.max_perf_pct == 100 && s.no_turbo && s.hwp_dynamic_boost
            && s.governor == Governor::Performance,
        mode is Turbo ==> s.max_perf_pct == 100 && !s.no_turbo && s.hwp_dynamic_boost
            && s.governor == Governor::Performance,
{
    match mode {
        Mode::PowerSave => Settings {
            hwp_dynamic_boost: false,
            min_perf_pct: 0,
            max_perf_pct: 50,
            no_turbo: true,
            governor: Governor::Powersave,
        },
        Mode::Performance => Settings {
            hwp_dynamic_boost: true,
            min_perf_pct: 0,
            max_perf_pct: 100,
            no_turbo: true,
            governor: Governor::Performance,
        },
        Mode::Turbo => Settings {
            hwp_dynamic_boost: true,
            min_perf_pct: 0,
            max_perf_pct: 100,
            no_turbo: false,
            governor: Governor::Performance,
        },
    }
}

} // verus!
