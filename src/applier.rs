//! The ordered sequence of writes that applies a mode.
//!
//! An [`Applier`] names the next action to perform; the caller performs it
//! and reports the [`Outcome`] back. The dynamic boost write is best-effort,
//! every other write is required: the first failure of a required write ends
//! the sequence. Governor writes walk the CPU policies from index 0 and stop
//! at the first policy that does not exist.

use vstd::prelude::*;
use crate::mode::{Governor, Mode, Settings, settings_for, settings_spec};

verus! {

/// A required write whose failure aborted the sequence.
#[derive(Clone, Copy, Debug, PartialEq, Eq, Structural)]
pub enum Knob {
    MinPerfPct,
    MaxPerfPct,
    NoTurbo,
    /// The governor file of the CPU policy with this index.
    Governor(u32),
}

/// What the caller is asked to do next.
#[derive(Clone, Copy, Debug, PartialEq, Eq, Structural)]
pub enum Action {
    SetDynamicBoost(bool),
    SetMinPerfPct(u8),
    SetMaxPerfPct(u8),
    SetNoTurbo(bool),
    /// Check whether the CPU policy with this index exists.
    CheckPolicy(u32),
    /// Write the governor's name to the CPU policy with this index.
    SetGovernor(u32, Governor),
    /// Every write succeeded.
    Done,
    /// The named required write failed; nothing after it was attempted.
    Abort(Knob),
}

/// How the last action went. For [`Action::CheckPolicy`], `Success` means
/// that the policy exists and `Failure` that it does not.
#[derive(Clone, Copy, Debug, PartialEq, Eq, Structural)]
pub enum Outcome {
    Success,
    Failure,
}

/// Where an [`Applier`] stands in the sequence.
#[derive(Clone, Copy, Debug, PartialEq, Eq, Structural)]
pub enum Stage {
    DynamicBoost,
    MinPerfPct,
    MaxPerfPct,
    NoTurbo,
    CheckPolicy(u32),
    SetGovernor(u32),
    Finished,
    Failed(Knob),
}

impl Stage {
    /// The sequence is over: nothing more is asked of the caller.
    pub open spec fn is_terminal(self) -> bool {
        self is Finished || self is Failed
    }
}

/// The action asked for at `stage`.
pub open spec fn action_spec(stage: Stage, s: Settings) -> Action {
    match stage {
        Stage::DynamicBoost => Action::SetDynamicBoost(s.hwp_dynamic_boost),
        Stage::MinPerfPct => Action::SetMinPerfPct(s.min_perf_pct),
        Stage::MaxPerfPct => Action::SetMaxPerfPct(s.max_perf_pct),
        Stage::NoTurbo => Action::SetNoTurbo(s.no_turbo),
        Stage::CheckPolicy(i) => Action::CheckPolicy(i),
        Stage::SetGovernor(i) => Action::SetGovernor(i, s.governor),
        Stage::Finished => Action::Done,
        Stage::Failed(k) => Action::Abort(k),
    }
}

/// The stage after the action of `stage` ended with `outcome`.
pub open spec fn advance_spec(stage: Stage, outcome: Outcome) -> Stage {
    match stage {
        Stage::DynamicBoost => Stage::MinPerfPct,
        Stage::MinPerfPct => if outcome is Success {
            Stage::MaxPerfPct
        } else {
            Stage::Failed(Knob::MinPerfPct)
        },
        Stage::MaxPerfPct => if outcome is Success {
            Stage::NoTurbo
        } else {
            Stage::Failed(Knob::MaxPerfPct)
        },
        Stage::NoTurbo => if outcome is Success {
            Stage::CheckPolicy(0)
        } else {
            Stage::Failed(Knob::NoTurbo)
        },
        Stage::CheckPolicy(i) => if outcome is Success {
            Stage::SetGovernor(i)
        } else {
            Stage::Finished
        },
        Stage::SetGovernor(i) => if outcome is Failure {
            Stage::Failed(Knob::Governor(i))
        } else if i < u32::MAX {
            Stage::CheckPolicy((i + 1) as u32)
        } else {
            Stage::Finished
        },
        Stage::Finished => Stage::Finished,
        Stage::Failed(k) => Stage::Failed(k),
    }
}

/// The actions asked for from `stage` on, when the caller reports
/// `outcomes` in turn; it ends with the first terminal action, or with the
/// action that is still waiting when the outcomes run out.
pub open spec fn trace(stage: Stage, s: Settings, outcomes: Seq<Outcome>) -> Seq<Action>
    decreases outcomes.len(),
{
    if stage.is_terminal() || outcomes.len() == 0 {
        seq![action_spec(stage, s)]
    } else {
        seq![action_spec(stage, s)] + trace(advance_spec(stage, outcomes[0]), s, outcomes.drop_first())
    }
}

/// Applies a mode one action at a time.
pub struct Applier {
    pub settings: Settings,
    pub stage: Stage,
}

impl Applier {
    /// An applier for `mode`, about to write the dynamic boost flag.
    pub fn new(mode: Mode) -> (a: Applier)
        ensures
            a.settings == settings_spec(mode),
            a.stage == Stage::DynamicBoost,
    {
        Applier { settings: settings_for(mode), stage: Stage::DynamicBoost }
    }

    /// The action to perform now.
    pub fn action(&self) -> (r: Action)
        ensures
            r == action_spec(self.stage, self.settings),
    {
        let s = self.settings;
        match self.stage {
            Stage::DynamicBoost => Action::SetDynamicBoost(s.hwp_dynamic_boost),
            Stage::MinPerfPct => Action::SetMinPerfPct(s.min_perf_pct),
            Stage::MaxPerfPct => Action::SetMaxPerfPct(s.max_perf_pct),
            Stage::NoTurbo => Action::SetNoTurbo(s.no_turbo),
            Stage::CheckPolicy(i) => Action::CheckPolicy(i),
            Stage::SetGovernor(i) => Action::SetGovernor(i, s.governor),
            Stage::Finished => Action::Done,
            Stage::Failed(k) => Action::Abort(k),
        }
    }

    /// The sequence is over; `action` returns `Done` or `Abort`.
    pub fn is_finished(&self) -> (r: bool)
        ensures
            r == self.stage.is_terminal(),
    {
        matches!(self.stage, Stage::Finished | Stage::Failed(_))
    }

    /// Records how the current action went and moves to the next one. A
    /// failed dynamic boost write is ignored; a failed required write ends
    /// the sequence with that write named; a missing policy ends it with
    /// success. Once over, the sequence stays over.
    pub fn advance(&mut self, outcome: Outcome)
        ensures
            final(self).settings == old(self).settings,
            final(self).stage == advance_spec(old(self).stage, outcome),
    {
        let next = match self.stage {
            Stage::DynamicBoost => Stage::MinPerfPct,
            Stage::MinPerfPct => match outcome {
                Outcome::Success => Stage::MaxPerfPct,
                Outcome::Failure => Stage::Failed(Knob::MinPerfPct),
            },
            Stage::MaxPerfPct => match outcome {
                Outcome::Success => Stage::NoTurbo,
                Outcome::Failure => Stage::Failed(Knob::MaxPerfPct),
            },
            Stage::NoTurbo => match outcome {
                Outcome::Success => Stage::CheckPolicy(0),
                Outcome::Failure => Stage::Failed(Knob::NoTurbo),
            },
            Stage::CheckPolicy(i) => match outcome {
                Outcome::Success => Stage::SetGovernor(i),
                Outcome::Failure => Stage::Finished,
            },
            Stage::SetGovernor(i) => match outcome {
                Outcome::Failure => Stage::Failed(Knob::Governor(i)),
                Outcome::Success => if i < u32::MAX {
                    Stage::CheckPolicy(i + 1)
                } else {
                    Stage::Finished
                },
            },
            Stage::Finished => Stage::Finished,
            Stage::Failed(k) => Stage::Failed(k),
        };
        self.stage = next;
    }
}

/// The governor actions for the policies `from..n`: each is checked, then
/// written with `g`.
pub open spec fn governor_actions(from: nat, n: nat, g: Governor) -> Seq<Action>
    decreases n - from,
{
    if from >= n {
        seq![]
    } else {
        seq![Action::CheckPolicy(from as u32), Action::SetGovernor(from as u32, g)]
            + governor_actions(from + 1, n, g)
    }
}

/// The outcomes that the caller reports from the check of policy `from` on
/// when the policies `from..n` exist, the policy `n` does not, and every
/// governor write succeeds.
pub open spec fn policy_outcomes(from: nat, n: nat) -> Seq<Outcome>
    decreases n - from,
{
    if from >= n {
        seq![Outcome::Failure]
    } else {
        seq![Outcome::Success, Outcome::Success] + policy_outcomes(from + 1, n)
    }
}

/// The required write made at `stage`, if it makes one.
pub open spec fn required_knob(stage: Stage) -> Option<Knob> {
    match stage {
        Stage::MinPerfPct => Some(Knob::MinPerfPct),
        Stage::MaxPerfPct => Some(Knob::MaxPerfPct),
        Stage::NoTurbo => Some(Knob::NoTurbo),
        Stage::SetGovernor(i) => Some(Knob::Governor(i)),
        _ => None,
    }
}

/// The governor loop writes every policy below the first missing one, in
/// order, checks the missing one, and stops there: whatever the caller
/// would report afterwards asks for nothing more.
pub proof fn lemma_governor_loop_stops_at_first_missing(
    from: nat,
    n: nat,
    s: Settings,
    rest: Seq<Outcome>,
)
    requires
        from <= n <= u32::MAX,
    ensures
        trace(Stage::CheckPolicy(from as u32), s, policy_outcomes(from, n) + rest)
            == governor_actions(from, n, s.governor) + seq![Action::CheckPolicy(n as u32), Action::Done],
    decreases n - from,
{
    let outs = policy_outcomes(from, n) + rest;
    if from >= n {
        assert(outs[0] == Outcome::Failure);
        assert(trace(Stage::Finished, s, outs.drop_first()) == seq![Action::Done]);
        assert(governor_actions(from, n, s.governor) =~= seq![]);
        assert(trace(Stage::CheckPolicy(from as u32), s, outs)
            =~= seq![Action::CheckPolicy(n as u32), Action::Done]);
    } else {
        let tail = policy_outcomes(from + 1, n) + rest;
        assert(outs =~= seq![Outcome::Success, Outcome::Success] + tail);
        assert(outs.drop_first() =~= seq![Outcome::Success] + tail);
        assert((seq![Outcome::Success] + tail).drop_first() =~= tail);
        lemma_governor_loop_stops_at_first_missing(from + 1, n, s, rest);
        assert(advance_spec(Stage::SetGovernor(from as u32), Outcome::Success)
            == Stage::CheckPolicy((from + 1) as u32));
        let later = governor_actions(from + 1, n, s.governor) + seq![
            Action::CheckPolicy(n as u32),
            Action::Done,
        ];
        assert(trace(Stage::SetGovernor(from as u32), s, seq![Outcome::Success] + tail)
            =~= seq![Action::SetGovernor(from as u32, s.governor)] + later);
        assert(trace(Stage::CheckPolicy(from as u32), s, outs) =~= seq![
            Action::CheckPolicy(from as u32),
            Action::SetGovernor(from as u32, s.governor),
        ] + later);
        assert(governor_actions(from, n, s.governor) == seq![
            Action::CheckPolicy(from as u32),
            Action::SetGovernor(from as u32, s.governor),
        ] + governor_actions(from + 1, n, s.governor));
        assert(trace(Stage::CheckPolicy(from as u32), s, outs) =~= governor_actions(from, n, s.governor)
            + seq![Action::CheckPolicy(n as u32), Action::Done]);
    }
}

/// A failed required write ends the sequence at once: the next action is
/// the abort naming that write, and no later write is asked for, whatever
/// the caller would report afterwards.
pub proof fn lemma_required_failure_aborts(stage: Stage, s: Settings, rest: Seq<Outcome>)
    requires
        required_knob(stage) is Some,
    ensures
        trace(stage, s, seq![Outcome::Failure] + rest)
            == seq![action_spec(stage, s), Action::Abort(required_knob(stage)->0)],
{
    let outs = seq![Outcome::Failure] + rest;
    assert(outs[0] == Outcome::Failure);
    let next = advance_spec(stage, Outcome::Failure);
    assert(next == Stage::Failed(required_knob(stage)->0));
    assert(trace(next, s, outs.drop_first()) == seq![Action::Abort(required_knob(stage)->0)]);
    assert(trace(stage, s, outs) =~= seq![action_spec(stage, s), Action::Abort(required_knob(stage)->0)]);
}

/// Applying `mode` on a machine with the policies `0..n`: the dynamic boost
/// flag is written whether or not that write succeeds, then the minimum,
/// maximum and turbo flag of the mode, then the governor of every policy
/// in order, and the sequence ends with success at the missing policy `n`.
pub proof fn lemma_full_run(mode: Mode, n: nat, boost: Outcome, rest: Seq<Outcome>)
    requires
        n <= u32::MAX,
    ensures
        ({
            let s = settings_spec(mode);
            trace(
                Stage::DynamicBoost,
                s,
                seq![boost, Outcome::Success, Outcome::Success, Outcome::Success]
                    + policy_outcomes(0, n) + rest,
            ) == seq![
                Action::SetDynamicBoost(s.hwp_dynamic_boost),
                Action::SetMinPerfPct(0),
                Action::SetMaxPerfPct(s.max_perf_pct),
                Action::SetNoTurbo(s.no_turbo),
            ] + governor_actions(0, n, s.governor) + seq![Action::CheckPolicy(n as u32), Action::Done]
        }),
{
    let s = settings_spec(mode);
    let tail = policy_outcomes(0, n) + rest;
    let o4 = seq![boost, Outcome::Success, Outcome::Success, Outcome::Success] + policy_outcomes(0, n)
        + rest;
    let o3 = seq![Outcome::Success, Outcome::Success, Outcome::Success] + tail;
    let o2 = seq![Outcome::Success, Outcome::Success] + tail;
    let o1 = seq![Outcome::Success] + tail;
    assert(o4.drop_first() =~= o3);
    assert(o3.drop_first() =~= o2);
    assert(o2.drop_first() =~= o1);
    assert(o1.drop_first() =~= tail);
    assert(o4[0] == boost);
    assert(o3[0] == Outcome::Success);
    assert(o2[0] == Outcome::Success);
    assert(o1[0] == Outcome::Success);
    lemma_governor_loop_stops_at_first_missing(0, n, s, rest);
    let g = governor_actions(0, n, s.governor) + seq![Action::CheckPolicy(n as u32), Action::Done];
    assert(trace(Stage::NoTurbo, s, o1) =~= seq![Action::SetNoTurbo(s.no_turbo)] + g);
    assert(trace(Stage::MaxPerfPct, s, o2) =~= seq![
        Action::SetMaxPerfPct(s.max_perf_pct),
        Action::SetNoTurbo(s.no_turbo),
    ] + g);
    assert(trace(Stage::MinPerfPct, s, o3) =~= seq![
        Action::SetMinPerfPct(0),
        Action::SetMaxPerfPct(s.max_perf_pct),
        Action::SetNoTurbo(s.no_turbo),
    ] + g);
    assert(trace(Stage::DynamicBoost, s, o4) =~= seq![
        Action::SetDynamicBoost(s.hwp_dynamic_boost),
        Action::SetMinPerfPct(0),
        Action::SetMaxPerfPct(s.max_perf_pct),
        Action::SetNoTurbo(s.no_turbo),
    ] + g);
}

} // verus!
