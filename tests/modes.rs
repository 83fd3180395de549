use intel_cpu_manager::applier::{Action, Applier, Knob, Outcome, Stage};
use intel_cpu_manager::mode::{settings_for, Governor, Mode, Settings};

/// Runs an applier, answering each action from `exists` (the policies
/// present) and `fails` (the actions that fail); returns every action asked.
fn run(mode: Mode, policies: &[bool], fails: &[Action]) -> Vec<Action> {
    let mut a = Applier::new(mode);
    let mut seen = Vec::new();
    loop {
        let act = a.action();
        seen.push(act);
        if a.is_finished() {
            return seen;
        }
        let ok = match act {
            Action::CheckPolicy(i) => policies.get(i as usize).copied().unwrap_or(false),
            other => !fails.contains(&other),
        };
        a.advance(if ok { Outcome::Success } else { Outcome::Failure });
    }
}

#[test]
fn powersave_caps_performance_and_disables_turbo() {
    let s = settings_for(Mode::PowerSave);
    assert_eq!(s.max_perf_pct, 50);
    assert_eq!(s.min_perf_pct, 0);
    assert!(s.no_turbo);
    assert!(!s.hwp_dynamic_boost);
    assert_eq!(s.governor, Governor::Powersave);
    assert_eq!(s.governor.name(), "powersave");
}

#[test]
fn performance_opens_range_without_turbo() {
    let s = settings_for(Mode::Performance);
    assert_eq!(
        s,
        Settings {
            hwp_dynamic_boost: true,
            min_perf_pct: 0,
            max_perf_pct: 100,
            no_turbo: true,
            governor: Governor::Performance,
        }
    );
    assert_eq!(s.governor.name(), "performance");
}

#[test]
fn turbo_opens_range_with_turbo() {
    let s = settings_for(Mode::Turbo);
    assert_eq!(s.max_perf_pct, 100);
    assert_eq!(s.min_perf_pct, 0);
    assert!(!s.no_turbo);
    assert!(s.hwp_dynamic_boost);
    assert_eq!(s.governor, Governor::Performance);
}

#[test]
fn full_powersave_run_writes_in_order() {
    let seen = run(Mode::PowerSave, &[true, true], &[]);
    assert_eq!(
        seen,
        vec![
            Action::SetDynamicBoost(false),
            Action::SetMinPerfPct(0),
            Action::SetMaxPerfPct(50),
            Action::SetNoTurbo(true),
            Action::CheckPolicy(0),
            Action::SetGovernor(0, Governor::Powersave),
            Action::CheckPolicy(1),
            Action::SetGovernor(1, Governor::Powersave),
            Action::CheckPolicy(2),
            Action::Done,
        ]
    );
}

#[test]
fn turbo_run_clears_no_turbo() {
    let seen = run(Mode::Turbo, &[true], &[]);
    assert_eq!(seen[3], Action::SetNoTurbo(false));
    assert_eq!(seen[2], Action::SetMaxPerfPct(100));
    assert_eq!(seen[5], Action::SetGovernor(0, Governor::Performance));
    assert_eq!(*seen.last().unwrap(), Action::Done);
}

#[test]
fn governor_loop_stops_at_first_missing_policy() {
    // Policy 2 is missing; policy 3 exists but is never reached.
    let seen = run(Mode::Performance, &[true, true, false, true], &[]);
    let writes: Vec<u32> = seen
        .iter()
        .filter_map(|a| match a {
            Action::SetGovernor(i, _) => Some(*i),
            _ => None,
        })
        .collect();
    assert_eq!(writes, vec![0, 1]);
    assert_eq!(seen[seen.len() - 2], Action::CheckPolicy(2));
    assert_eq!(*seen.last().unwrap(), Action::Done);
}

#[test]
fn no_policies_still_succeeds() {
    let seen = run(Mode::Performance, &[], &[]);
    assert_eq!(seen.len(), 6);
    assert_eq!(seen[4], Action::CheckPolicy(0));
    assert_eq!(seen[5], Action::Done);
}

#[test]
fn dynamic_boost_failure_is_ignored() {
    let seen = run(Mode::Performance, &[true], &[Action::SetDynamicBoost(true)]);
    assert_eq!(seen[1], Action::SetMinPerfPct(0));
    assert_eq!(*seen.last().unwrap(), Action::Done);
}

#[test]
fn min_perf_failure_aborts_before_later_writes() {
    let seen = run(Mode::PowerSave, &[true], &[Action::SetMinPerfPct(0)]);
    assert_eq!(
        seen,
        vec![
            Action::SetDynamicBoost(false),
            Action::SetMinPerfPct(0),
            Action::Abort(Knob::MinPerfPct),
        ]
    );
}

#[test]
fn max_perf_failure_aborts() {
    let seen = run(Mode::Turbo, &[true], &[Action::SetMaxPerfPct(100)]);
    assert_eq!(seen.len(), 4);
    assert_eq!(seen[3], Action::Abort(Knob::MaxPerfPct));
}

#[test]
fn no_turbo_failure_aborts() {
    let seen = run(Mode::Performance, &[true], &[Action::SetNoTurbo(true)]);
    assert_eq!(seen.len(), 5);
    assert_eq!(seen[4], Action::Abort(Knob::NoTurbo));
}

#[test]
fn governor_failure_keeps_earlier_policies_written() {
    let seen = run(
        Mode::Performance,
        &[true, true, true],
        &[Action::SetGovernor(1, Governor::Performance)],
    );
    assert!(seen.contains(&Action::SetGovernor(0, Governor::Performance)));
    assert!(!seen.contains(&Action::CheckPolicy(2)));
    assert_eq!(*seen.last().unwrap(), Action::Abort(Knob::Governor(1)));
}

#[test]
fn finished_applier_stays_finished() {
    let mut a = Applier::new(Mode::PowerSave);
    a.stage = Stage::Finished;
    a.advance(Outcome::Failure);
    assert_eq!(a.action(), Action::Done);
    a.stage = Stage::Failed(Knob::NoTurbo);
    a.advance(Outcome::Success);
    assert_eq!(a.action(), Action::Abort(Knob::NoTurbo));
}

#[test]
fn last_policy_index_ends_the_loop() {
    let mut a = Applier::new(Mode::Performance);
    a.stage = Stage::SetGovernor(u32::MAX);
    a.advance(Outcome::Success);
    assert_eq!(a.action(), Action::Done);
}
