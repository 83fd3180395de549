use intel_cpu_manager::status::{append_ghz, frequency_line_text, status_lines, Status};
use intel_cpu_manager::text::{decimal_string, governor_from_contents, policy_governor_path};

#[test]
fn decimal_numbers() {
    assert_eq!(decimal_string(0), "0");
    assert_eq!(decimal_string(7), "7");
    assert_eq!(decimal_string(10), "10");
    assert_eq!(decimal_string(1234567890), "1234567890");
    assert_eq!(decimal_string(u64::MAX), "18446744073709551615");
}

#[test]
fn governor_paths() {
    assert_eq!(
        policy_governor_path(0),
        "/sys/devices/system/cpu/cpufreq/policy0/scaling_governor"
    );
    assert_eq!(
        policy_governor_path(12),
        "/sys/devices/system/cpu/cpufreq/policy12/scaling_governor"
    );
}

#[test]
fn governor_contents_are_trimmed() {
    assert_eq!(governor_from_contents("powersave\n"), "powersave");
    assert_eq!(governor_from_contents("  performance \t\r\n"), "performance");
    assert_eq!(governor_from_contents("\u{3000}schedutil\u{a0}"), "schedutil");
    assert_eq!(governor_from_contents("a b"), "a b");
    assert_eq!(governor_from_contents(" \n "), "");
    assert_eq!(governor_from_contents(""), "");
}

fn ghz(mhz: u64) -> String {
    let mut s = String::new();
    append_ghz(&mut s, mhz);
    s
}

#[test]
fn frequencies_in_ghz() {
    assert_eq!(ghz(2400), "2.4");
    assert_eq!(ghz(3000), "3");
    assert_eq!(ghz(800), "0.8");
    assert_eq!(ghz(1234), "1.234");
    assert_eq!(ghz(4005), "4.005");
    assert_eq!(ghz(4050), "4.05");
    assert_eq!(ghz(0), "0");
    for mhz in [0u64, 800, 1234, 2400, 3000, 4005, 4050, 4999] {
        assert_eq!(ghz(mhz), format!("{}", mhz as f32 / 1000.0));
    }
}

#[test]
fn frequency_line() {
    assert_eq!(frequency_line_text(3, 2400), "cpu3 freq:\t\x1b[33m2.4GHz\x1b[0m");
}

#[test]
fn status_report_lines() {
    let st = Status {
        no_turbo: true,
        hwp_dynamic_boost: Some(true),
        min_perf_pct: 0,
        max_perf_pct: 50,
        governor: "powersave".to_string(),
        cpu_temp: Some("47.5".to_string()),
        cpu_freqs_mhz: vec![2400, 800],
    };
    let lines = status_lines(&st);
    assert_eq!(
        lines,
        vec![
            "turbo:\t\t\x1b[33mfalse\x1b[0m".to_string(),
            "dynamic_boost:\t\x1b[33mSome(true)\x1b[0m".to_string(),
            "perf_pct_range:\t\x1b[33m[0%,50%]\x1b[0m".to_string(),
            "cpu governor:\t\x1b[33mpowersave\x1b[0m".to_string(),
            "cpu temp:\t\x1b[33m47.5\u{b0}C\x1b[0m".to_string(),
            String::new(),
            "cpu0 freq:\t\x1b[33m2.4GHz\x1b[0m".to_string(),
            "cpu1 freq:\t\x1b[33m0.8GHz\x1b[0m".to_string(),
        ]
    );
}

#[test]
fn status_report_without_optional_fields() {
    let st = Status {
        no_turbo: false,
        hwp_dynamic_boost: None,
        min_perf_pct: 10,
        max_perf_pct: 100,
        governor: "performance".to_string(),
        cpu_temp: None,
        cpu_freqs_mhz: vec![],
    };
    let lines = status_lines(&st);
    assert_eq!(lines.len(), 6);
    assert_eq!(lines[0], "turbo:\t\t\x1b[33mtrue\x1b[0m");
    assert_eq!(lines[1], "dynamic_boost:\t\x1b[33mNone\x1b[0m");
    assert_eq!(lines[2], "perf_pct_range:\t\x1b[33m[10%,100%]\x1b[0m");
    assert_eq!(lines[4], "cpu temp:\t\x1b[33m0\u{b0}C\x1b[0m");
    assert_eq!(lines[5], "");
}
