//! The status report: the power-management state, one line per field and
//! one line per CPU for its current frequency.

use vstd::prelude::*;
use crate::text::{append_decimal, decimal, digit_str, digit_text};

verus! {

/// The state that the status report shows.
pub struct Status {
    /// Turbo boost is disabled.
    pub no_turbo: bool,
    /// The HWP dynamic boost flag, `None` where the CPU lacks it.
    pub hwp_dynamic_boost: Option<bool>,
    pub min_perf_pct: u8,
    pub max_perf_pct: u8,
    /// The scaling governor of the first CPU policy.
    pub governor: String,
    /// The package temperature in degrees Celsius, already written as text;
    /// `None` where it could not be read.
    pub cpu_temp: Option<String>,
    /// The current frequency of each CPU, in MHz.
    pub cpu_freqs_mhz: Vec<u64>,
}

/// `v` in the colour of reported values.
pub open spec fn highlighted(v: Seq<char>) -> Seq<char> {
    "\x1b[33m"@ + v + "\x1b[0m"@
}

pub open spec fn bool_text(b: bool) -> Seq<char> {
    if b {
        "true"@
    } else {
        "false"@
    }
}

/// An optional flag as Rust's debug formatting writes it.
pub open spec fn optional_bool_text(o: Option<bool>) -> Seq<char> {
    match o {
        Some(b) => "Some("@ + bool_text(b) + ")"@,
        None => "None"@,
    }
}

/// A temperature's text, `0` where it is missing.
pub open spec fn temperature_text(t: Option<Seq<char>>) -> Seq<char> {
    match t {
        Some(x) => x,
        None => "0"@,
    }
}

/// The digits after the point of `f` thousandths (`f < 1000`), with the
/// point, and without trailing zeros; empty for zero.
pub open spec fn thousandths_text(f: nat) -> Seq<char> {
    if f == 0 {
        seq![]
    } else {
        "."@ + digit_text(f / 100) + if f % 100 == 0 {
            seq![]
        } else {
            digit_text(f / 10 % 10) + if f % 10 == 0 {
                seq![]
            } else {
                digit_text(f % 10)
            }
        }
    }
}

/// A frequency of `mhz` MHz in GHz, as the exact decimal without trailing
/// zeros: 2400 gives `2.4`, 3000 gives `3`, 800 gives `0.8`.
pub open spec fn ghz_text(mhz: nat) -> Seq<char> {
    decimal(mhz / 1000) + thousandths_text(mhz % 1000)
}

pub open spec fn turbo_line(no_turbo: bool) -> Seq<char> {
    "turbo:\t\t"@ + highlighted(bool_text(!no_turbo))
}

pub open spec fn dynamic_boost_line(boost: Option<bool>) -> Seq<char> {
    "dynamic_boost:\t"@ + highlighted(optional_bool_text(boost))
}

pub open spec fn perf_range_line(min: nat, max: nat) -> Seq<char> {
    "perf_pct_range:\t"@ + highlighted("["@ + decimal(min) + "%,"@ + decimal(max) + "%]"@)
}

pub open spec fn governor_line(governor: Seq<char>) -> Seq<char> {
    "cpu governor:\t"@ + highlighted(governor)
}

pub open spec fn temperature_line(t: Option<Seq<char>>) -> Seq<char> {
    "cpu temp:\t"@ + highlighted(temperature_text(t) + "\u{b0}C"@)
}

pub open spec fn frequency_line(cpu: nat, mhz: nat) -> Seq<char> {
    "cpu"@ + decimal(cpu) + " freq:\t"@ + highlighted(ghz_text(mhz) + "GHz"@)
}

/// The temperature of `st` as text, if it was read.
pub open spec fn temperature_of(st: &Status) -> Option<Seq<char>> {
    match st.cpu_temp {
        Some(t) => Some(t@),
        None => None,
    }
}

/// The lines of the report on `st`: turbo, dynamic boost, performance
/// range, governor and temperature, an empty line, then one line per CPU.
pub open spec fn status_lines_spec(st: &Status) -> Seq<Seq<char>> {
    seq![
        turbo_line(st.no_turbo),
        dynamic_boost_line(st.hwp_dynamic_boost),
        perf_range_line(st.min_perf_pct as nat, st.max_perf_pct as nat),
        governor_line(st.governor@),
        temperature_line(temperature_of(st)),
        seq![],
    ] + Seq::new(st.cpu_freqs_mhz@.len(), |i: int| frequency_line(i as nat, st.cpu_freqs_mhz@[i] as nat))
}

fn bool_str(b: bool) -> (r: &'static str)
    ensures
        r@ == bool_text(b),
{
    if b {
        "true"
    } else {
        "false"
    }
}

fn append_highlighted_start(out: &mut String)
    ensures
        final(out)@ == old(out)@ + "\x1b[33m"@,
{
    out.append("\x1b[33m");
}

fn append_highlighted_end(out: &mut String)
    ensures
        final(out)@ == old(out)@ + "\x1b[0m"@,
{
    out.append("\x1b[0m");
}

/// Appends `mhz` MHz written in GHz to `out`.
pub fn append_ghz(out: &mut String, mhz: u64)
    ensures
        final(out)@ == old(out)@ + ghz_text(mhz as nat),
{
    append_decimal(out, mhz / 1000);
    let f = mhz % 1000;
    if f != 0 {
        out.append(".");
        out.append(digit_str(f / 100));
        if f % 100 != 0 {
            out.append(digit_str(f / 10 % 10));
            if f % 10 != 0 {
                out.append(digit_str(f % 10));
            }
        }
    }
    assert(final(out)@ =~= old(out)@ + ghz_text(mhz as nat));
}

pub fn turbo_line_text(no_turbo: bool) -> (r: String)
    ensures
        r@ == turbo_line(no_turbo),
{
    let mut out = String::from_str("turbo:\t\t");
    append_highlighted_start(&mut out);
    out.append(bool_str(!no_turbo));
    append_highlighted_end(&mut out);
    assert(out@ =~= turbo_line(no_turbo));
    out
}

pub fn dynamic_boost_line_text(boost: Option<bool>) -> (r: String)
    ensures
        r@ == dynamic_boost_line(boost),
{
    let mut out = String::from_str("dynamic_boost:\t");
    append_highlighted_start(&mut out);
    match boost {
        Some(b) => {
            out.append("Some(");
            out.append(bool_str(b));
            out.append(")");
        },
        None => {
            out.append("None");
        },
    }
    append_highlighted_end(&mut out);
    assert(out@ =~= dynamic_boost_line(boost));
    out
}

pub fn perf_range_line_text(min: u8, max: u8) -> (r: String)
    ensures
        r@ == perf_range_line(min as nat, max as nat),
{
    let mut out = String::from_str("perf_pct_range:\t");
    append_highlighted_start(&mut out);
    out.append("[");
    append_decimal(&mut out, min as u64);
    out.append("%,");
    append_decimal(&mut out, max as u64);
    out.append("%]");
    append_highlighted_end(&mut out);
    assert(out@ =~= perf_range_line(min as nat, max as nat));
    out
}

pub fn governor_line_text(governor: &str) -> (r: String)
    ensures
        r@ == governor_line(governor@),
{
    let mut out = String::from_str("cpu governor:\t");
    append_highlighted_start(&mut out);
    out.append(governor);
    append_highlighted_end(&mut out);
    assert(out@ =~= governor_line(governor@));
    out
}

/// The temperature line; a temperature that could not be read is shown
/// as `0` rather than failing the report.
pub fn temperature_line_text(t: &Option<String>) -> (r: String)
    ensures
        r@ == temperature_line(
            match t {
                Some(x) => Some(x@),
                None => None,
            },
        ),
{
    let mut out = String::from_str("cpu temp:\t");
    append_highlighted_start(&mut out);
    match t {
        Some(x) => {
            out.append(x.as_str());
        },
        None => {
            out.append("0");
        },
    }
    out.append("\u{b0}C");
    append_highlighted_end(&mut out);
    assert(out@ =~= temperature_line(
        match t {
            Some(x) => Some(x@),
            None => None,
        },
    ));
    out
}

pub fn frequency_line_text(cpu: u64, mhz: u64) -> (r: String)
    ensures
        r@ == frequency_line(cpu as nat, mhz as nat),
{
    let mut out = String::from_str("cpu");
    append_decimal(&mut out, cpu);
    out.append(" freq:\t");
    append_highlighted_start(&mut out);
    append_ghz(&mut out, mhz);
    out.append("GHz");
    append_highlighted_end(&mut out);
    assert(out@ =~= frequency_line(cpu as nat, mhz as nat));
    out
}

/// The lines of the status report on `st`, in order. Every field has its
/// line, also when the temperature is missing.
pub fn status_lines(st: &Status) -> (r: Vec<String>)
    ensures
        r@.len() == status_lines_spec(st).len(),
        forall|k: int| 0 <= k < r@.len() ==> #[trigger] r@[k]@ == status_lines_spec(st)[k],
{
    let mut lines: Vec<String> = Vec::new();
    lines.push(turbo_line_text(st.no_turbo));
    lines.push(dynamic_boost_line_text(st.hwp_dynamic_boost));
    lines.push(perf_range_line_text(st.min_perf_pct, st.max_perf_pct));
    lines.push(governor_line_text(st.governor.as_str()));
    lines.push(temperature_line_text(&st.cpu_temp));
    lines.push(String::new());
    let ghost spec_lines = status_lines_spec(st);
    let n = st.cpu_freqs_mhz.len();
    let mut i: usize = 0;
    while i < n
        invariant
            n == st.cpu_freqs_mhz@.len(),
            i <= n,
            spec_lines == status_lines_spec(st),
            spec_lines.len() == 6 + n,
            lines@.len() == 6 + i,
            forall|k: int| 0 <= k < lines@.len() ==> #[trigger] lines@[k]@ == spec_lines[k],
        decreases n - i,
    {
        let line = frequency_line_text(i as u64, st.cpu_freqs_mhz[i]);
        lines.push(line);
        i = i + 1;
    }
    lines
}

/// The report always has its six field lines, before one line per CPU; a
/// temperature that could not be read is shown as `0` instead of being
/// left out.
pub proof fn lemma_report_has_every_field(st: &Status)
    ensures
        status_lines_spec(st).len() == 6 + st.cpu_freqs_mhz@.len(),
        status_lines_spec(st)[0] == turbo_line(st.no_turbo),
        status_lines_spec(st)[1] == dynamic_boost_line(st.hwp_dynamic_boost),
        status_lines_spec(st)[2] == perf_range_line(st.min_perf_pct as nat, st.max_perf_pct as nat),
        status_lines_spec(st)[3] == governor_line(st.governor@),
        st.cpu_temp is None ==> status_lines_spec(st)[4] == "cpu temp:\t"@ + highlighted(
            "0"@ + "\u{b0}C"@,
        ),
        forall|i: int|
            0 <= i < st.cpu_freqs_mhz@.len() ==> status_lines_spec(st)[6 + i] == frequency_line(
                i as nat,
                st.cpu_freqs_mhz@[i] as nat,
            ),
{
}

} // verus!
