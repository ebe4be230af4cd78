//! The policy engine: which governor and which turbo mode to use, from CPU
//! usage, system load, the power source, the persisted overrides and the
//! configuration. Usage is in hundredths of a percent, load averages in
//! hundredths, temperatures in thousandths of a degree Celsius.

use vstd::prelude::*;
use crate::config::store::Config;
use crate::overrides::{GovernorOverride, TurboOverride};
use crate::text::same_text;

verus! {

/// Relies on `num_cpus::get`: the number of CPUs this process may use,
/// which its documentation promises is at least 1.
#[verifier::external_body]
fn logical_cpu_count() -> (r: usize)
    ensures
        r >= 1,
{
    num_cpus::get()
}

/// Machine facts and file locations the policy works with.
pub struct AutoCpuFreqState {
    pub cpu_count: u64,
    /// Load above which the charger policy asks for performance, in hundredths.
    pub performance_load_threshold: u64,
    /// Load below which the battery policy allows powersave, in hundredths.
    pub powersave_load_threshold: u64,
    pub stats_file_path: String,
    pub governor_override_path: String,
    pub turbo_override_path: String,
    pub is_aur: bool,
}

impl AutoCpuFreqState {
    /// Whether the thresholds are those of `cpu_count` CPUs.
    pub open spec fn wf(&self) -> bool {
        &&& self.cpu_count <= u32::MAX
        &&& self.performance_load_threshold == 50 * self.cpu_count
        &&& self.powersave_load_threshold == 75 * self.cpu_count
    }

    /// The state for a machine of `cpu_count` CPUs: the performance threshold
    /// is half a unit of load per CPU, the powersave threshold three quarters.
    pub fn new(cpu_count: u32, is_aur: bool) -> (r: Self)
        ensures
            r.wf(),
            r.cpu_count == cpu_count,
            r.is_aur == is_aur,
            r.stats_file_path@ == "/var/run/auto-cpufreq.stats"@,
            r.governor_override_path@ == "/opt/auto-cpufreq/override.pickle"@,
            r.turbo_override_path@ == "/opt/auto-cpufreq/turbo-override.pickle"@,
    {
        let c = cpu_count as u64;
        AutoCpuFreqState {
            cpu_count: c,
            performance_load_threshold: 50 * c,
            powersave_load_threshold: 75 * c,
            stats_file_path: "/var/run/auto-cpufreq.stats".to_owned(),
            governor_override_path: "/opt/auto-cpufreq/override.pickle".to_owned(),
            turbo_override_path: "/opt/auto-cpufreq/turbo-override.pickle".to_owned(),
            is_aur,
        }
    }

    /// The state for this machine, counting its CPUs.
    pub fn detect(is_aur: bool) -> (r: Self)
        ensures
            r.wf(),
            r.cpu_count >= 1,
            r.is_aur == is_aur,
    {
        let n = logical_cpu_count();
        let c: u32 = if n > 4294967295 { 4294967295 } else { n as u32 };
        AutoCpuFreqState::new(c, is_aur)
    }
}

/// The configuration section of the active power source.
pub open spec fn source_section(is_charging: bool) -> Seq<char> {
    if is_charging {
        "charger"@
    } else {
        "battery"@
    }
}

/// Whether `g` is among the supported governors.
pub open spec fn supported(available: Seq<Seq<char>>, g: Seq<char>) -> bool {
    exists|i: int| 0 <= i < available.len() && available[i] == g
}

/// The governor to use when neither an override nor the configuration names one.
pub open spec fn load_governor(
    is_charging: bool,
    cpu_usage: u64,
    load: u64,
    cpu_count: u64,
    available: Seq<Seq<char>>,
) -> Seq<char> {
    if is_charging && (cpu_usage > 5000 || load > 50 * cpu_count) && supported(
        available,
        "performance"@,
    ) {
        "performance"@
    } else if !is_charging && cpu_usage < 2500 && load < 75 * cpu_count && supported(
        available,
        "powersave"@,
    ) {
        "powersave"@
    } else if supported(available, "schedutil"@) {
        "schedutil"@
    } else if is_charging && supported(available, "ondemand"@) {
        "ondemand"@
    } else if available.len() > 0 {
        available[0]
    } else {
        "schedutil"@
    }
}

/// The governor the policy picks: a persisted override first, then a
/// supported governor named in the active source's configuration section,
/// then the load rules.
pub open spec fn governor_spec(
    is_charging: bool,
    cpu_usage: u64,
    load: u64,
    cpu_count: u64,
    governor_override: GovernorOverride,
    configured: Option<Seq<char>>,
    available: Seq<Seq<char>>,
) -> Seq<char> {
    match governor_override {
        GovernorOverride::Performance => "performance"@,
        GovernorOverride::Powersave => "powersave"@,
        GovernorOverride::Default => match configured {
            Some(g) => if g.len() > 0 && supported(available, g) {
                g
            } else {
                load_governor(is_charging, cpu_usage, load, cpu_count, available)
            },
            None => load_governor(is_charging, cpu_usage, load, cpu_count, available),
        },
    }
}

/// Whether `g` is in `available`.
fn is_supported(available: &Vec<String>, g: &str) -> (r: bool)
    ensures
        r == supported(crate::text::texts(available@), g@),
{
    let ghost av = crate::text::texts(available@);
    let mut i: usize = 0;
    while i < available.len()
        invariant
            i <= available@.len(),
            av == crate::text::texts(available@),
            forall|j: int| 0 <= j < i ==> av[j] != g@,
        decreases available.len() - i,
    {
        if same_text(available[i].as_str(), g) {
            assert(av[i as int] == g@);
            return true;
        }
        i = i + 1;
    }
    false
}

/// Picks the governor for this tick. `available` lists the governors the
/// kernel supports, in the preference order of `sort_governors`.
pub fn get_appropriate_governor(
    is_charging: bool,
    cpu_usage: u64,
    load: u64,
    state: &AutoCpuFreqState,
    governor_override: GovernorOverride,
    config: &Config,
    available: &Vec<String>,
) -> (r: String)
    requires
        state.wf(),
    ensures
        r@ == governor_spec(
            is_charging,
            cpu_usage,
            load,
            state.cpu_count,
            governor_override,
            config.stored(source_section(is_charging), "governor"@),
            crate::text::texts(available@),
        ),
{
    let ghost av = crate::text::texts(available@);
    match governor_override {
        GovernorOverride::Performance => return "performance".to_owned(),
        GovernorOverride::Powersave => return "powersave".to_owned(),
        GovernorOverride::Default => {},
    }
    let section = if is_charging { "charger" } else { "battery" };
    match config.get_string(section, "governor") {
        Some(g) => {
            if g.unicode_len() > 0 && is_supported(available, g.as_str()) {
                return g;
            }
        },
        None => {},
    }
    if is_charging {
        if (cpu_usage > 5000 || load > state.performance_load_threshold) && is_supported(
            available,
            "performance",
        ) {
            return "performance".to_owned();
        }
        if is_supported(available, "schedutil") {
            return "schedutil".to_owned();
        } else if is_supported(available, "ondemand") {
            return "ondemand".to_owned();
        }
    } else {
        if cpu_usage < 2500 && load < state.powersave_load_threshold && is_supported(
            available,
            "powersave",
        ) {
            return "powersave".to_owned();
        }
        if is_supported(available, "schedutil") {
            return "schedutil".to_owned();
        }
    }
    if available.len() > 0 {
        available[0].clone()
    } else {
        "schedutil".to_owned()
    }
}

/// The sum of the values in `s`.
pub open spec fn seq_sum(s: Seq<u32>) -> int
    decreases s.len(),
{
    if s.len() == 0 {
        0
    } else {
        seq_sum(s.drop_last()) + s.last() as int
    }
}

proof fn lemma_seq_sum_bound(s: Seq<u32>)
    ensures
        0 <= seq_sum(s) <= s.len() * (u32::MAX as int),
    decreases s.len(),
{
    if s.len() > 0 {
        lemma_seq_sum_bound(s.drop_last());
        assert(seq_sum(s) <= s.len() * (u32::MAX as int)) by (nonlinear_arith)
            requires
                seq_sum(s) == seq_sum(s.drop_last()) + s.last() as int,
                seq_sum(s.drop_last()) <= (s.len() - 1) * (u32::MAX as int),
                s.last() <= u32::MAX,
        ;
    }
}

/// The mean of `values`, rounded down; 0 when there are none.
pub fn mean(values: &Vec<u32>) -> (r: u64)
    ensures
        values@.len() == 0 ==> r == 0,
        values@.len() > 0 ==> r == seq_sum(values@) / (values@.len() as int),
{
    let mut sum: u128 = 0;
    let mut i: usize = 0;
    while i < values.len()
        invariant
            i <= values@.len(),
            sum == seq_sum(values@.take(i as int)),
        decreases values.len() - i,
    {
        let ghost p = values@.take(i + 1);
        assert(p.drop_last() =~= values@.take(i as int));
        proof {
            lemma_seq_sum_bound(values@.take(i as int));
            assert(i * (u32::MAX as int) <= (usize::MAX as int) * (u32::MAX as int)) by (nonlinear_arith)
                requires i <= usize::MAX;
        }
        sum = sum + values[i] as u128;
        i = i + 1;
    }
    assert(values@.take(i as int) =~= values@);
    if values.len() == 0 {
        0
    } else {
        proof {
            lemma_seq_sum_bound(values@);
            assert(seq_sum(values@) / (values@.len() as int) <= u32::MAX as int) by (nonlinear_arith)
                requires
                    0 <= seq_sum(values@) <= values@.len() * (u32::MAX as int),
                    values@.len() > 0,
            ;
        }
        (sum / (values.len() as u128)) as u64
    }
}

/// The sum of the positive readings in `temps`.
pub open spec fn positive_sum(temps: Seq<u32>) -> int
    decreases temps.len(),
{
    if temps.len() == 0 {
        0
    } else {
        positive_sum(temps.drop_last()) + temps.last() as int
    }
}

/// How many readings in `temps` are positive (zero means "unknown").
pub open spec fn positive_count(temps: Seq<u32>) -> int
    decreases temps.len(),
{
    if temps.len() == 0 {
        0
    } else {
        positive_count(temps.drop_last()) + if temps.last() > 0 {
            1int
        } else {
            0int
        }
    }
}

/// The average of the known readings, 0 when none is known.
pub open spec fn average_known(temps: Seq<u32>) -> int {
    if positive_count(temps) == 0 {
        0
    } else {
        positive_sum(temps) / positive_count(temps)
    }
}

/// The average of the known core temperatures (thousandths of a degree),
/// 0 when no core temperature is known.
pub fn average_core_temp(temps: &Vec<u32>) -> (r: u64)
    ensures
        r == average_known(temps@),
        r <= u32::MAX,
{
    let mut sum: u128 = 0;
    let mut count: u64 = 0;
    let mut i: usize = 0;
    while i < temps.len()
        invariant
            i <= temps@.len(),
            sum == positive_sum(temps@.take(i as int)),
            count == positive_count(temps@.take(i as int)),
            count <= i,
            sum <= count * (u32::MAX as int),
        decreases temps.len() - i,
    {
        let t = temps[i];
        let ghost p = temps@.take(i + 1);
        assert(p.drop_last() =~= temps@.take(i as int));
        if t > 0 {
            assert(sum + t <= (count + 1) * (u32::MAX as int)) by (nonlinear_arith)
                requires
                    sum <= count * (u32::MAX as int),
                    t <= u32::MAX,
            ;
            sum = sum + t as u128;
            count = count + 1;
        }
        i = i + 1;
    }
    assert(temps@.take(i as int) =~= temps@);
    if count == 0 {
        0
    } else {
        assert((sum as int) / (count as int) <= u32::MAX as int) by (nonlinear_arith)
            requires
                sum <= count * (u32::MAX as int),
                count > 0,
        ;
        (sum / (count as u128)) as u64
    }
}

/// The turbo mode a configuration value asks for: `Some(true)` for
/// "always", `Some(false)` for "never", `None` otherwise.
pub open spec fn configured_turbo(v: Option<Seq<char>>) -> Option<bool> {
    match v {
        Some(t) => if t == "always"@ {
            Some(true)
        } else if t == "never"@ {
            Some(false)
        } else {
            None
        },
        None => None,
    }
}

/// What to do with turbo: `Some(on)` to switch it, `None` to leave it.
pub open spec fn turbo_spec(
    cpu_usage: u64,
    is_charging: bool,
    turbo_override: TurboOverride,
    configured: Option<Seq<char>>,
    avg_temp: int,
) -> Option<bool> {
    match turbo_override {
        TurboOverride::Always => Some(true),
        TurboOverride::Never => Some(false),
        TurboOverride::Auto => if configured_turbo(configured) is Some {
            configured_turbo(configured)
        } else if is_charging {
            if cpu_usage > 2500 && avg_temp < 75000 {
                Some(true)
            } else if avg_temp >= 75000 {
                Some(false)
            } else {
                None
            }
        } else {
            Some(cpu_usage > 7500)
        },
    }
}

/// Decides the turbo mode for this tick from usage, the power source, the
/// override, the configuration and the core temperatures.
pub fn set_turbo_based_on_usage(
    cpu_usage: u64,
    is_charging: bool,
    turbo_override: TurboOverride,
    config: &Config,
    core_temps: &Vec<u32>,
) -> (r: Option<bool>)
    ensures
        r == turbo_spec(
            cpu_usage,
            is_charging,
            turbo_override,
            config.stored(source_section(is_charging), "turbo"@),
            average_known(core_temps@),
        ),
{
    match turbo_override {
        TurboOverride::Always => return Some(true),
        TurboOverride::Never => return Some(false),
        TurboOverride::Auto => {},
    }
    let section = if is_charging { "charger" } else { "battery" };
    match config.get_string(section, "turbo") {
        Some(t) => {
            if same_text(t.as_str(), "always") {
                return Some(true);
            } else if same_text(t.as_str(), "never") {
                return Some(false);
            }
        },
        None => {},
    }
    let avg = average_core_temp(core_temps);
    if is_charging {
        if cpu_usage > 2500 && avg < 75000 {
            Some(true)
        } else if avg >= 75000 {
            Some(false)
        } else {
            None
        }
    } else {
        Some(cpu_usage > 7500)
    }
}

/// The privileged writes of one control-loop tick.
pub struct AutofreqActions {
    /// The governor to switch to; `None` when the current one is the target.
    pub set_governor: Option<String>,
    /// The turbo mode to apply; `None` to leave it.
    pub set_turbo: Option<bool>,
}

/// One tick of the control loop: the governor changes only when the target
/// differs from the current governor; the turbo decision always applies.
pub fn set_autofreq(
    is_charging: bool,
    cpu_usage: u64,
    load: u64,
    state: &AutoCpuFreqState,
    governor_override: GovernorOverride,
    turbo_override: TurboOverride,
    config: &Config,
    available: &Vec<String>,
    current_governor: &str,
    core_temps: &Vec<u32>,
) -> (r: AutofreqActions)
    requires
        state.wf(),
    ensures
        ({
            let target = governor_spec(
                is_charging,
                cpu_usage,
                load,
                state.cpu_count,
                governor_override,
                config.stored(source_section(is_charging), "governor"@),
                crate::text::texts(available@),
            );
            &&& target == current_governor@ ==> r.set_governor is None
            &&& target != current_governor@ ==> (r.set_governor matches Some(g) && g@ == target)
        }),
        r.set_turbo == turbo_spec(
            cpu_usage,
            is_charging,
            turbo_override,
            config.stored(source_section(is_charging), "turbo"@),
            average_known(core_temps@),
        ),
{
    let target = get_appropriate_governor(
        is_charging,
        cpu_usage,
        load,
        state,
        governor_override,
        config,
        available,
    );
    let set_governor = if same_text(target.as_str(), current_governor) {
        None
    } else {
        Some(target)
    };
    let set_turbo = set_turbo_based_on_usage(
        cpu_usage,
        is_charging,
        turbo_override,
        config,
        core_temps,
    );
    AutofreqActions { set_governor, set_turbo }
}

/// A persisted `Performance` override picks "performance" whatever the
/// usage, load, power source, configuration and supported governors.
pub proof fn law_performance_override_wins(
    is_charging: bool,
    cpu_usage: u64,
    load: u64,
    cpu_count: u64,
    configured: Option<Seq<char>>,
    available: Seq<Seq<char>>,
)
    ensures
        governor_spec(
            is_charging,
            cpu_usage,
            load,
            cpu_count,
            GovernorOverride::Performance,
            configured,
            available,
        ) == "performance"@,
{
}

} // verus!
