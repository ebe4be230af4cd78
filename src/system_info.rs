//! The battery-path cache, battery state, turbo state and the static facts
//! of the machine, computed from the texts of the kernel's files.

use vstd::prelude::*;
use crate::caches::{stale, opt_text};
use crate::config::store::Config;
use crate::globals::POWER_SUPPLY_DIR;
use crate::policy::{average_core_temp, average_known, source_section};
use crate::text::{
    lower_of, parse_i32, parse_i32_spec, parse_u8, parse_u8_spec, same_text, starts_with_text,
    split_once, split_once_spec, texts, to_lower, trim, trim_spec,
};

verus! {

/// One entry of the power-supply directory.
pub struct SupplyEntry {
    /// The entry's directory.
    pub path: String,
    /// The text of its `type` file; `None` when that could not be read.
    pub kind: Option<String>,
}

/// Index of the first entry whose type reads `kind`, or `entries.len()`.
pub open spec fn first_of_kind(entries: Seq<SupplyEntry>, kind: Seq<char>) -> int
    decreases entries.len(),
{
    if entries.len() == 0 {
        0
    } else if entries[0].kind matches Some(k) && trim_spec(k@) == kind {
        0
    } else {
        1 + first_of_kind(entries.drop_first(), kind)
    }
}

proof fn lemma_first_of_kind(entries: Seq<SupplyEntry>, kind: Seq<char>)
    ensures
        0 <= first_of_kind(entries, kind) <= entries.len(),
        first_of_kind(entries, kind) < entries.len() ==> (entries[first_of_kind(entries, kind)].kind matches Some(k) && trim_spec(k@) == kind),
        forall|j: int| 0 <= j < first_of_kind(entries, kind) ==> !(#[trigger] entries[j].kind matches Some(k) && trim_spec(k@) == kind),
    decreases entries.len(),
{
    if entries.len() > 0 && !(entries[0].kind matches Some(k) && trim_spec(k@) == kind) {
        lemma_first_of_kind(entries.drop_first(), kind);
        assert forall|j: int| 0 <= j < first_of_kind(entries, kind) implies !(
        #[trigger] entries[j].kind matches Some(k) && trim_spec(k@) == kind) by {
            if j > 0 {
                assert(entries[j] == entries.drop_first()[j - 1]);
            }
        }
    }
}

/// The path of the first entry whose type reads `kind`.
pub open spec fn path_of_kind(entries: Seq<SupplyEntry>, kind: Seq<char>) -> Option<Seq<char>> {
    let i = first_of_kind(entries, kind);
    if i < entries.len() {
        Some(entries[i].path@)
    } else {
        None
    }
}

fn entry_is(e: &SupplyEntry, kind: &str) -> (r: bool)
    ensures
        r == (e.kind matches Some(k) && trim_spec(k@) == kind@),
{
    match &e.kind {
        Some(k) => same_text(trim(k.as_str()), kind),
        None => false,
    }
}

fn find_kind(entries: &Vec<SupplyEntry>, kind: &str) -> (r: Option<String>)
    ensures
        opt_text(r) == path_of_kind(entries@, kind@),
{
    proof {
        lemma_first_of_kind(entries@, kind@);
    }
    let mut i: usize = 0;
    while i < entries.len() && !entry_is(&entries[i], kind)
        invariant
            i <= entries@.len(),
            forall|j: int| 0 <= j < i ==> !(#[trigger] entries@[j].kind matches Some(k) && trim_spec(k@) == kind@),
            0 <= first_of_kind(entries@, kind@) <= entries@.len(),
            first_of_kind(entries@, kind@) < entries@.len() ==> (entries@[first_of_kind(entries@, kind@)].kind matches Some(k) && trim_spec(k@) == kind@),
            forall|j: int| 0 <= j < first_of_kind(entries@, kind@) ==> !(#[trigger] entries@[j].kind matches Some(k) && trim_spec(k@) == kind@),
        decreases entries.len() - i,
    {
        i = i + 1;
    }
    if i < entries.len() {
        Some(entries[i].path.clone())
    } else {
        None
    }
}

/// The battery a configuration names: its directory, when the name is not
/// empty and its `type` file reads "battery" in any case.
pub open spec fn configured_battery(device: Seq<char>, device_type: Option<Seq<char>>) -> Option<Seq<char>> {
    if device.len() > 0 && (device_type matches Some(t) && lower_of(trim_spec(t)) == "battery"@) {
        Some(POWER_SUPPLY_DIR@ + device)
    } else {
        None
    }
}

/// The (battery, mains) paths found by a scan.
pub open spec fn scan_spec(
    device: Seq<char>,
    device_type: Option<Seq<char>>,
    entries: Seq<SupplyEntry>,
) -> (Option<Seq<char>>, Option<Seq<char>>) {
    (
        match configured_battery(device, device_type) {
            Some(p) => Some(p),
            None => path_of_kind(entries, "Battery"@),
        },
        path_of_kind(entries, "Mains"@),
    )
}

/// The cached battery and AC-supply directories.
pub struct BatteryPathCache {
    pub battery_path: Option<String>,
    pub mains_path: Option<String>,
    pub cached_at: Option<u64>,
}

impl BatteryPathCache {
    /// Finds the battery and the mains supply. `device` is the configured
    /// `battery_device` ("" when unset) and `device_type` the text of its
    /// `type` file; `entries` lists the power-supply directory.
    pub fn scan_power_supply(device: &str, device_type: Option<&str>, entries: &Vec<SupplyEntry>) -> (r: (Option<String>, Option<String>))
        ensures
            (opt_text(r.0), opt_text(r.1)) == scan_spec(
                device@,
                match device_type {
                    Some(t) => Some(t@),
                    None => None,
                },
                entries@,
            ),
    {
        let mut battery: Option<String> = None;
        if device.unicode_len() > 0 {
            match device_type {
                Some(t) => {
                    let lowered = to_lower(trim(t));
                    if same_text(lowered.as_str(), "battery") {
                        let mut p = POWER_SUPPLY_DIR.to_owned();
                        p.append(device);
                        battery = Some(p);
                    }
                },
                None => {},
            }
        }
        if battery.is_none() {
            battery = find_kind(entries, "Battery");
        }
        let mains = find_kind(entries, "Mains");
        (battery, mains)
    }

    /// A cache filled by a scan at `now`.
    pub fn new(battery_path: Option<String>, mains_path: Option<String>, now: u64) -> (r: Self)
        ensures
            r.battery_path == battery_path,
            r.mains_path == mains_path,
            r.cached_at == Some(now),
    {
        BatteryPathCache { battery_path, mains_path, cached_at: Some(now) }
    }

    /// Whether the paths are due for a rescan at `now` (older than 60 s).
    pub fn maybe_rescan(&self, now: u64) -> (r: bool)
        ensures
            r == stale(self.cached_at, 60, now),
    {
        match self.cached_at {
            None => true,
            Some(t) => {
                let e: u64 = if now >= t { now - t } else { 0 };
                e > 60000
            },
        }
    }

    /// Stores the result of a rescan at `now`.
    pub fn update(&mut self, battery_path: Option<String>, mains_path: Option<String>, now: u64)
        ensures
            final(self).battery_path == battery_path,
            final(self).mains_path == mains_path,
            final(self).cached_at == Some(now),
    {
        self.battery_path = battery_path;
        self.mains_path = mains_path;
        self.cached_at = Some(now);
    }
}

/// The battery's state.
#[derive(Debug, Clone, Copy, PartialEq, Eq)]
pub struct BatteryInfo {
    pub is_charging: Option<bool>,
    pub is_ac_plugged: Option<bool>,
    pub charging_start_threshold: Option<i32>,
    pub charging_stop_threshold: Option<i32>,
    pub battery_level: Option<u8>,
    /// Power draw in microwatts (or microamperes where only a current is given).
    pub power_consumption: Option<i32>,
}

/// The texts of a battery's files; `None` where a file could not be read.
pub struct BatteryFiles {
    pub status: Option<String>,
    pub capacity: Option<String>,
    /// `power_now`, else `current_now`.
    pub energy_rate: Option<String>,
    /// `charge_start_threshold`, else `charge_control_start_threshold`.
    pub charge_start: Option<String>,
    /// `charge_stop_threshold`, else `charge_control_end_threshold`.
    pub charge_stop: Option<String>,
}

/// An integer file's value.
pub open spec fn int_field(t: Option<String>) -> Option<i32> {
    match t {
        Some(s) => parse_i32_spec(trim_spec(s@)),
        None => None,
    }
}

fn read_int(t: &Option<String>) -> (r: Option<i32>)
    ensures
        r == int_field(*t),
{
    match t {
        Some(s) => parse_i32(trim(s.as_str())),
        None => None,
    }
}

/// The battery state the files describe; with no battery the machine counts as on AC.
pub open spec fn battery_info_spec(mains_online: Option<Seq<char>>, battery: Option<BatteryFiles>) -> BatteryInfo {
    match battery {
        None => BatteryInfo {
            is_charging: None,
            is_ac_plugged: Some(true),
            charging_start_threshold: None,
            charging_stop_threshold: None,
            battery_level: None,
            power_consumption: None,
        },
        Some(f) => BatteryInfo {
            is_charging: match f.status {
                Some(s) => Some(lower_of(trim_spec(s@)) == "charging"@),
                None => None,
            },
            is_ac_plugged: match mains_online {
                Some(t) => Some(trim_spec(t) == "1"@),
                None => Some(true),
            },
            charging_start_threshold: int_field(f.charge_start),
            charging_stop_threshold: int_field(f.charge_stop),
            battery_level: match f.capacity {
                Some(s) => parse_u8_spec(trim_spec(s@)),
                None => None,
            },
            power_consumption: int_field(f.energy_rate),
        },
    }
}

/// The battery state the files describe. `mains_online` is the text of the
/// mains supply's `online` file; `battery` the battery's files, `None` when
/// no battery was found.
pub fn battery_info(mains_online: Option<&str>, battery: Option<&BatteryFiles>) -> (r: BatteryInfo)
    ensures
        r == battery_info_spec(
            match mains_online {
                Some(t) => Some(t@),
                None => None,
            },
            match battery {
                Some(f) => Some(*f),
                None => None,
            },
        ),
{
    let files = match battery {
        None => {
            return BatteryInfo {
                is_charging: None,
                is_ac_plugged: Some(true),
                charging_start_threshold: None,
                charging_stop_threshold: None,
                battery_level: None,
                power_consumption: None,
            };
        },
        Some(f) => f,
    };
    let is_ac_plugged = match mains_online {
        Some(t) => Some(same_text(trim(t), "1")),
        None => Some(true),
    };
    let is_charging = match &files.status {
        Some(s) => {
            let l = to_lower(trim(s.as_str()));
            Some(same_text(l.as_str(), "charging"))
        },
        None => None,
    };
    let battery_level = match &files.capacity {
        Some(s) => parse_u8(trim(s.as_str())),
        None => None,
    };
    BatteryInfo {
        is_charging,
        is_ac_plugged,
        charging_start_threshold: read_int(&files.charge_start),
        charging_stop_threshold: read_int(&files.charge_stop),
        battery_level,
        power_consumption: read_int(&files.energy_rate),
    }
}

/// Which kernel file controls turbo: the first of these that exists.
#[derive(Debug, Clone, Copy, PartialEq, Eq, Structural)]
pub enum TurboControl {
    /// `intel_pstate/no_turbo`, which reads 0 when turbo is on.
    IntelPstate,
    /// `cpufreq/boost`, which reads 1 when turbo is on.
    CpufreqBoost,
    /// `amd_pstate/status`: turbo is managed by the driver.
    AmdPstate,
    /// None of them: turbo cannot be controlled.
    Unavailable,
}

/// The turbo control strategy: the first of the intel_pstate, cpufreq boost
/// and amd_pstate control files that exists.
pub fn turbo_control_of(intel_exists: bool, boost_exists: bool, amd_exists: bool) -> (r: TurboControl)
    ensures
        r == (if intel_exists {
            TurboControl::IntelPstate
        } else if boost_exists {
            TurboControl::CpufreqBoost
        } else if amd_exists {
            TurboControl::AmdPstate
        } else {
            TurboControl::Unavailable
        }),
{
    if intel_exists {
        TurboControl::IntelPstate
    } else if boost_exists {
        TurboControl::CpufreqBoost
    } else if amd_exists {
        TurboControl::AmdPstate
    } else {
        TurboControl::Unavailable
    }
}

/// The turbo state a control file's text shows: (turbo on, driver-managed).
pub open spec fn turbo_on_spec(control: TurboControl, text: Option<Seq<char>>) -> (Option<bool>, Option<bool>) {
    match control {
        TurboControl::IntelPstate => match text {
            Some(t) => match parse_i32_spec(trim_spec(t)) {
                Some(n) => (Some(n == 0), Some(false)),
                None => (None, None),
            },
            None => (None, None),
        },
        TurboControl::CpufreqBoost => match text {
            Some(t) => match parse_i32_spec(trim_spec(t)) {
                Some(n) => (Some(n != 0), Some(false)),
                None => (None, None),
            },
            None => (None, None),
        },
        TurboControl::AmdPstate => match text {
            Some(t) => (None, Some(trim_spec(t) == "active"@)),
            None => (None, None),
        },
        TurboControl::Unavailable => (None, None),
    }
}

/// The value to write to the control file to switch turbo `on`; `None`
/// where turbo cannot be switched.
pub open spec fn turbo_write_spec(control: TurboControl, on: bool) -> Option<u8> {
    match control {
        TurboControl::IntelPstate => Some(if on { 0u8 } else { 1u8 }),
        TurboControl::CpufreqBoost => Some(if on { 1u8 } else { 0u8 }),
        _ => None,
    }
}

/// The value to write to the control file to switch turbo `on`.
pub fn turbo_write_value(control: TurboControl, on: bool) -> (r: Option<u8>)
    ensures
        r == turbo_write_spec(control, on),
{
    match control {
        TurboControl::IntelPstate => Some(if on { 0 } else { 1 }),
        TurboControl::CpufreqBoost => Some(if on { 1 } else { 0 }),
        _ => None,
    }
}

/// The second `:`-separated field of a line, trimmed; empty without a `:`.
pub open spec fn second_field(line: Seq<char>) -> Seq<char> {
    match split_once_spec(line, ':') {
        Some(p) => match split_once_spec(p.1, ':') {
            Some(q) => trim_spec(q.0),
            None => trim_spec(p.1),
        },
        None => Seq::empty(),
    }
}

/// The processor model that the first "model name" line gives.
pub open spec fn processor_model_spec(ls: Seq<Seq<char>>) -> Seq<char>
    decreases ls.len(),
{
    if ls.len() == 0 {
        Seq::empty()
    } else if crate::text::contains_spec(ls[0], "model name"@) {
        second_field(ls[0])
    } else {
        processor_model_spec(ls.drop_first())
    }
}

/// The static and slowly changing facts about the machine.
pub struct SystemInfo {
    pub distro_name: String,
    pub distro_version: String,
    pub architecture: String,
    pub processor_model: String,
    pub total_cores: Option<usize>,
    pub cpu_driver: Option<String>,
    pub kernel_version: String,
}

/// `s` without leading and trailing double quotes.
pub open spec fn strip_quotes_spec(s: Seq<char>) -> Seq<char>
    decreases s.len(),
{
    if s.len() > 0 && s[0] == '"' {
        strip_quotes_spec(s.drop_first())
    } else if s.len() > 0 && s.last() == '"' {
        strip_quotes_spec(s.drop_last())
    } else {
        s
    }
}

/// Removes leading and trailing double quotes.
pub fn strip_quotes(s: &str) -> (r: String)
    ensures
        r@ == strip_quotes_spec(s@),
{
    let n = s.unicode_len();
    let mut a: usize = 0;
    let mut b: usize = n;
    assert(s@.subrange(0, n as int) =~= s@);
    while a < b && s.get_char(a) == '"'
        invariant
            n == s@.len(),
            a <= b <= n,
            b == n,
            strip_quotes_spec(s@.subrange(a as int, b as int)) == strip_quotes_spec(s@),
        decreases b - a,
    {
        assert(s@.subrange(a as int, b as int).drop_first() =~= s@.subrange(a + 1, b as int));
        a = a + 1;
    }
    while a < b && s.get_char(b - 1) == '"'
        invariant
            n == s@.len(),
            a <= b <= n,
            a == b || s@[a as int] != '"',
            strip_quotes_spec(s@.subrange(a as int, b as int)) == strip_quotes_spec(s@),
        decreases b - a,
    {
        let ghost t = s@.subrange(a as int, b as int);
        assert(t.drop_last() =~= s@.subrange(a as int, b - 1));
        assert(t[0] == s@[a as int]);
        b = b - 1;
    }
    proof {
        let t = s@.subrange(a as int, b as int);
        if a < b {
            assert(t[0] == s@[a as int]);
            assert(t.last() == s@[b - 1]);
        }
    }
    s.substring_char(a, b).to_owned()
}

/// The value of the first line of `content` that begins with `prefix`.
pub open spec fn first_line_value(ls: Seq<Seq<char>>, prefix: Seq<char>) -> Option<Seq<char>>
    decreases ls.len(),
{
    if ls.len() == 0 {
        None
    } else if prefix.len() <= ls[0].len() && ls[0].take(prefix.len() as int) == prefix {
        Some(ls[0].skip(prefix.len() as int))
    } else {
        first_line_value(ls.drop_first(), prefix)
    }
}

/// The value of the first `prefix` line of an os-release text, quotes removed.
pub open spec fn os_release_value_spec(text: Seq<char>, prefix: Seq<char>) -> Option<Seq<char>> {
    match first_line_value(crate::text::lines_spec(text), prefix) {
        Some(w) => Some(strip_quotes_spec(w)),
        None => None,
    }
}

/// The quoted value of the first `prefix` line of an os-release text.
pub fn os_release_value(content: &str, prefix: &str) -> (r: Option<String>)
    ensures
        r is Some ==> first_line_value(crate::text::lines_spec(content@), prefix@) is Some && r->0@
            == strip_quotes_spec(first_line_value(crate::text::lines_spec(content@), prefix@)->0),
        r is None ==> first_line_value(crate::text::lines_spec(content@), prefix@) is None,
{
    let ls = crate::text::lines(content);
    let ghost sl = crate::text::lines_spec(content@);
    let mut i: usize = 0;
    assert(sl.skip(0) =~= sl);
    while i < ls.len()
        invariant
            sl == crate::text::lines_spec(content@),
            ls@.len() == sl.len(),
            forall|j: int| 0 <= j < ls@.len() ==> #[trigger] ls@[j]@ == sl[j],
            i <= ls@.len(),
            first_line_value(sl, prefix@) == first_line_value(sl.skip(i as int), prefix@),
        decreases ls.len() - i,
    {
        let line = ls[i];
        let ghost rest = sl.skip(i as int);
        assert(rest[0] == line@);
        assert(rest.drop_first() =~= sl.skip(i + 1));
        if starts_with_text(line, prefix) {
            let m = prefix.unicode_len();
            let n = line.unicode_len();
            let v = line.substring_char(m, n);
            assert(line@.subrange(m as int, n as int) =~= line@.skip(m as int));
            assert(first_line_value(rest, prefix@) == Some(line@.skip(m as int)));
            return Some(strip_quotes(v));
        }
        i = i + 1;
    }
    assert(sl.skip(i as int) =~= Seq::<Seq<char>>::empty());
    None
}

impl SystemInfo {
    /// The facts gathered from their sources: `os_release` is the text of
    /// `/etc/os-release`, the other values are read by the caller.
    pub fn new(
        os_release: Option<&str>,
        architecture: String,
        processor_model: String,
        total_cores: Option<usize>,
        cpu_driver: Option<String>,
        kernel_version: String,
    ) -> (r: Self)
        ensures
            r.architecture == architecture,
            r.processor_model == processor_model,
            r.total_cores == total_cores,
            r.cpu_driver == cpu_driver,
            r.kernel_version == kernel_version,
            os_release is None ==> r.distro_name@ == "UNKNOWN"@ && r.distro_version@ == "UNKNOWN"@,
            os_release matches Some(t) ==> r.distro_name@ == match os_release_value_spec(t@, "PRETTY_NAME="@) {
                Some(v) => v,
                None => "UNKNOWN"@,
            },
            os_release matches Some(t) ==> r.distro_version@ == match os_release_value_spec(t@, "VERSION="@) {
                Some(v) => v,
                None => "UNKNOWN"@,
            },
    {
        let (distro_name, distro_version) = match os_release {
            Some(t) => {
                let name = match os_release_value(t, "PRETTY_NAME=") {
                    Some(v) => v,
                    None => "UNKNOWN".to_owned(),
                };
                let version = match os_release_value(t, "VERSION=") {
                    Some(v) => v,
                    None => "UNKNOWN".to_owned(),
                };
                (name, version)
            },
            None => ("UNKNOWN".to_owned(), "UNKNOWN".to_owned()),
        };
        SystemInfo {
            distro_name,
            distro_version,
            architecture,
            processor_model,
            total_cores,
            cpu_driver,
            kernel_version,
        }
    }

    /// The energy-performance preference the configuration sets for the
    /// active source, where the platform supports it.
    pub fn current_epp(is_ac_plugged: bool, supported: bool, config: &Config) -> (r: Option<String>)
        ensures
            !supported ==> r is None,
            supported ==> (r matches Some(v) && v@ == match config.stored(
                source_section(is_ac_plugged),
                "energy_performance_preference"@,
            ) {
                Some(x) => x,
                None => "balance_power"@,
            }),
    {
        if !supported {
            return None;
        }
        let section = if is_ac_plugged { "charger" } else { "battery" };
        Some(config.get(section, "energy_performance_preference", "balance_power"))
    }

    /// The energy-performance bias the configuration sets for the active
    /// source, where the platform supports it.
    pub fn current_epb(is_ac_plugged: bool, supported: bool, config: &Config) -> (r: Option<String>)
        ensures
            !supported ==> r is None,
            supported ==> (r matches Some(v) && v@ == match config.stored(
                source_section(is_ac_plugged),
                "energy_perf_bias"@,
            ) {
                Some(x) => x,
                None => "balance_power"@,
            }),
    {
        if !supported {
            return None;
        }
        let section = if is_ac_plugged { "charger" } else { "battery" };
        Some(config.get(section, "energy_perf_bias", "balance_power"))
    }

    /// The average core temperature in whole degrees, over the cores whose
    /// temperature (thousandths of a degree, 0 = unknown) is known.
    pub fn avg_temp(core_temps: &Vec<u32>) -> (r: i32)
        ensures
            r == average_known(core_temps@) / 1000,
    {
        let a = average_core_temp(core_temps);
        (a / 1000) as i32
    }

    /// Whether turbo is worth enabling at this usage (hundredths of a percent).
    pub fn turbo_on_suggestion(cpu_usage: u64) -> (r: bool)
        ensures
            r == (cpu_usage >= 2000),
    {
        cpu_usage >= 2000
    }

    /// The governor to suggest: the most performant supported one on AC (or
    /// when the source is unknown), the least performant on battery.
    pub fn governor_suggestion(is_ac_plugged: Option<bool>, sorted: &Vec<String>) -> (r: Option<String>)
        ensures
            sorted@.len() == 0 ==> r is None,
            sorted@.len() > 0 && is_ac_plugged != Some(false) ==> r == Some(sorted@[0]),
            sorted@.len() > 0 && is_ac_plugged == Some(false) ==> r == Some(sorted@.last()),
    {
        if sorted.len() == 0 {
            return None;
        }
        let on_ac = match is_ac_plugged {
            Some(b) => b,
            None => true,
        };
        if on_ac {
            Some(sorted[0].clone())
        } else {
            Some(sorted[sorted.len() - 1].clone())
        }
    }

    /// The fan speed from the text of the fan file.
    pub fn cpu_fan_speed(fan_text: Option<&str>) -> (r: Option<i32>)
        ensures
            r == crate::caches::read_fan_speed_spec(
                match fan_text {
                    Some(t) => Some(t@),
                    None => None,
                },
            ),
    {
        crate::caches::read_fan_speed(fan_text)
    }

    /// The turbo state that the control file's text (`None`: unreadable) shows:
    /// (turbo on, turbo managed by the driver).
    pub fn turbo_on(control: TurboControl, text: Option<&str>) -> (r: (Option<bool>, Option<bool>))
        ensures
            r == turbo_on_spec(
                control,
                match text {
                    Some(t) => Some(t@),
                    None => None,
                },
            ),
    {
        match control {
            TurboControl::IntelPstate => match text {
                Some(t) => match parse_i32(trim(t)) {
                    Some(n) => (Some(n == 0), Some(false)),
                    None => (None, None),
                },
                None => (None, None),
            },
            TurboControl::CpufreqBoost => match text {
                Some(t) => match parse_i32(trim(t)) {
                    Some(n) => (Some(n != 0), Some(false)),
                    None => (None, None),
                },
                None => (None, None),
            },
            TurboControl::AmdPstate => match text {
                Some(t) => (None, Some(same_text(trim(t), "active"))),
                None => (None, None),
            },
            TurboControl::Unavailable => (None, None),
        }
    }

    /// The processor model from the text of `/proc/cpuinfo`: the field after
    /// the first `:` of the first line that mentions "model name", trimmed;
    /// empty when there is none.
    pub fn read_processor_model(cpuinfo: &str) -> (r: String)
        ensures
            r@ == processor_model_spec(crate::text::lines_spec(cpuinfo@)),
    {
        let ls = crate::text::lines(cpuinfo);
        let ghost sl = crate::text::lines_spec(cpuinfo@);
        let mut i: usize = 0;
        assert(sl.skip(0) =~= sl);
        while i < ls.len()
            invariant
                sl == crate::text::lines_spec(cpuinfo@),
                ls@.len() == sl.len(),
                forall|j: int| 0 <= j < ls@.len() ==> #[trigger] ls@[j]@ == sl[j],
                i <= ls@.len(),
                processor_model_spec(sl) == processor_model_spec(sl.skip(i as int)),
            decreases ls.len() - i,
        {
            let line = ls[i];
            let ghost rest = sl.skip(i as int);
            assert(rest[0] == line@);
            assert(rest.drop_first() =~= sl.skip(i + 1));
            if crate::text::contains_text(line, "model name") {
                return match split_once(line, ':') {
                    Some(parts) => match split_once(parts.1.as_str(), ':') {
                        Some(inner) => trim(inner.0.as_str()).to_owned(),
                        None => trim(parts.1.as_str()).to_owned(),
                    },
                    None => String::new(),
                };
            }
            i = i + 1;
        }
        assert(sl.skip(i as int) =~= Seq::<Seq<char>>::empty());
        String::new()
    }

    /// The cached battery directory.
    pub fn get_battery_path(cache: &BatteryPathCache) -> (r: Option<String>)
        ensures
            r == cache.battery_path,
    {
        match &cache.battery_path {
            Some(p) => Some(p.clone()),
            None => None,
        }
    }

    /// The aggregate CPU usage: the mean of the per-core usages, 0 without cores.
    pub fn cpu_usage(per_core: &Vec<u32>) -> (r: u64)
        ensures
            per_core@.len() == 0 ==> r == 0,
            per_core@.len() > 0 ==> r == crate::policy::seq_sum(per_core@) / (per_core@.len() as int),
    {
        crate::policy::mean(per_core)
    }
}

} // verus!
