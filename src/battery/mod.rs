//! Vendor battery charge thresholds: which kernel module is loaded, and the
//! threshold writes and reads each vendor's sysfs layout calls for.

pub mod asus;
pub mod ideapad_acpi;
pub mod ideapad_laptop;
pub mod thinkpad;

use vstd::prelude::*;
use crate::config::store::{bool_spec, Config, ConfigError, threshold_key, threshold_spec};
use crate::globals::POWER_SUPPLY_DIR;
use crate::text::{
    contains_spec, contains_text, lemma_text_lt_total, lemma_text_lt_transitive, less_text, same_text,
    starts_with_text, text_lt, texts,
};

verus! {

/// The laptop vendor module that manages charge thresholds.
#[derive(Debug, Clone, Copy, PartialEq, Eq, Structural)]
pub enum LaptopModule {
    IdeapadAcpi,
    IdeapadLaptop,
    ThinkpadAcpi,
    AsusWmi,
    NoModule,
}

/// The kernel module name of each vendor.
pub open spec fn module_name(m: LaptopModule) -> Seq<char> {
    match m {
        LaptopModule::IdeapadAcpi => "ideapad_acpi"@,
        LaptopModule::IdeapadLaptop => "ideapad_laptop"@,
        LaptopModule::ThinkpadAcpi => "thinkpad_acpi"@,
        LaptopModule::AsusWmi => "asus_wmi"@,
        LaptopModule::NoModule => "none"@,
    }
}

/// The module that detection picks from the module list `loaded`: the
/// first of the fixed order that the list mentions.
pub open spec fn detect_spec(loaded: Seq<char>) -> LaptopModule {
    if contains_spec(loaded, "ideapad_acpi"@) {
        LaptopModule::IdeapadAcpi
    } else if contains_spec(loaded, "ideapad_laptop"@) {
        LaptopModule::IdeapadLaptop
    } else if contains_spec(loaded, "thinkpad_acpi"@) {
        LaptopModule::ThinkpadAcpi
    } else if contains_spec(loaded, "asus_wmi"@) {
        LaptopModule::AsusWmi
    } else {
        LaptopModule::NoModule
    }
}

impl LaptopModule {
    /// Picks the vendor module from the output of `lsmod` (`None`: it could
    /// not be run, so no module counts as loaded).
    pub fn detect(lsmod_output: Option<&str>) -> (r: Self)
        ensures
            lsmod_output is None ==> r == LaptopModule::NoModule,
            lsmod_output matches Some(t) ==> r == detect_spec(t@),
    {
        match lsmod_output {
            None => LaptopModule::NoModule,
            Some(t) => {
                if contains_text(t, "ideapad_acpi") {
                    LaptopModule::IdeapadAcpi
                } else if contains_text(t, "ideapad_laptop") {
                    LaptopModule::IdeapadLaptop
                } else if contains_text(t, "thinkpad_acpi") {
                    LaptopModule::ThinkpadAcpi
                } else if contains_text(t, "asus_wmi") {
                    LaptopModule::AsusWmi
                } else {
                    LaptopModule::NoModule
                }
            },
        }
    }

    pub fn name(&self) -> (r: &'static str)
        ensures
            r@ == module_name(*self),
    {
        match self {
            LaptopModule::IdeapadAcpi => "ideapad_acpi",
            LaptopModule::IdeapadLaptop => "ideapad_laptop",
            LaptopModule::ThinkpadAcpi => "thinkpad_acpi",
            LaptopModule::AsusWmi => "asus_wmi",
            LaptopModule::NoModule => "none",
        }
    }
}

/// Which of the two charge thresholds.
#[derive(Debug, Clone, Copy, PartialEq, Eq, Structural)]
pub enum ThresholdMode {
    Start,
    Stop,
}

/// The name of a mode in `charge_<mode>_threshold`.
pub open spec fn mode_str(m: ThresholdMode) -> Seq<char> {
    match m {
        ThresholdMode::Start => "start"@,
        ThresholdMode::Stop => "stop"@,
    }
}

/// The name of a mode in the legacy `charge_control_<mode>_threshold`.
pub open spec fn mode_fallback_str(m: ThresholdMode) -> Seq<char> {
    match m {
        ThresholdMode::Start => "start"@,
        ThresholdMode::Stop => "end"@,
    }
}

/// The primary threshold file of a battery.
pub open spec fn primary_path_spec(m: ThresholdMode, battery: Seq<char>) -> Seq<char> {
    POWER_SUPPLY_DIR@ + battery + "/charge_"@ + mode_str(m) + "_threshold"@
}

/// The legacy threshold file of a battery.
pub open spec fn fallback_path_spec(m: ThresholdMode, battery: Seq<char>) -> Seq<char> {
    POWER_SUPPLY_DIR@ + battery + "/charge_control_"@ + mode_fallback_str(m) + "_threshold"@
}

impl ThresholdMode {
    pub fn as_str(&self) -> (r: &'static str)
        ensures
            r@ == mode_str(*self),
    {
        match self {
            ThresholdMode::Start => "start",
            ThresholdMode::Stop => "stop",
        }
    }

    pub fn fallback_str(&self) -> (r: &'static str)
        ensures
            r@ == mode_fallback_str(*self),
    {
        match self {
            ThresholdMode::Start => "start",
            ThresholdMode::Stop => "end",
        }
    }

    /// `<power supply dir><battery>/charge_<mode>_threshold`.
    pub fn primary_path(&self, battery: &str) -> (r: String)
        ensures
            r@ == primary_path_spec(*self, battery@),
    {
        let mut p = POWER_SUPPLY_DIR.to_owned();
        p.append(battery);
        p.append("/charge_");
        p.append(self.as_str());
        p.append("_threshold");
        p
    }

    /// `<power supply dir><battery>/charge_control_<mode>_threshold`.
    pub fn fallback_path(&self, battery: &str) -> (r: String)
        ensures
            r@ == fallback_path_spec(*self, battery@),
    {
        let mut p = POWER_SUPPLY_DIR.to_owned();
        p.append(battery);
        p.append("/charge_control_");
        p.append(self.fallback_str());
        p.append("_threshold");
        p
    }
}

/// Whether a power-supply entry name is a battery: it begins with "BAT".
pub open spec fn is_battery_name(n: Seq<char>) -> bool {
    3 <= n.len() && n.take(3) == "BAT"@
}

/// Whether `s` is strictly increasing (so sorted and free of duplicates).
pub open spec fn strictly_sorted(s: Seq<Seq<char>>) -> bool {
    forall|i: int, j: int| 0 <= i < j < s.len() ==> text_lt(#[trigger] s[i], #[trigger] s[j])
}

/// Adds `x` to the strictly sorted `out`, unless it is there already.
fn insert_sorted(out: &mut Vec<String>, x: &str)
    requires
        strictly_sorted(texts(old(out)@)),
    ensures
        strictly_sorted(texts(final(out)@)),
        forall|s: Seq<char>| #[trigger] texts(final(out)@).contains(s) <==> (texts(old(out)@).contains(s) || s == x@),
{
    let ghost t = texts(out@);
    let mut k: usize = 0;
    while k < out.len() && less_text(out[k].as_str(), x)
        invariant
            k <= out@.len(),
            t == texts(out@),
            forall|q: int| 0 <= q < k ==> text_lt(#[trigger] t[q], x@),
        decreases out.len() - k,
    {
        k = k + 1;
    }
    if k < out.len() && same_text(out[k].as_str(), x) {
        assert(t[k as int] == x@);
        assert forall|s: Seq<char>| #[trigger] t.contains(s) <==> (t.contains(s) || s == x@) by {}
        return;
    }
    proof {
        if k < t.len() {
            lemma_text_lt_total(t[k as int], x@);
        }
    }
    out.insert(k, x.to_owned());
    let ghost u = texts(out@);
    assert(u =~= t.insert(k as int, x@));
    assert forall|a: int, b: int| 0 <= a < b < u.len() implies text_lt(#[trigger] u[a], #[trigger] u[b]) by {
        if b < k {
            assert(u[a] == t[a] && u[b] == t[b]);
        } else if b == k {
            assert(u[a] == t[a]);
        } else if a == k {
            assert(u[b] == t[b - 1]);
            if b - 1 > k {
                lemma_text_lt_transitive(x@, t[k as int], t[b - 1]);
            }
        } else if a < k {
            assert(u[a] == t[a] && u[b] == t[b - 1]);
        } else {
            assert(u[a] == t[a - 1] && u[b] == t[b - 1]);
        }
    }
    assert forall|s: Seq<char>| #[trigger] u.contains(s) <==> (t.contains(s) || s == x@) by {
        if u.contains(s) {
            let q = choose|q: int| 0 <= q < u.len() && u[q] == s;
            if q < k {
                assert(t[q] == s);
            } else if q > k {
                assert(t[q - 1] == s);
            }
        }
        if t.contains(s) {
            let q = choose|q: int| 0 <= q < t.len() && t[q] == s;
            if q < k {
                assert(u[q] == s);
            } else {
                assert(u[q + 1] == s);
            }
        }
        if s == x@ {
            assert(u[k as int] == s);
        }
    }
}

/// The battery names among the power-supply directory's `names`, sorted
/// and each once.
pub fn get_batteries(names: &Vec<String>) -> (r: Vec<String>)
    ensures
        strictly_sorted(texts(r@)),
        forall|s: Seq<char>| #[trigger] texts(r@).contains(s) <==> (texts(names@).contains(s) && is_battery_name(s)),
{
    let ghost ns = texts(names@);
    let mut out: Vec<String> = Vec::new();
    let mut i: usize = 0;
    while i < names.len()
        invariant
            i <= names@.len(),
            ns == texts(names@),
            strictly_sorted(texts(out@)),
            forall|s: Seq<char>| #[trigger] texts(out@).contains(s) <==> (ns.take(i as int).contains(s) && is_battery_name(s)),
        decreases names.len() - i,
    {
        let x = names[i].as_str();
        assert(ns[i as int] == x@);
        proof {
            reveal_strlit("BAT");
        }
        let ghost prev = ns.take(i as int);
        let ghost before = texts(out@);
        assert(ns.take(i + 1) =~= prev.push(x@));
        assert forall|s: Seq<char>| #[trigger] prev.push(x@).contains(s) <==> (prev.contains(s) || s == x@) by {
            if prev.push(x@).contains(s) {
                let k = choose|k: int| 0 <= k < prev.push(x@).len() && prev.push(x@)[k] == s;
                if k < prev.len() {
                    assert(prev[k] == s);
                }
            }
            if prev.contains(s) {
                let k = choose|k: int| 0 <= k < prev.len() && prev[k] == s;
                assert(prev.push(x@)[k] == s);
            }
            if s == x@ {
                assert(prev.push(x@)[prev.len() as int] == s);
            }
        }
        if starts_with_text(x, "BAT") {
            insert_sorted(&mut out, x);
        }
        assert forall|s: Seq<char>| #[trigger] texts(out@).contains(s) <==> (ns.take(i + 1).contains(s) && is_battery_name(s)) by {
            assert(before.contains(s) <==> (prev.contains(s) && is_battery_name(s)));
            assert(prev.push(x@).contains(s) <==> (prev.contains(s) || s == x@));
        }
        i = i + 1;
    }
    assert(ns.take(i as int) =~= ns);
    out
}

/// The threshold for `mode`, with the default (0 for start, 100 for stop)
/// where the configured value is missing or invalid.
pub open spec fn threshold_value_spec(config: Config, m: ThresholdMode) -> u8 {
    match threshold_spec(mode_str(m), config.stored("battery"@, threshold_key(mode_str(m))->0)) {
        Ok(v) => v,
        Err(_) => match m {
            ThresholdMode::Start => 0u8,
            ThresholdMode::Stop => 100u8,
        },
    }
}

/// The configured threshold for `mode`, or its default.
pub fn get_threshold_value(config: &Config, mode: ThresholdMode) -> (r: u8)
    ensures
        r == threshold_value_spec(*config, mode),
{
    proof {
        reveal_strlit("start");
        reveal_strlit("stop");
    }
    match config.get_threshold(mode.as_str()) {
        Ok(v) => v,
        Err(_) => match mode {
            ThresholdMode::Start => 0,
            ThresholdMode::Stop => 100,
        },
    }
}

/// One threshold write: `value` into the battery's primary threshold file
/// for `mode`, skipped with a warning where that file does not exist.
pub struct ThresholdWrite {
    pub battery: String,
    pub mode: ThresholdMode,
    pub value: u8,
}

/// One threshold to report: the files to try, in order.
pub struct ThresholdRead {
    pub battery: String,
    pub mode: ThresholdMode,
    pub paths: Vec<String>,
}

/// The writes that set both thresholds on every battery: start, then stop.
pub open spec fn writes_spec(batteries: Seq<Seq<char>>, start: u8, stop: u8) -> Seq<(Seq<char>, ThresholdMode, u8)>
    decreases batteries.len(),
{
    if batteries.len() == 0 {
        Seq::empty()
    } else {
        writes_spec(batteries.drop_last(), start, stop).push(
            (batteries.last(), ThresholdMode::Start, start),
        ).push((batteries.last(), ThresholdMode::Stop, stop))
    }
}

/// The writes as plain values.
pub open spec fn writes_view(w: Seq<ThresholdWrite>) -> Seq<(Seq<char>, ThresholdMode, u8)> {
    w.map_values(|x: ThresholdWrite| (x.battery@, x.mode, x.value))
}

/// The start and stop threshold writes for every battery.
pub fn threshold_writes(config: &Config, batteries: &Vec<String>) -> (r: Vec<ThresholdWrite>)
    ensures
        writes_view(r@) == writes_spec(
            texts(batteries@),
            threshold_value_spec(*config, ThresholdMode::Start),
            threshold_value_spec(*config, ThresholdMode::Stop),
        ),
{
    let start = get_threshold_value(config, ThresholdMode::Start);
    let stop = get_threshold_value(config, ThresholdMode::Stop);
    let ghost bs = texts(batteries@);
    let mut out: Vec<ThresholdWrite> = Vec::new();
    let mut i: usize = 0;
    while i < batteries.len()
        invariant
            i <= batteries@.len(),
            bs == texts(batteries@),
            writes_view(out@) == writes_spec(bs.take(i as int), start, stop),
        decreases batteries.len() - i,
    {
        let ghost p = bs.take(i + 1);
        assert(p.drop_last() =~= bs.take(i as int));
        let ghost before = out@;
        out.push(ThresholdWrite { battery: batteries[i].clone(), mode: ThresholdMode::Start, value: start });
        out.push(ThresholdWrite { battery: batteries[i].clone(), mode: ThresholdMode::Stop, value: stop });
        assert(writes_view(out@) =~= writes_view(before).push((bs[i as int], ThresholdMode::Start, start)).push((bs[i as int], ThresholdMode::Stop, stop)));
        i = i + 1;
    }
    assert(bs.take(i as int) =~= bs);
    out
}

/// Whether `r` lists, for each battery in turn, the start then the stop
/// threshold, each with its primary file and, where `with_fallback`, then
/// its legacy file.
pub open spec fn reads_spec(r: Seq<ThresholdRead>, batteries: Seq<Seq<char>>, with_fallback: bool) -> bool {
    &&& r.len() == 2 * batteries.len()
    &&& forall|i: int| 0 <= i < batteries.len() ==> {
        &&& (#[trigger] r[2 * i]).battery@ == batteries[i]
        &&& r[2 * i].mode == ThresholdMode::Start
        &&& r[2 * i + 1].battery@ == batteries[i]
        &&& r[2 * i + 1].mode == ThresholdMode::Stop
    }
    &&& forall|k: int| 0 <= k < r.len() ==> {
        &&& texts((#[trigger] r[k]).paths@)[0] == primary_path_spec(r[k].mode, r[k].battery@)
        &&& with_fallback ==> r[k].paths@.len() == 2 && texts(r[k].paths@)[1] == fallback_path_spec(r[k].mode, r[k].battery@)
        &&& !with_fallback ==> r[k].paths@.len() == 1
    }
}

/// The threshold files to read for each battery: start, then stop, each
/// from the primary file and, where `with_fallback`, then the legacy one.
pub fn threshold_reads(batteries: &Vec<String>, with_fallback: bool) -> (r: Vec<ThresholdRead>)
    ensures
        reads_spec(r@, texts(batteries@), with_fallback),
{
    let mut out: Vec<ThresholdRead> = Vec::new();
    let mut i: usize = 0;
    while i < batteries.len()
        invariant
            i <= batteries@.len(),
            out@.len() == 2 * i,
            forall|j: int| 0 <= j < i ==> {
                &&& (#[trigger] out@[2 * j]).battery@ == batteries@[j]@
                &&& out@[2 * j].mode == ThresholdMode::Start
                &&& out@[2 * j + 1].battery@ == batteries@[j]@
                &&& out@[2 * j + 1].mode == ThresholdMode::Stop
            },
            forall|k: int| 0 <= k < out@.len() ==> {
                &&& texts((#[trigger] out@[k]).paths@)[0] == primary_path_spec(out@[k].mode, out@[k].battery@)
                &&& with_fallback ==> out@[k].paths@.len() == 2 && texts(out@[k].paths@)[1] == fallback_path_spec(out@[k].mode, out@[k].battery@)
                &&& !with_fallback ==> out@[k].paths@.len() == 1
            },
        decreases batteries.len() - i,
    {
        let b = batteries[i].as_str();
        let mut k: usize = 0;
        while k < 2
            invariant
                i < batteries@.len(),
                b@ == batteries@[i as int]@,
                0 <= k <= 2,
                out@.len() == 2 * i + k,
                forall|j: int| 0 <= j < i ==> {
                    &&& (#[trigger] out@[2 * j]).battery@ == batteries@[j]@
                    &&& out@[2 * j].mode == ThresholdMode::Start
                    &&& out@[2 * j + 1].battery@ == batteries@[j]@
                    &&& out@[2 * j + 1].mode == ThresholdMode::Stop
                },
                k >= 1 ==> out@[2 * i].battery@ == b@ && out@[2 * i].mode == ThresholdMode::Start,
                k >= 2 ==> out@[2 * i + 1].battery@ == b@ && out@[2 * i + 1].mode == ThresholdMode::Stop,
                forall|q: int| 0 <= q < out@.len() ==> {
                    &&& texts((#[trigger] out@[q]).paths@)[0] == primary_path_spec(out@[q].mode, out@[q].battery@)
                    &&& with_fallback ==> out@[q].paths@.len() == 2 && texts(out@[q].paths@)[1] == fallback_path_spec(out@[q].mode, out@[q].battery@)
                    &&& !with_fallback ==> out@[q].paths@.len() == 1
                },
            decreases 2 - k,
        {
            let mode = if k == 0 { ThresholdMode::Start } else { ThresholdMode::Stop };
            let mut paths: Vec<String> = Vec::new();
            paths.push(mode.primary_path(b));
            if with_fallback {
                paths.push(mode.fallback_path(b));
            }
            let ghost pv = paths@;
            assert(texts(pv)[0] == pv[0]@);
            assert(with_fallback ==> texts(pv)[1] == pv[1]@);
            out.push(ThresholdRead { battery: b.to_owned(), mode, paths });
            k = k + 1;
        }
        i = i + 1;
    }
    proof {
        let b = texts(batteries@);
        assert forall|i: int| 0 <= i < b.len() implies {
            &&& (#[trigger] out@[2 * i]).battery@ == b[i]
            &&& out@[2 * i].mode == ThresholdMode::Start
            &&& out@[2 * i + 1].battery@ == b[i]
            &&& out@[2 * i + 1].mode == ThresholdMode::Stop
        } by {
            assert(b[i] == batteries@[i]@);
        }
    }
    out
}

/// Whether the configuration enables threshold management.
pub open spec fn thresholds_enabled(config: Config) -> bool {
    bool_spec(config.stored("battery"@, "enable_thresholds"@)) == Ok::<bool, ConfigError>(true)
}

fn enabled(config: &Config) -> (r: bool)
    ensures
        r == thresholds_enabled(*config),
{
    match config.get_bool("battery", "enable_thresholds") {
        Ok(b) => b,
        Err(_) => false,
    }
}

/// The writes of a vendor that sets both thresholds on every battery, when
/// management is enabled and the power-supply directory exists.
pub open spec fn plain_setup_spec(config: Config, power_supply_exists: bool, batteries: Seq<Seq<char>>) -> Seq<(Seq<char>, ThresholdMode, u8)> {
    if thresholds_enabled(config) && power_supply_exists {
        writes_spec(
            batteries,
            threshold_value_spec(config, ThresholdMode::Start),
            threshold_value_spec(config, ThresholdMode::Stop),
        )
    } else {
        Seq::empty()
    }
}

/// The writes of `setup` for a vendor that writes both thresholds on every battery.
pub fn plain_setup(config: &Config, power_supply_exists: bool, batteries: &Vec<String>) -> (r: Vec<ThresholdWrite>)
    ensures
        writes_view(r@) == plain_setup_spec(*config, power_supply_exists, texts(batteries@)),
{
    if !enabled(config) || !power_supply_exists {
        let r: Vec<ThresholdWrite> = Vec::new();
        assert(writes_view(r@) =~= Seq::<(Seq<char>, ThresholdMode, u8)>::empty());
        return r;
    }
    threshold_writes(config, batteries)
}

/// The conservation-mode change the configuration asks for on Ideapad
/// laptops: 1 for "true", 0 for "false".
pub open spec fn conservation_request_spec(config: Config) -> Option<u8> {
    match config.stored("battery"@, "ideapad_laptop_conservation_mode"@) {
        Some(v) => if v == "true"@ {
            Some(1u8)
        } else if v == "false"@ {
            Some(0u8)
        } else {
            None
        },
        None => None,
    }
}

/// The writes of `setup` on an Ideapad laptop. `conservation_on` is the
/// conservation toggle as read after the requested change was applied;
/// while it is on, or when the configuration turns it on, no threshold is
/// written.
pub open spec fn ideapad_laptop_setup_spec(config: Config, batteries: Seq<Seq<char>>, conservation_on: bool) -> Seq<(Seq<char>, ThresholdMode, u8)> {
    if thresholds_enabled(config) && conservation_request_spec(config) != Some(1u8) && !conservation_on {
        writes_spec(
            batteries,
            threshold_value_spec(config, ThresholdMode::Start),
            threshold_value_spec(config, ThresholdMode::Stop),
        )
    } else {
        Seq::empty()
    }
}

/// The threshold writes of `setup` for the detected vendor.
pub open spec fn setup_spec(
    module: LaptopModule,
    config: Config,
    power_supply_exists: bool,
    batteries: Seq<Seq<char>>,
    conservation_on: bool,
) -> Seq<(Seq<char>, ThresholdMode, u8)> {
    match module {
        LaptopModule::IdeapadLaptop => ideapad_laptop_setup_spec(config, batteries, conservation_on),
        LaptopModule::NoModule => Seq::empty(),
        _ => plain_setup_spec(config, power_supply_exists, batteries),
    }
}

/// The threshold writes for the detected vendor; no-op without a supported
/// module. `batteries` are the battery names of the power-supply directory,
/// `conservation_on` the Ideapad conservation toggle (ignored elsewhere).
pub fn battery_setup(
    module: LaptopModule,
    config: &Config,
    power_supply_exists: bool,
    batteries: &Vec<String>,
    conservation_on: bool,
) -> (r: Vec<ThresholdWrite>)
    ensures
        writes_view(r@) == setup_spec(module, *config, power_supply_exists, texts(batteries@), conservation_on),
{
    match module {
        LaptopModule::IdeapadAcpi => ideapad_acpi::IdeapadAcpiManager.setup(config, power_supply_exists, batteries),
        LaptopModule::IdeapadLaptop => ideapad_laptop::IdeapadLaptopManager.setup(config, batteries, conservation_on),
        LaptopModule::ThinkpadAcpi => thinkpad::ThinkpadManager.setup(config, power_supply_exists, batteries),
        LaptopModule::AsusWmi => asus::AsusManager.setup(config, power_supply_exists, batteries),
        LaptopModule::NoModule => {
            let r: Vec<ThresholdWrite> = Vec::new();
            assert(writes_view(r@) =~= Seq::<(Seq<char>, ThresholdMode, u8)>::empty());
            r
        },
    }
}

/// The threshold files to report for the detected vendor: none without a
/// supported module or while Ideapad conservation mode is on; ASUS also
/// tries the legacy file names.
pub fn battery_get_thresholds(module: LaptopModule, conservation_on: bool, batteries: &Vec<String>) -> (r: Vec<ThresholdRead>)
    ensures
        module == LaptopModule::NoModule ==> r@.len() == 0,
        module == LaptopModule::IdeapadLaptop && conservation_on ==> r@.len() == 0,
        module != LaptopModule::NoModule && !(module == LaptopModule::IdeapadLaptop && conservation_on) ==> reads_spec(r@, texts(batteries@), module == LaptopModule::AsusWmi),
{
    match module {
        LaptopModule::IdeapadAcpi => ideapad_acpi::IdeapadAcpiManager.print_thresholds(batteries),
        LaptopModule::IdeapadLaptop => ideapad_laptop::IdeapadLaptopManager.print_thresholds(conservation_on, batteries),
        LaptopModule::ThinkpadAcpi => thinkpad::ThinkpadManager.print_thresholds(batteries),
        LaptopModule::AsusWmi => asus::AsusManager.print_thresholds(batteries),
        LaptopModule::NoModule => Vec::new(),
    }
}

/// On an Ideapad laptop whose configuration turns conservation mode on, or
/// whose conservation mode is on, `setup` writes no threshold.
pub proof fn law_conservation_excludes_thresholds(
    config: Config,
    power_supply_exists: bool,
    batteries: Seq<Seq<char>>,
    conservation_on: bool,
)
    requires
        conservation_request_spec(config) == Some(1u8) || conservation_on,
    ensures
        setup_spec(LaptopModule::IdeapadLaptop, config, power_supply_exists, batteries, conservation_on).len() == 0,
{
}

} // verus!
