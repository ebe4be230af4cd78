//! Rate-limited caches over expensive kernel-interface reads: the CPU
//! statistics refresh, the temperature-sensor topology and the paths of the
//! battery and AC supply. Times are milliseconds of a monotonic clock.

use vstd::prelude::*;
use crate::text::{parse_i32, parse_i32_spec, same_text, trim, trim_spec};

verus! {

/// Milliseconds from `from` to `now`; 0 when the clock reads earlier.
pub open spec fn elapsed(from: u64, now: u64) -> int {
    if now >= from {
        now - from
    } else {
        0
    }
}

/// Whether a cache last filled at `last` (`None`: never) is older than
/// `interval_secs` at `now`.
pub open spec fn stale(last: Option<u64>, interval_secs: u64, now: u64) -> bool {
    match last {
        None => true,
        Some(t) => elapsed(t, now) > interval_secs * 1000,
    }
}

fn is_stale(last: Option<u64>, interval_secs: u64, now: u64) -> (r: bool)
    ensures
        r == stale(last, interval_secs, now),
{
    match last {
        None => true,
        Some(t) => {
            let e: u128 = if now >= t { (now - t) as u128 } else { 0 };
            e > (interval_secs as u128) * 1000
        },
    }
}

/// Throttles the CPU statistics refresh, whose cost is two samples with a
/// settle delay between them.
pub struct CachedSystem {
    pub last_refresh: Option<u64>,
    pub refresh_interval: u64,
}

impl CachedSystem {
    /// A cache that refreshes at most once per `refresh_interval_secs`; the
    /// first call always refreshes.
    pub fn new(refresh_interval_secs: u64) -> (r: Self)
        ensures
            r.last_refresh is None,
            r.refresh_interval == refresh_interval_secs,
    {
        CachedSystem { last_refresh: None, refresh_interval: refresh_interval_secs }
    }

    /// Whether the caller must take a fresh double sample at `now`; when it
    /// must, `now` is recorded as the time of the refresh.
    pub fn get_refreshed_system(&mut self, now: u64) -> (r: bool)
        ensures
            r == stale(old(self).last_refresh, old(self).refresh_interval, now),
            final(self).refresh_interval == old(self).refresh_interval,
            r ==> final(self).last_refresh == Some(now),
            !r ==> final(self).last_refresh == old(self).last_refresh,
    {
        if is_stale(self.last_refresh, self.refresh_interval, now) {
            self.last_refresh = Some(now);
            true
        } else {
            false
        }
    }

    /// Records a double sample taken at `now` whatever the interval.
    pub fn force_refresh(&mut self, now: u64)
        ensures
            final(self).last_refresh == Some(now),
            final(self).refresh_interval == old(self).refresh_interval,
    {
        self.last_refresh = Some(now);
    }
}

/// Two refreshes within the interval sample once; a call after the interval
/// has passed samples again.
pub proof fn law_refresh_throttled(interval_secs: u64, first: u64, second: u64)
    requires
        first <= second,
    ensures
        stale(None, interval_secs, first),
        second - first <= interval_secs * 1000 ==> !stale(Some(first), interval_secs, second),
        second - first > interval_secs * 1000 ==> stale(Some(first), interval_secs, second),
{
}

/// The place of a thermal driver in the priority list (coretemp, k10temp,
/// zenpower, acpitz); 4 for any other name.
pub open spec fn driver_rank(name: Seq<char>) -> int {
    if name == "coretemp"@ {
        0
    } else if name == "k10temp"@ {
        1
    } else if name == "zenpower"@ {
        2
    } else if name == "acpitz"@ {
        3
    } else {
        4
    }
}

fn rank_of_driver(name: &str) -> (r: u32)
    ensures
        r == driver_rank(name@),
{
    if same_text(name, "coretemp") {
        0
    } else if same_text(name, "k10temp") {
        1
    } else if same_text(name, "zenpower") {
        2
    } else if same_text(name, "acpitz") {
        3
    } else {
        4
    }
}

fn device_rank_exec(d: &HwmonDevice) -> (r: u32)
    ensures
        r == device_rank(*d),
{
    match &d.name {
        Some(n) => rank_of_driver(trim(n.as_str())),
        None => 4,
    }
}

/// One hwmon device as found on disk.
pub struct HwmonDevice {
    /// The text of its `name` file; `None` when it could not be read.
    pub name: Option<String>,
    /// Its `temp<N>_input` files that exist, as (N, path).
    pub temps: Vec<(u32, String)>,
    /// The path of its `fan1_input` file, if that exists.
    pub fan: Option<String>,
}

/// The priority of device `d`: that of its (trimmed) driver name, 4 when
/// the name could not be read.
pub open spec fn device_rank(d: HwmonDevice) -> int {
    match d.name {
        Some(n) => driver_rank(trim_spec(n@)),
        None => 4,
    }
}

/// Index of the first device of rank `r` in `devs`, or `devs.len()`.
pub open spec fn first_of_rank(devs: Seq<HwmonDevice>, r: int) -> int
    decreases devs.len(),
{
    if devs.len() == 0 {
        0
    } else if device_rank(devs[0]) == r {
        0
    } else {
        1 + first_of_rank(devs.drop_first(), r)
    }
}

/// The sensor device among `devs` from rank `r` on: the first device of the
/// best rank present, `devs.len()` when none of ranks `r` to 3 is present.
pub open spec fn best_from(devs: Seq<HwmonDevice>, r: int) -> int
    decreases 4 - r,
{
    if r >= 4 || r < 0 {
        devs.len() as int
    } else if first_of_rank(devs, r) < devs.len() {
        first_of_rank(devs, r)
    } else {
        best_from(devs, r + 1)
    }
}

/// The device whose sensors are used: the first one whose driver comes
/// earliest in the priority list; `devs.len()` when no driver of the list
/// is present.
pub open spec fn chosen_sensor(devs: Seq<HwmonDevice>) -> int {
    best_from(devs, 0)
}

/// Index of the first device with a readable name and a fan input, or `devs.len()`.
pub open spec fn first_fan(devs: Seq<HwmonDevice>) -> int
    decreases devs.len(),
{
    if devs.len() == 0 {
        0
    } else if devs[0].name is Some && devs[0].fan is Some {
        0
    } else {
        1 + first_fan(devs.drop_first())
    }
}

proof fn lemma_first_of_rank(devs: Seq<HwmonDevice>, r: int)
    ensures
        0 <= first_of_rank(devs, r) <= devs.len(),
        first_of_rank(devs, r) < devs.len() ==> device_rank(devs[first_of_rank(devs, r)]) == r,
        forall|j: int| 0 <= j < first_of_rank(devs, r) ==> device_rank(#[trigger] devs[j]) != r,
    decreases devs.len(),
{
    if devs.len() > 0 && device_rank(devs[0]) != r {
        lemma_first_of_rank(devs.drop_first(), r);
        assert forall|j: int| 0 <= j < first_of_rank(devs, r) implies device_rank(#[trigger] devs[j]) != r by {
            if j > 0 {
                assert(devs[j] == devs.drop_first()[j - 1]);
            }
        }
    }
}

fn find_rank(devices: &Vec<HwmonDevice>, r: u32) -> (m: usize)
    ensures
        m == first_of_rank(devices@, r as int),
{
    proof {
        lemma_first_of_rank(devices@, r as int);
    }
    let mut m: usize = 0;
    while m < devices.len() && device_rank_exec(&devices[m]) != r
        invariant
            m <= devices@.len(),
            forall|j: int| 0 <= j < m ==> device_rank(#[trigger] devices@[j]) != r,
            0 <= first_of_rank(devices@, r as int) <= devices@.len(),
            first_of_rank(devices@, r as int) < devices@.len() ==> device_rank(devices@[first_of_rank(devices@, r as int)]) == r,
            forall|j: int| 0 <= j < first_of_rank(devices@, r as int) ==> device_rank(#[trigger] devices@[j]) != r,
        decreases devices.len() - m,
    {
        m = m + 1;
    }
    m
}

proof fn lemma_best_from_bound(devs: Seq<HwmonDevice>, r: int)
    ensures
        0 <= best_from(devs, r) <= devs.len(),
    decreases 4 - r,
{
    if 0 <= r < 4 {
        lemma_first_of_rank(devs, r);
        lemma_best_from_bound(devs, r + 1);
    }
}

proof fn lemma_first_fan(devs: Seq<HwmonDevice>)
    ensures
        0 <= first_fan(devs) <= devs.len(),
        first_fan(devs) < devs.len() ==> devs[first_fan(devs)].name is Some && devs[first_fan(
            devs,
        )].fan is Some,
        forall|j: int| 0 <= j < first_fan(devs) ==> !(#[trigger] devs[j].name is Some && devs[j].fan is Some),
    decreases devs.len(),
{
    if devs.len() > 0 && !(devs[0].name is Some && devs[0].fan is Some) {
        lemma_first_fan(devs.drop_first());
        assert forall|j: int| 0 <= j < first_fan(devs) implies !(#[trigger] devs[j].name is Some
            && devs[j].fan is Some) by {
            if j > 0 {
                assert(devs[j] == devs.drop_first()[j - 1]);
            }
        }
    }
}

/// The highest temperature input that is read for a core, plus one.
pub const TEMP_INPUT_END: u32 = 20;

/// The path of input `n` among `temps`: the last pair naming `n`.
pub open spec fn temp_path(temps: Seq<(u32, String)>, n: u32) -> Option<Seq<char>>
    decreases temps.len(),
{
    if temps.len() == 0 {
        None
    } else if temps.last().0 == n {
        Some(temps.last().1@)
    } else {
        temp_path(temps.drop_last(), n)
    }
}

fn find_temp_path(temps: &Vec<(u32, String)>, n: u32) -> (r: Option<String>)
    ensures
        r matches Some(p) ==> temp_path(temps@, n) == Some(p@),
        r is None ==> temp_path(temps@, n) is None,
{
    let mut i: usize = temps.len();
    assert(temps@.take(i as int) =~= temps@);
    while i > 0
        invariant
            i <= temps@.len(),
            temp_path(temps@, n) == temp_path(temps@.take(i as int), n),
        decreases i,
    {
        let ghost p = temps@.take(i as int);
        assert(p.drop_last() =~= temps@.take(i - 1));
        if temps[i - 1].0 == n {
            return Some(temps[i - 1].1.clone());
        }
        i = i - 1;
    }
    None
}

/// Where each temperature is read: found once by a scan of the hwmon
/// devices and read on every call.
pub struct TempSensorCache {
    /// Core `c` reads input `c + 2` of the chosen sensor device.
    pub sensor_paths: Vec<Option<String>>,
    /// Input 1 of the chosen sensor device: the package temperature.
    pub package_temp_path: Option<String>,
    pub fan_speed_path: Option<String>,
    pub last_scan: Option<u64>,
}

/// The path of a core's temperature after a scan of `devs`.
pub open spec fn scanned_core_path(devs: Seq<HwmonDevice>, core: int) -> Option<Seq<char>> {
    let m = chosen_sensor(devs);
    if m < devs.len() && 0 <= core < TEMP_INPUT_END - 2 {
        temp_path(devs[m].temps@, (core + 2) as u32)
    } else {
        None
    }
}

/// The package temperature path after a scan of `devs`.
pub open spec fn scanned_package_path(devs: Seq<HwmonDevice>) -> Option<Seq<char>> {
    let m = chosen_sensor(devs);
    if m < devs.len() {
        temp_path(devs[m].temps@, 1)
    } else {
        None
    }
}

/// The fan speed path after a scan of `devs`.
pub open spec fn scanned_fan_path(devs: Seq<HwmonDevice>) -> Option<Seq<char>> {
    let f = first_fan(devs);
    if f < devs.len() {
        Some(devs[f].fan->0@)
    } else {
        None
    }
}

/// An optional string as an optional text.
pub open spec fn opt_text(o: Option<String>) -> Option<Seq<char>> {
    match o {
        Some(s) => Some(s@),
        None => None,
    }
}

impl TempSensorCache {
    /// Whether the paths are those a scan of `devs` at `now` finds.
    pub open spec fn scanned_from(&self, devs: Seq<HwmonDevice>, now: u64) -> bool {
        &&& self.last_scan == Some(now)
        &&& self.sensor_paths@.len() == TEMP_INPUT_END - 2
        &&& forall|c: int|
            0 <= c < self.sensor_paths@.len() ==> opt_text(#[trigger] self.sensor_paths@[c])
                == scanned_core_path(devs, c)
        &&& opt_text(self.package_temp_path) == scanned_package_path(devs)
        &&& opt_text(self.fan_speed_path) == scanned_fan_path(devs)
    }

    /// A cache filled by a scan of `devices` at `now`.
    pub fn new(devices: &Vec<HwmonDevice>, now: u64) -> (r: Self)
        ensures
            r.scanned_from(devices@, now),
    {
        let mut cache = TempSensorCache {
            sensor_paths: Vec::new(),
            package_temp_path: None,
            fan_speed_path: None,
            last_scan: None,
        };
        cache.scan_sensors(devices, now);
        cache
    }

    /// Finds the sensor paths among `devices`: temperatures come from the
    /// device whose driver comes earliest in the priority list (the first
    /// such device in listing order), the fan from the first device that has one.
    pub fn scan_sensors(&mut self, devices: &Vec<HwmonDevice>, now: u64)
        ensures
            final(self).scanned_from(devices@, now),
    {
        proof {
            lemma_first_fan(devices@);
            lemma_best_from_bound(devices@, 0);
        }
        let mut r: u32 = 0;
        let mut m: usize = devices.len();
        while r < 4 && m == devices.len()
            invariant
                r <= 4,
                m <= devices@.len(),
                m == devices@.len() ==> chosen_sensor(devices@) == best_from(devices@, r as int),
                m < devices@.len() ==> chosen_sensor(devices@) == m,
            decreases 4 - r,
        {
            m = find_rank(devices, r);
            proof {
                lemma_first_of_rank(devices@, r as int);
                lemma_best_from_bound(devices@, r + 1);
            }
            r = r + 1;
        }
        assert(m == chosen_sensor(devices@));
        let mut paths: Vec<Option<String>> = Vec::new();
        let mut c: u32 = 0;
        while c < TEMP_INPUT_END - 2
            invariant
                c <= TEMP_INPUT_END - 2,
                m <= devices@.len(),
                m == chosen_sensor(devices@),
                paths@.len() == c,
                forall|k: int| 0 <= k < c ==> opt_text(#[trigger] paths@[k]) == scanned_core_path(devices@, k),
            decreases TEMP_INPUT_END - 2 - c,
        {
            let p = if m < devices.len() {
                find_temp_path(&devices[m].temps, c + 2)
            } else {
                None
            };
            paths.push(p);
            c = c + 1;
        }
        let package = if m < devices.len() {
            find_temp_path(&devices[m].temps, 1)
        } else {
            None
        };
        let mut f: usize = 0;
        while f < devices.len() && !(devices[f].name.is_some() && devices[f].fan.is_some())
            invariant
                f <= devices@.len(),
                forall|j: int| 0 <= j < f ==> !(#[trigger] devices@[j].name is Some && devices@[j].fan is Some),
                0 <= first_fan(devices@) <= devices@.len(),
                first_fan(devices@) < devices@.len() ==> devices@[first_fan(devices@)].name is Some && devices@[first_fan(devices@)].fan is Some,
                forall|j: int| 0 <= j < first_fan(devices@) ==> !(#[trigger] devices@[j].name is Some && devices@[j].fan is Some),
            decreases devices.len() - f,
        {
            f = f + 1;
        }
        assert(f == first_fan(devices@) || f == devices@.len());
        let fan = if f < devices.len() {
            match &devices[f].fan {
                Some(p) => Some(p.clone()),
                None => None,
            }
        } else {
            None
        };
        self.sensor_paths = paths;
        self.package_temp_path = package;
        self.fan_speed_path = fan;
        self.last_scan = Some(now);
    }

    /// Whether the topology is due for a rescan at `now` (older than 300 s).
    pub fn maybe_rescan(&self, now: u64) -> (r: bool)
        ensures
            r == stale(self.last_scan, 300, now),
    {
        is_stale(self.last_scan, 300, now)
    }

    /// The file that holds core `core_id`'s temperature, if the scan found one.
    pub fn core_sensor_path(&self, core_id: usize) -> (r: Option<String>)
        ensures
            core_id < self.sensor_paths@.len() ==> opt_text(r) == opt_text(self.sensor_paths@[core_id as int]),
            core_id >= self.sensor_paths@.len() ==> r is None,
    {
        if core_id < self.sensor_paths.len() {
            match &self.sensor_paths[core_id] {
                Some(p) => Some(p.clone()),
                None => None,
            }
        } else {
            None
        }
    }
}

/// A temperature file's reading in thousandths of a degree: `None` when the
/// file could not be read or does not hold a non-negative integer.
pub open spec fn reading_spec(text: Option<Seq<char>>) -> Option<u32> {
    match text {
        Some(t) => match parse_i32_spec(trim_spec(t)) {
            Some(v) => if v >= 0 {
                Some(v as u32)
            } else {
                None
            },
            None => None,
        },
        None => None,
    }
}

/// Reads a temperature file's text.
pub fn parse_reading(text: Option<&str>) -> (r: Option<u32>)
    ensures
        r == reading_spec(
            match text {
                Some(t) => Some(t@),
                None => None,
            },
        ),
{
    match text {
        Some(t) => match parse_i32(trim(t)) {
            Some(v) => if v >= 0 {
                Some(v as u32)
            } else {
                None
            },
            None => None,
        },
        None => None,
    }
}

/// A core's temperature from the texts of its own sensor file and of the
/// package file: the core reading, else the package reading, else 0.
pub fn read_core_temp(core_text: Option<&str>, package_text: Option<&str>) -> (r: u32)
    ensures
        r == match reading_spec(
            match core_text {
                Some(t) => Some(t@),
                None => None,
            },
        ) {
            Some(v) => v,
            None => match reading_spec(
                match package_text {
                    Some(t) => Some(t@),
                    None => None,
                },
            ) {
                Some(v) => v,
                None => 0,
            },
        },
{
    match parse_reading(core_text) {
        Some(v) => v,
        None => match parse_reading(package_text) {
            Some(v) => v,
            None => 0,
        },
    }
}

/// The package temperature from its file's text, 0 when unknown.
pub fn read_package_temp(package_text: Option<&str>) -> (r: u32)
    ensures
        r == match reading_spec(
            match package_text {
                Some(t) => Some(t@),
                None => None,
            },
        ) {
            Some(v) => v,
            None => 0,
        },
{
    match parse_reading(package_text) {
        Some(v) => v,
        None => 0,
    }
}

/// The fan speed in RPM from its file's text: `None` unless it is a positive integer.
pub open spec fn read_fan_speed_spec(fan_text: Option<Seq<char>>) -> Option<i32> {
    match fan_text {
        Some(t) => match parse_i32_spec(trim_spec(t)) {
            Some(v) => if v > 0 {
                Some(v)
            } else {
                None
            },
            None => None,
        },
        None => None,
    }
}

/// The fan speed in RPM from its file's text.
pub fn read_fan_speed(fan_text: Option<&str>) -> (r: Option<i32>)
    ensures
        r == read_fan_speed_spec(
            match fan_text {
                Some(t) => Some(t@),
                None => None,
            },
        ),
{
    match fan_text {
        Some(t) => match parse_i32(trim(t)) {
            Some(v) => if v > 0 {
                Some(v)
            } else {
                None
            },
            None => None,
        },
        None => None,
    }
}

} // verus!
