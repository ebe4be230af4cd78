//! Power-source detection, daemon-process detection and the version.

use vstd::prelude::*;
use crate::text::{contains_spec, contains_text, same_text, texts, trim, trim_spec};

verus! {

/// The version of this program.
pub open spec fn version_spec() -> Seq<char> {
    "0.1.0"@
}

/// The version of this program.
pub fn get_formatted_version() -> (r: String)
    ensures
        r@ == version_spec(),
{
    "0.1.0".to_owned()
}

/// The first line of `ls` that mentions "Version".
pub open spec fn version_line_spec(ls: Seq<Seq<char>>) -> Option<Seq<char>>
    decreases ls.len(),
{
    if ls.len() == 0 {
        None
    } else if contains_spec(ls[0], "Version"@) {
        Some(ls[0])
    } else {
        version_line_spec(ls.drop_first())
    }
}

/// The installed version: on an AUR install the `Version` line of the
/// package query's output (`None` when it has none), else this program's.
pub fn get_version(is_aur: bool, pacman_output: &str) -> (r: Option<String>)
    ensures
        !is_aur ==> (r matches Some(v) && v@ == version_spec()),
        is_aur ==> match version_line_spec(crate::text::lines_spec(pacman_output@)) {
            Some(l) => (r matches Some(v) && v@ == l),
            None => r is None,
        },
{
    if !is_aur {
        return Some(get_formatted_version());
    }
    let ls = crate::text::lines(pacman_output);
    let ghost sl = crate::text::lines_spec(pacman_output@);
    let mut i: usize = 0;
    assert(sl.skip(0) =~= sl);
    while i < ls.len()
        invariant
            is_aur,
            sl == crate::text::lines_spec(pacman_output@),
            ls@.len() == sl.len(),
            forall|j: int| 0 <= j < ls@.len() ==> #[trigger] ls@[j]@ == sl[j],
            i <= ls@.len(),
            version_line_spec(sl) == version_line_spec(sl.skip(i as int)),
        decreases ls.len() - i,
    {
        let ghost rest = sl.skip(i as int);
        assert(rest[0] == ls@[i as int]@);
        assert(rest.drop_first() =~= sl.skip(i + 1));
        if contains_text(ls[i], "Version") {
            return Some(ls[i].to_owned());
        }
        i = i + 1;
    }
    assert(sl.skip(i as int) =~= Seq::<Seq<char>>::empty());
    None
}

/// Power-supply names that never tell the machine's power source (wireless
/// peripherals' batteries).
pub fn get_power_supply_ignore_list() -> (r: Vec<String>)
    ensures
        texts(r@) == seq!["hidpp_battery"@],
{
    let r = vec!["hidpp_battery".to_owned()];
    assert(texts(r@) =~= seq!["hidpp_battery"@]);
    r
}

/// One power supply as found on disk; the texts are those of its files,
/// `None` where a file does not exist.
pub struct PowerSupply {
    pub name: String,
    pub kind: Option<String>,
    pub online: Option<String>,
    pub status: Option<String>,
}

/// What one supply says of the power source: `Some(true)` for a mains
/// supply that is online, `Some(false)` for a discharging battery.
pub open spec fn supply_verdict(s: PowerSupply) -> Option<bool> {
    if contains_spec(s.name@, "hidpp_battery"@) {
        None
    } else {
        match s.kind {
            None => None,
            Some(k) => if trim_spec(k@) == "Mains"@ {
                match s.online {
                    Some(o) => if trim_spec(o@) == "1"@ {
                        Some(true)
                    } else {
                        None
                    },
                    None => None,
                }
            } else if trim_spec(k@) == "Battery"@ {
                match s.status {
                    Some(st) => if trim_spec(st@) == "Discharging"@ {
                        Some(false)
                    } else {
                        None
                    },
                    None => None,
                }
            } else {
                None
            },
        }
    }
}

/// Whether the machine runs on AC: the verdict of the first supply that has
/// one, in order of name; on AC when none does.
pub open spec fn charging_spec(supplies: Seq<PowerSupply>) -> bool
    decreases supplies.len(),
{
    if supplies.len() == 0 {
        true
    } else {
        match supply_verdict(supplies[0]) {
            Some(v) => v,
            None => charging_spec(supplies.drop_first()),
        }
    }
}

fn verdict(s: &PowerSupply) -> (r: Option<bool>)
    ensures
        r == supply_verdict(*s),
{
    if contains_text(s.name.as_str(), "hidpp_battery") {
        return None;
    }
    match &s.kind {
        None => None,
        Some(k) => {
            let k = trim(k.as_str());
            if same_text(k, "Mains") {
                match &s.online {
                    Some(o) => if same_text(trim(o.as_str()), "1") {
                        Some(true)
                    } else {
                        None
                    },
                    None => None,
                }
            } else if same_text(k, "Battery") {
                match &s.status {
                    Some(st) => if same_text(trim(st.as_str()), "Discharging") {
                        Some(false)
                    } else {
                        None
                    },
                    None => None,
                }
            } else {
                None
            }
        },
    }
}

/// Whether the machine is charging (on AC), from its power supplies sorted
/// by name; with no supply at all it counts as on AC.
pub fn charging(supplies: &Vec<PowerSupply>) -> (r: bool)
    ensures
        r == charging_spec(supplies@),
{
    let mut i: usize = 0;
    assert(supplies@.skip(0) =~= supplies@);
    while i < supplies.len()
        invariant
            i <= supplies@.len(),
            charging_spec(supplies@) == charging_spec(supplies@.skip(i as int)),
        decreases supplies.len() - i,
    {
        let ghost rest = supplies@.skip(i as int);
        assert(rest[0] == supplies@[i as int]);
        assert(rest.drop_first() =~= supplies@.skip(i + 1));
        match verdict(&supplies[i]) {
            Some(v) => return v,
            None => {},
        }
        i = i + 1;
    }
    assert(supplies@.skip(i as int) =~= Seq::<PowerSupply>::empty());
    true
}

/// Whether some text of `args` contains `needle`.
pub open spec fn any_contains(args: Seq<Seq<char>>, needle: Seq<char>) -> bool {
    exists|i: int| 0 <= i < args.len() && contains_spec(#[trigger] args[i], needle)
}

fn args_contain(args: &Vec<String>, needle: &str) -> (r: bool)
    ensures
        r == any_contains(texts(args@), needle@),
{
    let ghost a = texts(args@);
    let mut i: usize = 0;
    while i < args.len()
        invariant
            i <= args@.len(),
            a == texts(args@),
            forall|j: int| 0 <= j < i ==> !contains_spec(#[trigger] a[j], needle@),
        decreases args.len() - i,
    {
        if contains_text(args[i].as_str(), needle) {
            assert(contains_spec(a[i as int], needle@));
            return true;
        }
        i = i + 1;
    }
    false
}

/// Whether one of the processes, given by their non-empty command-line
/// arguments, runs `program` with `argument`.
pub open spec fn running_spec(cmdlines: Seq<Seq<Seq<char>>>, program: Seq<char>, argument: Seq<char>) -> bool {
    exists|p: int|
        0 <= p < cmdlines.len() && any_contains(#[trigger] cmdlines[p], program) && any_contains(
            cmdlines[p],
            argument,
        )
}

/// The command lines as texts.
pub open spec fn cmdlines_view(c: Seq<Vec<String>>) -> Seq<Seq<Seq<char>>> {
    c.map_values(|v: Vec<String>| texts(v@))
}

/// Whether a process runs `program` with `argument`; `cmdlines` holds each
/// process's arguments.
pub fn check_proc_daemon_status(cmdlines: &Vec<Vec<String>>, program: &str, argument: &str) -> (r: bool)
    ensures
        r == running_spec(cmdlines_view(cmdlines@), program@, argument@),
{
    let ghost c = cmdlines_view(cmdlines@);
    let mut p: usize = 0;
    while p < cmdlines.len()
        invariant
            p <= cmdlines@.len(),
            c == cmdlines_view(cmdlines@),
            forall|q: int| 0 <= q < p ==> !(any_contains(#[trigger] c[q], program@) && any_contains(c[q], argument@)),
        decreases cmdlines.len() - p,
    {
        assert(c[p as int] == texts(cmdlines@[p as int]@));
        if args_contain(&cmdlines[p], program) && args_contain(&cmdlines[p], argument) {
            return true;
        }
        p = p + 1;
    }
    false
}

/// A running process as the process table shows it.
pub struct ProcessInfo {
    pub name: String,
    /// Its executable's path, empty when unknown.
    pub exe: String,
    pub cmd: Vec<String>,
}

/// Whether a process runs `program` (in its name, executable path or
/// arguments) with `argument` among its arguments.
pub open spec fn process_matches(p: ProcessInfo, program: Seq<char>, argument: Seq<char>) -> bool {
    (contains_spec(p.name@, program) || contains_spec(p.exe@, program) || any_contains(
        texts(p.cmd@),
        program,
    )) && any_contains(texts(p.cmd@), argument)
}

/// Whether one of `processes` runs `program` with `argument`.
pub fn is_running_sysinfo(processes: &Vec<ProcessInfo>, program: &str, argument: &str) -> (r: bool)
    ensures
        r == exists|i: int| 0 <= i < processes@.len() && process_matches(#[trigger] processes@[i], program@, argument@),
{
    let mut i: usize = 0;
    while i < processes.len()
        invariant
            i <= processes@.len(),
            forall|j: int| 0 <= j < i ==> !process_matches(#[trigger] processes@[j], program@, argument@),
        decreases processes.len() - i,
    {
        let p = &processes[i];
        let has_program = contains_text(p.name.as_str(), program) || contains_text(p.exe.as_str(), program)
            || args_contain(&p.cmd, program);
        if has_program && args_contain(&p.cmd, argument) {
            assert(process_matches(processes@[i as int], program@, argument@));
            return true;
        }
        i = i + 1;
    }
    false
}

} // verus!
