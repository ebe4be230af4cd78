//! The daemon supervisor: detects the init system from PID 1's name and
//! plans the steps that install or remove the daemon under it.

use vstd::prelude::*;
use crate::system_info::{first_line_value, os_release_value, strip_quotes_spec};
use crate::text::lines_spec;
use crate::text::{same_text, texts, trim, trim_spec};

verus! {

/// The init systems the daemon can be installed under.
#[derive(Debug, Clone, Copy, PartialEq, Eq, Structural)]
pub enum InitSystem {
    Systemd,
    Openrc,
    Dinit,
    Runit,
    S6,
    Unknown,
}

/// The init system that PID 1's command name reveals.
pub open spec fn init_of(comm: Seq<char>) -> InitSystem {
    if comm == "systemd"@ {
        InitSystem::Systemd
    } else if comm == "init"@ {
        InitSystem::Openrc
    } else if comm == "dinit"@ {
        InitSystem::Dinit
    } else if comm == "runit"@ {
        InitSystem::Runit
    } else if comm == "s6-svscan"@ {
        InitSystem::S6
    } else {
        InitSystem::Unknown
    }
}

/// Detects the init system from the output of `ps -p 1 -o comm=` (`None`:
/// it could not be run).
pub fn detect_init_system(pid1_comm: Option<&str>) -> (r: InitSystem)
    ensures
        pid1_comm is None ==> r == InitSystem::Unknown,
        pid1_comm matches Some(t) ==> r == init_of(trim_spec(t@)),
{
    match pid1_comm {
        None => InitSystem::Unknown,
        Some(t) => {
            let c = trim(t);
            if same_text(c, "systemd") {
                InitSystem::Systemd
            } else if same_text(c, "init") {
                InitSystem::Openrc
            } else if same_text(c, "dinit") {
                InitSystem::Dinit
            } else if same_text(c, "runit") {
                InitSystem::Runit
            } else if same_text(c, "s6-svscan") {
                InitSystem::S6
            } else {
                InitSystem::Unknown
            }
        },
    }
}

/// The name each init system is reported by.
pub open spec fn init_name(i: InitSystem) -> Seq<char> {
    match i {
        InitSystem::Systemd => "systemd"@,
        InitSystem::Openrc => "openrc"@,
        InitSystem::Dinit => "dinit"@,
        InitSystem::Runit => "runit"@,
        InitSystem::S6 => "s6"@,
        InitSystem::Unknown => "unknown"@,
    }
}

impl InitSystem {
    pub fn name(&self) -> (r: &'static str)
        ensures
            r@ == init_name(*self),
    {
        match self {
            InitSystem::Systemd => "systemd",
            InitSystem::Openrc => "openrc",
            InitSystem::Dinit => "dinit",
            InitSystem::Runit => "runit",
            InitSystem::S6 => "s6",
            InitSystem::Unknown => "unknown",
        }
    }
}

/// The shipped files whose contents the steps deploy.
#[derive(Debug, Clone, Copy, PartialEq, Eq, Structural)]
pub enum ShippedFile {
    InstallScript,
    RemoveScript,
    SystemdService,
    OpenrcService,
    DinitService,
    RunitService,
    S6Service,
}

/// The file under the shared scripts directory that holds a shipped file.
pub open spec fn shipped_name_spec(f: ShippedFile) -> Seq<char> {
    match f {
        ShippedFile::InstallScript => "auto-cpufreq-install.sh"@,
        ShippedFile::RemoveScript => "auto-cpufreq-remove.sh"@,
        ShippedFile::SystemdService => "auto-cpufreq.service"@,
        ShippedFile::OpenrcService => "auto-cpufreq-openrc"@,
        ShippedFile::DinitService => "auto-cpufreq-dinit"@,
        ShippedFile::RunitService => "auto-cpufreq-runit"@,
        ShippedFile::S6Service => "auto-cpufreq-s6/run"@,
    }
}

/// The file under the shared scripts directory that holds a shipped file.
pub fn shipped_file_name(f: ShippedFile) -> (r: &'static str)
    ensures
        r@ == shipped_name_spec(f),
{
    match f {
        ShippedFile::InstallScript => "auto-cpufreq-install.sh",
        ShippedFile::RemoveScript => "auto-cpufreq-remove.sh",
        ShippedFile::SystemdService => "auto-cpufreq.service",
        ShippedFile::OpenrcService => "auto-cpufreq-openrc",
        ShippedFile::DinitService => "auto-cpufreq-dinit",
        ShippedFile::RunitService => "auto-cpufreq-runit",
        ShippedFile::S6Service => "auto-cpufreq-s6/run",
    }
}

/// One step of an installation or removal.
#[derive(Debug)]
pub enum Step {
    /// Run a shipped shell hook; a failing hook is reported and the
    /// transition goes on.
    RunHook(ShippedFile),
    /// Put the helper script in place, unless it is already there.
    DeployHelper,
    /// Remove the helper script, if it is there.
    RemoveHelper,
    /// Write a shipped file's contents to a path.
    WriteFile(String, ShippedFile),
    /// Make a file executable.
    MakeExecutable(String),
    /// Create a directory and its parents.
    CreateDir(String),
    /// Remove a file; a missing file is no error.
    RemoveFile(String),
    /// Remove a directory tree; a missing one is no error.
    RemoveDir(String),
    /// Make `link` a symbolic link to `target`.
    Symlink(String, String),
    /// Run a program; where `must_succeed`, failing to run it ends the transition.
    Command(String, Vec<String>, bool),
}

/// Why a transition cannot be planned.
#[derive(Debug, Clone, Copy, PartialEq, Eq, Structural)]
pub enum SupervisorError {
    /// No supported init system was detected.
    UnsupportedInitSystem,
    /// runit was detected, but the distribution is neither Void nor Artix.
    UnsupportedRunitDistro,
    /// runit was detected, but `/etc/os-release` could not be read.
    UnknownDistro,
}

fn owned(program: &str) -> (r: String)
    ensures
        r@ == program@,
{
    program.to_owned()
}

fn cmd0(program: &str, must_succeed: bool) -> (r: Step)
    ensures
        is_cmd(r, program@, Seq::empty(), must_succeed),
{
    let v: Vec<String> = Vec::new();
    assert(texts(v@) =~= Seq::<Seq<char>>::empty());
    Step::Command(owned(program), v, must_succeed)
}

fn cmd1(program: &str, a: &str, must_succeed: bool) -> (r: Step)
    ensures
        is_cmd(r, program@, seq![a@], must_succeed),
{
    let mut v: Vec<String> = Vec::new();
    v.push(owned(a));
    assert(texts(v@) =~= seq![a@]);
    Step::Command(owned(program), v, must_succeed)
}

fn cmd2(program: &str, a: &str, b: &str, must_succeed: bool) -> (r: Step)
    ensures
        is_cmd(r, program@, seq![a@, b@], must_succeed),
{
    let mut v: Vec<String> = Vec::new();
    v.push(owned(a));
    v.push(owned(b));
    assert(texts(v@) =~= seq![a@, b@]);
    Step::Command(owned(program), v, must_succeed)
}

fn cmd3(program: &str, a: &str, b: &str, c: &str, must_succeed: bool) -> (r: Step)
    ensures
        is_cmd(r, program@, seq![a@, b@, c@], must_succeed),
{
    let mut v: Vec<String> = Vec::new();
    v.push(owned(a));
    v.push(owned(b));
    v.push(owned(c));
    assert(texts(v@) =~= seq![a@, b@, c@]);
    Step::Command(owned(program), v, must_succeed)
}

fn cmd4(program: &str, a: &str, b: &str, c: &str, d: &str, must_succeed: bool) -> (r: Step)
    ensures
        is_cmd(r, program@, seq![a@, b@, c@, d@], must_succeed),
{
    let mut v: Vec<String> = Vec::new();
    v.push(owned(a));
    v.push(owned(b));
    v.push(owned(c));
    v.push(owned(d));
    assert(texts(v@) =~= seq![a@, b@, c@, d@]);
    Step::Command(owned(program), v, must_succeed)
}

/// Whether `s` runs `program` with `args`, required to succeed or not.
pub open spec fn is_cmd(s: Step, program: Seq<char>, args: Seq<Seq<char>>, must: bool) -> bool {
    s matches Step::Command(p, a, m) && p@ == program && texts(a@) == args && m == must
}

/// Whether `s` writes shipped file `f` to `path`.
pub open spec fn is_write(s: Step, path: Seq<char>, f: ShippedFile) -> bool {
    s matches Step::WriteFile(p, g) && p@ == path && g == f
}

/// Whether `s` makes `path` executable.
pub open spec fn is_exec(s: Step, path: Seq<char>) -> bool {
    s matches Step::MakeExecutable(p) && p@ == path
}

/// Whether `s` creates directory `path`.
pub open spec fn is_mkdir(s: Step, path: Seq<char>) -> bool {
    s matches Step::CreateDir(p) && p@ == path
}

/// Whether `s` removes file `path`.
pub open spec fn is_rmfile(s: Step, path: Seq<char>) -> bool {
    s matches Step::RemoveFile(p) && p@ == path
}

/// Whether `s` removes directory tree `path`.
pub open spec fn is_rmdir(s: Step, path: Seq<char>) -> bool {
    s matches Step::RemoveDir(p) && p@ == path
}

/// Whether `s` links `link` to `target`.
pub open spec fn is_link(s: Step, target: Seq<char>, link: Seq<char>) -> bool {
    s matches Step::Symlink(t, l) && t@ == target && l@ == link
}

/// The (service directory root, active service root) of runit on the
/// distribution whose os-release `ID` is `id`.
pub open spec fn runit_roots_spec(id: Seq<char>) -> Option<(Seq<char>, Seq<char>)> {
    if id == "void"@ {
        Some(("/etc"@, "/var"@))
    } else if id == "artix"@ {
        Some(("/etc/runit"@, "/run/runit"@))
    } else {
        None
    }
}

/// The distribution `ID` of an os-release text, quotes removed; empty when absent.
pub open spec fn os_release_id(text: Seq<char>) -> Seq<char> {
    match first_line_value(lines_spec(text), "ID="@) {
        Some(w) => strip_quotes_spec(w),
        None => Seq::empty(),
    }
}

/// Where runit keeps services on this distribution, from the text of
/// `/etc/os-release`.
pub fn runit_roots(os_release: Option<&str>) -> (r: Result<(String, String), SupervisorError>)
    ensures
        os_release is None ==> r == Err::<(String, String), SupervisorError>(SupervisorError::UnknownDistro),
        os_release matches Some(t) ==> match runit_roots_spec(os_release_id(t@)) {
            Some(p) => (r matches Ok(q) && q.0@ == p.0 && q.1@ == p.1),
            None => r == Err::<(String, String), SupervisorError>(SupervisorError::UnsupportedRunitDistro),
        },
{
    let text = match os_release {
        Some(t) => t,
        None => return Err(SupervisorError::UnknownDistro),
    };
    let id = match os_release_value(text, "ID=") {
        Some(v) => v,
        None => String::new(),
    };
    if same_text(id.as_str(), "void") {
        Ok(("/etc".to_owned(), "/var".to_owned()))
    } else if same_text(id.as_str(), "artix") {
        Ok(("/etc/runit".to_owned(), "/run/runit".to_owned()))
    } else {
        Err(SupervisorError::UnsupportedRunitDistro)
    }
}

fn join(a: &str, b: &str) -> (r: String)
    ensures
        r@ == a@ + b@,
{
    let mut s = a.to_owned();
    s.append(b);
    s
}

/// The runit roots an os-release text leads to (empty where none).
pub open spec fn runit_roots_of(os_release: Option<Seq<char>>) -> (Seq<char>, Seq<char>) {
    match os_release {
        Some(t) => match runit_roots_spec(os_release_id(t)) {
            Some(p) => p,
            None => (Seq::empty(), Seq::empty()),
        },
        None => (Seq::empty(), Seq::empty()),
    }
}

/// The installation plan under `init`: the install hook, the helper, then
/// the unit file and the init system's own start and enable commands.
/// `roots` are runit's service directory root and active service root.
pub open spec fn install_steps_spec(init: InitSystem, roots: (Seq<char>, Seq<char>), steps: Seq<Step>) -> bool {
    &&& steps.len() >= 2
    &&& steps[0] == Step::RunHook(ShippedFile::InstallScript)
    &&& steps[1] == Step::DeployHelper
    &&& match init {
        InitSystem::Systemd => {
            &&& steps.len() == 6
            &&& is_write(steps[2], "/etc/systemd/system/auto-cpufreq.service"@, ShippedFile::SystemdService)
            &&& is_cmd(steps[3], "systemctl"@, seq!["daemon-reload"@], true)
            &&& is_cmd(steps[4], "systemctl"@, seq!["start"@, "auto-cpufreq"@], true)
            &&& is_cmd(steps[5], "systemctl"@, seq!["enable"@, "auto-cpufreq"@], true)
        },
        InitSystem::Openrc => {
            &&& steps.len() == 6
            &&& is_write(steps[2], "/etc/init.d/auto-cpufreq"@, ShippedFile::OpenrcService)
            &&& is_exec(steps[3], "/etc/init.d/auto-cpufreq"@)
            &&& is_cmd(steps[4], "rc-service"@, seq!["auto-cpufreq"@, "start"@], true)
            &&& is_cmd(steps[5], "rc-update"@, seq!["add"@, "auto-cpufreq"@], true)
        },
        InitSystem::Dinit => {
            &&& steps.len() == 5
            &&& is_write(steps[2], "/etc/dinit.d/auto-cpufreq"@, ShippedFile::DinitService)
            &&& is_cmd(steps[3], "dinitctl"@, seq!["start"@, "auto-cpufreq"@], true)
            &&& is_cmd(steps[4], "dinitctl"@, seq!["enable"@, "auto-cpufreq"@], true)
        },
        InitSystem::Runit => {
            let sv_dir = roots.0 + "/sv/auto-cpufreq"@;
            let link = roots.1 + "/service/auto-cpufreq"@;
            &&& steps.len() == 9
            &&& is_mkdir(steps[2], sv_dir)
            &&& is_write(steps[3], sv_dir + "/run"@, ShippedFile::RunitService)
            &&& is_exec(steps[4], sv_dir + "/run"@)
            &&& is_rmfile(steps[5], link)
            &&& is_link(steps[6], sv_dir, link)
            &&& is_cmd(steps[7], "sv"@, seq!["start"@, "auto-cpufreq"@], true)
            &&& is_cmd(steps[8], "sv"@, seq!["up"@, "auto-cpufreq"@], true)
        },
        InitSystem::S6 => {
            &&& steps.len() == 8
            &&& is_mkdir(steps[2], "/etc/s6/sv/auto-cpufreq"@)
            &&& is_write(steps[3], "/etc/s6/sv/auto-cpufreq/run"@, ShippedFile::S6Service)
            &&& is_exec(steps[4], "/etc/s6/sv/auto-cpufreq/run"@)
            &&& is_cmd(steps[5], "s6-service"@, seq!["add"@, "default"@, "auto-cpufreq"@], true)
            &&& is_cmd(steps[6], "s6-rc"@, seq!["-u"@, "change"@, "auto-cpufreq"@, "default"@], true)
            &&& is_cmd(steps[7], "s6-db-reload"@, Seq::empty(), true)
        },
        InitSystem::Unknown => false,
    }
}

/// The steps that install the daemon under `init`. `os_release` is the text
/// of `/etc/os-release`, which runit needs. An unknown init system is
/// refused before any step.
pub fn install_daemon(init: InitSystem, os_release: Option<&str>) -> (r: Result<Vec<Step>, SupervisorError>)
    ensures
        init == InitSystem::Unknown ==> r == Err::<Vec<Step>, SupervisorError>(SupervisorError::UnsupportedInitSystem),
        init != InitSystem::Unknown && init != InitSystem::Runit ==> r is Ok,
        init == InitSystem::Runit && os_release is None ==> r == Err::<Vec<Step>, SupervisorError>(SupervisorError::UnknownDistro),
        init == InitSystem::Runit && os_release is Some ==> (r is Ok <==> runit_roots_spec(os_release_id(os_release->0@)) is Some),
        r matches Ok(steps) ==> install_steps_spec(
            init,
            runit_roots_of(
                match os_release {
                    Some(t) => Some(t@),
                    None => None,
                },
            ),
            steps@,
        ),
{
    let mut steps: Vec<Step> = Vec::new();
    match init {
        InitSystem::Unknown => return Err(SupervisorError::UnsupportedInitSystem),
        _ => {},
    }
    let roots = match init {
        InitSystem::Runit => match runit_roots(os_release) {
            Ok(p) => Some(p),
            Err(e) => return Err(e),
        },
        _ => None,
    };
    steps.push(Step::RunHook(ShippedFile::InstallScript));
    steps.push(Step::DeployHelper);
    match init {
        InitSystem::Systemd => {
            steps.push(Step::WriteFile("/etc/systemd/system/auto-cpufreq.service".to_owned(), ShippedFile::SystemdService));
            steps.push(cmd1("systemctl", "daemon-reload", true));
            steps.push(cmd2("systemctl", "start", "auto-cpufreq", true));
            steps.push(cmd2("systemctl", "enable", "auto-cpufreq", true));
        },
        InitSystem::Openrc => {
            steps.push(Step::WriteFile("/etc/init.d/auto-cpufreq".to_owned(), ShippedFile::OpenrcService));
            steps.push(Step::MakeExecutable("/etc/init.d/auto-cpufreq".to_owned()));
            steps.push(cmd2("rc-service", "auto-cpufreq", "start", true));
            steps.push(cmd2("rc-update", "add", "auto-cpufreq", true));
        },
        InitSystem::Dinit => {
            steps.push(Step::WriteFile("/etc/dinit.d/auto-cpufreq".to_owned(), ShippedFile::DinitService));
            steps.push(cmd2("dinitctl", "start", "auto-cpufreq", true));
            steps.push(cmd2("dinitctl", "enable", "auto-cpufreq", true));
        },
        InitSystem::Runit => {
            let (sv_root, service_root) = match roots {
                Some(p) => p,
                None => ("/etc".to_owned(), "/var".to_owned()),
            };
            let sv_dir = join(sv_root.as_str(), "/sv/auto-cpufreq");
            let run_script = join(sv_dir.as_str(), "/run");
            let link = join(service_root.as_str(), "/service/auto-cpufreq");
            steps.push(Step::CreateDir(sv_dir.clone()));
            steps.push(Step::WriteFile(run_script.clone(), ShippedFile::RunitService));
            steps.push(Step::MakeExecutable(run_script));
            steps.push(Step::RemoveFile(link.clone()));
            steps.push(Step::Symlink(sv_dir, link));
            steps.push(cmd2("sv", "start", "auto-cpufreq", true));
            steps.push(cmd2("sv", "up", "auto-cpufreq", true));
        },
        _ => {
            steps.push(Step::CreateDir("/etc/s6/sv/auto-cpufreq".to_owned()));
            steps.push(Step::WriteFile("/etc/s6/sv/auto-cpufreq/run".to_owned(), ShippedFile::S6Service));
            steps.push(Step::MakeExecutable("/etc/s6/sv/auto-cpufreq/run".to_owned()));
            steps.push(cmd3("s6-service", "add", "default", "auto-cpufreq", true));
            steps.push(cmd4("s6-rc", "-u", "change", "auto-cpufreq", "default", true));
            steps.push(cmd0("s6-db-reload", true));
        },
    }
    Ok(steps)
}

/// The removal plan under `init`: stop and disable the daemon (failures
/// ignored), remove its unit, then remove the helper and run the removal hook.
pub open spec fn remove_steps_spec(init: InitSystem, roots: (Seq<char>, Seq<char>), steps: Seq<Step>) -> bool {
    &&& steps.len() >= 2
    &&& steps[steps.len() - 2] == Step::RemoveHelper
    &&& steps[steps.len() - 1] == Step::RunHook(ShippedFile::RemoveScript)
    &&& match init {
        InitSystem::Systemd => {
            &&& steps.len() == 7
            &&& is_cmd(steps[0], "systemctl"@, seq!["stop"@, "auto-cpufreq"@], false)
            &&& is_cmd(steps[1], "systemctl"@, seq!["disable"@, "auto-cpufreq"@], false)
            &&& is_rmfile(steps[2], "/etc/systemd/system/auto-cpufreq.service"@)
            &&& is_cmd(steps[3], "systemctl"@, seq!["daemon-reload"@], true)
            &&& is_cmd(steps[4], "systemctl"@, seq!["reset-failed"@], true)
        },
        InitSystem::Openrc => {
            &&& steps.len() == 5
            &&& is_cmd(steps[0], "rc-service"@, seq!["auto-cpufreq"@, "stop"@], false)
            &&& is_cmd(steps[1], "rc-update"@, seq!["del"@, "auto-cpufreq"@], false)
            &&& is_rmfile(steps[2], "/etc/init.d/auto-cpufreq"@)
        },
        InitSystem::Dinit => {
            &&& steps.len() == 5
            &&& is_cmd(steps[0], "dinitctl"@, seq!["stop"@, "auto-cpufreq"@], false)
            &&& is_cmd(steps[1], "dinitctl"@, seq!["disable"@, "auto-cpufreq"@], false)
            &&& is_rmfile(steps[2], "/etc/dinit.d/auto-cpufreq"@)
        },
        InitSystem::Runit => {
            &&& steps.len() == 5
            &&& is_cmd(steps[0], "sv"@, seq!["stop"@, "auto-cpufreq"@], false)
            &&& is_rmdir(steps[1], roots.0 + "/sv/auto-cpufreq"@)
            &&& is_rmfile(steps[2], roots.1 + "/service/auto-cpufreq"@)
        },
        InitSystem::S6 => {
            &&& steps.len() == 5
            &&& is_cmd(steps[0], "s6-service"@, seq!["delete"@, "default"@, "auto-cpufreq"@], false)
            &&& is_rmdir(steps[1], "/etc/s6/sv/auto-cpufreq"@)
            &&& is_cmd(steps[2], "s6-db-reload"@, Seq::empty(), true)
        },
        InitSystem::Unknown => false,
    }
}

/// The steps that remove the daemon under `init`: stop and disable it,
/// remove its unit, then the helper, then run the removal hook. An unknown
/// init system is refused before any step.
pub fn remove_daemon(init: InitSystem, os_release: Option<&str>) -> (r: Result<Vec<Step>, SupervisorError>)
    ensures
        init == InitSystem::Unknown ==> r == Err::<Vec<Step>, SupervisorError>(SupervisorError::UnsupportedInitSystem),
        init != InitSystem::Unknown && init != InitSystem::Runit ==> r is Ok,
        init == InitSystem::Runit && os_release is None ==> r == Err::<Vec<Step>, SupervisorError>(SupervisorError::UnknownDistro),
        init == InitSystem::Runit && os_release is Some ==> (r is Ok <==> runit_roots_spec(os_release_id(os_release->0@)) is Some),
        r matches Ok(steps) ==> remove_steps_spec(
            init,
            runit_roots_of(
                match os_release {
                    Some(t) => Some(t@),
                    None => None,
                },
            ),
            steps@,
        ),
{
    let mut steps: Vec<Step> = Vec::new();
    match init {
        InitSystem::Systemd => {
            steps.push(cmd2("systemctl", "stop", "auto-cpufreq", false));
            steps.push(cmd2("systemctl", "disable", "auto-cpufreq", false));
            steps.push(Step::RemoveFile("/etc/systemd/system/auto-cpufreq.service".to_owned()));
            steps.push(cmd1("systemctl", "daemon-reload", true));
            steps.push(cmd1("systemctl", "reset-failed", true));
        },
        InitSystem::Openrc => {
            steps.push(cmd2("rc-service", "auto-cpufreq", "stop", false));
            steps.push(cmd2("rc-update", "del", "auto-cpufreq", false));
            steps.push(Step::RemoveFile("/etc/init.d/auto-cpufreq".to_owned()));
        },
        InitSystem::Dinit => {
            steps.push(cmd2("dinitctl", "stop", "auto-cpufreq", false));
            steps.push(cmd2("dinitctl", "disable", "auto-cpufreq", false));
            steps.push(Step::RemoveFile("/etc/dinit.d/auto-cpufreq".to_owned()));
        },
        InitSystem::Runit => {
            let (sv_root, service_root) = match runit_roots(os_release) {
                Ok(p) => p,
                Err(e) => return Err(e),
            };
            steps.push(cmd2("sv", "stop", "auto-cpufreq", false));
            steps.push(Step::RemoveDir(join(sv_root.as_str(), "/sv/auto-cpufreq")));
            steps.push(Step::RemoveFile(join(service_root.as_str(), "/service/auto-cpufreq")));
        },
        InitSystem::S6 => {
            steps.push(cmd3("s6-service", "delete", "default", "auto-cpufreq", false));
            steps.push(Step::RemoveDir("/etc/s6/sv/auto-cpufreq".to_owned()));
            steps.push(cmd0("s6-db-reload", true));
        },
        InitSystem::Unknown => return Err(SupervisorError::UnsupportedInitSystem),
    }
    steps.push(Step::RemoveHelper);
    steps.push(Step::RunHook(ShippedFile::RemoveScript));
    Ok(steps)
}

} // verus!
