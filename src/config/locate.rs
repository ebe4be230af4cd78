//! Where the configuration file is looked for: the path given on the
//! command line, else the user's file, else the system's.

use vstd::prelude::*;

verus! {

/// The system-wide configuration file.
pub const SYSTEM_CONFIG_FILE: &'static str = "/etc/auto-cpufreq.conf";

/// The user's configuration directory: `XDG_CONFIG_HOME` when set, else
/// `<home>/.config`.
pub fn user_config_dir(xdg_config_home: Option<&str>, home: &str) -> (r: String)
    ensures
        xdg_config_home matches Some(x) ==> r@ == x@,
        xdg_config_home is None ==> r@ == home@ + "/.config"@,
{
    match xdg_config_home {
        Some(x) => x.to_owned(),
        None => {
            let mut s = home.to_owned();
            s.append("/.config");
            s
        },
    }
}

/// The user's configuration file inside `config_dir`.
pub fn user_config_file(config_dir: &str) -> (r: String)
    ensures
        r@ == config_dir@ + "/auto-cpufreq/auto-cpufreq.conf"@,
{
    let mut s = config_dir.to_owned();
    s.append("/auto-cpufreq/auto-cpufreq.conf");
    s
}

/// The file to use: the command-line path where one is given (an error
/// when it is not a file), else the user's file when it is a file, else the
/// system file.
pub fn find_config_file(
    arg: Option<&str>,
    arg_is_file: bool,
    user_file: &str,
    user_is_file: bool,
) -> (r: Result<String, String>)
    ensures
        arg is Some && arg_is_file ==> (r matches Ok(p) && p@ == arg->0@),
        arg is Some && !arg_is_file ==> (r matches Err(p) && p@ == arg->0@),
        arg is None && user_is_file ==> (r matches Ok(p) && p@ == user_file@),
        arg is None && !user_is_file ==> (r matches Ok(p) && p@ == SYSTEM_CONFIG_FILE@),
{
    match arg {
        Some(a) => if arg_is_file {
            Ok(a.to_owned())
        } else {
            Err(a.to_owned())
        },
        None => if user_is_file {
            Ok(user_file.to_owned())
        } else {
            Ok(SYSTEM_CONFIG_FILE.to_owned())
        },
    }
}

} // verus!
