//! A key/value configuration read from an INI file, with typed accessors and
//! a reload that keeps the previous values when the new text does not parse.

use vstd::prelude::*;
use crate::text::{lower_of, parse_i32, parse_i32_spec, same_text};
use configparser::ini::Ini;

verus! {

/// Configuration values by (section, key).
pub type ConfigValues = Map<(Seq<char>, Seq<char>), Seq<char>>;

#[verifier::external_type_specification]
#[verifier::external_body]
pub struct ExIni(Ini);

/// The values an INI store holds, by (section, key) as the store folded them.
pub uninterp spec fn ini_values(ini: Ini) -> ConfigValues;

/// Whether a store has the options `Ini::new` gives it: keys and sections
/// case-insensitive, no fallback to the default section, `=` and `:` as
/// delimiters, `;` and `#` starting comments.
pub uninterp spec fn ini_default_options(ini: Ini) -> bool;

/// What `Ini::read` makes of a text in a store with the default options:
/// the values it holds, or `None` where the text does not parse.
pub uninterp spec fn ini_parse(text: Seq<char>) -> Option<ConfigValues>;

/// Relies on `Ini::new`: a case-insensitive store with no values.
#[verifier::external_body]
fn ini_new() -> (r: Ini)
    ensures
        ini_values(r) == ConfigValues::empty(),
        ini_default_options(r),
{
    Ini::new()
}

/// Relies on `Ini::read`: on success the store holds exactly what the text
/// gives; on failure the store is left as it was.
#[verifier::external_body]
fn ini_read(ini: &mut Ini, text: String) -> (r: bool)
    requires
        ini_default_options(*old(ini)),
    ensures
        ini_default_options(*final(ini)),
        r == ini_parse(text@) is Some,
        r ==> ini_values(*final(ini)) == ini_parse(text@)->0,
        !r ==> *final(ini) == *old(ini),
{
    ini.read(text).is_ok()
}

/// Relies on `Ini::get`: section and key are lower-cased (the store is
/// case-insensitive and does not cascade to the default section), and a key
/// without a value reads as absent.
#[verifier::external_body]
fn ini_get(ini: &Ini, section: &str, key: &str) -> (r: Option<String>)
    requires
        ini_default_options(*ini),
    ensures
        r matches Some(v) ==> ini_values(*ini).contains_key((lower_of(section@), lower_of(key@)))
            && v@ == ini_values(*ini)[(lower_of(section@), lower_of(key@))],
        r is None ==> !ini_values(*ini).contains_key((lower_of(section@), lower_of(key@))),
{
    ini.get(section, key)
}

/// The value stored under `section` and `key`, if any.
pub open spec fn lookup(values: ConfigValues, section: Seq<char>, key: Seq<char>) -> Option<Seq<char>> {
    let k = (lower_of(section), lower_of(key));
    if values.contains_key(k) {
        Some(values[k])
    } else {
        None
    }
}

/// The values after a reload with the file's text (`None`: it could not be read).
pub open spec fn reloaded(
    values: ConfigValues,
    contents: Option<Seq<char>>,
) -> ConfigValues {
    match contents {
        Some(t) => match ini_parse(t) {
            Some(m) => m,
            None => values,
        },
        None => values,
    }
}

/// Why a typed read of the configuration failed.
#[derive(Debug, Clone, Copy, PartialEq, Eq, Structural)]
pub enum ConfigError {
    /// The stored value is not one of the accepted boolean words.
    InvalidBool,
    /// The stored value is not a decimal `i32`.
    InvalidInteger,
    /// The threshold mode is neither "start" nor "stop".
    InvalidThresholdMode,
    /// The stored threshold lies outside 0 to 100.
    ThresholdOutOfRange(i32),
}

/// The boolean that a stored value reads as.
pub open spec fn bool_spec(stored: Option<Seq<char>>) -> Result<bool, ConfigError> {
    match stored {
        None => Ok(false),
        Some(v) => if v == "true"@ || v == "True"@ || v == "1"@ || v == "yes"@ || v == "Yes"@ {
            Ok(true)
        } else if v == "false"@ || v == "False"@ || v == "0"@ || v == "no"@ || v == "No"@ {
            Ok(false)
        } else {
            Err(ConfigError::InvalidBool)
        },
    }
}

/// The integer that a stored value reads as.
pub open spec fn int_spec(stored: Option<Seq<char>>) -> Result<Option<i32>, ConfigError> {
    match stored {
        None => Ok(None),
        Some(v) => match parse_i32_spec(v) {
            Some(n) => Ok(Some(n)),
            None => Err(ConfigError::InvalidInteger),
        },
    }
}

/// The key of the `[battery]` section that holds a threshold mode.
pub open spec fn threshold_key(mode: Seq<char>) -> Option<Seq<char>> {
    if mode == "start"@ {
        Some("charging_start_threshold"@)
    } else if mode == "stop"@ {
        Some("charging_stop_threshold"@)
    } else {
        None
    }
}

/// The charge threshold for `mode` given what is stored under its key.
pub open spec fn threshold_spec(mode: Seq<char>, stored: Option<Seq<char>>) -> Result<u8, ConfigError> {
    if threshold_key(mode) is None {
        Err(ConfigError::InvalidThresholdMode)
    } else {
        match int_spec(stored) {
            Err(e) => Err(e),
            Ok(None) => Ok(if mode == "start"@ { 0u8 } else { 100u8 }),
            Ok(Some(v)) => if 0 <= v <= 100 {
                Ok(v as u8)
            } else {
                Err(ConfigError::ThresholdOutOfRange(v))
            },
        }
    }
}

/// The configuration: the file it comes from and the values last read from it.
pub struct Config {
    path: String,
    ini: Ini,
}

impl Config {
    #[verifier::type_invariant]
    spec fn inv(&self) -> bool {
        ini_default_options(self.ini)
    }

    /// The file the configuration comes from.
    pub closed spec fn path_view(&self) -> Seq<char> {
        self.path@
    }

    /// The values the configuration holds.
    pub closed spec fn values(&self) -> ConfigValues {
        ini_values(self.ini)
    }

    /// The stored value for `section` and `key`.
    pub open spec fn stored(&self, section: Seq<char>, key: Seq<char>) -> Option<Seq<char>> {
        lookup(self.values(), section, key)
    }

    /// An empty configuration with no file.
    pub fn new() -> (r: Self)
        ensures
            r.path_view() == Seq::<char>::empty(),
            r.values() == ConfigValues::empty(),
    {
        Config { path: String::new(), ini: ini_new() }
    }

    /// Names the file the configuration comes from; the values stay until
    /// the next reload.
    pub fn set_path(&mut self, path: String)
        ensures
            final(self).path_view() == path@,
            final(self).values() == old(self).values(),
    {
        proof {
            use_type_invariant(&*self);
        }
        self.path = path;
    }

    /// The file the configuration comes from.
    pub fn get_path(&self) -> (r: String)
        ensures
            r@ == self.path_view(),
    {
        self.path.clone()
    }

    /// Replaces the values with those of `contents`, the file's text, when it
    /// parses; keeps the previous values when it does not or when the file
    /// could not be read. Returns whether the values were replaced.
    pub fn update_config(&mut self, contents: Option<String>) -> (r: bool)
        ensures
            final(self).values() == reloaded(
                old(self).values(),
                match contents {
                    Some(t) => Some(t@),
                    None => None,
                },
            ),
            r == (contents matches Some(t) && ini_parse(t@) is Some),
            final(self).path_view() == old(self).path_view(),
    {
        match contents {
            Some(text) => {
                let mut fresh = ini_new();
                if ini_read(&mut fresh, text) {
                    self.ini = fresh;
                    true
                } else {
                    false
                }
            },
            None => false,
        }
    }

    /// The stored value for `section` and `key`.
    pub fn get_string(&self, section: &str, key: &str) -> (r: Option<String>)
        ensures
            r matches Some(v) ==> self.stored(section@, key@) == Some(v@),
            r is None ==> self.stored(section@, key@) is None,
    {
        proof {
            use_type_invariant(self);
        }
        ini_get(&self.ini, section, key)
    }

    /// The stored value read as a boolean; absent reads as `false`.
    pub fn get_bool(&self, section: &str, key: &str) -> (r: Result<bool, ConfigError>)
        ensures
            r == bool_spec(self.stored(section@, key@)),
    {
        match self.get_string(section, key) {
            None => Ok(false),
            Some(v) => {
                let s = v.as_str();
                if same_text(s, "true") || same_text(s, "True") || same_text(s, "1") || same_text(
                    s,
                    "yes",
                ) || same_text(s, "Yes") {
                    Ok(true)
                } else if same_text(s, "false") || same_text(s, "False") || same_text(s, "0")
                    || same_text(s, "no") || same_text(s, "No") {
                    Ok(false)
                } else {
                    Err(ConfigError::InvalidBool)
                }
            },
        }
    }

    /// The stored value read as a decimal `i32`.
    pub fn get_int(&self, section: &str, key: &str) -> (r: Result<Option<i32>, ConfigError>)
        ensures
            r == int_spec(self.stored(section@, key@)),
    {
        match self.get_string(section, key) {
            None => Ok(None),
            Some(v) => match parse_i32(v.as_str()) {
                Some(n) => Ok(Some(n)),
                None => Err(ConfigError::InvalidInteger),
            },
        }
    }

    /// The charge threshold for `mode` ("start" or "stop"), 0 and 100 when unset.
    pub fn get_threshold(&self, mode: &str) -> (r: Result<u8, ConfigError>)
        ensures
            threshold_key(mode@) is None ==> r == Err::<u8, ConfigError>(
                ConfigError::InvalidThresholdMode,
            ),
            threshold_key(mode@) matches Some(k) ==> r == threshold_spec(
                mode@,
                self.stored("battery"@, k),
            ),
    {
        let key: &str;
        if same_text(mode, "start") {
            key = "charging_start_threshold";
        } else if same_text(mode, "stop") {
            key = "charging_stop_threshold";
        } else {
            return Err(ConfigError::InvalidThresholdMode);
        }
        match self.get_int("battery", key) {
            Err(e) => Err(e),
            Ok(None) => Ok(if same_text(mode, "start") { 0 } else { 100 }),
            Ok(Some(v)) => if 0 <= v && v <= 100 {
                Ok(v as u8)
            } else {
                Err(ConfigError::ThresholdOutOfRange(v))
            },
        }
    }

    /// Whether a value is stored for `section` and `key`.
    pub fn has_option(&self, section: &str, key: &str) -> (r: bool)
        ensures
            r == self.stored(section@, key@) is Some,
    {
        self.get_string(section, key).is_some()
    }

    /// The stored value, or `fallback` when there is none.
    pub fn get(&self, section: &str, key: &str, fallback: &str) -> (r: String)
        ensures
            r@ == match self.stored(section@, key@) {
                Some(v) => v,
                None => fallback@,
            },
    {
        match self.get_string(section, key) {
            Some(v) => v,
            None => fallback.to_owned(),
        }
    }
}

/// A reload with a text that parses makes every later read see the new
/// values; one with a text that does not parse, or with no text, leaves every
/// read as it was.
pub proof fn law_reload_snapshot(
    values: ConfigValues,
    text: Seq<char>,
    section: Seq<char>,
    key: Seq<char>,
)
    ensures
        lookup(reloaded(values, Some(text)), section, key) == match ini_parse(text) {
            Some(m) => lookup(m, section, key),
            None => lookup(values, section, key),
        },
        lookup(reloaded(values, None), section, key) == lookup(values, section, key),
{
}

/// A threshold that reads as an integer in 0 to 100 is returned as it is;
/// one outside that range is refused with a range error.
pub proof fn law_threshold_range(mode: Seq<char>, stored: Seq<char>, v: i32)
    requires
        mode == "start"@ || mode == "stop"@,
        parse_i32_spec(stored) == Some(v),
    ensures
        0 <= v <= 100 ==> threshold_spec(mode, Some(stored)) == Ok::<u8, ConfigError>(v as u8),
        !(0 <= v <= 100) ==> threshold_spec(mode, Some(stored)) == Err::<u8, ConfigError>(
            ConfigError::ThresholdOutOfRange(v),
        ),
{
    reveal_strlit("start");
    reveal_strlit("stop");
}

/// With nothing stored, the "start" threshold is 0 and the "stop" threshold 100.
pub proof fn law_threshold_defaults()
    ensures
        threshold_spec("start"@, None) == Ok::<u8, ConfigError>(0),
        threshold_spec("stop"@, None) == Ok::<u8, ConfigError>(100),
{
    reveal_strlit("start");
    reveal_strlit("stop");
    assert("stop"@[2] != "start"@[2]);
}

} // verus!
