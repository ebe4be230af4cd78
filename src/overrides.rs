//! The persisted governor and turbo overrides: one token in a state file
//! each, where an absent file means no override.

use vstd::prelude::*;
use crate::text::{same_text, trim, trim_spec};

verus! {

/// A governor chosen by the user over the policy.
#[derive(Debug, Clone, Copy, PartialEq, Eq, Structural)]
pub enum GovernorOverride {
    Default,
    Powersave,
    Performance,
}

/// A turbo mode chosen by the user over the policy.
#[derive(Debug, Clone, Copy, PartialEq, Eq, Structural)]
pub enum TurboOverride {
    Auto,
    Never,
    Always,
}

/// What to do with an override's state file.
#[derive(Debug)]
pub enum OverrideChange {
    /// Write this token as the file's whole contents.
    Write(String),
    /// Remove the file.
    Remove,
    /// The requested value is not accepted; leave the file alone.
    Invalid,
}

/// The governor override a token names.
pub open spec fn governor_override_of(s: Seq<char>) -> GovernorOverride {
    if s == "powersave"@ {
        GovernorOverride::Powersave
    } else if s == "performance"@ {
        GovernorOverride::Performance
    } else {
        GovernorOverride::Default
    }
}

/// The token of a governor override.
pub open spec fn governor_token(o: GovernorOverride) -> Seq<char> {
    match o {
        GovernorOverride::Powersave => "powersave"@,
        GovernorOverride::Performance => "performance"@,
        GovernorOverride::Default => "default"@,
    }
}

/// The turbo override a token names.
pub open spec fn turbo_override_of(s: Seq<char>) -> TurboOverride {
    if s == "never"@ {
        TurboOverride::Never
    } else if s == "always"@ {
        TurboOverride::Always
    } else {
        TurboOverride::Auto
    }
}

/// The token of a turbo override.
pub open spec fn turbo_token(o: TurboOverride) -> Seq<char> {
    match o {
        TurboOverride::Never => "never"@,
        TurboOverride::Always => "always"@,
        TurboOverride::Auto => "auto"@,
    }
}

/// The governor override that a state file holding `contents` (`None`: no
/// file) stands for.
pub open spec fn governor_override_read(contents: Option<Seq<char>>) -> GovernorOverride {
    match contents {
        Some(t) => governor_override_of(trim_spec(t)),
        None => GovernorOverride::Default,
    }
}

/// The turbo override that a state file holding `contents` stands for.
pub open spec fn turbo_override_read(contents: Option<Seq<char>>) -> TurboOverride {
    match contents {
        Some(t) => turbo_override_of(trim_spec(t)),
        None => TurboOverride::Auto,
    }
}

impl GovernorOverride {
    pub fn from_str(s: &str) -> (r: Self)
        ensures
            r == governor_override_of(s@),
    {
        if same_text(s, "powersave") {
            GovernorOverride::Powersave
        } else if same_text(s, "performance") {
            GovernorOverride::Performance
        } else {
            GovernorOverride::Default
        }
    }

    pub fn to_str(&self) -> (r: &'static str)
        ensures
            r@ == governor_token(*self),
    {
        match self {
            GovernorOverride::Powersave => "powersave",
            GovernorOverride::Performance => "performance",
            GovernorOverride::Default => "default",
        }
    }
}

impl TurboOverride {
    pub fn from_str(s: &str) -> (r: Self)
        ensures
            r == turbo_override_of(s@),
    {
        if same_text(s, "never") {
            TurboOverride::Never
        } else if same_text(s, "always") {
            TurboOverride::Always
        } else {
            TurboOverride::Auto
        }
    }

    pub fn to_str(&self) -> (r: &'static str)
        ensures
            r@ == turbo_token(*self),
    {
        match self {
            TurboOverride::Never => "never",
            TurboOverride::Always => "always",
            TurboOverride::Auto => "auto",
        }
    }
}

/// The governor override that the state file holds; `contents` is the
/// file's text, `None` when there is no file.
pub fn get_override(contents: Option<&str>) -> (r: GovernorOverride)
    ensures
        r == governor_override_read(
            match contents {
                Some(t) => Some(t@),
                None => None,
            },
        ),
{
    match contents {
        Some(t) => GovernorOverride::from_str(trim(t)),
        None => GovernorOverride::Default,
    }
}

/// The turbo override that the state file holds.
pub fn get_turbo_override(contents: Option<&str>) -> (r: TurboOverride)
    ensures
        r == turbo_override_read(
            match contents {
                Some(t) => Some(t@),
                None => None,
            },
        ),
{
    match contents {
        Some(t) => TurboOverride::from_str(trim(t)),
        None => TurboOverride::Auto,
    }
}

/// The change to the governor state file for a request: "powersave" and
/// "performance" are written, "reset" removes the file.
pub fn set_override(value: &str) -> (r: OverrideChange)
    ensures
        (value@ == "powersave"@ || value@ == "performance"@) ==> (r matches OverrideChange::Write(t)
            && t@ == value@),
        value@ == "reset"@ ==> r == OverrideChange::Remove,
        !(value@ == "powersave"@ || value@ == "performance"@ || value@ == "reset"@) ==> r
            == OverrideChange::Invalid,
{
    proof {
        reveal_strlit("powersave");
        reveal_strlit("performance");
        reveal_strlit("reset");
        assert("reset"@.len() == 5);
        assert("powersave"@.len() == 9);
        assert("performance"@.len() == 11);
    }
    if same_text(value, "powersave") || same_text(value, "performance") {
        OverrideChange::Write(value.to_owned())
    } else if same_text(value, "reset") {
        OverrideChange::Remove
    } else {
        OverrideChange::Invalid
    }
}

/// The change to the turbo state file for a request: "always" and "never"
/// are written, "auto" removes the file.
pub fn set_turbo_override(value: &str) -> (r: OverrideChange)
    ensures
        (value@ == "always"@ || value@ == "never"@) ==> (r matches OverrideChange::Write(t)
            && t@ == value@),
        value@ == "auto"@ ==> r == OverrideChange::Remove,
        !(value@ == "always"@ || value@ == "never"@ || value@ == "auto"@) ==> r
            == OverrideChange::Invalid,
{
    proof {
        reveal_strlit("always");
        reveal_strlit("never");
        reveal_strlit("auto");
        assert("auto"@.len() == 4);
        assert("always"@.len() == 6);
        assert("never"@.len() == 5);
    }
    if same_text(value, "always") || same_text(value, "never") {
        OverrideChange::Write(value.to_owned())
    } else if same_text(value, "auto") {
        OverrideChange::Remove
    } else {
        OverrideChange::Invalid
    }
}

/// The state file after a change: its new contents, `None` when removed.
pub open spec fn file_after(before: Option<Seq<char>>, change: OverrideChange) -> Option<Seq<char>> {
    match change {
        OverrideChange::Write(t) => Some(t@),
        OverrideChange::Remove => None,
        OverrideChange::Invalid => before,
    }
}

/// Writing "powersave" or "performance" and reading the file back gives
/// that override; "reset" removes the file, which reads back as `Default`.
pub proof fn law_governor_override_round_trip(before: Option<Seq<char>>, change: OverrideChange)
    ensures
        change matches OverrideChange::Write(t) && t@ == "powersave"@ ==> governor_override_read(
            file_after(before, change),
        ) == GovernorOverride::Powersave,
        change matches OverrideChange::Write(t) && t@ == "performance"@ ==> governor_override_read(
            file_after(before, change),
        ) == GovernorOverride::Performance,
        change == OverrideChange::Remove ==> governor_override_read(file_after(before, change))
            == GovernorOverride::Default,
{
    reveal_strlit("powersave");
    reveal_strlit("performance");
    assert(trim_spec("powersave"@) == "powersave"@) by {
        reveal_with_fuel(crate::text::trim_start_spec, 2);
        reveal_with_fuel(crate::text::trim_end_spec, 2);
    }
    assert(trim_spec("performance"@) == "performance"@) by {
        reveal_with_fuel(crate::text::trim_start_spec, 2);
        reveal_with_fuel(crate::text::trim_end_spec, 2);
    }
    assert("performance"@ != "powersave"@) by {
        assert("performance"@[1] != "powersave"@[1]);
    }
}

} // verus!
