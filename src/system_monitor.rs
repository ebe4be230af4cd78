//! Line buffers and status words of the monitor view.

use vstd::prelude::*;
use crate::text::{lines, lines_spec, texts};

verus! {

/// What the monitor shows.
#[derive(Debug, Clone, Copy, PartialEq, Eq, Structural)]
pub enum ViewType {
    Stats,
    Monitor,
    Live,
}

impl ViewType {
    pub fn name(&self) -> (r: &'static str)
        ensures
            r@ == match *self {
                ViewType::Stats => "Stats"@,
                ViewType::Monitor => "Monitor"@,
                ViewType::Live => "Live"@,
            },
    {
        match self {
            ViewType::Stats => "Stats",
            ViewType::Monitor => "Monitor",
            ViewType::Live => "Live",
        }
    }
}

/// A text buffer that is filled and then split into lines.
pub struct StringBuffer {
    buffer: String,
}

impl View for StringBuffer {
    type V = Seq<char>;

    closed spec fn view(&self) -> Seq<char> {
        self.buffer@
    }
}

impl StringBuffer {
    pub fn new() -> (r: Self)
        ensures
            r@ == Seq::<char>::empty(),
    {
        StringBuffer { buffer: String::new() }
    }

    pub fn clear(&mut self)
        ensures
            final(self)@ == Seq::<char>::empty(),
    {
        self.buffer = String::new();
    }

    pub fn write_str(&mut self, s: &str)
        ensures
            final(self)@ == old(self)@ + s@,
    {
        self.buffer.append(s);
    }

    pub fn to_lines(&self) -> (r: Vec<String>)
        ensures
            texts(r@) == lines_spec(self@),
    {
        let ls = lines(self.buffer.as_str());
        let ghost sl = lines_spec(self@);
        let mut out: Vec<String> = Vec::new();
        let mut i: usize = 0;
        while i < ls.len()
            invariant
                sl == lines_spec(self@),
                ls@.len() == sl.len(),
                forall|j: int| 0 <= j < ls@.len() ==> #[trigger] ls@[j]@ == sl[j],
                i <= ls@.len(),
                texts(out@) == sl.take(i as int),
            decreases ls.len() - i,
        {
            let ghost before = out@;
            out.push(ls[i].to_owned());
            assert(texts(out@) =~= texts(before).push(sl[i as int]));
            assert(sl.take(i + 1) =~= sl.take(i as int).push(sl[i as int]));
            i = i + 1;
        }
        assert(sl.take(i as int) =~= sl);
        out
    }
}

/// How `{:?}` shows an optional flag.
pub open spec fn debug_opt_bool(b: Option<bool>) -> Seq<char> {
    match b {
        Some(true) => "Some(true)"@,
        Some(false) => "Some(false)"@,
        None => "None"@,
    }
}

fn debug_opt(b: Option<bool>) -> (r: &'static str)
    ensures
        r@ == debug_opt_bool(b),
{
    match b {
        Some(true) => "Some(true)",
        Some(false) => "Some(false)",
        None => "None",
    }
}

/// The battery status word: charging, discharging (off AC), charged (on AC),
/// or unknown; in verbose mode both raw flags.
pub open spec fn battery_status_spec(is_charging: Option<bool>, is_ac_plugged: Option<bool>, verbose: bool) -> Seq<char> {
    if verbose {
        "is_charging: "@ + debug_opt_bool(is_charging) + ", is_ac_plugged: "@ + debug_opt_bool(is_ac_plugged)
    } else {
        match (is_charging, is_ac_plugged) {
            (Some(true), _) => "Charging"@,
            (Some(false), Some(false)) => "Discharging"@,
            (Some(false), Some(true)) => "Charged"@,
            _ => "Unknown"@,
        }
    }
}

/// The monitor's two columns of text.
pub struct SystemMonitor {
    pub view: ViewType,
    pub suggestion: bool,
    pub verbose: bool,
    pub left: Vec<String>,
    pub right: Vec<String>,
    pub left_buffer: StringBuffer,
    pub right_buffer: StringBuffer,
}

impl SystemMonitor {
    pub fn new(view: ViewType, suggestion: bool) -> (r: Self)
        ensures
            r.view == view,
            r.suggestion == suggestion,
            !r.verbose,
            r.left@.len() == 0,
            r.right@.len() == 0,
    {
        SystemMonitor::new_with_verbose(view, suggestion, false)
    }

    pub fn new_with_verbose(view: ViewType, suggestion: bool, verbose: bool) -> (r: Self)
        ensures
            r.view == view,
            r.suggestion == suggestion,
            r.verbose == verbose,
            r.left@.len() == 0,
            r.right@.len() == 0,
            r.left_buffer@.len() == 0,
            r.right_buffer@.len() == 0,
    {
        SystemMonitor {
            view,
            suggestion,
            verbose,
            left: Vec::new(),
            right: Vec::new(),
            left_buffer: StringBuffer::new(),
            right_buffer: StringBuffer::new(),
        }
    }

    /// The battery status word for the report.
    pub fn format_battery_status(is_charging: Option<bool>, is_ac_plugged: Option<bool>, verbose: bool) -> (r: String)
        ensures
            r@ == battery_status_spec(is_charging, is_ac_plugged, verbose),
    {
        if verbose {
            let mut s = "is_charging: ".to_owned();
            s.append(debug_opt(is_charging));
            s.append(", is_ac_plugged: ");
            s.append(debug_opt(is_ac_plugged));
            return s;
        }
        match (is_charging, is_ac_plugged) {
            (Some(true), _) => "Charging".to_owned(),
            (Some(false), Some(false)) => "Discharging".to_owned(),
            (Some(false), Some(true)) => "Charged".to_owned(),
            _ => "Unknown".to_owned(),
        }
    }
}

} // verus!
