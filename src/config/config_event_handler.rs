//! Decides which file-watch events call for a reload of the configuration.

use vstd::prelude::*;
use crate::text::{same_text, texts};

verus! {

/// The kinds of file-system event the watcher reports.
#[derive(Debug, Clone, Copy, PartialEq, Eq, Structural)]
pub enum WatchEventKind {
    /// A file was created.
    CreateFile,
    /// A file's data changed.
    ModifyData,
    /// A file was removed.
    RemoveFile,
    /// Anything else (metadata, access, a directory, ...).
    Other,
}

/// What `Path::with_extension("")` makes of a path: the path without the
/// extension of its last component.
pub uninterp spec fn without_extension(p: Seq<char>) -> Seq<char>;

/// Relies on `Path::with_extension` with an empty extension.
#[verifier::external_body]
fn drop_extension(p: &str) -> (r: String)
    ensures
        r@ == without_extension(p@),
{
    std::path::Path::new(p).with_extension("").to_string_lossy().into_owned()
}

/// Whether an event path names the configuration file: the same path, or the
/// same once up to two extensions are dropped from each (editors save
/// through `name.conf.swp` and the like).
pub open spec fn names_config(p: Seq<char>, current: Seq<char>) -> bool {
    p == current || without_extension(without_extension(p)) == without_extension(
        without_extension(current),
    )
}

/// Whether an event of `kind` on `paths` calls for a reload of `current`.
pub open spec fn reload_wanted(kind: WatchEventKind, paths: Seq<Seq<char>>, current: Seq<char>) -> bool {
    kind != WatchEventKind::Other && exists|i: int|
        0 <= i < paths.len() && names_config(#[trigger] paths[i], current)
}

/// Filters the watcher's events for the configuration file.
pub struct ConfigEventHandler;

impl ConfigEventHandler {
    pub fn new() -> (r: Self) {
        ConfigEventHandler
    }

    /// Whether an event of `kind` on `paths` calls for a reload of the file `current`.
    pub fn should_reload(&self, kind: WatchEventKind, paths: &Vec<String>, current: &str) -> (r: bool)
        ensures
            r == reload_wanted(kind, texts(paths@), current@),
    {
        let ghost ps = texts(paths@);
        if kind == WatchEventKind::Other {
            return false;
        }
        let cur = drop_extension(drop_extension(current).as_str());
        let mut i: usize = 0;
        while i < paths.len()
            invariant
                i <= paths@.len(),
                kind != WatchEventKind::Other,
                ps == texts(paths@),
                cur@ == without_extension(without_extension(current@)),
                forall|j: int| 0 <= j < i ==> !names_config(#[trigger] ps[j], current@),
            decreases paths.len() - i,
        {
            let p = paths[i].as_str();
            assert(ps[i as int] == p@);
            if same_text(p, current) {
                assert(names_config(ps[i as int], current@));
                return true;
            }
            let q = drop_extension(drop_extension(p).as_str());
            if same_text(q.as_str(), cur.as_str()) {
                assert(names_config(ps[i as int], current@));
                return true;
            }
            i = i + 1;
        }
        false
    }
}

} // verus!
