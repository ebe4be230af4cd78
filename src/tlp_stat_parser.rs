//! Reads the `key=value` status report of the TLP power tool.

use vstd::prelude::*;
use crate::text::{lines, lines_spec, lower_of, same_text, split_once, split_once_spec, to_lower, trim, trim_spec};

verus! {

/// The entries of a report as a map: each later line wins over an earlier one.
pub open spec fn assoc_map(s: Seq<(Seq<char>, Seq<char>)>) -> Map<Seq<char>, Seq<char>>
    decreases s.len(),
{
    if s.len() == 0 {
        Map::empty()
    } else {
        assoc_map(s.drop_last()).insert(s.last().0, s.last().1)
    }
}

/// The entry that one line of the report gives, if any: the key is trimmed
/// and lower-cased, the value trimmed.
pub open spec fn line_entry(line: Seq<char>) -> Option<(Seq<char>, Seq<char>)> {
    match split_once_spec(line, '=') {
        Some(p) => Some((lower_of(trim_spec(p.0)), trim_spec(p.1))),
        None => None,
    }
}

/// The map `start` with the entries of a sequence of report lines added in
/// order.
pub open spec fn report_fold(start: Map<Seq<char>, Seq<char>>, ls: Seq<Seq<char>>) -> Map<Seq<char>, Seq<char>>
    decreases ls.len(),
{
    if ls.len() == 0 {
        start
    } else {
        let prev = report_fold(start, ls.drop_last());
        match line_entry(ls.last()) {
            Some(e) => prev.insert(e.0, e.1),
            None => prev,
        }
    }
}

/// The map that a sequence of report lines describes.
pub open spec fn report_map(ls: Seq<Seq<char>>) -> Map<Seq<char>, Seq<char>> {
    report_fold(Map::empty(), ls)
}

/// The key/value pairs of a TLP status report.
pub struct TLPStatusParser {
    data: Vec<(String, String)>,
}

/// The stored pairs, as texts.
pub open spec fn pairs(s: Seq<(String, String)>) -> Seq<(Seq<char>, Seq<char>)> {
    s.map_values(|e: (String, String)| (e.0@, e.1@))
}

impl View for TLPStatusParser {
    type V = Map<Seq<char>, Seq<char>>;

    closed spec fn view(&self) -> Map<Seq<char>, Seq<char>> {
        assoc_map(pairs(self.data@))
    }
}

proof fn lemma_assoc_push(s: Seq<(String, String)>, e: (String, String))
    ensures
        assoc_map(pairs(s.push(e))) == assoc_map(pairs(s)).insert(e.0@, e.1@),
{
    assert(pairs(s.push(e)).drop_last() =~= pairs(s));
}

proof fn lemma_assoc_tail(s: Seq<(Seq<char>, Seq<char>)>, i: int, k: Seq<char>)
    requires
        0 <= i <= s.len(),
        forall|j: int| i <= j < s.len() ==> (#[trigger] s[j]).0 != k,
    ensures
        assoc_map(s).contains_key(k) == assoc_map(s.take(i)).contains_key(k),
        assoc_map(s)[k] == assoc_map(s.take(i))[k],
    decreases s.len() - i,
{
    if i < s.len() {
        assert(s.drop_last().take(i) =~= s.take(i));
        assert forall|j: int| i <= j < s.drop_last().len() implies (
        #[trigger] s.drop_last()[j]).0 != k by {
            assert(s.drop_last()[j] == s[j]);
        }
        lemma_assoc_tail(s.drop_last(), i, k);
    } else {
        assert(s.take(i) =~= s);
    }
}

impl TLPStatusParser {
    /// Parses the output of `tlp-stat`.
    pub fn new(tlp_stat_output: &str) -> (r: Self)
        ensures
            r@ == report_map(lines_spec(tlp_stat_output@)),
    {
        let mut parser = TLPStatusParser { data: Vec::new() };
        parser.parse(tlp_stat_output);
        parser
    }

    /// Adds the entries of each `key=value` line of `data`.
    pub fn parse(&mut self, data: &str)
        ensures
            final(self)@ == report_fold(old(self)@, lines_spec(data@)),
    {
        let ls = lines(data);
        let ghost spec_lines = lines_spec(data@);
        let mut i: usize = 0;
        while i < ls.len()
            invariant
                ls@.len() == spec_lines.len(),
                forall|j: int| 0 <= j < ls@.len() ==> #[trigger] ls@[j]@ == spec_lines[j],
                i <= ls@.len(),
                self@ == report_fold(old(self)@, spec_lines.take(i as int)),
            decreases ls.len() - i,
        {
            let line = ls[i];
            let ghost prefix = spec_lines.take(i + 1);
            assert(prefix.drop_last() =~= spec_lines.take(i as int));
            assert(prefix.last() == line@);
            match split_once(line, '=') {
                Some(kv) => {
                    let key = to_lower(trim(kv.0.as_str()));
                    let val = trim(kv.1.as_str()).to_owned();
                    proof {
                        lemma_assoc_push(self.data@, (key, val));
                    }
                    self.data.push((key, val));
                },
                None => {},
            }
            i = i + 1;
        }
        assert(spec_lines.take(i as int) =~= spec_lines);
    }

    /// The value stored for `key`, or an empty text.
    pub fn get_key(&self, key: &str) -> (r: String)
        ensures
            self@.contains_key(key@) ==> r@ == self@[key@],
            !self@.contains_key(key@) ==> r@ == Seq::<char>::empty(),
    {
        let ghost s = pairs(self.data@);
        let mut i: usize = self.data.len();
        while i > 0
            invariant
                i <= self.data@.len(),
                s == pairs(self.data@),
                forall|j: int| i <= j < s.len() ==> (#[trigger] s[j]).0 != key@,
            decreases i,
        {
            let e = &self.data[i - 1];
            if same_text(e.0.as_str(), key) {
                proof {
                    assert forall|j: int| i <= j < s.len() implies (#[trigger] s[j]).0 != key@ by {}
                    lemma_assoc_tail(s, i as int, key@);
                    let p = s.take(i as int);
                    assert(p.drop_last() =~= s.take(i - 1));
                    assert(s[i - 1] == (e.0@, e.1@));
                    assert(p.last() == (e.0@, e.1@));
                }
                return e.1.clone();
            }
            i = i - 1;
        }
        proof {
            lemma_assoc_tail(s, 0, key@);
            assert(s.take(0) =~= Seq::<(Seq<char>, Seq<char>)>::empty());
        }
        String::new()
    }

    /// Whether the report says that TLP is enabled.
    pub fn is_enabled(&self) -> (r: bool)
        ensures
            r == (self@.contains_key("state"@) && self@["state"@] == "enabled"@),
    {
        let v = self.get_key("state");
        proof {
            reveal_strlit("enabled");
            assert("enabled"@.len() == 7);
        }
        same_text(v.as_str(), "enabled")
    }
}

} // verus!
