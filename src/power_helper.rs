//! The `AutoEnable` setting of the bluetooth daemon's configuration: the
//! rewrite that turns bluetooth on or off at boot.

use vstd::prelude::*;
use crate::text::{lines, lines_spec, lower_of, same_text, starts_with_text, texts, to_lower, trim, trim_spec};

verus! {

/// `s` without its leading `#` characters.
pub open spec fn strip_hashes_spec(s: Seq<char>) -> Seq<char>
    decreases s.len(),
{
    if s.len() > 0 && s[0] == '#' {
        strip_hashes_spec(s.drop_first())
    } else {
        s
    }
}

fn strip_hashes(s: &str) -> (r: &str)
    ensures
        r@ == strip_hashes_spec(s@),
{
    let n = s.unicode_len();
    let mut a: usize = 0;
    assert(s@.subrange(0, n as int) =~= s@);
    while a < n && s.get_char(a) == '#'
        invariant
            n == s@.len(),
            a <= n,
            strip_hashes_spec(s@.subrange(a as int, n as int)) == strip_hashes_spec(s@),
        decreases n - a,
    {
        assert(s@.subrange(a as int, n as int).drop_first() =~= s@.subrange(a + 1, n as int));
        a = a + 1;
    }
    proof {
        if a < n {
            assert(s@.subrange(a as int, n as int)[0] == s@[a as int]);
        }
    }
    s.substring_char(a, n)
}

/// Whether `s` begins with `p`.
pub open spec fn starts(s: Seq<char>, p: Seq<char>) -> bool {
    p.len() <= s.len() && s.take(p.len() as int) == p
}

/// The setting line for `value`.
pub open spec fn setting_spec(value: bool) -> Seq<char> {
    if value {
        "AutoEnable=true"@
    } else {
        "AutoEnable=false"@
    }
}

/// Whether a line (trimmed) sets `AutoEnable`, possibly commented out.
pub open spec fn is_setting_line(stripped: Seq<char>) -> bool {
    (!starts(stripped, "#"@) && starts(stripped, "AutoEnable="@)) || (starts(stripped, "#"@)
        && starts(trim_spec(strip_hashes_spec(stripped)), "AutoEnable="@))
}

/// The rewrite so far: lines out, inside `[Policy]`, setting written.
pub open spec fn rewrite_prefix(ls: Seq<Seq<char>>, value: bool) -> (Seq<Seq<char>>, bool, bool)
    decreases ls.len(),
{
    if ls.len() == 0 {
        (Seq::empty(), false, false)
    } else {
        let (out, in_policy, found) = rewrite_prefix(ls.drop_last(), value);
        let line = ls.last();
        let stripped = trim_spec(line);
        if starts(stripped, "["@) {
            let out2 = if in_policy && !found {
                out.push(setting_spec(value))
            } else {
                out
            };
            (out2.push(line), lower_of(stripped) == "[policy]"@, found || (in_policy && !found))
        } else if in_policy && is_setting_line(stripped) {
            (out.push(setting_spec(value)), in_policy, true)
        } else {
            (out.push(line), in_policy, found)
        }
    }
}

/// The lines of the rewritten configuration: every `AutoEnable=` line of the
/// `[Policy]` section, commented or not, replaced by the setting; the
/// setting added at the end of the section, or in a new `[Policy]` section,
/// where the section has none.
pub open spec fn rewrite_spec(ls: Seq<Seq<char>>, value: bool) -> Seq<Seq<char>> {
    let (out, in_policy, found) = rewrite_prefix(ls, value);
    if in_policy && !found {
        out.push(setting_spec(value))
    } else if !found {
        out.push(Seq::empty()).push("[Policy]"@).push(setting_spec(value))
    } else {
        out
    }
}

fn setting(value: bool) -> (r: String)
    ensures
        r@ == setting_spec(value),
{
    if value {
        "AutoEnable=true".to_owned()
    } else {
        "AutoEnable=false".to_owned()
    }
}

fn setting_line(stripped: &str) -> (r: bool)
    ensures
        r == is_setting_line(stripped@),
{
    let hashed = starts_with_text(stripped, "#");
    if !hashed && starts_with_text(stripped, "AutoEnable=") {
        return true;
    }
    if hashed {
        let uncommented = trim(strip_hashes(stripped));
        return starts_with_text(uncommented, "AutoEnable=");
    }
    false
}

/// Rewrites the text of `/etc/bluetooth/main.conf` so that bluetooth is
/// turned on (`value`) or off at boot; returns the new lines.
pub fn set_bluetooth_auto_enable(content: &str, value: bool) -> (r: Vec<String>)
    ensures
        texts(r@) == rewrite_spec(lines_spec(content@), value),
{
    let ls = lines(content);
    let ghost sl = lines_spec(content@);
    let mut out: Vec<String> = Vec::new();
    let mut in_policy = false;
    let mut found = false;
    let mut i: usize = 0;
    while i < ls.len()
        invariant
            sl == lines_spec(content@),
            ls@.len() == sl.len(),
            forall|j: int| 0 <= j < ls@.len() ==> #[trigger] ls@[j]@ == sl[j],
            i <= ls@.len(),
            rewrite_prefix(sl.take(i as int), value) == (texts(out@), in_policy, found),
        decreases ls.len() - i,
    {
        let line = ls[i];
        let ghost pre = sl.take(i + 1);
        assert(pre.drop_last() =~= sl.take(i as int));
        assert(pre.last() == line@);
        let ghost before = out@;
        let stripped = trim(line);
        if starts_with_text(stripped, "[") {
            if in_policy && !found {
                out.push(setting(value));
                found = true;
            }
            let lowered = to_lower(stripped);
            in_policy = same_text(lowered.as_str(), "[policy]");
            out.push(line.to_owned());
        } else if in_policy && setting_line(stripped) {
            out.push(setting(value));
            found = true;
        } else {
            out.push(line.to_owned());
        }
        proof {
            let (o, p, f) = rewrite_prefix(sl.take(i as int), value);
            assert(o == texts(before));
            if starts(trim_spec(line@), "["@) {
                if p && !f {
                    assert(texts(out@) =~= texts(before).push(setting_spec(value)).push(line@));
                } else {
                    assert(texts(out@) =~= texts(before).push(line@));
                }
            } else if p && is_setting_line(trim_spec(line@)) {
                assert(texts(out@) =~= texts(before).push(setting_spec(value)));
            } else {
                assert(texts(out@) =~= texts(before).push(line@));
            }
        }
        i = i + 1;
    }
    assert(sl.take(i as int) =~= sl);
    let ghost before = out@;
    if in_policy && !found {
        out.push(setting(value));
        assert(texts(out@) =~= texts(before).push(setting_spec(value)));
    } else if !found {
        out.push(String::new());
        out.push("[Policy]".to_owned());
        out.push(setting(value));
        assert(texts(out@) =~= texts(before).push(Seq::empty()).push("[Policy]"@).push(setting_spec(value)));
    }
    out
}

/// The lines joined with `\n` between them.
pub open spec fn join_spec(ls: Seq<Seq<char>>) -> Seq<char>
    decreases ls.len(),
{
    if ls.len() == 0 {
        Seq::empty()
    } else if ls.len() == 1 {
        ls[0]
    } else {
        join_spec(ls.drop_last()) + "\n"@ + ls.last()
    }
}

/// Joins lines with `\n` between them.
pub fn join_lines(ls: &Vec<String>) -> (r: String)
    ensures
        r@ == join_spec(texts(ls@)),
{
    let ghost t = texts(ls@);
    let mut out = String::new();
    let mut i: usize = 0;
    while i < ls.len()
        invariant
            i <= ls@.len(),
            t == texts(ls@),
            out@ == join_spec(t.take(i as int)),
        decreases ls.len() - i,
    {
        let ghost pre = t.take(i + 1);
        assert(pre.drop_last() =~= t.take(i as int));
        if i > 0 {
            out.append("\n");
        }
        out.append(ls[i].as_str());
        i = i + 1;
    }
    assert(t.take(i as int) =~= t);
    out
}

} // verus!
