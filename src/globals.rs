//! Fixed facts: the governors in order of preference and well-known paths.

use vstd::prelude::*;
use crate::text::{same_text, texts};

verus! {

pub const CONSERVATION_MODE_FILE: &'static str =
    "/sys/bus/platform/drivers/ideapad_acpi/VPC2004:00/conservation_mode";

pub const POWER_SUPPLY_DIR: &'static str = "/sys/class/power_supply/";

/// Every governor the policy knows, from the most to the least performant.
pub open spec fn all_governors_spec() -> Seq<Seq<char>> {
    seq![
        "performance"@,
        "ondemand"@,
        "conservative"@,
        "schedutil"@,
        "userspace"@,
        "powersave"@,
    ]
}

/// Every governor the policy knows, from the most to the least performant.
pub fn all_governors() -> (r: Vec<String>)
    ensures
        texts(r@) == all_governors_spec(),
{
    let r = vec![
        "performance".to_owned(),
        "ondemand".to_owned(),
        "conservative".to_owned(),
        "schedutil".to_owned(),
        "userspace".to_owned(),
        "powersave".to_owned(),
    ];
    assert(texts(r@) =~= all_governors_spec());
    r
}

/// The names of `order` that `available` holds, in the order of `order`.
pub open spec fn keep_available(order: Seq<Seq<char>>, available: Seq<Seq<char>>) -> Seq<Seq<char>>
    decreases order.len(),
{
    if order.len() == 0 {
        Seq::empty()
    } else {
        let prev = keep_available(order.drop_last(), available);
        if available.contains(order.last()) {
            prev.push(order.last())
        } else {
            prev
        }
    }
}

/// The supported governors, ordered from the most to the least performant;
/// names the policy does not know are left out.
pub fn sort_governors(available: &Vec<String>) -> (r: Vec<String>)
    ensures
        texts(r@) == keep_available(all_governors_spec(), texts(available@)),
{
    let all = all_governors();
    let ghost av = texts(available@);
    let mut out: Vec<String> = Vec::new();
    let mut i: usize = 0;
    while i < all.len()
        invariant
            i <= all@.len(),
            texts(all@) == all_governors_spec(),
            av == texts(available@),
            texts(out@) == keep_available(all_governors_spec().take(i as int), av),
        decreases all.len() - i,
    {
        let g = &all[i];
        let ghost pre = all_governors_spec().take(i + 1);
        assert(pre.drop_last() =~= all_governors_spec().take(i as int));
        assert(pre.last() == g@);
        let mut found = false;
        let mut j: usize = 0;
        while j < available.len() && !found
            invariant
                j <= available@.len(),
                av == texts(available@),
                found ==> av.contains(g@),
                !found ==> forall|k: int| 0 <= k < j ==> av[k] != g@,
            decreases available.len() - j,
        {
            if same_text(available[j].as_str(), g.as_str()) {
                assert(av[j as int] == g@);
                found = true;
            }
            j = j + 1;
        }
        assert(found == av.contains(g@));
        if found {
            let ghost before = out@;
            let c = g.clone();
            out.push(c);
            assert(texts(out@) =~= texts(before).push(g@));
        }
        i = i + 1;
    }
    assert(all_governors_spec().take(i as int) =~= all_governors_spec());
    out
}

} // verus!
