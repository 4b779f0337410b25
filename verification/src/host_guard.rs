//! Desktop apps that take over the device sync session while they run.

use vstd::prelude::*;
use crate::text::{ascii_lowercase, eq_ignore_ascii_case, str_eq, string_of, to_ascii_lowercase};

verus! {

/// The lower-cased process names of the apps that block syncing.
pub open spec fn is_blocking_lower(lower: Seq<char>) -> bool {
    ||| lower == "itunes.exe"@
    ||| lower == "appledevices.exe"@
    ||| lower == "applemusic.exe"@
    ||| lower == "ampdevicesagent.exe"@
    ||| lower == "applemobiledevicehelper.exe"@
}

/// `name` is the process name of an app that blocks syncing, in any case.
pub open spec fn is_blocking_name(name: Seq<char>) -> bool {
    is_blocking_lower(ascii_lowercase(name))
}

/// `a` and `b` are the same name ignoring ASCII case.
pub open spec fn same_name(a: Seq<char>, b: Seq<char>) -> bool {
    ascii_lowercase(a) == ascii_lowercase(b)
}

/// Some entry of `hits` is `name` ignoring ASCII case.
pub open spec fn listed(hits: Seq<Seq<char>>, name: Seq<char>) -> bool {
    exists|k: int| 0 <= k < hits.len() && same_name(#[trigger] hits[k], name)
}

/// The blocking apps among `names`, in order of first appearance, each
/// once ignoring ASCII case, spelled as it first appeared.
pub open spec fn blocking_hits(names: Seq<Seq<char>>) -> Seq<Seq<char>>
    decreases names.len(),
{
    if names.len() == 0 {
        seq![]
    } else {
        let prev = blocking_hits(names.drop_last());
        let n = names.last();
        if is_blocking_name(n) && !listed(prev, n) {
            prev.push(n)
        } else {
            prev
        }
    }
}

fn is_blocking(name: &str) -> (r: bool)
    ensures
        r == is_blocking_name(name@),
{
    let lower = to_ascii_lowercase(name);
    let l = lower.as_str();
    str_eq(l, "itunes.exe") || str_eq(l, "appledevices.exe") || str_eq(l, "applemusic.exe")
        || str_eq(l, "ampdevicesagent.exe") || str_eq(l, "applemobiledevicehelper.exe")
}

/// Names as plain values.
pub open spec fn names_view(v: Seq<String>) -> Seq<Seq<char>> {
    v.map_values(|s: String| s@)
}

/// The running apps that block syncing, from the names of all running
/// processes: each blocking app once (ignoring ASCII case), in order of
/// first appearance.
pub fn blocking_sync_apps(process_names: &Vec<String>) -> (r: Vec<String>)
    ensures
        names_view(r@) == blocking_hits(names_view(process_names@)),
{
    let ghost all = names_view(process_names@);
    let mut hits: Vec<String> = Vec::new();
    let mut i: usize = 0;
    while i < process_names.len()
        invariant
            all == names_view(process_names@),
            i <= process_names@.len(),
            names_view(hits@) == blocking_hits(all.subrange(0, i as int)),
        decreases process_names@.len() - i,
    {
        let name = process_names[i].as_str();
        let ghost prefix = all.subrange(0, i + 1);
        assert(prefix.drop_last() =~= all.subrange(0, i as int));
        assert(prefix.last() == name@);
        if is_blocking(name) {
            let mut seen = false;
            let mut k: usize = 0;
            while k < hits.len()
                invariant
                    k <= hits@.len(),
                    seen == exists|j: int| 0 <= j < k && same_name(#[trigger] names_view(hits@)[j], name@),
                decreases hits@.len() - k,
            {
                if eq_ignore_ascii_case(hits[k].as_str(), name) {
                    seen = true;
                }
                assert(names_view(hits@)[k as int] == hits@[k as int]@);
                k = k + 1;
            }
            if !seen {
                hits.push(string_of(name));
                assert(names_view(hits@) =~= blocking_hits(prefix));
            }
        }
        i = i + 1;
    }
    assert(all.subrange(0, process_names@.len() as int) =~= all);
    hits
}

/// Every reported app blocks syncing, and no app is reported twice, even
/// in different case.
pub proof fn lemma_blocking_hits_distinct(names: Seq<Seq<char>>)
    ensures
        forall|k: int| 0 <= k < blocking_hits(names).len() ==> is_blocking_name(#[trigger] blocking_hits(names)[k]),
        forall|a: int, b: int|
            0 <= a < b < blocking_hits(names).len() ==> !same_name(
                #[trigger] blocking_hits(names)[a],
                #[trigger] blocking_hits(names)[b],
            ),
    decreases names.len(),
{
    if names.len() > 0 {
        lemma_blocking_hits_distinct(names.drop_last());
        let prev = blocking_hits(names.drop_last());
        let n = names.last();
        if is_blocking_name(n) && !listed(prev, n) {
            let h = prev.push(n);
            assert forall|a: int, b: int| 0 <= a < b < h.len() implies !same_name(
                #[trigger] h[a],
                #[trigger] h[b],
            ) by {
                if b == prev.len() {
                    if same_name(h[a], h[b]) {
                        assert(same_name(prev[a], n));
                        assert(listed(prev, n));
                    }
                } else {
                    assert(h[a] == prev[a]);
                    assert(h[b] == prev[b]);
                }
            }
        }
    }
}

/// Every blocking app among the process names is reported, in some case.
pub proof fn lemma_blocking_hits_complete(names: Seq<Seq<char>>)
    ensures
        forall|i: int| 0 <= i < names.len() && is_blocking_name(#[trigger] names[i]) ==> listed(blocking_hits(names), names[i]),
    decreases names.len(),
{
    if names.len() > 0 {
        let init = names.drop_last();
        lemma_blocking_hits_complete(init);
        let prev = blocking_hits(init);
        let hits = blocking_hits(names);
        assert(prev.len() <= hits.len());
        assert forall|k: int| 0 <= k < prev.len() implies #[trigger] hits[k] == prev[k] by {
        }
        assert forall|i: int| 0 <= i < names.len() && is_blocking_name(#[trigger] names[i]) implies listed(hits, names[i]) by {
            if i < init.len() {
                assert(init[i] == names[i]);
                assert(listed(prev, names[i]));
                let k = choose|k: int| 0 <= k < prev.len() && same_name(#[trigger] prev[k], names[i]);
                assert(hits[k] == prev[k]);
            } else {
                if !listed(prev, names[i]) {
                    assert(hits[prev.len() as int] == names[i]);
                    assert(same_name(hits[prev.len() as int], names[i]));
                } else {
                    let k = choose|k: int| 0 <= k < prev.len() && same_name(#[trigger] prev[k], names[i]);
                    assert(hits[k] == prev[k]);
                }
            }
        }
    }
}

} // verus!
