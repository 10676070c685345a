use vstd::prelude::*;

use crate::text::{begins_with, starts_with_str, views};

verus! {

/// Whether a file name is one of the program's rolled log files
/// (`momir_rs.jsonl.` followed by the day).
pub open spec fn is_log_name(name: Seq<char>) -> bool {
    begins_with(name, "momir_rs.jsonl."@)
}

/// The log files among `names`, in order.
pub open spec fn log_names(names: Seq<Seq<char>>) -> Seq<Seq<char>>
    decreases names.len(),
{
    if names.len() == 0 {
        Seq::empty()
    } else {
        let rest = log_names(names.drop_last());
        if is_log_name(names.last()) {
            rest.push(names.last())
        } else {
            rest
        }
    }
}

/// How many log files are kept: the three newest.
pub const LOGS_KEPT: usize = 3;

/// How many of `n` log files are kept: three, or all of them when there
/// are fewer.
pub open spec fn logs_kept(n: nat) -> nat {
    if n > 3 {
        3
    } else {
        n
    }
}

/// `a` comes no later than `b` in the order of strings: compared character
/// by character by code point, a proper prefix first. (On UTF-8 text this is
/// the byte-wise order, so the order of the file names.)
pub open spec fn text_le(a: Seq<char>, b: Seq<char>) -> bool
    decreases a.len(),
{
    if a.len() == 0 {
        true
    } else if b.len() == 0 {
        false
    } else if a[0] != b[0] {
        (a[0] as int) < (b[0] as int)
    } else {
        text_le(a.drop_first(), b.drop_first())
    }
}

/// The texts of `s` come in order.
pub open spec fn texts_sorted(s: Seq<Seq<char>>) -> bool {
    forall|i: int, j: int| 0 <= i < j < s.len() ==> text_le(#[trigger] s[i], #[trigger] s[j])
}

/// Sorts `v` with std's `sort` on `String`s (`slice::sort`). Its
/// documentation promises a permutation of the items in ascending order of
/// `Ord`, which on strings is the lexicographic order of their bytes, that is
/// of their code points; `text_le` states that order.
#[verifier::external_body]
fn sort_texts(v: &mut Vec<String>)
    ensures
        views(final(v)@).to_multiset() == views(old(v)@).to_multiset(),
        texts_sorted(views(final(v)@)),
{
    v.sort();
}

/// Whether `name` is a rolled log file of the program.
pub fn is_log_file(name: &str) -> (b: bool)
    ensures
        b == is_log_name(name@),
{
    let prefix = "momir_rs.jsonl.";
    proof {
        reveal_strlit("momir_rs.jsonl.");
    }
    starts_with_str(name, prefix)
}

/// The log files to delete among the names found in a log directory, in
/// any order: sorted by name (and so by day), the logs are the ones deleted
/// followed by the ones kept, and the three newest are kept (all of them when
/// there are fewer).
pub fn logs_to_remove(names: &Vec<String>) -> (r: Vec<String>)
    ensures
        exists|kept: Seq<Seq<char>>|
            #![trigger views(r@) + kept]
            {
                &&& (views(r@) + kept).to_multiset() == log_names(views(names@)).to_multiset()
                &&& texts_sorted(views(r@) + kept)
                &&& kept.len() == logs_kept(log_names(views(names@)).len())
            },
{
    let mut logs: Vec<String> = Vec::new();
    let mut i: usize = 0;
    while i < names.len()
        invariant
            i <= names@.len(),
            views(logs@) == log_names(views(names@).take(i as int)),
        decreases names@.len() - i,
    {
        proof {
            assert(views(names@).take(i + 1).drop_last() == views(names@).take(i as int));
            assert(views(names@).take(i + 1).last() == names@[i as int]@);
        }
        if is_log_file(names[i].as_str()) {
            let ghost before = views(logs@);
            logs.push(names[i].clone());
            proof {
                assert(views(logs@) =~= before.push(names@[i as int]@));
            }
        }
        i = i + 1;
    }
    proof {
        assert(views(names@).take(names@.len() as int) == views(names@));
        broadcast use vstd::seq_lib::group_to_multiset_ensures;
    }
    let ghost found = views(logs@);
    sort_texts(&mut logs);
    let ghost sorted = views(logs@);
    proof {
        broadcast use vstd::seq_lib::group_to_multiset_ensures;
        assert(sorted.to_multiset() == found.to_multiset());
        assert(sorted.to_multiset().len() == found.to_multiset().len());
        assert(sorted.len() == found.len());
    }
    if logs.len() > LOGS_KEPT {
        let keep = logs.len() - LOGS_KEPT;
        logs.truncate(keep);
        proof {
            let kept = sorted.skip(keep as int);
            assert(views(logs@) =~= sorted.take(keep as int));
            assert(views(logs@) + kept =~= sorted);
        }
        logs
    } else {
        let none: Vec<String> = Vec::new();
        proof {
            assert(views(none@) + sorted =~= sorted);
        }
        none
    }
}

/// Every name among the logs of `names` is a log name found in `names`.
proof fn log_names_come_from(names: Seq<Seq<char>>)
    ensures
        forall|x: Seq<char>| #[trigger] log_names(names).contains(x) ==> is_log_name(x) && names.contains(x),
    decreases names.len(),
{
    if names.len() > 0 {
        log_names_come_from(names.drop_last());
        assert forall|x: Seq<char>| #[trigger] log_names(names).contains(x) implies is_log_name(x)
            && names.contains(x) by {
            let rest = log_names(names.drop_last());
            if rest.contains(x) {
                let k = choose|k: int| 0 <= k < names.drop_last().len() && names.drop_last()[k] == x;
                assert(names[k] == x);
            } else {
                assert(is_log_name(names.last()) && x == names.last());
                assert(names[names.len() - 1] == x);
            }
        }
    }
}

/// Cleaning keeps the newest logs: when the logs of a directory, sorted by
/// name, are the ones deleted followed by the ones kept, every log kept is a
/// log of that directory and comes after every log deleted, and together they
/// are all its logs.
pub proof fn law_kept_logs_are_the_newest(
    names: Seq<Seq<char>>,
    removed: Seq<Seq<char>>,
    kept: Seq<Seq<char>>,
)
    requires
        (removed + kept).to_multiset() == log_names(names).to_multiset(),
        texts_sorted(removed + kept),
    ensures
        forall|i: int, j: int|
            0 <= i < removed.len() && 0 <= j < kept.len() ==> text_le(#[trigger] removed[i], #[trigger] kept[j]),
        forall|x: Seq<char>| #[trigger] kept.contains(x) ==> is_log_name(x) && names.contains(x),
        removed.len() + kept.len() == log_names(names).len(),
{
    broadcast use vstd::seq_lib::group_to_multiset_ensures;

    let s = removed + kept;
    assert forall|i: int, j: int| 0 <= i < removed.len() && 0 <= j < kept.len() implies text_le(
        #[trigger] removed[i],
        #[trigger] kept[j],
    ) by {
        assert(s[i] == removed[i]);
        assert(s[removed.len() + j] == kept[j]);
    }
    log_names_come_from(names);
    assert forall|x: Seq<char>| #[trigger] kept.contains(x) implies is_log_name(x) && names.contains(x) by {
        let j = choose|j: int| 0 <= j < kept.len() && kept[j] == x;
        assert(s[removed.len() + j] == x);
        assert(s.contains(x));
        assert(s.to_multiset().count(x) > 0);
        assert(log_names(names).contains(x));
    }
    assert(s.len() == s.to_multiset().len());
}

} // verus!
