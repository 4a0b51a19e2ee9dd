use vstd::prelude::*;

use crate::app::{Penalty, Solve};
use crate::session::spec_toggle_plus_two;
use crate::stats::{
    dnf_count, entries_of, entry_le, entry_min, fold_min, fold_min_opt, max_of, min_of, ok_times,
    spec_line_update, spec_stats_of, spec_trimmed_avg, sum_of, StatEntry, StatLine, Stats,
};

verus! {

proof fn lemma_no_dnf_window(w: Seq<StatEntry>)
    requires
        forall|i: int| 0 <= i < w.len() ==> !((#[trigger] w[i]).penalty is Dnf),
    ensures
        dnf_count(w) == 0,
        ok_times(w) == w.map_values(|e: StatEntry| e.time),
    decreases w.len(),
{
    if w.len() > 0 {
        lemma_no_dnf_window(w.drop_last());
        assert(w.map_values(|e: StatEntry| e.time) =~= w.drop_last().map_values(
            |e: StatEntry| e.time,
        ).push(w.last().time));
    } else {
        assert(ok_times(w) =~= w.map_values(|e: StatEntry| e.time));
    }
}

/// Over a window without failures the trimmed average drops exactly one
/// maximum and one minimum value and averages the remaining ones.
pub proof fn lemma_trimmed_avg_all_clean(w: Seq<StatEntry>)
    requires
        w.len() >= 3,
        forall|i: int| 0 <= i < w.len() ==> !((#[trigger] w[i]).penalty is Dnf),
    ensures
        ok_times(w) == w.map_values(|e: StatEntry| e.time),
        spec_trimmed_avg(w) == (StatEntry {
            time: ((sum_of(ok_times(w)) - min_of(ok_times(w)) - max_of(ok_times(w))) / (w.len()
                - 2)) as u64,
            penalty: Penalty::Clean,
        }),
{
    lemma_no_dnf_window(w);
}

/// Failure escalation: a window holding two or more failures is itself a
/// failure; a window holding exactly one failure drops only the minimum of
/// the remaining values, the failure standing in for the dropped maximum.
pub proof fn lemma_trimmed_avg_dnf_escalation(w: Seq<StatEntry>)
    requires
        w.len() >= 3,
    ensures
        dnf_count(w) >= 2 ==> spec_trimmed_avg(w) == (StatEntry { time: 0, penalty: Penalty::Dnf }),
        dnf_count(w) == 1 ==> spec_trimmed_avg(w) == (StatEntry {
            time: ((sum_of(ok_times(w)) - min_of(ok_times(w))) / (w.len() - 2)) as u64,
            penalty: Penalty::Clean,
        }),
{
}

/// The statistic line reached by a sequence of `update` calls, starting
/// from the empty default line.
pub open spec fn line_after_updates(updates: Seq<Option<StatEntry>>) -> StatLine
    decreases updates.len(),
{
    if updates.len() == 0 {
        StatLine { current: None, best: None }
    } else {
        spec_line_update(line_after_updates(updates.drop_last()), updates.last())
    }
}

/// After any sequence of `update` calls, the line's best value is the fold
/// of the penalty-aware minimum over every present value passed.
pub proof fn lemma_line_best_is_fold_min(updates: Seq<Option<StatEntry>>)
    ensures
        line_after_updates(updates).best == fold_min_opt(updates),
    decreases updates.len(),
{
    if updates.len() > 0 {
        lemma_line_best_is_fold_min(updates.drop_last());
    }
}

/// The folded minimum of the present values is a present value and is no
/// larger, under the penalty-aware ordering, than any of them; it is
/// absent exactly when no value is present.
pub proof fn lemma_fold_min_opt_is_min(updates: Seq<Option<StatEntry>>)
    ensures
        fold_min_opt(updates) matches Some(m) ==> exists|i: int|
            0 <= i < updates.len() && updates[i] == Some(m),
        fold_min_opt(updates) matches Some(m) ==> forall|i: int|
            0 <= i < updates.len() ==> match #[trigger] updates[i] {
                Some(v) => entry_le(m, v),
                None => true,
            },
        fold_min_opt(updates) is None ==> forall|i: int|
            0 <= i < updates.len() ==> #[trigger] updates[i] is None,
    decreases updates.len(),
{
    if updates.len() > 0 {
        lemma_fold_min_opt_is_min(updates.drop_last());
        let rest = updates.drop_last();
        if fold_min_opt(updates) is Some {
            let m = fold_min_opt(updates).unwrap();
            match (fold_min_opt(rest), updates.last()) {
                (Some(b), Some(v)) => {
                    assert(m == entry_min(b, v));
                    if updates[rest.len() as int] == Some(m) {
                        assert(exists|i: int| 0 <= i < updates.len() && updates[i] == Some(m));
                    } else {
                        let wit = choose|i: int| 0 <= i < rest.len() && rest[i] == Some(b);
                        assert(updates[wit] == Some(m));
                    }
                },
                (Some(b), None) => {
                    let wit = choose|i: int| 0 <= i < rest.len() && rest[i] == Some(b);
                    assert(updates[wit] == Some(m));
                },
                (None, Some(v)) => {
                    assert(updates[rest.len() as int] == Some(m));
                },
                (None, None) => {},
            }
            assert forall|i: int| 0 <= i < updates.len() implies match #[trigger] updates[i] {
                Some(v) => entry_le(m, v),
                None => true,
            } by {
                if updates[i] is Some {
                    let vv = updates[i].unwrap();
                    if i < rest.len() {
                        assert(rest[i] == updates[i]);
                        let b = fold_min_opt(rest).unwrap();
                        assert(entry_le(b, vv));
                        assert(entry_le(m, b));
                    }
                }
            }
        } else {
            assert forall|i: int| 0 <= i < updates.len() implies #[trigger] updates[i]
                is None by {
                if i < rest.len() {
                    assert(rest[i] == updates[i]);
                }
            }
        }
    }
}

/// The folded minimum of a non-empty entry sequence is one of its entries
/// and is no larger, under the penalty-aware ordering, than any of them.
pub proof fn lemma_fold_min_is_min(entries: Seq<StatEntry>)
    ensures
        fold_min(entries) matches Some(m) ==> exists|i: int|
            0 <= i < entries.len() && entries[i] == m,
        fold_min(entries) matches Some(m) ==> forall|i: int|
            0 <= i < entries.len() ==> entry_le(m, #[trigger] entries[i]),
        fold_min(entries) is None <==> entries.len() == 0,
    decreases entries.len(),
{
    if entries.len() > 0 {
        lemma_fold_min_is_min(entries.drop_last());
        let rest = entries.drop_last();
        if fold_min(entries) is Some {
            let m = fold_min(entries).unwrap();
            match fold_min(rest) {
                Some(b) => {
                    if entries[rest.len() as int] != m {
                        let wit = choose|i: int| 0 <= i < rest.len() && rest[i] == b;
                        assert(entries[wit] == m);
                    }
                },
                None => {},
            }
            assert forall|i: int| 0 <= i < entries.len() implies entry_le(
                m,
                #[trigger] entries[i],
            ) by {
                if i < rest.len() {
                    assert(rest[i] == entries[i]);
                    let b = fold_min(rest).unwrap();
                    assert(entry_le(b, entries[i]));
                    assert(entry_le(m, b));
                }
            }
        }
    }
}

/// After a deletion the rescanned aggregate's best time is the
/// penalty-aware minimum over the solves still present, whichever record
/// was removed; paired with the rescan performed by the removal itself,
/// the best never references the removed record.
pub proof fn lemma_best_after_removal(solves: Seq<Solve>, d: int)
    requires
        0 <= d < solves.len(),
    ensures
        solves.remove(d).len() == 0 ==> spec_stats_of(solves.remove(d)).time.best is None,
        solves.remove(d).len() > 0 ==> (spec_stats_of(solves.remove(d)).time.best matches Some(m)
            && (exists|i: int|
            0 <= i < solves.remove(d).len() && (#[trigger] solves.remove(d)[i]).time == m)
            && (forall|i: int|
            0 <= i < solves.remove(d).len() ==> entry_le(
                m,
                (#[trigger] solves.remove(d)[i]).time,
            ))),
{
    let remaining = solves.remove(d);
    let entries = entries_of(remaining);
    lemma_fold_min_is_min(entries);
    if remaining.len() > 0 {
        let m = fold_min(entries).unwrap();
        let wit = choose|i: int| 0 <= i < entries.len() && entries[i] == m;
        assert(remaining[wit].time == m);
        assert forall|i: int| 0 <= i < remaining.len() implies entry_le(
            m,
            (#[trigger] remaining[i]).time,
        ) by {
            assert(entries[i] == remaining[i].time);
            assert(entry_le(m, entries[i]));
        }
    }
}

/// Toggling the plus-two penalty on and off again restores the entry
/// exactly: the raw value and the penalty both come back.
pub proof fn lemma_plus_two_round_trip(e: StatEntry)
    requires
        e.penalty is Clean,
        e.time + 2000 <= u64::MAX,
    ensures
        spec_toggle_plus_two(spec_toggle_plus_two(e)) == e,
{
}

/// The aggregate of the empty log: no line holds a value, and both the
/// solve count and the running mean are zero. Deleting the only solve of a
/// session leaves exactly this aggregate, since deletion rescans.
pub proof fn lemma_stats_of_empty()
    ensures
        spec_stats_of(Seq::<Solve>::empty()) == (Stats {
            time: StatLine { current: None, best: None },
            mean_of_3: StatLine { current: None, best: None },
            avg_of_5: StatLine { current: None, best: None },
            avg_of_12: StatLine { current: None, best: None },
            solve_count: 0,
            global_mean: 0,
        }),
{
    assert(entries_of(Seq::<Solve>::empty()) =~= Seq::<StatEntry>::empty());
    assert(crate::stats::avg5s_of(Seq::<Solve>::empty()) =~= Seq::<Option<StatEntry>>::empty());
    assert(crate::stats::avg12s_of(Seq::<Solve>::empty()) =~= Seq::<Option<StatEntry>>::empty());
}

} // verus!
