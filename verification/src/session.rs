use vstd::prelude::*;

use crate::app::{Penalty, Solve};
use crate::stats::{
    entries_of, get_avg, spec_avg, spec_line_update, spec_mean, spec_stats_of, StatEntry,
    Stats,
};

verus! {

/// The position of the cursor in the displayed solve table (most recent
/// solve first): the selected display row, if any, and the scroll offset.
#[derive(Clone, Copy, PartialEq, Eq, Structural, Debug)]
pub struct TableCursor {
    pub selected: Option<usize>,
    pub offset: usize,
}

/// One practice session: the ordered log of completed solves, the cursor
/// into its displayed table, the height available to that table, and the
/// session-level aggregate statistics.
#[derive(Debug)]
pub struct Session {
    pub solves: Vec<Solve>,
    pub state: TableCursor,
    pub available_height: u16,
    pub stats: Stats,
}

/// Every solve's cached window averages equal the averages over the
/// trailing window that ends at that solve.
pub open spec fn caches_ok(solves: Seq<Solve>) -> bool {
    forall|i: int|
        0 <= i < solves.len() ==> {
            &&& (#[trigger] solves[i]).avg_of_5 == spec_avg(solves.take(i + 1), 5)
            &&& solves[i].avg_of_12 == spec_avg(solves.take(i + 1), 12)
        }
}

/// The trailing average of a prefix depends only on the times inside its
/// window, not on cached fields or on entries behind the window.
proof fn lemma_avg_times_eq(a: Seq<Solve>, b: Seq<Solve>, i: int, n: int)
    requires
        3 <= n,
        0 <= i < a.len(),
        i < b.len(),
        forall|k: int| 0 <= k <= i && i + 1 - n <= k ==> (#[trigger] a[k]).time == b[k].time,
    ensures
        spec_avg(a.take(i + 1), n) == spec_avg(b.take(i + 1), n),
{
    if n <= i + 1 {
        assert(entries_of(a.take(i + 1)).subrange(i + 1 - n, i + 1) =~= entries_of(
            b.take(i + 1),
        ).subrange(i + 1 - n, i + 1));
    }
}

/// Removing one solve does not change the trailing window of a later solve
/// whose window lies entirely behind the removed position.
proof fn lemma_avg_shifted(pre: Seq<Solve>, d: int, j: int, n: int)
    requires
        3 <= n,
        0 <= d < pre.len(),
        d + n <= j < pre.len() - 1,
    ensures
        spec_avg(pre.remove(d).take(j + 1), n) == spec_avg(pre.take(j + 2), n),
{
    let mid = pre.remove(d);
    pre.remove_ensures(d);
    assert(entries_of(mid.take(j + 1)).subrange(j + 1 - n, j + 1) =~= entries_of(
        pre.take(j + 2),
    ).subrange(j + 2 - n, j + 2));
}

impl Session {
    /// The selected display row, if any, is in range of the solve log.
    pub open spec fn cursor_ok(&self) -> bool {
        match self.state.selected {
            None => true,
            Some(i) => i < self.solves@.len(),
        }
    }

    /// The session is well formed: the cursor is in range and every cached
    /// per-solve average is consistent with the log.
    pub open spec fn wf(&self) -> bool {
        &&& self.cursor_ok()
        &&& caches_ok(self.solves@)
    }

    /// The log index of the selected solve: display rows run most recent
    /// first, so row `i` is solve `len - i - 1`.
    pub open spec fn spec_selected_idx(&self) -> Option<usize> {
        match self.state.selected {
            None => None,
            Some(i) => Some((self.solves@.len() - i - 1) as usize),
        }
    }

    pub fn selected_idx(&self) -> (r: Option<usize>)
        requires
            self.cursor_ok(),
        ensures
            r == self.spec_selected_idx(),
            match r {
                Some(k) => k < self.solves@.len(),
                None => self.state.selected is None,
            },
    {
        match self.state.selected {
            None => None,
            Some(i) => Some(self.solves.len() - i - 1),
        }
    }

    /// Rebuild the aggregate statistics by a full rescan of the log.
    pub fn update_stats(&mut self)
        ensures
            final(self).stats == spec_stats_of(old(self).solves@),
            final(self).solves == old(self).solves,
            final(self).state == old(self).state,
            final(self).available_height == old(self).available_height,
    {
        let solves = &self.solves;
        let mut stats = self.stats;
        stats.update(solves.as_slice());
        self.stats = stats;
    }

    /// Fold the statistics of the freshly appended last solve into the
    /// aggregate and select the most recent display row.
    pub fn update_stats_on_new(&mut self)
        requires
            old(self).solves@.len() > 0,
            old(self).stats.solve_count < u64::MAX,
        ensures
            final(self).stats.time == spec_line_update(
                old(self).stats.time,
                Some(old(self).solves@.last().time),
            ),
            final(self).stats.mean_of_3 == spec_line_update(
                old(self).stats.mean_of_3,
                spec_mean(old(self).solves@),
            ),
            final(self).stats.avg_of_5 == spec_line_update(
                old(self).stats.avg_of_5,
                spec_avg(old(self).solves@, 5),
            ),
            final(self).stats.avg_of_12 == spec_line_update(
                old(self).stats.avg_of_12,
                spec_avg(old(self).solves@, 12),
            ),
            final(self).stats.solve_count == old(self).stats.solve_count + 1,
            final(self).stats.global_mean == (old(self).stats.global_mean
                * old(self).stats.solve_count + old(self).solves@.last().time.time) / (old(
                self,
            ).stats.solve_count + 1),
            final(self).solves == old(self).solves,
            final(self).state.selected == Some(0usize),
            final(self).state.offset == old(self).state.offset,
            final(self).available_height == old(self).available_height,
    {
        let solves = &self.solves;
        let mut stats = self.stats;
        stats.update_on_new(solves.as_slice());
        self.stats = stats;
        self.select_first();
    }

    /// Recompute the cached window averages of every solve whose trailing
    /// window can reach position `idx`, then rebuild the aggregate.
    pub fn update_around(&mut self, idx: usize)
        ensures
            final(self).solves@.len() == old(self).solves@.len(),
            forall|j: int|
                0 <= j < old(self).solves@.len() ==> {
                    &&& (#[trigger] final(self).solves@[j]).time == old(self).solves@[j].time
                    &&& final(self).solves@[j].scramble == old(self).solves@[j].scramble
                    &&& final(self).solves@[j].date == old(self).solves@[j].date
                },
            forall|j: int|
                idx <= j < old(self).solves@.len() && j < idx + 5
                    ==> (#[trigger] final(self).solves@[j]).avg_of_5
                    == spec_avg(final(self).solves@.take(j + 1), 5),
            forall|j: int|
                0 <= j < old(self).solves@.len() && !(idx <= j < idx + 5)
                    ==> (#[trigger] final(self).solves@[j]).avg_of_5
                    == old(self).solves@[j].avg_of_5,
            forall|j: int|
                idx <= j < old(self).solves@.len() && j < idx + 12
                    ==> (#[trigger] final(self).solves@[j]).avg_of_12
                    == spec_avg(final(self).solves@.take(j + 1), 12),
            forall|j: int|
                0 <= j < old(self).solves@.len() && !(idx <= j < idx + 12)
                    ==> (#[trigger] final(self).solves@[j]).avg_of_12
                    == old(self).solves@[j].avg_of_12,
            final(self).stats == spec_stats_of(final(self).solves@),
            final(self).state == old(self).state,
            final(self).available_height == old(self).available_height,
    {
        let len = self.solves.len();
        let end5: usize = if idx >= len {
            idx
        } else if len - idx < 5 {
            len
        } else {
            idx + 5
        };
        let end12: usize = if idx >= len {
            idx
        } else if len - idx < 12 {
            len
        } else {
            idx + 12
        };
        let mut j = idx;
        while j < end5
            invariant
                len == self.solves@.len(),
                idx <= j <= end5,
                idx < len ==> end5 <= len && end5 <= idx + 5 && (end5 == len || end5 == idx + 5),
                idx >= len ==> end5 == idx,
                forall|j2: int|
                    0 <= j2 < len ==> {
                        &&& (#[trigger] self.solves@[j2]).time == old(self).solves@[j2].time
                        &&& self.solves@[j2].scramble == old(self).solves@[j2].scramble
                        &&& self.solves@[j2].date == old(self).solves@[j2].date
                        &&& self.solves@[j2].avg_of_12 == old(self).solves@[j2].avg_of_12
                    },
                forall|j2: int|
                    idx <= j2 < j ==> (#[trigger] self.solves@[j2]).avg_of_5 == spec_avg(
                        self.solves@.take(j2 + 1),
                        5,
                    ),
                forall|j2: int|
                    0 <= j2 < len && !(idx <= j2 < j) ==> (#[trigger] self.solves@[j2]).avg_of_5
                        == old(self).solves@[j2].avg_of_5,
                self.state == old(self).state,
                self.available_height == old(self).available_height,
                self.stats == old(self).stats,
            decreases end5 - j,
        {
            let ghost before = self.solves@;
            let a5;
            {
                let prefix: &[Solve] = &self.solves.as_slice()[0..j + 1];
                a5 = get_avg(prefix, 5);
            }
            self.solves[j].avg_of_5 = a5;
            proof {
                assert forall|j2: int| idx <= j2 <= j implies (#[trigger] self.solves@[j2]).avg_of_5
                    == spec_avg(self.solves@.take(j2 + 1), 5) by {
                    assert(before.subrange(0, j + 1) == before.take(j + 1));
                    lemma_avg_times_eq(self.solves@, before, j2, 5);
                }
            }
            j = j + 1;
        }
        let ghost after5 = self.solves@;
        let mut j = idx;
        while j < end12
            invariant
                len == self.solves@.len(),
                len == after5.len(),
                idx <= j <= end12,
                idx < len ==> end12 <= len && end12 <= idx + 12 && (end12 == len || end12 == idx
                    + 12),
                idx >= len ==> end12 == idx,
                forall|j2: int|
                    0 <= j2 < len ==> {
                        &&& (#[trigger] self.solves@[j2]).time == after5[j2].time
                        &&& self.solves@[j2].scramble == after5[j2].scramble
                        &&& self.solves@[j2].date == after5[j2].date
                        &&& self.solves@[j2].avg_of_5 == after5[j2].avg_of_5
                    },
                forall|j2: int|
                    0 <= j2 < len ==> (#[trigger] after5[j2]).time == old(self).solves@[j2].time
                        && after5[j2].scramble == old(self).solves@[j2].scramble
                        && after5[j2].date == old(self).solves@[j2].date,
                forall|j2: int|
                    idx <= j2 < len && j2 < idx + 5 ==> (#[trigger] after5[j2]).avg_of_5
                        == spec_avg(after5.take(j2 + 1), 5),
                forall|j2: int|
                    0 <= j2 < len && !(idx <= j2 < idx + 5) ==> (#[trigger] after5[j2]).avg_of_5
                        == old(self).solves@[j2].avg_of_5,
                forall|j2: int|
                    idx <= j2 < j ==> (#[trigger] self.solves@[j2]).avg_of_12 == spec_avg(
                        self.solves@.take(j2 + 1),
                        12,
                    ),
                forall|j2: int|
                    0 <= j2 < len && !(idx <= j2 < j) ==> (#[trigger] self.solves@[j2]).avg_of_12
                        == old(self).solves@[j2].avg_of_12,
                self.state == old(self).state,
                self.available_height == old(self).available_height,
                self.stats == old(self).stats,
            decreases end12 - j,
        {
            let ghost before = self.solves@;
            let a12;
            {
                let prefix: &[Solve] = &self.solves.as_slice()[0..j + 1];
                a12 = get_avg(prefix, 12);
            }
            self.solves[j].avg_of_12 = a12;
            proof {
                assert forall|j2: int| idx <= j2 <= j implies (#[trigger] self.solves@[j2])
                    .avg_of_12 == spec_avg(self.solves@.take(j2 + 1), 12) by {
                    assert(before.subrange(0, j + 1) == before.take(j + 1));
                    lemma_avg_times_eq(self.solves@, before, j2, 12);
                }
            }
            j = j + 1;
        }
        proof {
            assert forall|j2: int| idx <= j2 < len && j2 < idx + 5 implies (#[trigger] self
                .solves@[j2]).avg_of_5 == spec_avg(self.solves@.take(j2 + 1), 5) by {
                lemma_avg_times_eq(self.solves@, after5, j2, 5);
            }
        }
        self.update_stats();
    }

    fn select_with_index(&mut self, index: usize)
        ensures
            final(self).state.selected == if old(self).solves@.len() == 0 {
                None::<usize>
            } else {
                Some(index)
            },
            final(self).state.offset == old(self).state.offset,
            final(self).solves == old(self).solves,
            final(self).stats == old(self).stats,
            final(self).available_height == old(self).available_height,
    {
        self.state.selected = if self.solves.len() == 0 {
            None
        } else {
            Some(index)
        };
    }

    /// Move the selection one display row down, wrapping to the top.
    pub fn next(&mut self)
        requires
            old(self).cursor_ok(),
        ensures
            final(self).state.selected == if old(self).solves@.len() == 0 {
                None::<usize>
            } else {
                Some(
                    match old(self).state.selected {
                        Some(i) => if i + 1 >= old(self).solves@.len() {
                            0usize
                        } else {
                            (i + 1) as usize
                        },
                        None => 0usize,
                    },
                )
            },
            final(self).cursor_ok(),
            final(self).state.offset == old(self).state.offset,
            final(self).solves == old(self).solves,
            final(self).stats == old(self).stats,
            final(self).available_height == old(self).available_height,
    {
        let i = match self.state.selected {
            Some(i) => {
                if i >= self.solves.len() - 1 {
                    0
                } else {
                    i + 1
                }
            },
            None => 0,
        };
        self.select_with_index(i);
    }

    /// Move the selection one display row up, wrapping to the bottom.
    pub fn previous(&mut self)
        requires
            old(self).cursor_ok(),
        ensures
            final(self).state.selected == if old(self).solves@.len() == 0 {
                None::<usize>
            } else {
                Some(
                    match old(self).state.selected {
                        Some(i) => if i == 0 {
                            (old(self).solves@.len() - 1) as usize
                        } else {
                            (i - 1) as usize
                        },
                        None => 0usize,
                    },
                )
            },
            final(self).cursor_ok(),
            final(self).state.offset == old(self).state.offset,
            final(self).solves == old(self).solves,
            final(self).stats == old(self).stats,
            final(self).available_height == old(self).available_height,
    {
        let i = match self.state.selected {
            Some(i) => {
                if i == 0 {
                    self.solves.len() - 1
                } else {
                    i - 1
                }
            },
            None => 0,
        };
        self.select_with_index(i);
    }

    /// Select the most recent solve's display row.
    pub fn select_first(&mut self)
        ensures
            final(self).state.selected == if old(self).solves@.len() == 0 {
                None::<usize>
            } else {
                Some(0usize)
            },
            final(self).state.offset == old(self).state.offset,
            final(self).solves == old(self).solves,
            final(self).stats == old(self).stats,
            final(self).available_height == old(self).available_height,
    {
        self.select_with_index(0);
    }

    /// Select the oldest solve's display row.
    pub fn select_last(&mut self)
        ensures
            final(self).state.selected == if old(self).solves@.len() == 0 {
                None::<usize>
            } else {
                Some((old(self).solves@.len() - 1) as usize)
            },
            final(self).state.offset == old(self).state.offset,
            final(self).solves == old(self).solves,
            final(self).stats == old(self).stats,
            final(self).available_height == old(self).available_height,
    {
        let index = if self.solves.len() == 0 {
            0
        } else {
            self.solves.len() - 1
        };
        self.select_with_index(index);
    }

    /// Append a completed solve to the log and compute its cached window
    /// averages over the trailing windows it completes.
    pub fn append_solve(&mut self, solve: Solve)
        requires
            caches_ok(old(self).solves@),
        ensures
            final(self).solves@.len() == old(self).solves@.len() + 1,
            forall|j: int|
                0 <= j < old(self).solves@.len() ==> final(self).solves@[j] == old(
                    self,
                ).solves@[j],
            final(self).solves@.last().time == solve.time,
            final(self).solves@.last().scramble == solve.scramble,
            final(self).solves@.last().date == solve.date,
            final(self).solves@.last().avg_of_5 == spec_avg(final(self).solves@, 5),
            final(self).solves@.last().avg_of_12 == spec_avg(final(self).solves@, 12),
            caches_ok(final(self).solves@),
            final(self).state == old(self).state,
            final(self).stats == old(self).stats,
            final(self).available_height == old(self).available_height,
    {
        let ghost pre = self.solves@;
        self.solves.push(solve);
        let idx = self.solves.len() - 1;
        let a5;
        let a12;
        {
            let s: &[Solve] = self.solves.as_slice();
            a5 = get_avg(s, 5);
            a12 = get_avg(s, 12);
        }
        let ghost mid = self.solves@;
        self.solves[idx].avg_of_5 = a5;
        self.solves[idx].avg_of_12 = a12;
        proof {
            let cur = self.solves@;
            assert(mid.take(idx + 1) =~= mid);
            assert(cur.take(idx + 1) =~= cur);
            lemma_avg_times_eq(cur, mid, idx as int, 5);
            lemma_avg_times_eq(cur, mid, idx as int, 12);
            assert forall|j: int| 0 <= j < cur.len() implies {
                &&& (#[trigger] cur[j]).avg_of_5 == spec_avg(cur.take(j + 1), 5)
                &&& cur[j].avg_of_12 == spec_avg(cur.take(j + 1), 12)
            } by {
                if j < idx {
                    assert(cur.take(j + 1) =~= pre.take(j + 1));
                    assert(pre[j].avg_of_5 == spec_avg(pre.take(j + 1), 5));
                    assert(pre[j].avg_of_12 == spec_avg(pre.take(j + 1), 12));
                }
            }
            assert(caches_ok(cur));
        }
    }

    /// Remove the solve at log index `idx`: every cached average whose
    /// window could have reached the removed record is recomputed, the
    /// aggregate is rebuilt by a full rescan, and the cursor is moved to
    /// the nearest remaining display row.
    #[verifier::rlimit(100)]
    #[verifier::spinoff_prover]
    pub fn remove_solve(&mut self, idx: usize)
        requires
            old(self).wf(),
            idx < old(self).solves@.len(),
        ensures
            final(self).wf(),
            final(self).solves@.len() == old(self).solves@.len() - 1,
            forall|j: int|
                0 <= j < final(self).solves@.len() ==> {
                    let source = if j < idx {
                        old(self).solves@[j]
                    } else {
                        old(self).solves@[j + 1]
                    };
                    &&& (#[trigger] final(self).solves@[j]).time == source.time
                    &&& final(self).solves@[j].scramble == source.scramble
                    &&& final(self).solves@[j].date == source.date
                },
            caches_ok(final(self).solves@),
            final(self).stats == spec_stats_of(final(self).solves@),
            final(self).available_height == old(self).available_height,
            final(self).state.offset == old(self).state.offset,
            final(self).state.selected == (if old(self).solves@.len() <= 1 {
                None::<usize>
            } else {
                match old(self).state.selected {
                    None => None::<usize>,
                    Some(s) => Some(
                        if s < old(self).solves@.len() - 1 {
                            s
                        } else {
                            (old(self).solves@.len() - 2) as usize
                        },
                    ),
                }
            }),
    {
        let ghost pre = self.solves@;
        let _removed = self.solves.remove(idx);
        proof {
            pre.remove_ensures(idx as int);
            assert(self.solves@ =~= pre.remove(idx as int));
        }
        let ghost mid = self.solves@;
        proof {
            assert forall|j: int| idx + 5 <= j < mid.len() implies (#[trigger] mid[j]).avg_of_5
                == spec_avg(mid.take(j + 1), 5) by {
                lemma_avg_shifted(pre, idx as int, j, 5);
                assert(pre[j + 1].avg_of_5 == spec_avg(pre.take(j + 2), 5));
            }
            assert forall|j: int| idx + 12 <= j < mid.len() implies (#[trigger] mid[j]).avg_of_12
                == spec_avg(mid.take(j + 1), 12) by {
                lemma_avg_shifted(pre, idx as int, j, 12);
                assert(pre[j + 1].avg_of_12 == spec_avg(pre.take(j + 2), 12));
            }
            assert forall|j: int| 0 <= j < idx implies (#[trigger] mid[j]).avg_of_5 == spec_avg(
                mid.take(j + 1),
                5,
            ) && mid[j].avg_of_12 == spec_avg(mid.take(j + 1), 12) by {
                assert(mid.take(j + 1) =~= pre.take(j + 1));
                assert(pre[j].avg_of_5 == spec_avg(pre.take(j + 1), 5));
                assert(pre[j].avg_of_12 == spec_avg(pre.take(j + 1), 12));
            }
        }
        self.update_around(idx);
        proof {
            let cur = self.solves@;
            assert forall|j: int| 0 <= j < cur.len() implies {
                &&& (#[trigger] cur[j]).avg_of_5 == spec_avg(cur.take(j + 1), 5)
                &&& cur[j].avg_of_12 == spec_avg(cur.take(j + 1), 12)
            } by {
                if j < idx || idx + 5 <= j {
                    lemma_avg_times_eq(cur, mid, j, 5);
                }
                if j < idx || idx + 12 <= j {
                    lemma_avg_times_eq(cur, mid, j, 12);
                }
            }
            assert(caches_ok(cur));
        }
        let len = self.solves.len();
        if len == 0 {
            self.state.selected = None;
        } else if let Some(s) = self.state.selected {
            self.state.selected = Some(
                if s < len {
                    s
                } else {
                    len - 1
                },
            );
        }
    }

    /// Toggle the plus-two penalty of the solve at log index `idx` and
    /// recompute everything its changed value reaches. Returns whether the
    /// entry changed (it always does unless the fixed adjustment cannot be
    /// represented).
    pub fn toggle_plus_two(&mut self, idx: usize) -> (changed: bool)
        requires
            old(self).wf(),
            idx < old(self).solves@.len(),
        ensures
            final(self).wf(),
            final(self).solves@.len() == old(self).solves@.len(),
            final(self).solves@[idx as int].time == spec_toggle_plus_two(
                old(self).solves@[idx as int].time,
            ),
            changed == (spec_toggle_plus_two(old(self).solves@[idx as int].time) != old(
                self,
            ).solves@[idx as int].time),
            forall|j: int|
                0 <= j < old(self).solves@.len() && j != idx ==> (#[trigger] final(self).solves@[j]).time == old(self).solves@[j].time,
            forall|j: int|
                0 <= j < old(self).solves@.len() ==> (#[trigger] final(self).solves@[j]).scramble
                    == old(self).solves@[j].scramble && final(self).solves@[j].date == old(
                    self,
                ).solves@[j].date,
            final(self).stats == spec_stats_of(final(self).solves@),
            final(self).state == old(self).state,
            final(self).available_height == old(self).available_height,
    {
        let e = self.solves[idx].time;
        let new_e = if matches!(e.penalty, Penalty::PlusTwo) {
            if e.time >= 2000 {
                StatEntry { time: e.time - 2000, penalty: Penalty::Clean }
            } else {
                e
            }
        } else {
            if e.time <= u64::MAX - 2000 {
                StatEntry { time: e.time + 2000, penalty: Penalty::PlusTwo }
            } else {
                e
            }
        };
        let changed = new_e != e;
        self.edit_entry(idx, new_e);
        changed
    }

    /// Toggle the did-not-finish penalty of the solve at log index `idx`
    /// and recompute everything its changed value reaches. Returns whether
    /// the entry changed.
    pub fn toggle_dnf(&mut self, idx: usize) -> (changed: bool)
        requires
            old(self).wf(),
            idx < old(self).solves@.len(),
        ensures
            final(self).wf(),
            final(self).solves@.len() == old(self).solves@.len(),
            final(self).solves@[idx as int].time == spec_toggle_dnf(
                old(self).solves@[idx as int].time,
            ),
            changed == (spec_toggle_dnf(old(self).solves@[idx as int].time) != old(
                self,
            ).solves@[idx as int].time),
            forall|j: int|
                0 <= j < old(self).solves@.len() && j != idx ==> (#[trigger] final(self).solves@[j]).time == old(self).solves@[j].time,
            forall|j: int|
                0 <= j < old(self).solves@.len() ==> (#[trigger] final(self).solves@[j]).scramble
                    == old(self).solves@[j].scramble && final(self).solves@[j].date == old(
                    self,
                ).solves@[j].date,
            final(self).stats == spec_stats_of(final(self).solves@),
            final(self).state == old(self).state,
            final(self).available_height == old(self).available_height,
    {
        let e = self.solves[idx].time;
        let new_e = match e.penalty {
            Penalty::Clean => StatEntry { time: e.time, penalty: Penalty::Dnf },
            Penalty::PlusTwo => {
                if e.time >= 2000 {
                    StatEntry { time: e.time - 2000, penalty: Penalty::Dnf }
                } else {
                    e
                }
            },
            Penalty::Dnf => StatEntry { time: e.time, penalty: Penalty::Clean },
        };
        let changed = new_e != e;
        self.edit_entry(idx, new_e);
        changed
    }

    /// Replace the entry of the solve at `idx` and recompute every cached
    /// average whose window reaches it, then rebuild the aggregate.
    fn edit_entry(&mut self, idx: usize, new_e: StatEntry)
        requires
            old(self).wf(),
            idx < old(self).solves@.len(),
        ensures
            final(self).wf(),
            final(self).solves@.len() == old(self).solves@.len(),
            final(self).solves@[idx as int].time == new_e,
            forall|j: int|
                0 <= j < old(self).solves@.len() && j != idx ==> (#[trigger] final(self).solves@[j]).time == old(self).solves@[j].time,
            forall|j: int|
                0 <= j < old(self).solves@.len() ==> (#[trigger] final(self).solves@[j]).scramble
                    == old(self).solves@[j].scramble && final(self).solves@[j].date == old(
                    self,
                ).solves@[j].date,
            final(self).stats == spec_stats_of(final(self).solves@),
            final(self).state == old(self).state,
            final(self).available_height == old(self).available_height,
    {
        let ghost pre = self.solves@;
        self.solves[idx].time = new_e;
        let ghost mid = self.solves@;
        proof {
            assert forall|j: int| (0 <= j < idx || idx + 5 <= j < mid.len()) implies (
            #[trigger] mid[j]).avg_of_5 == spec_avg(mid.take(j + 1), 5) by {
                assert(pre[j].avg_of_5 == spec_avg(pre.take(j + 1), 5));
                lemma_avg_times_eq(mid, pre, j, 5);
            }
            assert forall|j: int| (0 <= j < idx || idx + 12 <= j < mid.len()) implies (
            #[trigger] mid[j]).avg_of_12 == spec_avg(mid.take(j + 1), 12) by {
                assert(pre[j].avg_of_12 == spec_avg(pre.take(j + 1), 12));
                lemma_avg_times_eq(mid, pre, j, 12);
            }
        }
        self.update_around(idx);
        proof {
            let cur = self.solves@;
            assert forall|j: int| 0 <= j < cur.len() implies {
                &&& (#[trigger] cur[j]).avg_of_5 == spec_avg(cur.take(j + 1), 5)
                &&& cur[j].avg_of_12 == spec_avg(cur.take(j + 1), 12)
            } by {
                if j < idx || idx + 5 <= j {
                    lemma_avg_times_eq(cur, mid, j, 5);
                }
                if j < idx || idx + 12 <= j {
                    lemma_avg_times_eq(cur, mid, j, 12);
                }
            }
            assert(caches_ok(cur));
        }
    }

    /// Build a session by replaying solves read back from persistence:
    /// every cached window average is recomputed from the log, the
    /// aggregate is rebuilt by one full rescan, and the most recent row is
    /// selected.
    pub fn from_solves(solves: Vec<Solve>) -> (r: Session)
        ensures
            r.wf(),
            r.solves@.len() == solves@.len(),
            forall|j: int|
                0 <= j < solves@.len() ==> (#[trigger] r.solves@[j]).time == solves@[j].time
                    && r.solves@[j].scramble == solves@[j].scramble && r.solves@[j].date
                    == solves@[j].date,
            r.stats == spec_stats_of(r.solves@),
            r.state.offset == 0,
            r.state.selected == if solves@.len() == 0 {
                None::<usize>
            } else {
                Some(0usize)
            },
            r.available_height == 0,
    {
        let ghost input = solves@;
        let mut session = Session {
            solves,
            state: TableCursor { selected: None, offset: 0 },
            available_height: 0,
            stats: Stats::default(),
        };
        let len = session.solves.len();
        let mut j: usize = 0;
        while j < len
            invariant
                len == session.solves@.len(),
                len == input.len(),
                0 <= j <= len,
                forall|j2: int|
                    0 <= j2 < len ==> (#[trigger] session.solves@[j2]).time == input[j2].time
                        && session.solves@[j2].scramble == input[j2].scramble
                        && session.solves@[j2].date == input[j2].date,
                forall|j2: int|
                    0 <= j2 < j ==> {
                        &&& (#[trigger] session.solves@[j2]).avg_of_5 == spec_avg(
                            session.solves@.take(j2 + 1),
                            5,
                        )
                        &&& session.solves@[j2].avg_of_12 == spec_avg(
                            session.solves@.take(j2 + 1),
                            12,
                        )
                    },
                session.state == (TableCursor { selected: None::<usize>, offset: 0 }),
                session.available_height == 0,
            decreases len - j,
        {
            let ghost before = session.solves@;
            let a5;
            let a12;
            {
                let prefix: &[Solve] = &session.solves.as_slice()[0..j + 1];
                a5 = get_avg(prefix, 5);
                a12 = get_avg(prefix, 12);
            }
            session.solves[j].avg_of_5 = a5;
            session.solves[j].avg_of_12 = a12;
            proof {
                assert(before.subrange(0, j + 1) == before.take(j + 1));
                assert forall|j2: int| 0 <= j2 <= j implies {
                    &&& (#[trigger] session.solves@[j2]).avg_of_5 == spec_avg(
                        session.solves@.take(j2 + 1),
                        5,
                    )
                    &&& session.solves@[j2].avg_of_12 == spec_avg(
                        session.solves@.take(j2 + 1),
                        12,
                    )
                } by {
                    lemma_avg_times_eq(session.solves@, before, j2, 5);
                    lemma_avg_times_eq(session.solves@, before, j2, 12);
                }
            }
            j = j + 1;
        }
        session.update_stats();
        session.select_first();
        session
    }

    /// Scroll the solve table up by `by` rows.
    pub fn scroll_up(&mut self, by: usize, move_cursor: bool)
        requires
            old(self).cursor_ok(),
        ensures
            final(self).state == spec_scroll_up(
                old(self).state,
                old(self).available_height,
                by as int,
                move_cursor,
            ),
            final(self).cursor_ok(),
            final(self).solves == old(self).solves,
            final(self).stats == old(self).stats,
            final(self).available_height == old(self).available_height,
    {
        self.state.offset = self.state.offset.saturating_sub(by);
        let offset = self.state.offset;
        if let Some(selected) = self.state.selected {
            if move_cursor {
                self.state.selected = Some(selected.saturating_sub(by));
            } else if selected > 0 && selected >= offset && selected - offset
                >= self.available_height as usize {
                self.state.selected = Some(selected - 1);
            }
        }
    }

    /// Scroll the solve table down by `by` rows.
    pub fn scroll_down(&mut self, by: usize, move_cursor: bool)
        requires
            old(self).cursor_ok(),
        ensures
            final(self).state == spec_scroll_down(
                old(self).state,
                old(self).solves@.len() as int,
                by as int,
                move_cursor,
            ),
            final(self).cursor_ok(),
            final(self).solves == old(self).solves,
            final(self).stats == old(self).stats,
            final(self).available_height == old(self).available_height,
    {
        let len = self.solves.len();
        let grown = self.state.offset.saturating_add(by);
        self.state.offset = if grown <= len {
            grown
        } else {
            len
        };
        let offset = self.state.offset;
        if let Some(selected) = self.state.selected {
            if move_cursor {
                let moved = selected.saturating_add(by);
                self.state.selected = Some(
                    if moved < len {
                        moved
                    } else {
                        len - 1
                    },
                );
            } else if selected < offset {
                self.state.selected = Some(
                    if selected + 1 < len {
                        selected + 1
                    } else {
                        len - 1
                    },
                );
            }
        }
    }

    /// Scroll up by half the table height, moving the cursor along.
    pub fn scroll_up_half(&mut self)
        requires
            old(self).cursor_ok(),
        ensures
            final(self).state == spec_scroll_up(
                old(self).state,
                old(self).available_height,
                old(self).available_height as int / 2,
                true,
            ),
            final(self).cursor_ok(),
            final(self).solves == old(self).solves,
            final(self).stats == old(self).stats,
            final(self).available_height == old(self).available_height,
    {
        let by = self.available_height as usize / 2;
        self.scroll_up(by, true);
    }

    /// Scroll down by half the table height, moving the cursor along.
    pub fn scroll_down_half(&mut self)
        requires
            old(self).cursor_ok(),
        ensures
            final(self).state == spec_scroll_down(
                old(self).state,
                old(self).solves@.len() as int,
                old(self).available_height as int / 2,
                true,
            ),
            final(self).cursor_ok(),
            final(self).solves == old(self).solves,
            final(self).stats == old(self).stats,
            final(self).available_height == old(self).available_height,
    {
        let by = self.available_height as usize / 2;
        self.scroll_down(by, true);
    }

    /// Scroll up by the full table height, moving the cursor along.
    pub fn scroll_up_full(&mut self)
        requires
            old(self).cursor_ok(),
        ensures
            final(self).state == spec_scroll_up(
                old(self).state,
                old(self).available_height,
                old(self).available_height as int,
                true,
            ),
            final(self).cursor_ok(),
            final(self).solves == old(self).solves,
            final(self).stats == old(self).stats,
            final(self).available_height == old(self).available_height,
    {
        let by = self.available_height as usize;
        self.scroll_up(by, true);
    }

    /// Scroll down by the full table height, moving the cursor along.
    pub fn scroll_down_full(&mut self)
        requires
            old(self).cursor_ok(),
        ensures
            final(self).state == spec_scroll_down(
                old(self).state,
                old(self).solves@.len() as int,
                old(self).available_height as int,
                true,
            ),
            final(self).cursor_ok(),
            final(self).solves == old(self).solves,
            final(self).stats == old(self).stats,
            final(self).available_height == old(self).available_height,
    {
        let by = self.available_height as usize;
        self.scroll_down(by, true);
    }
}

/// Where the cursor lands when the table scrolls up by `by` rows: the
/// offset shrinks, and the selection either moves with it or is nudged back
/// into the visible band.
pub open spec fn spec_scroll_up(c: TableCursor, height: u16, by: int, move_cursor: bool) -> TableCursor {
    let off = if c.offset >= by {
        c.offset - by
    } else {
        0
    };
    TableCursor {
        offset: off as usize,
        selected: match c.selected {
            None => None,
            Some(s) => Some(
                if move_cursor {
                    if s >= by {
                        (s - by) as usize
                    } else {
                        0usize
                    }
                } else if s >= off + height && s > 0 {
                    (s - 1) as usize
                } else {
                    s
                },
            ),
        },
    }
}

/// Where the cursor lands when the table scrolls down by `by` rows over a
/// log of `len` solves: the offset grows up to the log length, and the
/// selection either moves with it or is nudged forward, never past the last
/// row.
pub open spec fn spec_scroll_down(
    c: TableCursor,
    len: int,
    by: int,
    move_cursor: bool,
) -> TableCursor {
    let off = if c.offset + by <= len {
        (c.offset + by) as int
    } else {
        len
    };
    TableCursor {
        offset: off as usize,
        selected: match c.selected {
            None => None,
            Some(s) => Some(
                if move_cursor {
                    if s + by < len {
                        (s + by) as usize
                    } else {
                        (len - 1) as usize
                    }
                } else if s < off {
                    if s + 1 < len {
                        (s + 1) as usize
                    } else {
                        (len - 1) as usize
                    }
                } else {
                    s
                },
            ),
        },
    }
}

/// What toggling the plus-two penalty does to one entry: entering adds the
/// fixed 2000 ms, leaving subtracts it again; an adjustment that cannot be
/// represented leaves the entry unchanged.
pub open spec fn spec_toggle_plus_two(e: StatEntry) -> StatEntry {
    if e.penalty is PlusTwo {
        if e.time >= 2000 {
            StatEntry { time: (e.time - 2000) as u64, penalty: Penalty::Clean }
        } else {
            e
        }
    } else {
        if e.time + 2000 <= u64::MAX {
            StatEntry { time: (e.time + 2000) as u64, penalty: Penalty::PlusTwo }
        } else {
            e
        }
    }
}

/// What toggling the did-not-finish penalty does to one entry: a clean
/// entry becomes `Dnf`, a plus-two entry first sheds its fixed 2000 ms,
/// and a `Dnf` entry becomes clean again; an adjustment that cannot be
/// represented leaves the entry unchanged.
pub open spec fn spec_toggle_dnf(e: StatEntry) -> StatEntry {
    match e.penalty {
        Penalty::Clean => StatEntry { time: e.time, penalty: Penalty::Dnf },
        Penalty::PlusTwo => if e.time >= 2000 {
            StatEntry { time: (e.time - 2000) as u64, penalty: Penalty::Dnf }
        } else {
            e
        },
        Penalty::Dnf => StatEntry { time: e.time, penalty: Penalty::Clean },
    }
}

impl Default for Session {
    fn default() -> (r: Self)
        ensures
            r.wf(),
            r.solves@.len() == 0,
            r.stats == spec_stats_of(Seq::<Solve>::empty()),
            r.state == (TableCursor { selected: None::<usize>, offset: 0 }),
            r.available_height == 0,
    {
        let r = Session {
            solves: Vec::new(),
            state: TableCursor { selected: None, offset: 0 },
            available_height: 0,
            stats: Stats::default(),
        };
        proof {
            assert(r.solves@ =~= Seq::<Solve>::empty());
        }
        r
    }
}

} // verus!
