use vstd::prelude::*;

use crate::app::{Penalty, Solve};

verus! {

/// One scalar statistic value (milliseconds) tagged with its penalty
/// classification.
#[derive(Clone, Copy, PartialEq, Eq, Structural, Debug)]
pub struct StatEntry {
    pub time: u64,
    pub penalty: Penalty,
}

/// Penalty-aware ordering: a `Dnf` entry is worse than any finite entry,
/// and otherwise entries compare by time.
pub open spec fn entry_le(a: StatEntry, b: StatEntry) -> bool {
    if a.penalty is Dnf {
        b.penalty is Dnf
    } else if b.penalty is Dnf {
        true
    } else {
        a.time <= b.time
    }
}

/// The smaller of two entries under `entry_le`, preferring `a` on ties.
pub open spec fn entry_min(a: StatEntry, b: StatEntry) -> StatEntry {
    if entry_le(a, b) {
        a
    } else {
        b
    }
}

impl StatEntry {
    pub fn new(time: u64, penalty: Penalty) -> (r: Self)
        ensures
            r == (StatEntry { time, penalty }),
    {
        Self { time, penalty }
    }

    /// The smaller of two entries under the penalty-aware ordering.
    pub fn min(self, other: Self) -> (r: Self)
        ensures
            r == entry_min(self, other),
    {
        if matches!(self.penalty, Penalty::Dnf) {
            if matches!(other.penalty, Penalty::Dnf) {
                self
            } else {
                other
            }
        } else if matches!(other.penalty, Penalty::Dnf) {
            self
        } else if self.time <= other.time {
            self
        } else {
            other
        }
    }

    /// The entry as displayed, per `spec_entry_text`.
    pub fn to_text(&self) -> (r: String)
        ensures
            r@ == spec_entry_text(*self),
    {
        proof {
            reveal_strlit("DNF");
            reveal_strlit("+");
        }
        match self.penalty {
            Penalty::Dnf => {
                let mut s = String::new();
                s.append("DNF");
                proof {
                    assert(s@ =~= "DNF"@);
                }
                s
            },
            Penalty::PlusTwo => {
                let mut s = crate::timer::millis_to_string_not_running(self.time);
                s.append("+");
                s
            },
            Penalty::Clean => crate::timer::millis_to_string_not_running(self.time),
        }
    }
}


/// How an entry is displayed: a failure shows as "DNF", any other entry as
/// its time, with a trailing plus marking a plus-two penalty.
pub open spec fn spec_entry_text(e: StatEntry) -> Seq<char> {
    match e.penalty {
        Penalty::Dnf => "DNF"@,
        Penalty::PlusTwo => crate::timer::spec_millis_string(e.time as nat, false) + "+"@,
        Penalty::Clean => crate::timer::spec_millis_string(e.time as nat, false),
    }
}

/// Sum of a sequence of times.
pub open spec fn sum_of(s: Seq<u64>) -> int
    decreases s.len(),
{
    if s.len() == 0 {
        0
    } else {
        sum_of(s.drop_last()) + s.last()
    }
}

/// Minimum of a sequence of times; the empty minimum is `u64::MAX`.
pub open spec fn min_of(s: Seq<u64>) -> int
    decreases s.len(),
{
    if s.len() == 0 {
        u64::MAX as int
    } else {
        let m = min_of(s.drop_last());
        if s.last() < m {
            s.last() as int
        } else {
            m
        }
    }
}

/// Maximum of a sequence of times; the empty maximum is `0`.
pub open spec fn max_of(s: Seq<u64>) -> int
    decreases s.len(),
{
    if s.len() == 0 {
        0
    } else {
        let m = max_of(s.drop_last());
        if s.last() > m {
            s.last() as int
        } else {
            m
        }
    }
}

/// The times of the non-`Dnf` entries of `w`, in order.
pub open spec fn ok_times(w: Seq<StatEntry>) -> Seq<u64>
    decreases w.len(),
{
    if w.len() == 0 {
        Seq::empty()
    } else {
        let rest = ok_times(w.drop_last());
        if w.last().penalty is Dnf {
            rest
        } else {
            rest.push(w.last().time)
        }
    }
}

/// How many entries of `w` are `Dnf`.
pub open spec fn dnf_count(w: Seq<StatEntry>) -> int
    decreases w.len(),
{
    if w.len() == 0 {
        0
    } else {
        dnf_count(w.drop_last()) + if w.last().penalty is Dnf {
            1int
        } else {
            0int
        }
    }
}

/// The trimmed mean of a full window `w` of entries: two or more failures
/// poison the window; exactly one failure stands in for the dropped maximum,
/// so only the minimum of the remaining values is dropped; with no failure
/// both the single maximum and the single minimum are dropped. The surviving
/// `w.len() - 2` values are averaged with truncating division.
pub open spec fn spec_trimmed_avg(w: Seq<StatEntry>) -> StatEntry {
    let v = ok_times(w);
    if dnf_count(w) >= 2 {
        StatEntry { time: 0, penalty: Penalty::Dnf }
    } else {
        let dropped = if dnf_count(w) == 0 {
            min_of(v) + max_of(v)
        } else {
            min_of(v)
        };
        StatEntry {
            time: ((sum_of(v) - dropped) / (w.len() - 2)) as u64,
            penalty: Penalty::Clean,
        }
    }
}

/// The untrimmed mean of a full window `w` of three entries: any failure
/// poisons the window, otherwise the three values are averaged.
pub open spec fn spec_plain_mean(w: Seq<StatEntry>) -> StatEntry {
    if dnf_count(w) >= 1 {
        StatEntry { time: u64::MAX, penalty: Penalty::Dnf }
    } else {
        StatEntry { time: (sum_of(ok_times(w)) / 3) as u64, penalty: Penalty::Clean }
    }
}

/// The statistic entries of a sequence of solves.
pub open spec fn entries_of(solves: Seq<Solve>) -> Seq<StatEntry> {
    solves.map_values(|s: Solve| s.time)
}

/// The raw times of a sequence of solves.
pub open spec fn times_of(solves: Seq<Solve>) -> Seq<u64> {
    solves.map_values(|s: Solve| s.time.time)
}

/// The trimmed average over the trailing `n` solves, absent when fewer than
/// `n` are present.
pub open spec fn spec_avg(solves: Seq<Solve>, n: int) -> Option<StatEntry> {
    if solves.len() < n {
        None
    } else {
        Some(spec_trimmed_avg(entries_of(solves).subrange(solves.len() - n, solves.len() as int)))
    }
}

/// The plain mean over the trailing three solves, absent when fewer are
/// present.
pub open spec fn spec_mean(solves: Seq<Solve>) -> Option<StatEntry> {
    if solves.len() < 3 {
        None
    } else {
        Some(spec_plain_mean(entries_of(solves).subrange(solves.len() - 3, solves.len() as int)))
    }
}

/// The folded minimum of a sequence of entries under the penalty-aware
/// ordering, `None` for the empty sequence. Earlier entries win ties.
pub open spec fn fold_min(entries: Seq<StatEntry>) -> Option<StatEntry>
    decreases entries.len(),
{
    if entries.len() == 0 {
        None
    } else {
        match fold_min(entries.drop_last()) {
            None => Some(entries.last()),
            Some(b) => Some(entry_min(b, entries.last())),
        }
    }
}

/// The folded minimum of the present entries of a sequence of optional
/// entries, `None` when none is present.
pub open spec fn fold_min_opt(entries: Seq<Option<StatEntry>>) -> Option<StatEntry>
    decreases entries.len(),
{
    if entries.len() == 0 {
        None
    } else {
        match (fold_min_opt(entries.drop_last()), entries.last()) {
            (None, last) => last,
            (Some(b), None) => Some(b),
            (Some(b), Some(v)) => Some(entry_min(b, v)),
        }
    }
}

/// The folded minimum over the plain means of all three-solve windows.
pub open spec fn fold_min_mean3(solves: Seq<Solve>) -> Option<StatEntry>
    decreases solves.len(),
{
    if solves.len() < 3 {
        None
    } else {
        let m = spec_plain_mean(
            entries_of(solves).subrange(solves.len() - 3, solves.len() as int),
        );
        match fold_min_mean3(solves.drop_last()) {
            None => Some(m),
            Some(b) => Some(entry_min(b, m)),
        }
    }
}

/// The cached five-solve averages of a sequence of solves.
pub open spec fn avg5s_of(solves: Seq<Solve>) -> Seq<Option<StatEntry>> {
    solves.map_values(|s: Solve| s.avg_of_5)
}

/// The cached twelve-solve averages of a sequence of solves.
pub open spec fn avg12s_of(solves: Seq<Solve>) -> Seq<Option<StatEntry>> {
    solves.map_values(|s: Solve| s.avg_of_12)
}

proof fn lemma_ok_times_len(w: Seq<StatEntry>)
    ensures
        ok_times(w).len() + dnf_count(w) == w.len(),
        0 <= dnf_count(w) <= w.len(),
    decreases w.len(),
{
    if w.len() > 0 {
        lemma_ok_times_len(w.drop_last());
    }
}

/// Bounds that tie the sum of a window to its extreme values; they justify
/// both the absence of overflow and the range of the trimmed mean.
proof fn lemma_bounds(v: Seq<u64>)
    ensures
        0 <= sum_of(v) <= v.len() * (u64::MAX as int),
        0 <= min_of(v) <= u64::MAX as int,
        0 <= max_of(v) <= u64::MAX as int,
        v.len() >= 1 ==> min_of(v) <= max_of(v),
        v.len() >= 1 ==> min_of(v) <= sum_of(v) && max_of(v) <= sum_of(v),
        v.len() >= 1 ==> sum_of(v) - min_of(v) <= (v.len() - 1) * (u64::MAX as int),
        v.len() >= 1 ==> sum_of(v) - max_of(v) <= (v.len() - 1) * (u64::MAX as int),
        v.len() >= 2 ==> min_of(v) + max_of(v) <= sum_of(v),
        v.len() >= 2 ==> sum_of(v) - min_of(v) - max_of(v) <= (v.len() - 2) * (u64::MAX as int),
    decreases v.len(),
{
    if v.len() > 0 {
        lemma_bounds(v.drop_last());
    }
}

proof fn lemma_dnf_count_mono(w: Seq<StatEntry>, j: int)
    requires
        0 <= j <= w.len(),
    ensures
        dnf_count(w.take(j)) <= dnf_count(w),
    decreases w.len() - j,
{
    if j == w.len() {
        assert(w.take(j) =~= w);
    } else {
        lemma_dnf_count_mono(w, j + 1);
        assert(w.take(j + 1).drop_last() =~= w.take(j));
        lemma_ok_times_len(w.take(j + 1));
    }
}

/// `None` when fewer than `count` solves are present, otherwise the trailing
/// `count` solves.
pub fn get_solves_from_tail<'a>(solves: &'a [Solve], count: usize) -> (r: Option<
    &'a [Solve],
>)
    ensures
        match r {
            Some(tail) => solves@.len() >= count && tail@ == solves@.subrange(
                solves@.len() - count,
                solves@.len() as int,
            ),
            None => solves@.len() < count,
        },
{
    let length = solves.len();
    if length < count {
        None
    } else {
        Some(&solves[length - count..length])
    }
}

/// The trimmed average over the trailing `avg_of` solves, per the failure
/// escalation rule, or `None` when fewer than `avg_of` solves are present.
pub fn get_avg(solves: &[Solve], avg_of: usize) -> (r: Option<StatEntry>)
    requires
        3 <= avg_of,
    ensures
        r == spec_avg(solves@, avg_of as int),
{
    let length = solves.len();
    if length < avg_of {
        return None;
    }
    let start = length - avg_of;
    let ghost win = entries_of(solves@).subrange(start as int, length as int);
    let mut sum: u128 = 0;
    let mut mn: u64 = u64::MAX;
    let mut mx: u64 = 0;
    let mut dnfs: u8 = 0;
    let mut i: usize = start;
    while i < length
        invariant
            start + avg_of == length,
            length == solves@.len(),
            3 <= avg_of,
            start <= i <= length,
            win == entries_of(solves@).subrange(start as int, length as int),
            win.len() == avg_of,
            dnfs == dnf_count(win.take(i - start)),
            dnfs <= 1,
            sum == sum_of(ok_times(win.take(i - start))),
            mn == min_of(ok_times(win.take(i - start))),
            mx == max_of(ok_times(win.take(i - start))),
        decreases length - i,
    {
        let ghost k = i - start;
        proof {
            assert(win.take(k + 1).drop_last() =~= win.take(k));
            assert(win.take(k + 1).last() == win[k]);
            assert(win[k] == solves@[i as int].time);
            lemma_ok_times_len(win.take(k));
            lemma_bounds(ok_times(win.take(k)));
        }
        let e = solves[i].time;
        if matches!(e.penalty, Penalty::Dnf) {
            dnfs = dnfs + 1;
            if dnfs == 2 {
                proof {
                    lemma_dnf_count_mono(win, k + 1);
                }
                return Some(StatEntry { time: 0, penalty: Penalty::Dnf });
            }
        } else {
            proof {
                let v = ok_times(win.take(k));
                assert(v.push(e.time).drop_last() =~= v);
            }
            sum = sum + (e.time as u128);
            if e.time < mn {
                mn = e.time;
            }
            if e.time > mx {
                mx = e.time;
            }
        }
        i = i + 1;
    }
    proof {
        assert(win.take(avg_of as int) =~= win);
        lemma_ok_times_len(win);
        lemma_bounds(ok_times(win));
    }
    let total = if dnfs == 0 {
        sum - (mx as u128) - (mn as u128)
    } else {
        sum - (mn as u128)
    };
    let value = total / ((avg_of - 2) as u128);
    proof {
        let d = avg_of - 2;
        assert(total <= d * (u64::MAX as int));
        vstd::arithmetic::div_mod::lemma_div_is_ordered(total as int, d * (u64::MAX as int), d);
        vstd::arithmetic::div_mod::lemma_div_multiples_vanish(u64::MAX as int, d);
        assert(value <= u64::MAX);
    }
    Some(StatEntry { time: value as u64, penalty: Penalty::Clean })
}

/// The plain mean over the trailing three solves, with any failure poisoning
/// the window, or `None` when fewer than three solves are present.
pub fn get_mean(solves: &[Solve], mean_of: usize) -> (r: Option<StatEntry>)
    requires
        mean_of == 3,
    ensures
        r == spec_mean(solves@),
{
    let length = solves.len();
    if length < mean_of {
        return None;
    }
    let e0 = solves[length - 3].time;
    let e1 = solves[length - 2].time;
    let e2 = solves[length - 1].time;
    let ghost w = entries_of(solves@).subrange(length - 3, length as int);
    proof {
        reveal_with_fuel(dnf_count, 4);
        reveal_with_fuel(ok_times, 4);
        reveal_with_fuel(sum_of, 4);
        assert(w.len() == 3);
        assert(w.drop_last() =~= entries_of(solves@).subrange(length - 3, length - 1));
        assert(w.drop_last().drop_last() =~= entries_of(solves@).subrange(length - 3, length - 2));
        assert(w.drop_last().drop_last().drop_last() =~= Seq::<StatEntry>::empty());
        assert(w[0] == e0 && w[1] == e1 && w[2] == e2);
    }
    if matches!(e0.penalty, Penalty::Dnf) || matches!(e1.penalty, Penalty::Dnf) || matches!(
        e2.penalty,
        Penalty::Dnf,
    ) {
        return Some(StatEntry { time: u64::MAX, penalty: Penalty::Dnf });
    }
    let sum: u128 = (e0.time as u128) + (e1.time as u128) + (e2.time as u128);
    Some(StatEntry { time: (sum / 3) as u64, penalty: Penalty::Clean })
}

/// A statistic line: the value at the most recent attempt paired with the
/// best value seen so far.
#[derive(Clone, Copy, Debug)]
pub struct StatLine {
    pub current: Option<StatEntry>,
    pub best: Option<StatEntry>,
}

/// What one `StatLine::update` call does: a present value becomes the
/// current value and is folded into the best value; an absent value changes
/// nothing.
pub open spec fn spec_line_update(line: StatLine, new: Option<StatEntry>) -> StatLine {
    match new {
        None => line,
        Some(v) => StatLine {
            current: Some(v),
            best: Some(
                match line.best {
                    None => v,
                    Some(b) => entry_min(b, v),
                },
            ),
        },
    }
}

impl StatLine {
    pub fn new(current: Option<StatEntry>, best: Option<StatEntry>) -> (r: Self)
        ensures
            r == (StatLine { current, best }),
    {
        Self { current, best }
    }

    /// Record the statistic's value at the most recent attempt: the first
    /// present value seeds the best, later ones only improve it.
    pub fn update(&mut self, new: Option<StatEntry>)
        ensures
            *final(self) == spec_line_update(*old(self), new),
    {
        if let Some(new) = new {
            self.current = Some(new);
            self.best = if let Some(best) = self.best {
                Some(best.min(new))
            } else {
                Some(new)
            };
        }
    }
}

impl Default for StatLine {
    fn default() -> (r: Self)
        ensures
            r == (StatLine { current: None::<StatEntry>, best: None::<StatEntry> }),
    {
        StatLine { current: None, best: None }
    }
}

/// The aggregate statistics of one session.
#[derive(Clone, Copy, Debug)]
pub struct Stats {
    pub time: StatLine,
    pub mean_of_3: StatLine,
    pub avg_of_5: StatLine,
    pub avg_of_12: StatLine,
    pub solve_count: u64,
    pub global_mean: u64,
}

/// The aggregate obtained by a full rescan of the solve log: each line's
/// current value is read off the most recent solve and each best value is
/// the penalty-aware minimum over the whole log.
pub open spec fn spec_stats_of(solves: Seq<Solve>) -> Stats {
    Stats {
        time: StatLine {
            current: if solves.len() == 0 {
                None
            } else {
                Some(solves.last().time)
            },
            best: fold_min(entries_of(solves)),
        },
        mean_of_3: StatLine { current: spec_mean(solves), best: fold_min_mean3(solves) },
        avg_of_5: StatLine {
            current: if solves.len() == 0 {
                None
            } else {
                solves.last().avg_of_5
            },
            best: fold_min_opt(avg5s_of(solves)),
        },
        avg_of_12: StatLine {
            current: if solves.len() == 0 {
                None
            } else {
                solves.last().avg_of_12
            },
            best: fold_min_opt(avg12s_of(solves)),
        },
        solve_count: solves.len() as u64,
        global_mean: if solves.len() == 0 {
            0
        } else {
            (sum_of(times_of(solves)) / solves.len() as int) as u64
        },
    }
}

impl Stats {
    /// Rebuild every line of the aggregate from the full solve log; used
    /// after a mutation that may have removed the record holding a best.
    pub fn update(&mut self, solves: &[Solve])
        ensures
            *final(self) == spec_stats_of(solves@),
    {
        let length = solves.len();
        let mut best_time: Option<StatEntry> = None;
        let mut best_a5: Option<StatEntry> = None;
        let mut best_a12: Option<StatEntry> = None;
        let mut total: u128 = 0;
        let mut i: usize = 0;
        while i < length
            invariant
                length == solves@.len(),
                0 <= i <= length,
                best_time == fold_min(entries_of(solves@).take(i as int)),
                best_a5 == fold_min_opt(avg5s_of(solves@).take(i as int)),
                best_a12 == fold_min_opt(avg12s_of(solves@).take(i as int)),
                total == sum_of(times_of(solves@).take(i as int)),
                total <= i * (u64::MAX as int),
            decreases length - i,
        {
            proof {
                assert(entries_of(solves@).take(i + 1).drop_last() =~= entries_of(
                    solves@,
                ).take(i as int));
                assert(avg5s_of(solves@).take(i + 1).drop_last() =~= avg5s_of(solves@).take(
                    i as int,
                ));
                assert(avg12s_of(solves@).take(i + 1).drop_last() =~= avg12s_of(solves@).take(
                    i as int,
                ));
                assert(times_of(solves@).take(i + 1).drop_last() =~= times_of(solves@).take(
                    i as int,
                ));
            }
            let s = &solves[i];
            best_time = match best_time {
                None => Some(s.time),
                Some(b) => Some(b.min(s.time)),
            };
            best_a5 = match (best_a5, s.avg_of_5) {
                (None, x) => x,
                (Some(b), None) => Some(b),
                (Some(b), Some(v)) => Some(b.min(v)),
            };
            best_a12 = match (best_a12, s.avg_of_12) {
                (None, x) => x,
                (Some(b), None) => Some(b),
                (Some(b), Some(v)) => Some(b.min(v)),
            };
            total = total + (s.time.time as u128);
            i = i + 1;
        }
        proof {
            assert(entries_of(solves@).take(length as int) =~= entries_of(solves@));
            assert(avg5s_of(solves@).take(length as int) =~= avg5s_of(solves@));
            assert(avg12s_of(solves@).take(length as int) =~= avg12s_of(solves@));
            assert(times_of(solves@).take(length as int) =~= times_of(solves@));
        }
        let mut best_m3: Option<StatEntry> = None;
        if length >= 3 {
            let mut w: usize = 0;
            while w < length - 2
                invariant
                    length == solves@.len(),
                    3 <= length,
                    0 <= w <= length - 2,
                    best_m3 == fold_min_mean3(solves@.take(w + 2)),
                decreases length - w,
            {
                let m = get_mean(&solves[w..w + 3], 3);
                proof {
                    assert(solves@.take(w + 3).drop_last() =~= solves@.take(w + 2));
                    let window = solves@.subrange(w as int, w + 3);
                    assert(entries_of(window).subrange(0, 3) =~= entries_of(solves@.take(w + 3))
                        .subrange(w as int, w + 3));
                }
                best_m3 = match (best_m3, m) {
                    (None, x) => x,
                    (Some(b), None) => Some(b),
                    (Some(b), Some(v)) => Some(b.min(v)),
                };
                w = w + 1;
            }
            proof {
                assert(solves@.take(length as int) =~= solves@);
            }
        }
        self.time = StatLine {
            current: if length == 0 {
                None
            } else {
                Some(solves[length - 1].time)
            },
            best: best_time,
        };
        self.mean_of_3 = StatLine { current: get_mean(solves, 3), best: best_m3 };
        self.avg_of_5 = StatLine {
            current: if length == 0 {
                None
            } else {
                solves[length - 1].avg_of_5
            },
            best: best_a5,
        };
        self.avg_of_12 = StatLine {
            current: if length == 0 {
                None
            } else {
                solves[length - 1].avg_of_12
            },
            best: best_a12,
        };
        self.solve_count = length as u64;
        self.global_mean = if length == 0 {
            0
        } else {
            let q = total / (length as u128);
            proof {
                vstd::arithmetic::div_mod::lemma_div_is_ordered(
                    total as int,
                    (length as int) * (u64::MAX as int),
                    length as int,
                );
                vstd::arithmetic::div_mod::lemma_div_multiples_vanish(
                    u64::MAX as int,
                    length as int,
                );
                assert(q <= u64::MAX);
            }
            q as u64
        };
    }

    /// Fold the statistics of the freshly appended solve (the last of
    /// `solves`) into the aggregate, and advance the running mean by the
    /// incremental formula over the previous count.
    pub fn update_on_new(&mut self, solves: &[Solve])
        requires
            solves@.len() > 0,
            old(self).solve_count < u64::MAX,
        ensures
            final(self).time == spec_line_update(old(self).time, Some(solves@.last().time)),
            final(self).mean_of_3 == spec_line_update(old(self).mean_of_3, spec_mean(solves@)),
            final(self).avg_of_5 == spec_line_update(old(self).avg_of_5, spec_avg(solves@, 5)),
            final(self).avg_of_12 == spec_line_update(old(self).avg_of_12, spec_avg(solves@, 12)),
            final(self).solve_count == old(self).solve_count + 1,
            final(self).global_mean == (old(self).global_mean * old(self).solve_count
                + solves@.last().time.time) / (old(self).solve_count + 1),
    {
        let length = solves.len();
        let last_time = solves[length - 1].time;
        self.time.update(Some(last_time));
        let m = get_mean(solves, 3);
        self.mean_of_3.update(m);
        let a5 = get_avg(solves, 5);
        self.avg_of_5.update(a5);
        let a12 = get_avg(solves, 12);
        self.avg_of_12.update(a12);
        proof {
            vstd::arithmetic::mul::lemma_mul_upper_bound(
                self.global_mean as int,
                u64::MAX as int,
                self.solve_count as int,
                u64::MAX as int,
            );
        }
        let num: u128 = (self.global_mean as u128) * (self.solve_count as u128) + (last_time.time
            as u128);
        let den: u128 = (self.solve_count as u128) + 1;
        let q = num / den;
        proof {
            let gm = self.global_mean as int;
            let c = self.solve_count as int;
            let t = last_time.time as int;
            vstd::arithmetic::mul::lemma_mul_inequality(gm, u64::MAX as int, c);
            assert(num <= (u64::MAX as int) * c + u64::MAX);
            assert((u64::MAX as int) * c + u64::MAX == (c + 1) * (u64::MAX as int));
            vstd::arithmetic::div_mod::lemma_div_is_ordered(
                num as int,
                (c + 1) * (u64::MAX as int),
                c + 1,
            );
            vstd::arithmetic::div_mod::lemma_div_multiples_vanish(u64::MAX as int, c + 1);
            assert(q <= u64::MAX);
        }
        self.global_mean = q as u64;
        self.solve_count = self.solve_count + 1;
    }
}

impl Default for Stats {
    fn default() -> (r: Self)
        ensures
            r == spec_stats_of(Seq::<Solve>::empty()),
    {
        let r = Stats {
            time: StatLine { current: None, best: None },
            mean_of_3: StatLine { current: None, best: None },
            avg_of_5: StatLine { current: None, best: None },
            avg_of_12: StatLine { current: None, best: None },
            solve_count: 0,
            global_mean: 0,
        };
        proof {
            assert(entries_of(Seq::<Solve>::empty()) =~= Seq::<StatEntry>::empty());
            assert(avg5s_of(Seq::<Solve>::empty()) =~= Seq::<Option<StatEntry>>::empty());
            assert(avg12s_of(Seq::<Solve>::empty()) =~= Seq::<Option<StatEntry>>::empty());
        }
        r
    }
}

} // verus!
