use vstd::prelude::*;

use crate::cube::{solved_face, move_source, Cube, Face, Move};
use crate::inspection::Inspection;
use crate::scramble::Scramble;
use crate::session::{Session, TableCursor};
use crate::stats::{spec_avg, spec_line_update, spec_mean, spec_stats_of, StatEntry, Stats};
use crate::timer::Timer;

verus! {

/// How many moves beyond the first a scramble holds.
pub const SCRAMBLE_LENGTH: u8 = 25;

/// Penalty classification of one attempt.
#[derive(Clone, Copy, PartialEq, Eq, Structural, Debug)]
pub enum Penalty {
    Clean,
    PlusTwo,
    Dnf,
}

impl Penalty {
    /// The code this penalty is persisted under.
    pub fn code(self) -> (r: u8)
        ensures
            r == self.spec_code(),
    {
        match self {
            Penalty::Clean => 0,
            Penalty::PlusTwo => 1,
            Penalty::Dnf => 2,
        }
    }

    pub open spec fn spec_code(self) -> u8 {
        match self {
            Penalty::Clean => 0,
            Penalty::PlusTwo => 1,
            Penalty::Dnf => 2,
        }
    }

    /// The penalty a persisted code names.
    pub open spec fn spec_from_code(code: u8) -> Penalty {
        if code == 0 {
            Penalty::Clean
        } else if code == 1 {
            Penalty::PlusTwo
        } else {
            Penalty::Dnf
        }
    }
}

/// One completed attempt: its (penalized) time, the cached window averages
/// computed with this attempt as the most recent of its window, the task
/// sequence it was solved from (an opaque displayable token) and the
/// completion time in seconds since the epoch.
#[derive(Clone, Debug)]
pub struct Solve {
    pub time: StatEntry,
    pub avg_of_5: Option<StatEntry>,
    pub avg_of_12: Option<StatEntry>,
    pub scramble: Vec<u8>,
    pub date: u64,
}

impl Solve {
    pub fn new(
        time_ms: u64,
        penalty: Penalty,
        avg_of_5: Option<StatEntry>,
        avg_of_12: Option<StatEntry>,
        scramble: Vec<u8>,
        date: u64,
    ) -> (r: Self)
        ensures
            r.time == (StatEntry { time: time_ms, penalty }),
            r.avg_of_5 == avg_of_5,
            r.avg_of_12 == avg_of_12,
            r.scramble == scramble,
            r.date == date,
    {
        Self {
            time: StatEntry::new(time_ms, penalty),
            avg_of_5,
            avg_of_12,
            scramble,
            date,
        }
    }

    /// Rebuild a solve from its persisted fields; the window averages are
    /// recomputed later by the replay. Only the three known penalty codes
    /// are accepted.
    pub fn from_history_file(time: u64, penalty: u8, scramble: &[u8], date: u64) -> (r: Self)
        requires
            penalty <= 2,
        ensures
            r.time == (StatEntry { time, penalty: Penalty::spec_from_code(penalty) }),
            r.avg_of_5 is None,
            r.avg_of_12 is None,
            r.scramble@ == scramble@,
            r.date == date,
    {
        let p = if penalty == 0 {
            Penalty::Clean
        } else if penalty == 1 {
            Penalty::PlusTwo
        } else {
            Penalty::Dnf
        };
        Self {
            time: StatEntry::new(time, p),
            avg_of_5: None,
            avg_of_12: None,
            scramble: vstd::slice::slice_to_vec(scramble),
            date,
        }
    }
}

/// Where the attempt state machine stands.
#[derive(Clone, Copy, PartialEq, Eq, Structural, Debug)]
pub enum AppState {
    Idle,
    SolveInfo,
    Armed,
    Ready,
    Solving,
}

/// Which destructive action awaits confirmation.
#[derive(Clone, Copy, PartialEq, Eq, Structural, Debug)]
pub enum Confirmation {
    Solve,
    Session,
}

/// The puzzle state reached from a solved puzzle by the given moves.
pub open spec fn spec_cube_after(moves: Seq<Move>) -> Seq<Face>
    decreases moves.len(),
{
    if moves.len() == 0 {
        Seq::new(54, |i: int| solved_face(i))
    } else {
        let prev = spec_cube_after(moves.drop_last());
        Seq::new(54, |i: int| prev[move_source(moves.last(), i)])
    }
}


/// The fields a session mutation leaves alone: everything but the session
/// itself, the machine state and the pending confirmation.
pub open spec fn outside_session_unchanged(pre: App, post: App) -> bool {
    &&& post.timer == pre.timer
    &&& post.inspection == pre.inspection
    &&& post.scramble == pre.scramble
    &&& post.last_scramble == pre.last_scramble
    &&& post.cube_preview == pre.cube_preview
    &&& post.available_sessions == pre.available_sessions
    &&& post.selected_session_idx == pre.selected_session_idx
    &&& post.inspection_enabled == pre.inspection_enabled
    &&& post.inspection_warning_enabled == pre.inspection_warning_enabled
    &&& post.supports_keyboard_enhancement == pre.supports_keyboard_enhancement
}

/// A session holding nothing: the state a deleted or absent session slot
/// presents.
pub open spec fn fresh_session(s: Session) -> bool {
    &&& s.solves@.len() == 0
    &&& s.stats == spec_stats_of(Seq::<Solve>::empty())
    &&& s.state == (TableCursor { selected: None::<usize>, offset: 0 })
    &&& s.available_height == 0
}

/// The penalty the next recorded attempt carries: the countdown's
/// classification while the countdown is enabled, otherwise none.
pub open spec fn spec_attempt_penalty(pre: App) -> Penalty {
    if pre.inspection_enabled {
        pre.inspection.penalty
    } else {
        Penalty::Clean
    }
}

/// What `add_solve` does: one solve with time `t` (milliseconds), the
/// attempt's penalty, the rendering of the current task sequence and the
/// given date is appended with its window averages cached; a fresh task
/// sequence is drawn and previewed; the selected session is marked
/// present. Nothing else moves — in particular the aggregate is untouched.
pub open spec fn spec_solve_appended(pre: App, post: App, t: u64, date: u64) -> bool {
    &&& post.wf()
    &&& post.session.solves@.len() == pre.session.solves@.len() + 1
    &&& forall|j: int|
        0 <= j < pre.session.solves@.len() ==> #[trigger] post.session.solves@[j]
            == pre.session.solves@[j]
    &&& post.session.solves@.last().time == (StatEntry { time: t, penalty: spec_attempt_penalty(pre) })
    &&& post.session.solves@.last().date == date
    &&& post.session.solves@.last().scramble@ == crate::history::moves_bytes(pre.scramble.moves@)
    &&& post.session.solves@.last().avg_of_5 == spec_avg(post.session.solves@, 5)
    &&& post.session.solves@.last().avg_of_12 == spec_avg(post.session.solves@, 12)
    &&& post.session.stats == pre.session.stats
    &&& post.session.state == pre.session.state
    &&& post.session.available_height == pre.session.available_height
    &&& post.available_sessions@ == pre.available_sessions@.update(
        pre.selected_session_idx as int,
        true,
    )
    &&& post.scramble.moves@.len() == SCRAMBLE_LENGTH + 1
    &&& post.state == pre.state
    &&& post.timer == pre.timer
    &&& post.inspection == pre.inspection
    &&& post.confirmation == pre.confirmation
    &&& post.selected_session_idx == pre.selected_session_idx
    &&& post.last_scramble == pre.last_scramble
    &&& post.inspection_enabled == pre.inspection_enabled
    &&& post.inspection_warning_enabled == pre.inspection_warning_enabled
    &&& post.supports_keyboard_enhancement == pre.supports_keyboard_enhancement
}

/// One completed attempt fully recorded: the solve with time `t` appended
/// as `spec_solve_appended` says, every tracker line advanced by the
/// append contract, the count up by one, the running mean stepped by the
/// incremental formula, and the newest display row selected.
pub open spec fn spec_attempt_recorded(pre: App, post: App, t: u64, date: u64) -> bool {
    &&& post.wf()
    &&& post.session.solves@.len() == pre.session.solves@.len() + 1
    &&& forall|j: int|
        0 <= j < pre.session.solves@.len() ==> #[trigger] post.session.solves@[j]
            == pre.session.solves@[j]
    &&& post.session.solves@.last().time == (StatEntry { time: t, penalty: spec_attempt_penalty(pre) })
    &&& post.session.solves@.last().date == date
    &&& post.session.solves@.last().scramble@ == crate::history::moves_bytes(pre.scramble.moves@)
    &&& post.session.solves@.last().avg_of_5 == spec_avg(post.session.solves@, 5)
    &&& post.session.solves@.last().avg_of_12 == spec_avg(post.session.solves@, 12)
    &&& post.session.stats.time == spec_line_update(
        pre.session.stats.time,
        Some(post.session.solves@.last().time),
    )
    &&& post.session.stats.mean_of_3 == spec_line_update(
        pre.session.stats.mean_of_3,
        spec_mean(post.session.solves@),
    )
    &&& post.session.stats.avg_of_5 == spec_line_update(
        pre.session.stats.avg_of_5,
        spec_avg(post.session.solves@, 5),
    )
    &&& post.session.stats.avg_of_12 == spec_line_update(
        pre.session.stats.avg_of_12,
        spec_avg(post.session.solves@, 12),
    )
    &&& post.session.stats.solve_count == pre.session.stats.solve_count + 1
    &&& post.session.stats.global_mean == (pre.session.stats.global_mean
        * pre.session.stats.solve_count + t) / (pre.session.stats.solve_count + 1)
    &&& post.session.state.selected == Some(0usize)
    &&& post.session.state.offset == pre.session.state.offset
    &&& post.session.available_height == pre.session.available_height
    &&& post.available_sessions@ == pre.available_sessions@.update(
        pre.selected_session_idx as int,
        true,
    )
    &&& post.scramble.moves@.len() == SCRAMBLE_LENGTH + 1
    &&& post.inspection == pre.inspection
    &&& post.confirmation == pre.confirmation
    &&& post.selected_session_idx == pre.selected_session_idx
    &&& post.inspection_enabled == pre.inspection_enabled
    &&& post.inspection_warning_enabled == pre.inspection_warning_enabled
    &&& post.supports_keyboard_enhancement == pre.supports_keyboard_enhancement
}

/// The result the timer records when stopped at `now_ms`.
pub open spec fn spec_stopped_time(pre: App, now_ms: u64) -> u64 {
    match pre.timer.starting_time {
        Some(s) => if now_ms >= s {
            (now_ms - s) as u64
        } else {
            0u64
        },
        None => pre.timer.result,
    }
}

/// What deleting the selected solve does. With the confirmation pending:
/// the selected record (and only it) leaves the log, the rest keep their
/// order, every reachable cached window is consistent again, the aggregate
/// is rebuilt by a full rescan, a neighbouring row is re-selected, the
/// machine goes idle and the confirmation is cleared; with no selection
/// only the confirmation is cleared. Without the pending confirmation the
/// call only asks: it sets the confirmation when there is something to
/// delete and changes nothing else.
pub open spec fn spec_selected_solve_deleted(pre: App, post: App) -> bool {
    &&& post.wf()
    &&& if pre.confirmation == Some(Confirmation::Solve) {
        &&& post.confirmation is None
        &&& outside_session_unchanged(pre, post)
        &&& match pre.session.spec_selected_idx() {
            Some(idx) => {
                &&& post.state is Idle
                &&& post.session.solves@.len() == pre.session.solves@.len() - 1
                &&& forall|j: int|
                    0 <= j < post.session.solves@.len() ==> {
                        let source = if j < idx {
                            pre.session.solves@[j]
                        } else {
                            pre.session.solves@[j + 1]
                        };
                        &&& (#[trigger] post.session.solves@[j]).time == source.time
                        &&& post.session.solves@[j].scramble == source.scramble
                        &&& post.session.solves@[j].date == source.date
                    }
                &&& post.session.stats == spec_stats_of(post.session.solves@)
                &&& post.session.state.offset == pre.session.state.offset
                &&& post.session.state.selected == (if pre.session.solves@.len() <= 1 {
                    None::<usize>
                } else {
                    match pre.session.state.selected {
                        None => None::<usize>,
                        Some(s) => Some(
                            if s < pre.session.solves@.len() - 1 {
                                s
                            } else {
                                (pre.session.solves@.len() - 2) as usize
                            },
                        ),
                    }
                })
                &&& post.session.available_height == pre.session.available_height
            },
            None => post.session == pre.session && post.state == pre.state,
        }
    } else {
        post == (App {
            confirmation: if pre.session.solves@.len() > 0 {
                Some(Confirmation::Solve)
            } else {
                pre.confirmation
            },
            ..pre
        })
    }
}

/// What toggling a penalty on the selected solve does: that solve's entry
/// becomes `f` of its old value, no other entry moves, no record's token
/// or date moves, the caches reachable from the edit are consistent again
/// and the aggregate is rebuilt by a full rescan; with no selection
/// nothing moves.
pub open spec fn spec_entry_toggled(pre: App, post: App, f: spec_fn(StatEntry) -> StatEntry) -> bool {
    &&& post.wf()
    &&& outside_session_unchanged(pre, post)
    &&& post.state == pre.state
    &&& post.confirmation == pre.confirmation
    &&& match pre.session.spec_selected_idx() {
        Some(idx) => {
            &&& post.session.solves@.len() == pre.session.solves@.len()
            &&& post.session.solves@[idx as int].time == f(pre.session.solves@[idx as int].time)
            &&& forall|j: int|
                0 <= j < pre.session.solves@.len() && j != idx ==> (#[trigger] post
                    .session.solves@[j]).time == pre.session.solves@[j].time
            &&& forall|j: int|
                0 <= j < pre.session.solves@.len() ==> (#[trigger] post.session.solves@[j])
                    .scramble == pre.session.solves@[j].scramble && post.session.solves@[j].date
                    == pre.session.solves@[j].date
            &&& post.session.stats == spec_stats_of(post.session.solves@)
            &&& post.session.state == pre.session.state
            &&& post.session.available_height == pre.session.available_height
        },
        None => post.session == pre.session,
    }
}

/// What deleting the selected session does. With the confirmation pending:
/// the session empties, its slot is cleared in the registry and the
/// confirmation is dropped; without it the call only asks, setting the
/// confirmation when the slot is present on disk.
pub open spec fn spec_session_deleted(pre: App, post: App) -> bool {
    &&& post.wf()
    &&& if pre.confirmation == Some(Confirmation::Session) {
        &&& post.confirmation is None
        &&& fresh_session(post.session)
        &&& post.available_sessions@ == pre.available_sessions@.update(
            pre.selected_session_idx as int,
            false,
        )
        &&& post.state == pre.state
        &&& post.timer == pre.timer
        &&& post.inspection == pre.inspection
        &&& post.scramble == pre.scramble
        &&& post.last_scramble == pre.last_scramble
        &&& post.cube_preview == pre.cube_preview
        &&& post.selected_session_idx == pre.selected_session_idx
        &&& post.inspection_enabled == pre.inspection_enabled
        &&& post.inspection_warning_enabled == pre.inspection_warning_enabled
        &&& post.supports_keyboard_enhancement == pre.supports_keyboard_enhancement
    } else {
        post == (App {
            confirmation: if pre.available_sessions@[pre.selected_session_idx as int] {
                Some(Confirmation::Session)
            } else {
                pre.confirmation
            },
            ..pre
        })
    }
}

/// What stepping to the next session slot does: the index advances; a step
/// past the registry's end grows it with an absent slot and presents an
/// empty session; a step onto an absent slot presents an empty session; a
/// step onto a present slot leaves the session for the host to load.
pub open spec fn spec_stepped_to_next_session(pre: App, post: App) -> bool {
    let idx = pre.selected_session_idx + 1;
    &&& post.wf()
    &&& post.selected_session_idx == idx
    &&& post.timer == pre.timer
    &&& post.inspection == pre.inspection
    &&& post.scramble == pre.scramble
    &&& post.last_scramble == pre.last_scramble
    &&& post.cube_preview == pre.cube_preview
    &&& post.state == pre.state
    &&& post.confirmation == pre.confirmation
    &&& post.inspection_enabled == pre.inspection_enabled
    &&& post.inspection_warning_enabled == pre.inspection_warning_enabled
    &&& post.supports_keyboard_enhancement == pre.supports_keyboard_enhancement
    &&& if idx == pre.available_sessions@.len() {
        &&& post.available_sessions@ == pre.available_sessions@.push(false)
        &&& fresh_session(post.session)
    } else {
        &&& post.available_sessions == pre.available_sessions
        &&& if pre.available_sessions@[idx as int] {
            post.session == pre.session
        } else {
            fresh_session(post.session)
        }
    }
}

/// What stepping to the previous session slot does: the index steps back,
/// stopping at the first slot; an absent slot presents an empty session, a
/// present one is left for the host to load.
pub open spec fn spec_stepped_to_previous_session(pre: App, post: App) -> bool {
    let idx = if pre.selected_session_idx >= 1 {
        pre.selected_session_idx - 1
    } else {
        0int
    };
    &&& post.wf()
    &&& post.selected_session_idx == idx
    &&& post.available_sessions == pre.available_sessions
    &&& post.timer == pre.timer
    &&& post.inspection == pre.inspection
    &&& post.scramble == pre.scramble
    &&& post.last_scramble == pre.last_scramble
    &&& post.cube_preview == pre.cube_preview
    &&& post.state == pre.state
    &&& post.confirmation == pre.confirmation
    &&& post.inspection_enabled == pre.inspection_enabled
    &&& post.inspection_warning_enabled == pre.inspection_warning_enabled
    &&& post.supports_keyboard_enhancement == pre.supports_keyboard_enhancement
    &&& if pre.available_sessions@[idx] {
        post.session == pre.session
    } else {
        fresh_session(post.session)
    }
}

/// What putting a fresh task sequence up does: the old one is remembered,
/// a new full-length one stands previewed, and nothing else moves.
pub open spec fn spec_rescrambled(pre: App, post: App) -> bool {
    &&& post.wf()
    &&& post.last_scramble == Some(pre.scramble)
    &&& post.scramble.moves@.len() == SCRAMBLE_LENGTH + 1
    &&& post.session == pre.session
    &&& post.state == pre.state
    &&& post.timer == pre.timer
    &&& post.inspection == pre.inspection
    &&& post.confirmation == pre.confirmation
    &&& post.available_sessions == pre.available_sessions
    &&& post.selected_session_idx == pre.selected_session_idx
    &&& post.inspection_enabled == pre.inspection_enabled
    &&& post.inspection_warning_enabled == pre.inspection_warning_enabled
    &&& post.supports_keyboard_enhancement == pre.supports_keyboard_enhancement
}

/// The state after abandoning the attempt at `now_ms`: timer cleared,
/// countdown stopped (classifying its penalty), machine idle.
pub open spec fn spec_after_cancel(pre: App, now_ms: u64) -> App {
    App {
        timer: Timer { starting_time: None, result: 0 },
        inspection: Inspection {
            starting_time: None,
            penalty: match pre.inspection.starting_time {
                Some(s) => if now_ms >= s {
                    crate::inspection::spec_classify_inspection(((now_ms - s) / 1000) as int)
                } else {
                    pre.inspection.penalty
                },
                None => pre.inspection.penalty,
            },
            ..pre.inspection
        },
        state: AppState::Idle,
        ..pre
    }
}

/// The whole application: the timing devices, the current and last task
/// sequences with the preview of the current one, the active session, the
/// registry of sessions on disk, and the attempt state machine's state.
#[derive(Debug)]
pub struct App {
    pub timer: Timer,
    pub inspection: Inspection,
    pub scramble: Scramble,
    pub last_scramble: Option<Scramble>,
    pub session: Session,
    pub available_sessions: Vec<bool>,
    pub selected_session_idx: usize,
    pub cube_preview: Cube,
    pub state: AppState,
    pub inspection_enabled: bool,
    pub inspection_warning_enabled: bool,
    pub confirmation: Option<Confirmation>,
    pub supports_keyboard_enhancement: bool,
}

impl App {
    /// The app is well formed: its session is, the session registry is
    /// never empty and the selected session is inside it, and the preview
    /// matches the current task sequence.
    pub open spec fn wf(&self) -> bool {
        &&& self.session.wf()
        &&& self.available_sessions@.len() >= 1
        &&& self.selected_session_idx < self.available_sessions@.len()
        &&& self.cube_preview.wf()
        &&& self.cube_preview.facelets@ == spec_cube_after(self.scramble.moves@)
    }

    /// A fresh app: everything idle, one (empty) session slot, a first
    /// task sequence drawn and previewed. The session registry is filled
    /// by the host from what persistence lists.
    pub fn new(supports_keyboard_enhancement: bool) -> (r: Self)
        ensures
            r.wf(),
            r.state is Idle,
            r.confirmation is None,
            r.session.solves@.len() == 0,
            r.session.stats == spec_stats_of(Seq::<Solve>::empty()),
            r.selected_session_idx == 0,
            r.available_sessions@ =~= seq![false],
            r.inspection_enabled,
            r.inspection_warning_enabled,
            r.supports_keyboard_enhancement == supports_keyboard_enhancement,
    {
        let mut available_sessions: Vec<bool> = Vec::new();
        available_sessions.push(false);
        let mut app = Self {
            timer: Timer::new(),
            inspection: Inspection::new(),
            scramble: Scramble::new(SCRAMBLE_LENGTH),
            last_scramble: None,
            session: Session::default(),
            available_sessions,
            selected_session_idx: 0,
            cube_preview: Cube::new(),
            state: AppState::Idle,
            inspection_enabled: true,
            inspection_warning_enabled: true,
            confirmation: None,
            supports_keyboard_enhancement,
        };
        app.generate_scramble_preview();
        app
    }

    /// Record that a session file with this (zero-based) index exists,
    /// growing the registry as needed.
    pub fn mark_session_available(&mut self, idx: usize)
        requires
            idx < usize::MAX,
        ensures
            final(self).available_sessions@.len() == if idx < old(self).available_sessions@.len() {
                old(self).available_sessions@.len() as int
            } else {
                idx + 1
            },
            forall|k: int|
                0 <= k < final(self).available_sessions@.len() ==> final(self).available_sessions@[k] == (if k == idx {
                    true
                } else if k < old(self).available_sessions@.len() {
                    old(self).available_sessions@[k]
                } else {
                    false
                }),
            final(self).session == old(self).session,
            final(self).selected_session_idx == old(self).selected_session_idx,
    {
        let len = self.available_sessions.len();
        if idx < len {
            self.available_sessions.set(idx, true);
        } else {
            let mut k = len;
            while k < idx
                invariant
                    len <= k <= idx,
                    idx < usize::MAX,
                    len == old(self).available_sessions@.len(),
                    self.available_sessions@.len() == k,
                    forall|j: int|
                        0 <= j < k ==> #[trigger] self.available_sessions@[j] == (if j < len {
                            old(self).available_sessions@[j]
                        } else {
                            false
                        }),
                    self.session == old(self).session,
                    self.selected_session_idx == old(self).selected_session_idx,
                decreases idx - k,
            {
                self.available_sessions.push(false);
                k = k + 1;
            }
            self.available_sessions.push(true);
        }
    }

    pub fn get_solves(&self) -> (r: &Vec<Solve>)
        ensures
            r == &self.session.solves,
    {
        &self.session.solves
    }

    pub fn get_mut_solves(&mut self) -> (r: &mut Vec<Solve>)
        ensures
            *r == old(self).session.solves,
            *final(self) == (App { session: Session { solves: *final(r), ..old(self).session }, ..*old(self) }),
    {
        &mut self.session.solves
    }

    pub fn get_stats(&self) -> (r: &Stats)
        ensures
            r == &self.session.stats,
    {
        &self.session.stats
    }

    /// Put a fresh task sequence up, remembering the one it replaces, and
    /// preview it.
    pub fn generate_scramble(&mut self)
        requires
            old(self).wf(),
        ensures
            spec_rescrambled(*old(self), *final(self)),
    {
        let mut fresh = Scramble::new(SCRAMBLE_LENGTH);
        core::mem::swap(&mut self.scramble, &mut fresh);
        self.last_scramble = Some(fresh);
        self.generate_scramble_preview();
    }

    /// Rebuild the preview by replaying the current task sequence on a
    /// solved puzzle.
    pub fn generate_scramble_preview(&mut self)
        ensures
            final(self).cube_preview.wf(),
            final(self).cube_preview.facelets@ == spec_cube_after(final(self).scramble.moves@),
            final(self).scramble == old(self).scramble,
            final(self).session == old(self).session,
            final(self).state == old(self).state,
            final(self).timer == old(self).timer,
            final(self).inspection == old(self).inspection,
            final(self).last_scramble == old(self).last_scramble,
            final(self).available_sessions == old(self).available_sessions,
            final(self).selected_session_idx == old(self).selected_session_idx,
            final(self).confirmation == old(self).confirmation,
            final(self).inspection_enabled == old(self).inspection_enabled,
            final(self).inspection_warning_enabled == old(self).inspection_warning_enabled,
            final(self).supports_keyboard_enhancement == old(self).supports_keyboard_enhancement,
    {
        self.cube_preview = Cube::new();
        let n = self.scramble.moves.len();
        let mut i: usize = 0;
        proof {
            assert(self.cube_preview.facelets@ =~= spec_cube_after(self.scramble.moves@.take(0)));
        }
        while i < n
            invariant
                n == self.scramble.moves@.len(),
                0 <= i <= n,
                self.cube_preview.wf(),
                self.cube_preview.facelets@ == spec_cube_after(self.scramble.moves@.take(i as int)),
                self.scramble == old(self).scramble,
                self.session == old(self).session,
                self.state == old(self).state,
                self.timer == old(self).timer,
                self.inspection == old(self).inspection,
                self.last_scramble == old(self).last_scramble,
                self.available_sessions == old(self).available_sessions,
                self.selected_session_idx == old(self).selected_session_idx,
                self.confirmation == old(self).confirmation,
                self.inspection_enabled == old(self).inspection_enabled,
                self.inspection_warning_enabled == old(self).inspection_warning_enabled,
                self.supports_keyboard_enhancement == old(self).supports_keyboard_enhancement,
            decreases n - i,
        {
            let mv = self.scramble.moves[i];
            let mut preview = Cube::new();
            core::mem::swap(&mut self.cube_preview, &mut preview);
            preview.apply_move(&mv);
            proof {
                let taken = self.scramble.moves@.take(i + 1);
                assert(taken.drop_last() =~= self.scramble.moves@.take(i as int));
                assert(taken.last() == mv);
                assert(preview.facelets@ =~= spec_cube_after(taken));
            }
            core::mem::swap(&mut self.cube_preview, &mut preview);
            i = i + 1;
        }
        proof {
            assert(self.scramble.moves@.take(n as int) =~= self.scramble.moves@);
        }
    }

    /// Start the attempt timer at `now_ms` and enter the solving state.
    pub fn start_timer(&mut self, now_ms: u64)
        ensures
            *final(self) == (App {
                timer: Timer { starting_time: Some(now_ms), result: old(self).timer.result },
                state: AppState::Solving,
                ..*old(self)
            }),
    {
        self.timer.start(now_ms);
        self.state = AppState::Solving;
    }

    /// Start the preparation countdown at `now_ms`.
    pub fn start_inspecting(&mut self, now_ms: u64)
        ensures
            *final(self) == (App {
                inspection: Inspection {
                    starting_time: Some(now_ms),
                    ..old(self).inspection
                },
                ..*old(self)
            }),
    {
        self.inspection.start(now_ms);
    }

    /// Abandon the attempt: reset the timer, stop the countdown (which
    /// classifies the countdown's penalty) and go idle without recording
    /// anything.
    pub fn cancel_timer(&mut self, now_ms: u64)
        ensures
            *final(self) == spec_after_cancel(*old(self), now_ms),
    {
        self.timer.reset();
        self.inspection.stop(now_ms);
        self.state = AppState::Idle;
    }

    /// Append the finished attempt to the session log: its time is the
    /// timer's result, its penalty is the countdown's classification when
    /// the countdown is enabled, and the task sequence it was solved from
    /// is rendered into its record while a fresh sequence is drawn. The
    /// selected session is marked as present on disk; the host appends the
    /// new solve to that session's file.
    pub fn add_solve(&mut self, date: u64)
        requires
            old(self).wf(),
        ensures
            spec_solve_appended(*old(self), *final(self), old(self).timer.result, date),
    {
        let penalty = if self.inspection_enabled {
            self.inspection.penalty
        } else {
            Penalty::Clean
        };
        let mut fresh = Scramble::new(SCRAMBLE_LENGTH);
        core::mem::swap(&mut self.scramble, &mut fresh);
        let token = crate::history::scramble_to_bytes(&fresh);
        let solve = Solve::new(self.timer.result, penalty, None, None, token, date);
        self.session.append_solve(solve);
        let idx = self.selected_session_idx;
        self.available_sessions.set(idx, true);
        self.generate_scramble_preview();
    }

    /// Stop the attempt at `now_ms`: record the measured time as a solve
    /// dated `date`, fold it into the aggregate and go idle.
    pub fn stop_timer(&mut self, now_ms: u64, date: u64)
        requires
            old(self).wf(),
            old(self).session.stats.solve_count < u64::MAX,
        ensures
            spec_attempt_recorded(
                *old(self),
                *final(self),
                spec_stopped_time(*old(self), now_ms),
                date,
            ),
            final(self).state is Idle,
            final(self).timer == (Timer {
                starting_time: None::<u64>,
                result: spec_stopped_time(*old(self), now_ms),
            }),
            final(self).last_scramble == old(self).last_scramble,
    {
        self.timer.stop(now_ms);
        self.state = AppState::Idle;
        self.add_solve(date);
        self.session.update_stats_on_new();
        self.generate_scramble_preview();
    }

    /// Complete an attempt whose preparation countdown fully expired: the
    /// failed attempt is recorded with the timer's (unstarted) result and
    /// the countdown's `Dnf` classification, the aggregate is advanced,
    /// the machine goes idle and a fresh task sequence is put up. The host
    /// appends the recorded solve to the session's file.
    pub fn complete_expired_attempt(&mut self, date: u64)
        requires
            old(self).wf(),
            old(self).session.stats.solve_count < u64::MAX,
        ensures
            spec_attempt_recorded(*old(self), *final(self), old(self).timer.result, date),
            final(self).state is Idle,
            final(self).timer == old(self).timer,
            final(self).last_scramble is Some,
    {
        self.add_solve(date);
        self.session.update_stats_on_new();
        self.state = AppState::Idle;
        self.generate_scramble();
    }

    /// Delete the selected solve, gated behind a confirmation: the first
    /// call only asks, the second performs the deletion. Returns whether
    /// the host must rewrite the session's file from the remaining log.
    pub fn delete_selected_solve(&mut self) -> (rewrite: bool)
        requires
            old(self).wf(),
        ensures
            rewrite == (old(self).confirmation == Some(Confirmation::Solve)),
            spec_selected_solve_deleted(*old(self), *final(self)),
    {
        if matches!(self.confirmation, Some(Confirmation::Solve)) {
            let selected = self.session.selected_idx();
            if let Some(idx) = selected {
                self.session.remove_solve(idx);
                self.state = AppState::Idle;
            }
            self.confirmation = None;
            true
        } else {
            if self.session.solves.len() > 0 {
                self.confirmation = Some(Confirmation::Solve);
            }
            false
        }
    }

    /// Toggle the plus-two penalty on the selected solve. Returns whether
    /// the host must rewrite the session's file.
    pub fn toggle_plus_two(&mut self) -> (rewrite: bool)
        requires
            old(self).wf(),
        ensures
            rewrite == (old(self).session.spec_selected_idx() is Some),
            spec_entry_toggled(
                *old(self),
                *final(self),
                (|e: StatEntry| crate::session::spec_toggle_plus_two(e)),
            ),
    {
        let selected = self.session.selected_idx();
        match selected {
            Some(idx) => {
                let _changed = self.session.toggle_plus_two(idx);
                true
            },
            None => false,
        }
    }

    /// Toggle the did-not-finish penalty on the selected solve. Returns
    /// whether the host must rewrite the session's file.
    pub fn toggle_dnf(&mut self) -> (rewrite: bool)
        requires
            old(self).wf(),
        ensures
            rewrite == (old(self).session.spec_selected_idx() is Some),
            spec_entry_toggled(
                *old(self),
                *final(self),
                (|e: StatEntry| crate::session::spec_toggle_dnf(e)),
            ),
    {
        let selected = self.session.selected_idx();
        match selected {
            Some(idx) => {
                let _changed = self.session.toggle_dnf(idx);
                true
            },
            None => false,
        }
    }

    /// Delete the selected session, gated behind a confirmation. Returns
    /// whether the host must remove the session's file.
    pub fn delete_session(&mut self) -> (remove_file: bool)
        requires
            old(self).wf(),
        ensures
            remove_file == (old(self).confirmation == Some(Confirmation::Session)),
            spec_session_deleted(*old(self), *final(self)),
    {
        if matches!(self.confirmation, Some(Confirmation::Session)) {
            self.session = Session::default();
            let idx = self.selected_session_idx;
            self.available_sessions.set(idx, false);
            self.confirmation = None;
            true
        } else {
            let idx = self.selected_session_idx;
            if self.available_sessions[idx] {
                self.confirmation = Some(Confirmation::Session);
            }
            false
        }
    }

    /// Step to the next session slot, growing the registry when walking
    /// past its end. Returns whether the host must load that session's
    /// file and install it.
    pub fn next_session(&mut self) -> (load: bool)
        requires
            old(self).wf(),
        ensures
            load == (old(self).selected_session_idx + 1 < old(self).available_sessions@.len()
                && old(self).available_sessions@[old(self).selected_session_idx + 1]),
            spec_stepped_to_next_session(*old(self), *final(self)),
    {
        let len = self.available_sessions.len();
        self.selected_session_idx = self.selected_session_idx + 1;
        if self.selected_session_idx == len {
            self.available_sessions.push(false);
            self.session = Session::default();
            false
        } else {
            let idx = self.selected_session_idx;
            if self.available_sessions[idx] {
                true
            } else {
                self.session = Session::default();
                false
            }
        }
    }

    /// Step to the previous session slot, stopping at the first. Returns
    /// whether the host must load that session's file and install it.
    pub fn previous_session(&mut self) -> (load: bool)
        requires
            old(self).wf(),
        ensures
            load == old(self).available_sessions@[if old(self).selected_session_idx >= 1 {
                old(self).selected_session_idx - 1
            } else {
                0int
            }],
            spec_stepped_to_previous_session(*old(self), *final(self)),
    {
        self.selected_session_idx = if self.selected_session_idx >= 1 {
            self.selected_session_idx - 1
        } else {
            0
        };
        let idx = self.selected_session_idx;
        if self.available_sessions[idx] {
            true
        } else {
            self.session = Session::default();
            false
        }
    }

    /// Install a session the host loaded from persistence.
    pub fn install_session(&mut self, session: Session)
        requires
            old(self).wf(),
            session.wf(),
        ensures
            final(self).wf(),
            final(self).session == session,
            final(self).selected_session_idx == old(self).selected_session_idx,
    {
        self.session = session;
    }
}

} // verus!
