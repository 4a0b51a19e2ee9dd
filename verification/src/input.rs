use vstd::prelude::*;

use crate::app::{
    spec_after_cancel, spec_attempt_recorded, spec_entry_toggled, spec_rescrambled,
    spec_selected_solve_deleted, spec_session_deleted, spec_stepped_to_next_session,
    spec_stepped_to_previous_session, spec_stopped_time, App, AppState, Confirmation,
};
use crate::inspection::{spec_classify_inspection, Inspection};
use crate::session::{
    spec_scroll_down, spec_scroll_up, spec_toggle_dnf, spec_toggle_plus_two, Session, TableCursor,
};
use crate::stats::StatEntry;
use crate::timer::Timer;

verus! {

/// The keys the application distinguishes, already decoded from the
/// terminal by the host.
#[derive(Clone, Copy, PartialEq, Eq, Structural, Debug)]
pub enum Key {
    Char(char),
    Esc,
    Up,
    Down,
    Other,
}

/// One key event: the key, whether control was held, and whether this is a
/// release rather than a press.
#[derive(Clone, Copy, PartialEq, Eq, Structural, Debug)]
pub struct KeyInput {
    pub code: Key,
    pub ctrl: bool,
    pub release: bool,
}

/// The outside work a key decision asks its host to perform; the host
/// carries it out and reports failures to the operator.
#[derive(Clone, Copy, PartialEq, Eq, Structural, Debug)]
pub enum AppEffect {
    Nothing,
    /// Leave the program.
    Quit,
    /// Append the freshly recorded last solve to the session's file.
    PersistAppend,
    /// Rewrite the session's file from the log as it now stands.
    RewriteHistory,
    /// Remove the selected session's file.
    RemoveSessionFile,
    /// Read the selected session's file and install the replayed session.
    LoadSession,
}

/// The app with only the selected display row changed.
pub open spec fn with_selected(pre: App, sel: Option<usize>) -> App {
    App {
        session: Session {
            state: TableCursor { selected: sel, offset: pre.session.state.offset },
            ..pre.session
        },
        ..pre
    }
}

/// The app with only the table cursor changed.
pub open spec fn with_cursor(pre: App, c: TableCursor) -> App {
    App { session: Session { state: c, ..pre.session }, ..pre }
}

/// Where the selection lands one display row down, wrapping to the top.
pub open spec fn cursor_next_sel(s: Session) -> Option<usize> {
    if s.solves@.len() == 0 {
        None
    } else {
        Some(
            match s.state.selected {
                Some(i) => if i + 1 >= s.solves@.len() {
                    0usize
                } else {
                    (i + 1) as usize
                },
                None => 0usize,
            },
        )
    }
}

/// Where the selection lands one display row up, wrapping to the bottom.
pub open spec fn cursor_previous_sel(s: Session) -> Option<usize> {
    if s.solves@.len() == 0 {
        None
    } else {
        Some(
            match s.state.selected {
                Some(i) => if i == 0 {
                    (s.solves@.len() - 1) as usize
                } else {
                    (i - 1) as usize
                },
                None => 0usize,
            },
        )
    }
}

/// The most recent display row, absent on an empty log.
pub open spec fn cursor_first_sel(s: Session) -> Option<usize> {
    if s.solves@.len() == 0 {
        None
    } else {
        Some(0usize)
    }
}

/// The oldest display row, absent on an empty log.
pub open spec fn cursor_last_sel(s: Session) -> Option<usize> {
    if s.solves@.len() == 0 {
        None
    } else {
        Some((s.solves@.len() - 1) as usize)
    }
}

/// The state after releasing the start signal: an armed attempt stops the
/// countdown (classifying its penalty) and starts the timer; a merely
/// readied one falls back to idle; anything else is untouched.
pub open spec fn spec_space_released(pre: App, now_ms: u64) -> App {
    match pre.state {
        AppState::Armed => App {
            inspection: Inspection {
                starting_time: None,
                penalty: match pre.inspection.starting_time {
                    Some(s) => if now_ms >= s {
                        spec_classify_inspection(((now_ms - s) / 1000) as int)
                    } else {
                        pre.inspection.penalty
                    },
                    None => pre.inspection.penalty,
                },
                played_sound: pre.inspection.played_sound,
            },
            timer: Timer { starting_time: Some(now_ms), result: pre.timer.result },
            state: AppState::Solving,
            ..pre
        },
        AppState::Ready => App { state: AppState::Idle, ..pre },
        _ => pre,
    }
}

/// The state after pressing the start signal in the general table: unless
/// a forced failure is still pending, the machine readies itself, starting
/// the countdown when it is enabled and not yet running.
pub open spec fn spec_space_pressed(pre: App, now_ms: u64) -> App {
    if pre.inspection.penalty is Dnf {
        pre
    } else {
        App {
            inspection: if pre.inspection_enabled && pre.inspection.starting_time is None {
                Inspection { starting_time: Some(now_ms), ..pre.inspection }
            } else {
                pre.inspection
            },
            state: AppState::Ready,
            ..pre
        }
    }
}

/// What recalling the last task sequence does: the current sequence
/// becomes a copy of the remembered one (which stays remembered), newly
/// previewed; with nothing remembered, nothing moves.
pub open spec fn spec_scramble_recalled(pre: App, post: App) -> bool {
    match pre.last_scramble {
        Some(l) => {
            &&& post.wf()
            &&& post.scramble.moves@ == l.moves@
            &&& post.last_scramble == pre.last_scramble
            &&& post.session == pre.session
            &&& post.state == pre.state
            &&& post.timer == pre.timer
            &&& post.inspection == pre.inspection
            &&& post.confirmation == pre.confirmation
            &&& post.available_sessions == pre.available_sessions
            &&& post.selected_session_idx == pre.selected_session_idx
            &&& post.inspection_enabled == pre.inspection_enabled
            &&& post.inspection_warning_enabled == pre.inspection_warning_enabled
            &&& post.supports_keyboard_enhancement == pre.supports_keyboard_enhancement
        },
        None => post == pre,
    }
}

/// The key table of the timing states (readying, armed, solving, and idle
/// with the countdown running): escape abandons the attempt, `q` quits,
/// and the start signal walks the attempt forward — in particular a press
/// while solving stops the timer and records the solve.
pub open spec fn spec_timer_table(
    key: KeyInput,
    pre: App,
    post: App,
    r: AppEffect,
    now_ms: u64,
    date: u64,
) -> bool {
    match key.code {
        Key::Esc => post == spec_after_cancel(pre, now_ms) && r is Nothing,
        Key::Char(c) => if c == 'q' {
            post == pre && r is Quit
        } else if c == ' ' {
            match pre.state {
                AppState::Idle => if pre.inspection.starting_time is Some {
                    post == (App { state: AppState::Ready, ..pre }) && r is Nothing
                } else {
                    post == pre && r is Nothing
                },
                AppState::Ready => post == (App {
                    state: AppState::Armed,
                    timer: Timer { starting_time: None::<u64>, result: 0u64 },
                    ..pre
                }) && r is Nothing,
                AppState::Solving => {
                    &&& spec_attempt_recorded(pre, post, spec_stopped_time(pre, now_ms), date)
                    &&& post.state is Idle
                    &&& post.timer == (Timer {
                        starting_time: None::<u64>,
                        result: spec_stopped_time(pre, now_ms),
                    })
                    &&& post.last_scramble == pre.last_scramble
                    &&& r is PersistAppend
                },
                _ => post == pre && r is Nothing,
            }
        } else {
            post == pre && r is Nothing
        },
        _ => post == pre && r is Nothing,
    }
}

/// The key table of the solve-info overlay: leave it, move the selection,
/// quit, or delete and re-penalize the selected solve.
pub open spec fn spec_solve_info_table(key: KeyInput, pre: App, post: App, r: AppEffect) -> bool {
    match key.code {
        Key::Esc => post == (App { state: AppState::Idle, ..pre }) && r is Nothing,
        Key::Down => post == with_selected(pre, cursor_next_sel(pre.session)) && r is Nothing,
        Key::Up => post == with_selected(pre, cursor_previous_sel(pre.session)) && r is Nothing,
        Key::Char(c) => if c == 'q' {
            post == pre && r is Quit
        } else if c == 'j' {
            post == with_selected(pre, cursor_next_sel(pre.session)) && r is Nothing
        } else if c == 'k' {
            post == with_selected(pre, cursor_previous_sel(pre.session)) && r is Nothing
        } else if c == 'i' {
            post == (App { state: AppState::Idle, ..pre }) && r is Nothing
        } else if c == 'd' {
            spec_selected_solve_deleted(pre, post) && r == (
            if pre.confirmation == Some(Confirmation::Solve) {
                AppEffect::RewriteHistory
            } else {
                AppEffect::Nothing
            })
        } else if c == 'p' {
            spec_entry_toggled(pre, post, (|e: StatEntry| spec_toggle_plus_two(e))) && r == (
            if pre.session.spec_selected_idx() is Some {
                AppEffect::RewriteHistory
            } else {
                AppEffect::Nothing
            })
        } else if c == 'D' {
            spec_entry_toggled(pre, post, (|e: StatEntry| spec_toggle_dnf(e))) && r == (
            if pre.session.spec_selected_idx() is Some {
                AppEffect::RewriteHistory
            } else {
                AppEffect::Nothing
            })
        } else {
            post == pre && r is Nothing
        },
        _ => post == pre && r is Nothing,
    }
}

/// The general key table: it serves the idle screen, and also runs after
/// the confirmation keys while a question is pending, carrying that
/// answer's effect through (`carried`). Control chords scroll the table;
/// plain keys move the cursor, manage task sequences and the countdown
/// switches, arm the attempt, and dispatch deletion, re-penalizing and
/// session switching with their host effects.
pub open spec fn spec_shared_table(
    key: KeyInput,
    pre: App,
    post: App,
    carried: AppEffect,
    r: AppEffect,
    now_ms: u64,
) -> bool {
    if key.ctrl {
        r == carried && match key.code {
            Key::Char(c) => if c == 'e' {
                post == with_cursor(
                    pre,
                    spec_scroll_down(pre.session.state, pre.session.solves@.len() as int, 1, false),
                )
            } else if c == 'y' {
                post == with_cursor(
                    pre,
                    spec_scroll_up(pre.session.state, pre.session.available_height, 1, false),
                )
            } else if c == 'd' {
                post == with_cursor(
                    pre,
                    spec_scroll_down(
                        pre.session.state,
                        pre.session.solves@.len() as int,
                        pre.session.available_height as int / 2,
                        true,
                    ),
                )
            } else if c == 'u' {
                post == with_cursor(
                    pre,
                    spec_scroll_up(
                        pre.session.state,
                        pre.session.available_height,
                        pre.session.available_height as int / 2,
                        true,
                    ),
                )
            } else if c == 'f' {
                post == with_cursor(
                    pre,
                    spec_scroll_down(
                        pre.session.state,
                        pre.session.solves@.len() as int,
                        pre.session.available_height as int,
                        true,
                    ),
                )
            } else if c == 'b' {
                post == with_cursor(
                    pre,
                    spec_scroll_up(
                        pre.session.state,
                        pre.session.available_height,
                        pre.session.available_height as int,
                        true,
                    ),
                )
            } else {
                post == pre
            },
            _ => post == pre,
        }
    } else {
        match key.code {
            Key::Esc => post == (App { state: AppState::Idle, ..pre }) && r == carried,
            Key::Down => post == with_selected(pre, cursor_next_sel(pre.session)) && r == carried,
            Key::Up => post == with_selected(pre, cursor_previous_sel(pre.session)) && r
                == carried,
            Key::Char(c) => if c == 'q' {
                post == pre && r is Quit
            } else if c == 'j' {
                post == with_selected(pre, cursor_next_sel(pre.session)) && r == carried
            } else if c == 'k' {
                post == with_selected(pre, cursor_previous_sel(pre.session)) && r == carried
            } else if c == 'g' {
                post == with_selected(pre, cursor_first_sel(pre.session)) && r == carried
            } else if c == 'G' {
                post == with_selected(pre, cursor_last_sel(pre.session)) && r == carried
            } else if c == 'r' {
                spec_rescrambled(pre, post) && r == carried
            } else if c == 'R' {
                spec_scramble_recalled(pre, post) && r == carried
            } else if c == 'i' {
                post == (if pre.session.spec_selected_idx() is Some {
                    App { state: AppState::SolveInfo, ..pre }
                } else {
                    pre
                }) && r == carried
            } else if c == 'e' {
                post == (App { inspection_enabled: !pre.inspection_enabled, ..pre }) && r
                    == carried
            } else if c == 'E' {
                post == (App {
                    inspection_warning_enabled: !pre.inspection_warning_enabled,
                    ..pre
                }) && r == carried
            } else if c == 'd' {
                spec_selected_solve_deleted(pre, post) && r == (
                if pre.confirmation == Some(Confirmation::Solve) {
                    AppEffect::RewriteHistory
                } else {
                    carried
                })
            } else if c == 'p' {
                spec_entry_toggled(pre, post, (|e: StatEntry| spec_toggle_plus_two(e))) && r == (
                if pre.session.spec_selected_idx() is Some {
                    AppEffect::RewriteHistory
                } else {
                    carried
                })
            } else if c == 'D' {
                spec_entry_toggled(pre, post, (|e: StatEntry| spec_toggle_dnf(e))) && r == (
                if pre.session.spec_selected_idx() is Some {
                    AppEffect::RewriteHistory
                } else {
                    carried
                })
            } else if c == 'c' {
                spec_session_deleted(pre, post) && r == (
                if pre.confirmation == Some(Confirmation::Session) {
                    AppEffect::RemoveSessionFile
                } else {
                    carried
                })
            } else if c == 's' {
                spec_stepped_to_next_session(pre, post) && r == (
                if pre.selected_session_idx + 1 < pre.available_sessions@.len()
                    && pre.available_sessions@[pre.selected_session_idx + 1] {
                    AppEffect::LoadSession
                } else {
                    carried
                })
            } else if c == 'S' {
                spec_stepped_to_previous_session(pre, post) && r == (
                if pre.available_sessions@[if pre.selected_session_idx >= 1 {
                    pre.selected_session_idx - 1
                } else {
                    0int
                }] {
                    AppEffect::LoadSession
                } else {
                    carried
                })
            } else if c == ' ' {
                post == spec_space_pressed(pre, now_ms) && r == carried
            } else {
                post == pre && r == carried
            },
            Key::Other => post == pre && r == carried,
        }
    }
}

/// What the confirmation keys do while a question is pending: `y` performs
/// the confirmed deletion and raises its host effect, `n` withdraws the
/// question, and any other key leaves this step untouched (the general
/// table still sees it afterwards).
pub open spec fn spec_confirmation_arm(key: KeyInput, pre: App, mid: App, e1: AppEffect) -> bool {
    match key.code {
        Key::Char(c) => if c == 'y' {
            match pre.confirmation {
                Some(Confirmation::Solve) => spec_selected_solve_deleted(pre, mid) && e1
                    == AppEffect::RewriteHistory,
                Some(Confirmation::Session) => spec_session_deleted(pre, mid) && e1
                    == AppEffect::RemoveSessionFile,
                None => mid == pre && e1 is Nothing,
            }
        } else if c == 'n' {
            mid == (App { confirmation: None::<Confirmation>, ..pre }) && e1 is Nothing
        } else {
            mid == pre && e1 is Nothing
        },
        _ => mid == pre && e1 is Nothing,
    }
}

/// Releasing the start signal: an armed attempt stops the countdown and
/// starts the timer; a merely readied one falls back to idle.
pub fn on_space_release(app: &mut App, now_ms: u64)
    requires
        old(app).wf(),
    ensures
        final(app).wf(),
        *final(app) == spec_space_released(*old(app), now_ms),
{
    match app.state {
        AppState::Armed => {
            app.inspection.stop(now_ms);
            app.start_timer(now_ms);
        },
        AppState::Ready => {
            app.state = AppState::Idle;
        },
        _ => {},
    }
}

fn handle_timer_key(key: KeyInput, app: &mut App, now_ms: u64, date: u64) -> (r: AppEffect)
    requires
        old(app).wf(),
        old(app).session.stats.solve_count < u64::MAX,
    ensures
        final(app).wf(),
        spec_timer_table(key, *old(app), *final(app), r, now_ms, date),
{
    match key.code {
        Key::Esc => {
            app.cancel_timer(now_ms);
            AppEffect::Nothing
        },
        Key::Char(c) => {
            if c == 'q' {
                AppEffect::Quit
            } else if c == ' ' {
                match app.state {
                    AppState::Idle => {
                        if app.inspection.is_running() {
                            app.state = AppState::Ready;
                        }
                        AppEffect::Nothing
                    },
                    AppState::Ready => {
                        app.state = AppState::Armed;
                        app.timer.reset();
                        AppEffect::Nothing
                    },
                    AppState::Solving => {
                        app.stop_timer(now_ms, date);
                        AppEffect::PersistAppend
                    },
                    _ => AppEffect::Nothing,
                }
            } else {
                AppEffect::Nothing
            }
        },
        _ => AppEffect::Nothing,
    }
}

fn handle_solve_info_key(key: KeyInput, app: &mut App) -> (r: AppEffect)
    requires
        old(app).wf(),
    ensures
        final(app).wf(),
        spec_solve_info_table(key, *old(app), *final(app), r),
{
    match key.code {
        Key::Esc => {
            app.state = AppState::Idle;
            AppEffect::Nothing
        },
        Key::Down => {
            app.session.next();
            AppEffect::Nothing
        },
        Key::Up => {
            app.session.previous();
            AppEffect::Nothing
        },
        Key::Char(c) => {
            if c == 'q' {
                AppEffect::Quit
            } else if c == 'j' {
                app.session.next();
                AppEffect::Nothing
            } else if c == 'k' {
                app.session.previous();
                AppEffect::Nothing
            } else if c == 'i' {
                app.state = AppState::Idle;
                AppEffect::Nothing
            } else if c == 'd' {
                let rewrite = app.delete_selected_solve();
                if rewrite {
                    AppEffect::RewriteHistory
                } else {
                    AppEffect::Nothing
                }
            } else if c == 'p' {
                let rewrite = app.toggle_plus_two();
                if rewrite {
                    AppEffect::RewriteHistory
                } else {
                    AppEffect::Nothing
                }
            } else if c == 'D' {
                let rewrite = app.toggle_dnf();
                if rewrite {
                    AppEffect::RewriteHistory
                } else {
                    AppEffect::Nothing
                }
            } else {
                AppEffect::Nothing
            }
        },
        _ => AppEffect::Nothing,
    }
}

/// Decide what one key event does to the whole application, and what
/// outside work the host must now perform. The decision itself is pure:
/// files, terminal and clock stay with the host, which passes the current
/// wall-clock sample and date in and carries the returned effect out. The
/// contract walks the same tables the body does: release events only ever
/// release the start signal; while a confirmation is pending the
/// confirmation keys act first and the general table still sees the key;
/// otherwise the timing states, the solve-info overlay and the idle screen
/// each answer to their own table.
pub fn handle_key(key: KeyInput, app: &mut App, now_ms: u64, date: u64) -> (r: AppEffect)
    requires
        old(app).wf(),
        old(app).session.stats.solve_count < u64::MAX,
    ensures
        final(app).wf(),
        key.release ==> r is Nothing && *final(app) == (if key.code == Key::Char(' ') {
            spec_space_released(*old(app), now_ms)
        } else {
            *old(app)
        }),
        !key.release && old(app).confirmation is Some ==> exists|mid: App, e1: AppEffect|
            #[trigger] spec_confirmation_arm(key, *old(app), mid, e1) && spec_shared_table(
                key,
                mid,
                *final(app),
                e1,
                r,
                now_ms,
            ),
        !key.release && old(app).confirmation is None ==> match old(app).state {
            AppState::Idle => if old(app).inspection.starting_time is Some {
                spec_timer_table(key, *old(app), *final(app), r, now_ms, date)
            } else {
                spec_shared_table(key, *old(app), *final(app), AppEffect::Nothing, r, now_ms)
            },
            AppState::SolveInfo => spec_solve_info_table(key, *old(app), *final(app), r),
            _ => spec_timer_table(key, *old(app), *final(app), r, now_ms, date),
        },
{
    if key.release {
        if matches!(key.code, Key::Char(' ')) {
            on_space_release(app, now_ms);
        }
        return AppEffect::Nothing;
    }
    let mut effect = AppEffect::Nothing;
    if matches!(app.confirmation, Some(_)) {
        match key.code {
            Key::Char(c) => {
                if c == 'y' {
                    match app.confirmation {
                        Some(Confirmation::Solve) => {
                            let rewrite = app.delete_selected_solve();
                            if rewrite {
                                effect = AppEffect::RewriteHistory;
                            }
                        },
                        Some(Confirmation::Session) => {
                            let remove = app.delete_session();
                            if remove {
                                effect = AppEffect::RemoveSessionFile;
                            }
                        },
                        None => {},
                    }
                } else if c == 'n' {
                    app.confirmation = None;
                }
            },
            _ => {},
        }
    } else {
        match app.state {
            AppState::Idle => {
                if app.inspection.is_running() {
                    return handle_timer_key(key, app, now_ms, date);
                }
            },
            AppState::SolveInfo => {
                return handle_solve_info_key(key, app);
            },
            _ => {
                return handle_timer_key(key, app, now_ms, date);
            },
        }
    }
    let ghost mid = *app;
    let ghost e1 = effect;
    proof {
        if old(app).confirmation is Some {
            assert(spec_confirmation_arm(key, *old(app), mid, e1));
        }
    }
    let result = shared_table_step(key, app, effect, now_ms);
    proof {
        assert(spec_shared_table(key, mid, *app, e1, result, now_ms));
    }
    result
}

/// Run the general key table, carrying a pending effect through keys that
/// raise none of their own.
fn shared_table_step(key: KeyInput, app: &mut App, carried: AppEffect, now_ms: u64) -> (r:
    AppEffect)
    requires
        old(app).wf(),
    ensures
        final(app).wf(),
        spec_shared_table(key, *old(app), *final(app), carried, r, now_ms),
{
    if key.ctrl {
        match key.code {
            Key::Char(c) => {
                if c == 'e' {
                    app.session.scroll_down(1, false);
                } else if c == 'y' {
                    app.session.scroll_up(1, false);
                } else if c == 'd' {
                    app.session.scroll_down_half();
                } else if c == 'u' {
                    app.session.scroll_up_half();
                } else if c == 'f' {
                    app.session.scroll_down_full();
                } else if c == 'b' {
                    app.session.scroll_up_full();
                }
            },
            _ => {},
        }
        return carried;
    }
    match key.code {
        Key::Esc => {
            app.state = AppState::Idle;
            carried
        },
        Key::Down => {
            app.session.next();
            carried
        },
        Key::Up => {
            app.session.previous();
            carried
        },
        Key::Char(c) => {
            if c == 'q' {
                AppEffect::Quit
            } else if c == 'j' {
                app.session.next();
                carried
            } else if c == 'k' {
                app.session.previous();
                carried
            } else if c == 'g' {
                app.session.select_first();
                carried
            } else if c == 'G' {
                app.session.select_last();
                carried
            } else if c == 'r' {
                app.generate_scramble();
                carried
            } else if c == 'R' {
                let recalled = match &app.last_scramble {
                    Some(last) => Some(
                        crate::scramble::Scramble {
                            moves: vstd::slice::slice_to_vec(last.moves.as_slice()),
                        },
                    ),
                    None => None,
                };
                if let Some(scramble) = recalled {
                    app.scramble = scramble;
                    app.generate_scramble_preview();
                }
                carried
            } else if c == 'i' {
                let selected = app.session.selected_idx();
                if matches!(selected, Some(_)) {
                    app.state = AppState::SolveInfo;
                }
                carried
            } else if c == 'e' {
                app.inspection_enabled = !app.inspection_enabled;
                carried
            } else if c == 'E' {
                app.inspection_warning_enabled = !app.inspection_warning_enabled;
                carried
            } else if c == 'd' {
                let rewrite = app.delete_selected_solve();
                if rewrite {
                    AppEffect::RewriteHistory
                } else {
                    carried
                }
            } else if c == 'p' {
                let rewrite = app.toggle_plus_two();
                if rewrite {
                    AppEffect::RewriteHistory
                } else {
                    carried
                }
            } else if c == 'D' {
                let rewrite = app.toggle_dnf();
                if rewrite {
                    AppEffect::RewriteHistory
                } else {
                    carried
                }
            } else if c == 'c' {
                let remove = app.delete_session();
                if remove {
                    AppEffect::RemoveSessionFile
                } else {
                    carried
                }
            } else if c == 's' {
                let load = app.next_session();
                if load {
                    AppEffect::LoadSession
                } else {
                    carried
                }
            } else if c == 'S' {
                let load = app.previous_session();
                if load {
                    AppEffect::LoadSession
                } else {
                    carried
                }
            } else if c == ' ' {
                if !app.inspection.has_expired() {
                    if app.inspection_enabled && !app.inspection.is_running() {
                        app.start_inspecting(now_ms);
                    }
                    app.state = AppState::Ready;
                }
                carried
            } else {
                carried
            }
        },
        _ => carried,
    }
}

} // verus!
