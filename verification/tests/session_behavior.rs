use cubetimer::app::{Penalty, Solve};
use cubetimer::session::Session;
use cubetimer::stats::StatEntry;

fn clean_solve(ms: u64) -> Solve {
    Solve::new(ms, Penalty::Clean, None, None, vec![85u8], 7)
}

fn session_with(times: &[u64]) -> Session {
    let mut session = Session::default();
    for &t in times {
        session.append_solve(clean_solve(t));
        session.update_stats_on_new();
    }
    session
}

#[test]
fn five_appends_cache_the_trimmed_average() {
    // drop max 11000 and min 9000; (9500 + 10500 + 10000) / 3 = 10000
    let session = session_with(&[10000, 9000, 11000, 9500, 10500]);
    let last = session.solves.last().unwrap();
    let avg = last.avg_of_5.unwrap();
    assert_eq!(avg.time, 10000);
    assert!(matches!(avg.penalty, Penalty::Clean));
    assert_eq!(session.stats.avg_of_5.current.unwrap().time, 10000);
    assert!(last.avg_of_12.is_none());
}

#[test]
fn second_dnf_in_window_poisons_cached_average() {
    let mut session = Session::default();
    for &t in &[10000u64, 9000, 11000] {
        session.append_solve(clean_solve(t));
        session.update_stats_on_new();
    }
    session.append_solve(Solve::new(9999, Penalty::Dnf, None, None, vec![85u8], 7));
    session.update_stats_on_new();
    session.append_solve(Solve::new(8888, Penalty::Dnf, None, None, vec![85u8], 7));
    session.update_stats_on_new();
    let avg = session.solves.last().unwrap().avg_of_5.unwrap();
    assert!(matches!(avg.penalty, Penalty::Dnf));
}

#[test]
fn deleting_best_recomputes_best_from_remaining() {
    let mut session = session_with(&[7000, 5000, 6000]);
    assert_eq!(session.stats.time.best.unwrap().time, 5000);
    // log index 1 holds the best solve
    session.remove_solve(1);
    assert_eq!(session.stats.time.best.unwrap().time, 6000);
    assert_eq!(session.stats.solve_count, 2);
}

#[test]
fn deleting_only_solve_resets_everything() {
    let mut session = session_with(&[4321]);
    assert_eq!(session.stats.solve_count, 1);
    session.remove_solve(0);
    assert_eq!(session.stats.solve_count, 0);
    assert_eq!(session.stats.global_mean, 0);
    assert!(session.stats.time.current.is_none());
    assert!(session.stats.time.best.is_none());
    assert!(session.stats.mean_of_3.current.is_none());
    assert!(session.stats.mean_of_3.best.is_none());
    assert!(session.stats.avg_of_5.current.is_none());
    assert!(session.stats.avg_of_5.best.is_none());
    assert!(session.stats.avg_of_12.current.is_none());
    assert!(session.stats.avg_of_12.best.is_none());
    assert!(session.solves.is_empty());
}

#[test]
fn plus_two_toggle_round_trip_restores_entry() {
    let mut session = session_with(&[9000]);
    let before: StatEntry = session.solves[0].time;
    session.toggle_plus_two(0);
    assert_eq!(session.solves[0].time.time, 11000);
    assert!(matches!(session.solves[0].time.penalty, Penalty::PlusTwo));
    session.toggle_plus_two(0);
    assert_eq!(session.solves[0].time, before);
}

#[test]
fn dnf_toggle_cycles_and_sheds_plus_two() {
    let mut session = session_with(&[9000]);
    session.toggle_plus_two(0);
    assert_eq!(session.solves[0].time.time, 11000);
    session.toggle_dnf(0);
    assert_eq!(session.solves[0].time.time, 9000);
    assert!(matches!(session.solves[0].time.penalty, Penalty::Dnf));
    session.toggle_dnf(0);
    assert!(matches!(session.solves[0].time.penalty, Penalty::Clean));
}

#[test]
fn replay_recomputes_caches_and_aggregate() {
    let solves: Vec<Solve> =
        [10000u64, 9000, 11000, 9500, 10500].iter().map(|&v| clean_solve(v)).collect();
    let session = Session::from_solves(solves);
    assert_eq!(session.solves.last().unwrap().avg_of_5.unwrap().time, 10000);
    assert_eq!(session.stats.solve_count, 5);
    assert_eq!(session.stats.time.best.unwrap().time, 9000);
    assert_eq!(session.state.selected, Some(0));
}

#[test]
fn cursor_moves_and_maps_to_log_indices() {
    let mut session = session_with(&[1000, 2000, 3000]);
    // most recent row is selected after an append
    assert_eq!(session.state.selected, Some(0));
    assert_eq!(session.selected_idx(), Some(2));
    session.next();
    assert_eq!(session.selected_idx(), Some(1));
    session.previous();
    assert_eq!(session.selected_idx(), Some(2));
    session.select_last();
    assert_eq!(session.selected_idx(), Some(0));
    session.select_first();
    assert_eq!(session.selected_idx(), Some(2));
}

#[test]
fn deleting_selected_keeps_a_valid_selection() {
    let mut session = session_with(&[1000, 2000]);
    session.select_last();
    // display row 1 is log index 0
    session.remove_solve(0);
    assert_eq!(session.state.selected, Some(0));
    assert_eq!(session.solves.len(), 1);
    assert_eq!(session.solves[0].time.time, 2000);
}
