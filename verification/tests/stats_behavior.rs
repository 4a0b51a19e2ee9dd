use cubetimer::app::{Penalty, Solve};
use cubetimer::stats::{get_avg, get_mean, StatEntry, StatLine, Stats};

fn clean_solve(ms: u64) -> Solve {
    Solve::new(ms, Penalty::Clean, None, None, vec![82u8], 1)
}

fn dnf_solve(ms: u64) -> Solve {
    Solve::new(ms, Penalty::Dnf, None, None, vec![82u8], 1)
}

#[test]
fn avg_of_five_drops_min_and_max() {
    let solves: Vec<Solve> = [1u64, 2, 3, 4, 5].iter().map(|&v| clean_solve(v)).collect();
    let avg = get_avg(&solves, 5).unwrap();
    assert_eq!(avg.time, 3);
    assert!(matches!(avg.penalty, Penalty::Clean));
}

#[test]
fn avg_of_five_needs_five() {
    let solves: Vec<Solve> = [1u64, 2, 3, 4].iter().map(|&v| clean_solve(v)).collect();
    assert!(get_avg(&solves, 5).is_none());
}

#[test]
fn avg_with_one_dnf_drops_only_min() {
    let mut solves: Vec<Solve> = [10u64, 20, 30, 40].iter().map(|&v| clean_solve(v)).collect();
    solves.push(dnf_solve(99));
    let avg = get_avg(&solves, 5).unwrap();
    assert_eq!(avg.time, (20 + 30 + 40) / 3);
    assert!(matches!(avg.penalty, Penalty::Clean));
}

#[test]
fn avg_with_two_dnfs_is_dnf() {
    let mut solves: Vec<Solve> = vec![dnf_solve(5), clean_solve(10), clean_solve(20)];
    solves.push(dnf_solve(30));
    solves.push(clean_solve(40));
    let avg = get_avg(&solves, 5).unwrap();
    assert!(matches!(avg.penalty, Penalty::Dnf));
}

#[test]
fn mean_of_three_averages_plainly() {
    let solves: Vec<Solve> = [1000u64, 2000, 3000].iter().map(|&v| clean_solve(v)).collect();
    let mean = get_mean(&solves, 3).unwrap();
    assert_eq!(mean.time, 2000);
    assert!(matches!(mean.penalty, Penalty::Clean));
}

#[test]
fn mean_of_three_poisoned_by_dnf() {
    let solves: Vec<Solve> = vec![clean_solve(1000), dnf_solve(2000), clean_solve(3000)];
    let mean = get_mean(&solves, 3).unwrap();
    assert!(matches!(mean.penalty, Penalty::Dnf));
}

#[test]
fn stat_line_best_is_minimum_of_currents() {
    let mut line = StatLine::default();
    let entries = [
        StatEntry::new(5000, Penalty::Clean),
        StatEntry::new(4000, Penalty::Clean),
        StatEntry::new(4500, Penalty::Clean),
        StatEntry::new(9000, Penalty::Dnf),
    ];
    for e in entries {
        line.update(Some(e));
    }
    assert_eq!(line.best.unwrap().time, 4000);
    assert!(matches!(line.best.unwrap().penalty, Penalty::Clean));
    // the last current is kept even when it is worse
    assert_eq!(line.current.unwrap().time, 9000);
}

#[test]
fn stat_line_dnf_worse_than_any_finite() {
    let mut line = StatLine::default();
    line.update(Some(StatEntry::new(100, Penalty::Dnf)));
    line.update(Some(StatEntry::new(90000, Penalty::Clean)));
    let best = line.best.unwrap();
    assert_eq!(best.time, 90000);
    assert!(matches!(best.penalty, Penalty::Clean));
}

#[test]
fn stat_line_none_is_no_op() {
    let mut line = StatLine::default();
    line.update(Some(StatEntry::new(70, Penalty::Clean)));
    line.update(None);
    assert_eq!(line.current.unwrap().time, 70);
    assert_eq!(line.best.unwrap().time, 70);
}

#[test]
fn full_rescan_rebuilds_every_line() {
    let mut stats = Stats::default();
    let solves: Vec<Solve> = [8000u64, 6000, 7000].iter().map(|&v| clean_solve(v)).collect();
    stats.update(&solves);
    assert_eq!(stats.solve_count, 3);
    assert_eq!(stats.global_mean, (8000 + 6000 + 7000) / 3);
    assert_eq!(stats.time.current.unwrap().time, 7000);
    assert_eq!(stats.time.best.unwrap().time, 6000);
    assert_eq!(stats.mean_of_3.current.unwrap().time, 7000);
    assert_eq!(stats.mean_of_3.best.unwrap().time, 7000);
}

#[test]
fn incremental_update_advances_running_mean() {
    let mut stats = Stats::default();
    let mut solves: Vec<Solve> = Vec::new();
    solves.push(clean_solve(1000));
    stats.update_on_new(&solves);
    assert_eq!(stats.solve_count, 1);
    assert_eq!(stats.global_mean, 1000);
    solves.push(clean_solve(2000));
    stats.update_on_new(&solves);
    assert_eq!(stats.solve_count, 2);
    assert_eq!(stats.global_mean, (1000 * 1 + 2000) / 2);
    assert_eq!(stats.time.best.unwrap().time, 1000);
    assert_eq!(stats.time.current.unwrap().time, 2000);
}

#[test]
fn entry_min_prefers_finite_over_dnf() {
    let a = StatEntry::new(10, Penalty::Dnf);
    let b = StatEntry::new(10_000_000, Penalty::Clean);
    assert_eq!(a.min(b).time, 10_000_000);
    let c = StatEntry::new(3, Penalty::Clean);
    let d = StatEntry::new(4, Penalty::PlusTwo);
    assert_eq!(c.min(d).time, 3);
}

#[test]
fn tail_slice_holds_the_most_recent_solves() {
    let solves: Vec<Solve> = [1u64, 2, 3, 4, 5].iter().map(|&v| clean_solve(v)).collect();
    let tail = cubetimer::stats::get_solves_from_tail(&solves, 2).unwrap();
    assert_eq!(tail.len(), 2);
    assert_eq!(tail[0].time.time, 4);
    assert_eq!(tail[1].time.time, 5);
    assert!(cubetimer::stats::get_solves_from_tail(&solves, 6).is_none());
}
