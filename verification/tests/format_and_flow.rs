use cubetimer::app::{App, AppState, Penalty, Solve};
use cubetimer::history::{
    parse_record, parse_u64, record_of_solve, session_file_name, session_index_of_stem,
    u64_to_dec_bytes,
};
use cubetimer::input::{handle_key, on_space_release, AppEffect, Key, KeyInput};
use cubetimer::cube::{Cube, Face, Move, Rotation};
use cubetimer::inspection::{Inspection, InspectionWarning};
use cubetimer::scramble::Scramble;
use cubetimer::stats::StatEntry;
use cubetimer::timer::{millis_to_string, millis_to_string_not_running, u64_to_string, Timer};
use cubetimer::ui::generate_font;

#[test]
fn decimal_parsing_is_exact() {
    assert_eq!(parse_u64(b"0"), Some(0));
    assert_eq!(parse_u64(b"123"), Some(123));
    assert_eq!(parse_u64(b"007"), Some(7));
    assert_eq!(parse_u64(b""), None);
    assert_eq!(parse_u64(b"12a"), None);
    assert_eq!(parse_u64(b"18446744073709551615"), Some(u64::MAX));
    assert_eq!(parse_u64(b"18446744073709551616"), None);
}

#[test]
fn decimal_rendering_round_trips() {
    assert_eq!(u64_to_dec_bytes(0), b"0");
    assert_eq!(u64_to_dec_bytes(90210), b"90210");
    assert_eq!(u64_to_string(1234567890), "1234567890");
    assert_eq!(parse_u64(&u64_to_dec_bytes(u64::MAX)), Some(u64::MAX));
}

#[test]
fn record_round_trips_through_parse() {
    let solve = Solve::new(9137, Penalty::PlusTwo, None, None, b"R U2 F'".to_vec(), 1700000000);
    let line = record_of_solve(&solve);
    assert_eq!(line, b"9137,1,R U2 F',1700000000".to_vec());
    let back = parse_record(&line).unwrap();
    assert_eq!(back.time.time, 9137);
    assert!(matches!(back.time.penalty, Penalty::PlusTwo));
    assert_eq!(back.scramble, b"R U2 F'".to_vec());
    assert_eq!(back.date, 1700000000);
    assert!(back.avg_of_5.is_none());
    assert!(back.avg_of_12.is_none());
}

#[test]
fn malformed_records_are_rejected() {
    assert!(parse_record(b"").is_none());
    assert!(parse_record(b"12,0,R").is_none());
    assert!(parse_record(b"12,0,R,U,77").is_none());
    assert!(parse_record(b"12,3,R,77").is_none());
    assert!(parse_record(b"x2,0,R,77").is_none());
    assert!(parse_record(b"12,0,R,x7").is_none());
}

#[test]
fn session_files_are_numbered_from_one() {
    assert_eq!(session_file_name(0), "session_1.csv");
    assert_eq!(session_file_name(11), "session_12.csv");
    assert_eq!(session_index_of_stem(b"session_1"), Some(0));
    assert_eq!(session_index_of_stem(b"session_12"), Some(11));
    assert_eq!(session_index_of_stem(b"session_0"), None);
    assert_eq!(session_index_of_stem(b"session"), None);
    assert_eq!(session_index_of_stem(b"session_x"), None);
}

#[test]
fn times_format_like_a_stopwatch() {
    assert_eq!(millis_to_string_not_running(10000), "10.000");
    assert_eq!(millis_to_string_not_running(9507), "9.507");
    assert_eq!(millis_to_string_not_running(61005), "1:1.005");
    assert_eq!(millis_to_string(9567, true), "9.5");
    assert_eq!(millis_to_string(61005, true), "1:1.0");
    assert_eq!(millis_to_string_not_running(0), "0.000");
}

#[test]
fn timer_measures_between_samples() {
    let mut timer = Timer::new();
    timer.start(1000);
    assert!(timer.is_running());
    timer.stop(3500);
    assert!(!timer.is_running());
    assert_eq!(timer.result, 2500);
    timer.reset();
    assert_eq!(timer.result, 0);
}

#[test]
fn inspection_classifies_overrun() {
    let mut inspection = Inspection::new();
    inspection.start(0);
    inspection.stop(14_999);
    assert!(matches!(inspection.penalty, Penalty::Clean));
    inspection.start(0);
    inspection.stop(16_500);
    assert!(matches!(inspection.penalty, Penalty::PlusTwo));
    inspection.start(0);
    inspection.stop(17_000);
    assert!(matches!(inspection.penalty, Penalty::Dnf));
    assert!(inspection.has_expired());
}

#[test]
fn inspection_tick_warns_and_expires() {
    let mut inspection = Inspection::new();
    inspection.start(0);
    assert_eq!(inspection.tick(true, 1_000), (true, None));
    assert_eq!(inspection.tick(true, 8_000), (true, Some(InspectionWarning::First)));
    assert_eq!(inspection.tick(true, 8_100), (true, None));
    assert_eq!(inspection.tick(true, 12_000), (true, Some(InspectionWarning::Second)));
    assert_eq!(inspection.tick(true, 16_000), (true, None));
    let (keep, cue) = inspection.tick(true, 17_000);
    assert!(!keep);
    assert!(cue.is_none());
    assert!(matches!(inspection.penalty, Penalty::Dnf));
}

#[test]
fn cube_turn_and_its_inverse_cancel() {
    let solved = Cube::new();
    let mut cube = Cube::new();
    cube.apply_move(&Move { face: Face::Up, rotation: Rotation::Clockwise });
    assert_ne!(cube.facelets, solved.facelets);
    cube.apply_move(&Move { face: Face::Up, rotation: Rotation::CounterClockwise });
    assert_eq!(cube.facelets, solved.facelets);
    cube.apply_move(&Move { face: Face::Right, rotation: Rotation::DoubleTurn });
    cube.apply_move(&Move { face: Face::Right, rotation: Rotation::DoubleTurn });
    assert_eq!(cube.facelets, solved.facelets);
}

#[test]
fn opposite_faces_pair_up() {
    assert_eq!(Face::Up.opposite_face(), Face::Down);
    assert_eq!(Face::Front.opposite_face(), Face::Back);
    assert_eq!(Face::Left.opposite_face(), Face::Right);
}

#[test]
fn scrambles_are_long_and_legal() {
    for _ in 0..20 {
        let scramble = Scramble::new(25);
        assert_eq!(scramble.moves.len(), 26);
        for w in scramble.moves.windows(2) {
            assert_ne!(w[0].face, w[1].face);
        }
        for w in scramble.moves.windows(3) {
            let same_axis_01 = w[1].face == w[0].face.opposite_face();
            let same_axis_12 = w[2].face == w[1].face.opposite_face();
            assert!(!(same_axis_01 && same_axis_12));
        }
    }
}

#[test]
fn big_font_always_has_ten_lines() {
    for text in ["9.507", "1:1.005", "+2", "12"] {
        assert_eq!(generate_font(text).lines().count(), 10);
    }
}

fn press(c: char) -> KeyInput {
    KeyInput { code: Key::Char(c), ctrl: false, release: false }
}

fn release(c: char) -> KeyInput {
    KeyInput { code: Key::Char(c), ctrl: false, release: true }
}

#[test]
fn a_full_attempt_flows_through_the_state_machine() {
    let mut app = App::new(true);
    app.inspection_enabled = false;
    // arm, confirm, release to start, then stop after 9.1 seconds
    assert_eq!(handle_key(press(' '), &mut app, 0, 100), AppEffect::Nothing);
    assert!(matches!(app.state, AppState::Ready));
    assert_eq!(handle_key(press(' '), &mut app, 100, 100), AppEffect::Nothing);
    assert!(matches!(app.state, AppState::Armed));
    on_space_release(&mut app, 1_000);
    assert!(matches!(app.state, AppState::Solving));
    assert_eq!(handle_key(press(' '), &mut app, 10_100, 200), AppEffect::PersistAppend);
    assert!(matches!(app.state, AppState::Idle));
    assert_eq!(app.session.solves.len(), 1);
    assert_eq!(app.session.solves[0].time.time, 9_100);
    assert_eq!(app.session.stats.solve_count, 1);
    assert!(app.available_sessions[0]);
    let _ = release(' ');
}

#[test]
fn quitting_and_confirmation_gate() {
    let mut app = App::new(false);
    app.inspection_enabled = false;
    assert_eq!(handle_key(press('q'), &mut app, 0, 0), AppEffect::Quit);
    // deleting with an empty log asks nothing
    assert_eq!(handle_key(press('d'), &mut app, 0, 0), AppEffect::Nothing);
    assert!(app.confirmation.is_none());
    // record one solve, then delete it behind the confirmation
    handle_key(press(' '), &mut app, 0, 0);
    handle_key(press(' '), &mut app, 0, 0);
    on_space_release(&mut app, 0);
    handle_key(press(' '), &mut app, 5_000, 50);
    assert_eq!(app.session.solves.len(), 1);
    assert_eq!(handle_key(press('d'), &mut app, 0, 0), AppEffect::Nothing);
    assert!(app.confirmation.is_some());
    assert_eq!(handle_key(press('y'), &mut app, 0, 0), AppEffect::RewriteHistory);
    assert!(app.session.solves.is_empty());
    assert_eq!(app.session.stats.solve_count, 0);
}

#[test]
fn penalty_toggle_keys_request_a_rewrite() {
    let mut app = App::new(false);
    app.inspection_enabled = false;
    handle_key(press(' '), &mut app, 0, 0);
    handle_key(press(' '), &mut app, 0, 0);
    on_space_release(&mut app, 0);
    handle_key(press(' '), &mut app, 9_000, 50);
    assert_eq!(handle_key(press('p'), &mut app, 0, 0), AppEffect::RewriteHistory);
    assert_eq!(app.session.solves[0].time.time, 11_000);
    assert_eq!(handle_key(press('D'), &mut app, 0, 0), AppEffect::RewriteHistory);
    assert!(matches!(app.session.solves[0].time.penalty, Penalty::Dnf));
    assert_eq!(app.session.solves[0].time.time, 9_000);
}

#[test]
fn session_switching_walks_the_registry() {
    let mut app = App::new(false);
    assert_eq!(app.selected_session_idx, 0);
    assert_eq!(handle_key(press('s'), &mut app, 0, 0), AppEffect::Nothing);
    assert_eq!(app.selected_session_idx, 1);
    assert_eq!(app.available_sessions.len(), 2);
    assert_eq!(handle_key(press('S'), &mut app, 0, 0), AppEffect::Nothing);
    assert_eq!(app.selected_session_idx, 0);
    app.mark_session_available(3);
    assert_eq!(app.available_sessions, vec![false, false, false, true]);
}

#[test]
fn entries_display_with_penalty_marks() {
    assert_eq!(StatEntry::new(9507, Penalty::Clean).to_text(), "9.507");
    assert_eq!(StatEntry::new(11000, Penalty::PlusTwo).to_text(), "11.000+");
    assert_eq!(StatEntry::new(4242, Penalty::Dnf).to_text(), "DNF");
}

#[test]
fn recalling_the_last_scramble_copies_it() {
    let mut app = App::new(false);
    app.generate_scramble();
    let remembered: Vec<_> = match &app.last_scramble {
        Some(l) => l.moves.clone(),
        None => panic!("a scramble should be remembered"),
    };
    let press_recall = KeyInput { code: Key::Char('R'), ctrl: false, release: false };
    assert_eq!(handle_key(press_recall, &mut app, 0, 0), AppEffect::Nothing);
    assert_eq!(app.scramble.moves, remembered);
    assert_eq!(app.last_scramble.as_ref().unwrap().moves, remembered);
    // recalling again stays on the recalled sequence
    assert_eq!(handle_key(press_recall, &mut app, 0, 0), AppEffect::Nothing);
    assert_eq!(app.scramble.moves, remembered);
}

#[test]
fn expired_countdown_forces_a_failed_solve() {
    let mut app = App::new(false);
    app.start_inspecting(0);
    let (keep, cue) = app.inspection.tick(false, 18_000);
    assert!(!keep);
    assert!(cue.is_none());
    app.complete_expired_attempt(77);
    assert_eq!(app.session.solves.len(), 1);
    assert!(matches!(app.session.solves[0].time.penalty, Penalty::Dnf));
    assert_eq!(app.session.solves[0].date, 77);
    assert_eq!(app.session.stats.solve_count, 1);
    assert!(matches!(app.state, AppState::Idle));
    assert!(app.last_scramble.is_some());
}

#[test]
fn stem_parsing_takes_the_first_underscore() {
    assert_eq!(session_index_of_stem(b"my_sessions_2"), None);
    assert_eq!(session_index_of_stem(b"a_7"), Some(6));
}
