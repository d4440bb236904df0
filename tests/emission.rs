use metrics_emitter::{
    counter_attributes, process_counter, EmissionLoop, EMIT_INCREMENT, EMIT_INTERVAL_MS,
};

#[test]
fn attributes_are_exactly_k1_and_k2() {
    let a = counter_attributes();
    assert_eq!(
        a,
        vec![
            ("k1".to_string(), "v1".to_string()),
            ("k2".to_string(), "v2".to_string())
        ]
    );
}

#[test]
fn new_loop_has_recorded_nothing() {
    let l = EmissionLoop::new();
    assert_eq!(l.additions, 0);
    assert_eq!(l.total, 0);
    assert!(l.has_room());
}

#[test]
fn each_step_adds_ten_after_a_one_second_pause() {
    let mut l = EmissionLoop::new();
    assert_eq!(l.pause_ms(), 1000);
    l.step();
    assert_eq!(l.total, 10);
    assert_eq!(l.additions, 1);
    assert_eq!(EMIT_INCREMENT, 10);
    assert_eq!(EMIT_INTERVAL_MS, 1000);
}

#[test]
fn total_after_three_and_a_half_seconds() {
    // Steps come after the pauses ending at 1 s, 2 s and 3 s.
    let mut l = EmissionLoop::new();
    let mut elapsed_ms: u64 = 0;
    loop {
        elapsed_ms += l.pause_ms();
        if elapsed_ms > 3500 {
            break;
        }
        l.step();
    }
    assert_eq!(l.additions, 3);
    assert!(l.total >= 30 && l.total < 40);
    assert_eq!(l.total, 30);
}

#[test]
fn no_addition_before_the_first_pause() {
    let mut l = EmissionLoop::new();
    let mut elapsed_ms: u64 = 0;
    loop {
        elapsed_ms += l.pause_ms();
        if elapsed_ms > 999 {
            break;
        }
        l.step();
    }
    assert_eq!(l.total, 0);
}

#[test]
fn loop_without_room_reports_it() {
    let l = EmissionLoop {
        counter: process_counter(),
        additions: u64::MAX / 10,
        total: u64::MAX / 10 * 10,
    };
    assert!(!l.has_room());
    let ok = EmissionLoop { counter: process_counter(), additions: 5, total: 50 };
    assert!(ok.has_room());
}
