use sump_monitor::cycle::{Cycle, DutyResult, State};

#[test]
fn test_first_off_syncs() {
    let mut state = State::new();

    assert_eq!(State::Unknown, state);
    assert_eq!(None, state.to_off(100));
    assert_eq!(State::Off { off_time: 100 }, state);
}

#[test]
fn test_full_cycle() {
    let mut state = State::Unknown;

    assert_eq!(None, state.to_off(100));
    assert_eq!(State::Off { off_time: 100 }, state);

    assert!(state.to_on(200));
    assert_eq!(State::On { off_time: 100, on_time: 200 }, state);

    let told = state.to_off(2000).unwrap();

    // 1.8 s * 100 / 1.9 s = 94.74, and 2680 * 95 / 60 = 4243.33.
    assert_eq!(DutyResult { duty_percent: Some(95), in_flow: Some(424_333) }, told);
    assert_eq!(State::Off { off_time: 2000 }, state);

    let cycle = Cycle { on_millis: 2000 - 200, off_millis: 2000 - 100 };

    assert_eq!(told.duty_percent, cycle.duty_percent());
    assert_eq!(told.in_flow, cycle.in_flow_hundredths());

    let expected = ((2000.0f64 - 200.0) / 1000.0 * 100.0 / ((2000.0 - 100.0) / 1000.0)).round();

    assert_eq!(expected, told.duty_percent.unwrap() as f64);
    assert_eq!(
        ((2680.0 * expected / 60.0) * 100.0).round() / 100.0,
        told.in_flow.unwrap() as f64 / 100.0
    );
}

#[test]
fn test_duplicate_off() {
    let mut state = State::Off { off_time: 100 };

    assert_eq!(None, state.to_off(150));
    assert_eq!(State::Off { off_time: 100 }, state);
    assert_eq!(None, state.to_off(50));
    assert_eq!(State::Off { off_time: 100 }, state);
}

#[test]
fn test_duplicate_on() {
    let mut state = State::On { off_time: 100, on_time: 200 };

    assert!(!state.to_on(300));
    assert_eq!(State::On { off_time: 100, on_time: 200 }, state);
    assert!(!state.to_on(150));
    assert_eq!(State::On { off_time: 100, on_time: 200 }, state);
}

#[test]
fn test_on_before_sync() {
    let mut state = State::Unknown;

    assert!(!state.to_on(100));
    assert_eq!(State::Unknown, state);
}

#[test]
fn test_second_cycle() {
    let mut state = State::Unknown;

    assert_eq!(None, state.to_off(1_000));
    assert!(state.to_on(61_000));
    // 30 s of 90 s: 33 percent, and 2680 * 33 / 60 = 1474.00.
    assert_eq!(
        Some(DutyResult { duty_percent: Some(33), in_flow: Some(147_400) }),
        state.to_off(91_000)
    );
    assert!(state.to_on(181_000));
    // 9 s of 99 s: 9 percent, and 2680 * 9 / 60 = 402.00.
    assert_eq!(
        Some(DutyResult { duty_percent: Some(9), in_flow: Some(40_200) }),
        state.to_off(190_000)
    );
    assert_eq!(State::Off { off_time: 190_000 }, state);
}

#[test]
fn test_takes() {
    assert!(State::Unknown.takes(0, true));
    assert!(State::Unknown.takes(0, false));
    assert!(State::Off { off_time: 100 }.takes(100, true));
    assert!(State::Off { off_time: 100 }.takes(101, true));
    assert!(!State::Off { off_time: 100 }.takes(99, true));
    assert!(State::Off { off_time: 100 }.takes(99, false));
    assert!(State::On { off_time: 100, on_time: 200 }.takes(200, false));
    assert!(!State::On { off_time: 100, on_time: 200 }.takes(199, false));
    assert!(State::On { off_time: 100, on_time: 200 }.takes(0, true));
}

#[test]
fn test_duty_percent() {
    let cases: Vec<(u64, u64, u64)> = vec![
        (0, 1, 0),
        (1, 1, 100),
        (1, 2, 50),
        (1, 3, 33),
        (2, 3, 67),
        // A half counts upwards.
        (1, 8, 13),
        (1, 200, 1),
        (1, 201, 0),
        (199, 200, 100),
        (30_000, 90_000, 33),
        (9_000, 99_000, 9),
        (u64::MAX, u64::MAX, 100),
        (u64::MAX / 2, u64::MAX, 50),
        (0, u64::MAX, 0),
    ];

    for (on, off, duty) in cases.iter() {
        let cycle = Cycle { on_millis: *on, off_millis: *off };

        assert_eq!(Some(*duty), cycle.duty_percent());
    }
}

#[test]
fn test_in_flow() {
    let cases: Vec<(u64, u64, u64)> = vec![
        // duty 0
        (0, 1, 0),
        // duty 100: 2680 * 100 / 60 = 4466.67
        (1, 1, 446_667),
        // duty 50: 2233.33
        (1, 2, 223_333),
        // duty 3: 134.00
        (3, 100, 13_400),
        // duty 1: 44.67
        (1, 100, 4_467),
        // duty 95: 4243.33
        (95, 100, 424_333),
    ];

    for (on, off, flow) in cases.iter() {
        let cycle = Cycle { on_millis: *on, off_millis: *off };

        assert_eq!(Some(*flow), cycle.in_flow_hundredths());
    }
}

#[test]
fn test_cycle_of_no_length() {
    let mut state = State::Unknown;

    assert_eq!(None, state.to_off(500));
    assert!(state.to_on(500));

    assert_eq!(
        Some(DutyResult { duty_percent: None, in_flow: None }),
        state.to_off(500)
    );
    assert_eq!(State::Off { off_time: 500 }, state);

    let cycle = Cycle { on_millis: 0, off_millis: 0 };

    assert_eq!(None, cycle.duty_percent());
    assert_eq!(None, cycle.in_flow_hundredths());
}
