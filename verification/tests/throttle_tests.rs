use btc_toolkit::throttle::{ProgressThrottle, PROGRESS_THROTTLE_MS};

#[test]
fn reference_interval_is_a_tenth_of_a_second() {
    assert_eq!(PROGRESS_THROTTLE_MS, 100);
}

#[test]
fn first_report_always_passes() {
    let mut throttle = ProgressThrottle::new(100);
    assert_eq!(throttle.last_emit, None);
    assert!(throttle.should_emit(0));
    assert_eq!(throttle.last_emit, Some(0));

    let mut late = ProgressThrottle::new(100);
    assert!(late.should_emit(5));
    assert_eq!(late.last_emit, Some(5));
}

#[test]
fn report_inside_the_interval_is_held_back() {
    let mut throttle = ProgressThrottle::new(100);
    assert!(throttle.should_emit(1000));
    assert!(!throttle.should_emit(1000));
    assert!(!throttle.should_emit(1050));
    assert!(!throttle.should_emit(1099));
    assert_eq!(throttle.last_emit, Some(1000));
}

#[test]
fn report_at_the_interval_passes() {
    let mut throttle = ProgressThrottle::new(100);
    assert!(throttle.should_emit(1000));
    assert!(throttle.should_emit(1100));
    assert_eq!(throttle.last_emit, Some(1100));
    assert!(!throttle.should_emit(1199));
    assert!(throttle.should_emit(1200));
}

#[test]
fn clock_that_steps_back_lets_nothing_through() {
    let mut throttle = ProgressThrottle::new(100);
    assert!(throttle.should_emit(5000));
    assert!(!throttle.should_emit(10));
    assert_eq!(throttle.last_emit, Some(5000));
}

#[test]
fn forwarded_reports_are_spaced_by_the_interval() {
    let times: Vec<u64> = vec![0, 10, 99, 100, 101, 150, 199, 200, 260, 300, 301, 450, 460, 549, 550];
    let mut throttle = ProgressThrottle::new(PROGRESS_THROTTLE_MS);
    let mut forwarded: Vec<u64> = Vec::new();
    for t in times {
        if throttle.should_emit(t) {
            forwarded.push(t);
        }
    }
    assert_eq!(forwarded, vec![0, 100, 200, 300, 450, 550]);
    for pair in forwarded.windows(2) {
        assert!(pair[1] - pair[0] >= PROGRESS_THROTTLE_MS);
    }
}

#[test]
fn zero_interval_lets_every_report_through() {
    let mut throttle = ProgressThrottle::new(0);
    assert!(throttle.should_emit(7));
    assert!(throttle.should_emit(7));
    assert!(throttle.should_emit(8));
}
