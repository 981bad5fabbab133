use containerless::autoscaler::Autoscaler;
use containerless::windowed_max::WindowedMax;

#[test]
fn empty_window_has_maximum_zero() {
    let window = WindowedMax::new(3);
    assert_eq!(window.len(), 0);
    assert_eq!(window.max(), 0);
}

#[test]
fn window_gives_the_maximum_of_what_it_holds() {
    let mut window = WindowedMax::new(3);
    window.push(4);
    assert_eq!(window.max(), 4);
    window.push(9);
    window.push(2);
    assert_eq!(window.len(), 3);
    assert_eq!(window.max(), 9);
}

#[test]
fn full_window_evicts_the_oldest_sample() {
    let mut window = WindowedMax::new(3);
    for sample in [9, 1, 2] {
        window.push(sample);
    }
    window.push(3);
    assert_eq!(window.len(), 3);
    assert_eq!(window.max(), 3);
    window.push(0);
    window.push(0);
    assert_eq!(window.max(), 3);
    window.push(0);
    assert_eq!(window.max(), 0);
}

#[test]
fn window_of_one_keeps_the_last_sample() {
    let mut window = WindowedMax::new(1);
    window.push(7);
    window.push(5);
    assert_eq!(window.len(), 1);
    assert_eq!(window.max(), 5);
}

#[test]
fn window_wraps_around_many_times() {
    let mut window = WindowedMax::new(4);
    for sample in 0..23usize {
        window.push(sample);
        assert_eq!(window.max(), sample);
    }
    for _ in 0..3 {
        window.push(0);
    }
    assert_eq!(window.max(), 22);
    window.push(0);
    assert_eq!(window.max(), 0);
}

#[test]
fn target_is_the_ceiling_of_load_over_rate() {
    let mut scaler = Autoscaler::new(5, 10, 8);
    assert_eq!(scaler.target(), 1);
    assert_eq!(scaler.tick(10, 1), None);
    assert_eq!(scaler.tick(11, 1), Some(2));
    assert_eq!(scaler.tick(20, 2), None);
    assert_eq!(scaler.tick(21, 2), Some(3));
    assert_eq!(scaler.target(), 3);
}

#[test]
fn target_is_clamped_between_one_and_the_maximum() {
    let mut scaler = Autoscaler::new(2, 10, 4);
    assert_eq!(scaler.tick(0, 1), None);
    assert_eq!(scaler.tick(0, 3), Some(1));
    assert_eq!(scaler.tick(1000, 1), Some(4));
    assert_eq!(scaler.tick(usize::MAX, 4), None);
}

#[test]
fn scale_down_waits_for_the_burst_to_leave_the_window() {
    let mut scaler = Autoscaler::new(3, 10, 10);
    assert_eq!(scaler.tick(50, 1), Some(5));
    assert_eq!(scaler.tick(0, 5), None);
    assert_eq!(scaler.tick(0, 5), None);
    assert_eq!(scaler.tick(0, 5), Some(1));
}

#[test]
fn window_gives_the_minimum_of_what_it_holds() {
    let mut window = WindowedMax::new(3);
    assert_eq!(window.min(), 0);
    window.push(4);
    assert_eq!(window.min(), 4);
    window.push(9);
    window.push(2);
    assert_eq!(window.min(), 2);
    window.push(7);
    window.push(8);
    window.push(9);
    assert_eq!(window.min(), 7);
    assert!(window.is_full());
}

#[test]
fn load_is_steady_when_all_samples_call_for_the_same_replicas() {
    let mut scaler = Autoscaler::new(3, 10, 8);
    scaler.tick(11, 2);
    scaler.tick(20, 2);
    assert!(!scaler.is_steady(2));
    scaler.tick(15, 2);
    assert!(scaler.is_steady(2));
    assert!(!scaler.is_steady(3));
    scaler.tick(5, 2);
    assert!(!scaler.is_steady(2));
}
