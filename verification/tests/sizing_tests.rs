use btc_toolkit::sizing::{calculate_buffer_size, MAX_BUFFER, MIN_BUFFER};

#[test]
fn buffer_size_of_reference_estimates() {
    assert_eq!(calculate_buffer_size(0), 50);
    assert_eq!(calculate_buffer_size(500), 100);
    assert_eq!(calculate_buffer_size(20000), 1000);
}

#[test]
fn buffer_size_grows_by_one_slot_per_ten_hosts() {
    assert_eq!(calculate_buffer_size(9), 50);
    assert_eq!(calculate_buffer_size(10), 51);
    assert_eq!(calculate_buffer_size(256), 75);
    assert_eq!(calculate_buffer_size(9499), 999);
    assert_eq!(calculate_buffer_size(9500), 1000);
    assert_eq!(calculate_buffer_size(9510), 1000);
}

#[test]
fn buffer_size_never_falls_as_the_estimate_grows() {
    let mut previous = calculate_buffer_size(0);
    let mut estimate: usize = 0;
    while estimate <= 12000 {
        let size = calculate_buffer_size(estimate);
        assert!(size >= previous);
        assert!(size >= MIN_BUFFER);
        assert!(size <= MAX_BUFFER);
        previous = size;
        estimate += 7;
    }
}

#[test]
fn buffer_size_of_the_largest_estimate_is_the_cap() {
    assert_eq!(calculate_buffer_size(usize::MAX), 1000);
}
