use brotli_boundary::params::{
    clamp_quality, clamp_window_size, MAX_QUALITY, MAX_WINDOW_SIZE, MIN_WINDOW_SIZE,
};
use brotli_boundary::CompressionParameters;

#[test]
fn limits_are_those_of_the_codec() {
    assert_eq!(MAX_QUALITY, 11);
    assert_eq!(MIN_WINDOW_SIZE, 10);
    assert_eq!(MAX_WINDOW_SIZE, 24);
}

#[test]
fn quality_is_capped_at_eleven() {
    assert_eq!(clamp_quality(0), 0);
    assert_eq!(clamp_quality(6), 6);
    assert_eq!(clamp_quality(11), 11);
    assert_eq!(clamp_quality(12), 11);
    assert_eq!(clamp_quality(255), 11);
    assert_eq!(clamp_quality(u32::MAX), 11);
}

#[test]
fn window_size_is_kept_between_ten_and_twenty_four() {
    assert_eq!(clamp_window_size(0), 10);
    assert_eq!(clamp_window_size(1), 10);
    assert_eq!(clamp_window_size(9), 10);
    assert_eq!(clamp_window_size(10), 10);
    assert_eq!(clamp_window_size(22), 22);
    assert_eq!(clamp_window_size(24), 24);
    assert_eq!(clamp_window_size(25), 24);
    assert_eq!(clamp_window_size(u32::MAX), 24);
}

#[test]
fn clamping_twice_is_clamping_once() {
    for quality in [0, 5, 11, 12, 255, u32::MAX] {
        assert_eq!(clamp_quality(clamp_quality(quality)), clamp_quality(quality));
    }
    for window_size in [0, 1, 10, 17, 24, 25, u32::MAX] {
        assert_eq!(
            clamp_window_size(clamp_window_size(window_size)),
            clamp_window_size(window_size)
        );
    }
}

#[test]
fn parameters_are_normalised_when_built() {
    let params = CompressionParameters::new(255, 1);
    assert_eq!(params.quality(), 11);
    assert_eq!(params.window_size(), 10);
    let params = CompressionParameters::new(6, 22);
    assert_eq!(params.quality(), 6);
    assert_eq!(params.window_size(), 22);
    let params = CompressionParameters::new(0, 99);
    assert_eq!(params.quality(), 0);
    assert_eq!(params.window_size(), 24);
}
