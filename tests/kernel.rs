use tech_analysis::{kernel_layout, KernelError, KernelLayout, KernelStrategy};

#[test]
fn five_bar_series_with_window_of_three() {
    let layout = kernel_layout(5, 2, 1, KernelStrategy::Batch).unwrap();
    assert_eq!(layout, KernelLayout { len: 5, window_size: 3, first_valid: 2 });
    let starts = layout.fill_bars(None, |t| Some(layout.window_start(t)));
    assert_eq!(starts, vec![None, None, Some(0), Some(1), Some(2)]);
    assert_eq!(layout.window_count(), 3);
    assert!(layout.is_warm_up(0));
    assert!(layout.is_warm_up(1));
    assert!(!layout.is_warm_up(2));
}

#[test]
fn strategies_share_the_warm_up() {
    for len in 0..12usize {
        for start in -2..8i32 {
            for look_back in -1..3i32 {
                assert_eq!(
                    kernel_layout(len, look_back, start, KernelStrategy::Batch),
                    kernel_layout(len, look_back, start, KernelStrategy::Reference)
                );
            }
        }
    }
}

#[test]
fn plan_length_matches_series() {
    for len in 2..40usize {
        for start in 0..(len as i32 - 1) {
            let layout = kernel_layout(len, 8, start, KernelStrategy::Reference).unwrap();
            let plan = layout.fill_bars(0.0, |t| t as f64 + 1.0);
            assert_eq!(plan.len(), len);
            let warm = plan.iter().take_while(|e| **e == 0.0).count();
            assert_eq!(warm, start as usize + 1);
            assert_eq!(warm + layout.window_count(), len);
        }
    }
}

#[test]
fn lags_read_backwards_from_the_bar() {
    let layout = kernel_layout(30, 8, 25, KernelStrategy::Reference).unwrap();
    assert_eq!(layout.window_size, 27);
    assert_eq!(layout.first_valid, 26);
    assert_eq!(layout.source_index(26, 0), 26);
    assert_eq!(layout.source_index(26, 26), 0);
    assert_eq!(layout.source_index(29, 3), 26);
    assert_eq!(layout.window_start(29), 3);
    assert_eq!(layout.window_start(26), 0);
}

#[test]
fn series_exactly_one_window_long() {
    let layout = kernel_layout(3, 1, 1, KernelStrategy::Batch).unwrap();
    assert_eq!(layout.fill_bars(0.0, |_| 7.5), vec![0.0, 0.0, 7.5]);
    assert_eq!(layout.window_count(), 1);
}

#[test]
fn short_series_is_rejected() {
    assert_eq!(kernel_layout(2, 2, 1, KernelStrategy::Batch), Err(KernelError::SeriesTooShort));
    assert_eq!(kernel_layout(0, 2, 0, KernelStrategy::Reference), Err(KernelError::SeriesTooShort));
}

#[test]
fn non_positive_look_back_is_rejected() {
    assert_eq!(kernel_layout(10, 0, 1, KernelStrategy::Batch), Err(KernelError::NonPositiveLookBack));
    assert_eq!(kernel_layout(10, -4, 1, KernelStrategy::Reference), Err(KernelError::NonPositiveLookBack));
}

#[test]
fn negative_start_at_bar_is_rejected() {
    assert_eq!(kernel_layout(10, 2, -1, KernelStrategy::Batch), Err(KernelError::NegativeStartAtBar));
}

#[test]
fn largest_start_at_bar_is_rejected_not_overflowed() {
    assert_eq!(kernel_layout(10, 2, i32::MAX, KernelStrategy::Batch), Err(KernelError::SeriesTooShort));
}

fn rational_quadratic_weight(i: usize, look_back: f64, relative_weight: f64) -> f64 {
    (1.0 + (i * i) as f64 / (look_back * look_back * 2.0 * relative_weight)).powf(-relative_weight)
}

#[test]
fn weighted_average_on_five_bars() {
    let src = [1.0, 2.0, 3.0, 4.0, 5.0];
    let layout = kernel_layout(src.len(), 2, 1, KernelStrategy::Reference).unwrap();
    let w: Vec<f64> = (0..3).map(|i| rational_quadratic_weight(i, 2.0, 3.0)).collect();
    let out = layout.fill_bars(0.0, |t| {
        let mut num = 0.0;
        let mut den = 0.0;
        for lag in 0..layout.window_size {
            num += src[layout.source_index(t, lag)] * w[lag];
            den += w[lag];
        }
        num / den
    });
    assert_eq!(out.len(), 5);
    assert_eq!(out[0], 0.0);
    assert_eq!(out[1], 0.0);
    for t in 2..5 {
        let expected = (src[t] * w[0] + src[t - 1] * w[1] + src[t - 2] * w[2]) / (w[0] + w[1] + w[2]);
        assert!((out[t] - expected).abs() < 1e-12);
    }
    assert!((out[2] - 2.147252446514758).abs() < 1e-12);
    assert!((out[3] - 3.147252446514758).abs() < 1e-12);
    assert!((out[4] - 4.147252446514758).abs() < 1e-12);
}

#[test]
fn batch_window_reversed_reads_lags() {
    let src: Vec<u64> = (0..20).map(|x| x * x + 3).collect();
    let batch = kernel_layout(src.len(), 4, 5, KernelStrategy::Batch).unwrap();
    let reference = kernel_layout(src.len(), 4, 5, KernelStrategy::Reference).unwrap();
    for t in batch.first_valid..batch.len {
        let start = batch.window_start(t);
        let mut window: Vec<u64> = src[start..start + batch.window_size].to_vec();
        window.reverse();
        for lag in 0..reference.window_size {
            assert_eq!(window[lag], src[reference.source_index(t, lag)]);
        }
    }
}
