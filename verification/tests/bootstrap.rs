use stats::sample::Sample;
use stats::tuple::TupledDistributions;
use stats::univariate::{bootstrap, bootstrap_with, ceil_sqrt};

fn mean(s: &Sample<f64>) -> f64 {
    let mut sum = 0.0;
    let mut i = 0;
    while i < s.len() {
        sum += s.get(i);
        i += 1;
    }
    sum / (s.len() as f64)
}

fn mean_diff(x: &Sample<f64>, y: &Sample<f64>) -> Vec<f64> {
    vec![mean(x) - mean(y)]
}

#[test]
fn exact_count_sequential() {
    let a = Sample::new(vec![1.0f64, 2.0, 3.0]);
    let b = Sample::new(vec![4.0f64, 5.0]);
    for &n in &[0usize, 1, 5, 7, 100] {
        let d: TupledDistributions<f64> = bootstrap_with(&a, &b, n, 1, 1, 11, mean_diff);
        assert_eq!(d.fields.len(), 1);
        assert_eq!(d.fields[0].len(), n);
    }
}

#[test]
fn exact_count_parallel() {
    let a = Sample::new(vec![1.0f64, 2.0, 3.0]);
    let b = Sample::new(vec![4.0f64, 5.0]);
    // nresamples > len(a) + len(b) and workers > 1 force the partitioned path.
    for &n in &[6usize, 7, 64, 100, 101] {
        let d: TupledDistributions<f64> = bootstrap_with(&a, &b, n, 1, 4, 12, mean_diff);
        assert_eq!(d.fields.len(), 1);
        assert_eq!(d.fields[0].len(), n);
    }
}

#[test]
fn paths_agree_on_shape() {
    let a = Sample::new(vec![1.0f64, 2.0, 3.0]);
    let b = Sample::new(vec![4.0f64, 5.0]);
    let seq: TupledDistributions<f64> = bootstrap_with(&a, &b, 50, 1, 1, 5, mean_diff);
    let par: TupledDistributions<f64> = bootstrap_with(&a, &b, 50, 1, 8, 6, mean_diff);
    assert_eq!(seq.fields.len(), par.fields.len());
    for f in 0..seq.fields.len() {
        assert_eq!(seq.fields[f].len(), par.fields[f].len());
    }
}

#[test]
fn mean_difference_scenario() {
    let a = Sample::new(vec![1.0f64, 2.0, 3.0]);
    let b = Sample::new(vec![4.0f64, 5.0]);
    let d: TupledDistributions<f64> = bootstrap(&a, &b, 100, 1, mean_diff);
    assert_eq!(d.fields.len(), 1);
    assert_eq!(d.fields[0].len(), 100);
    for &v in &d.fields[0] {
        assert!((-4.0..=-1.0).contains(&v), "value {} out of range", v);
    }
}

#[test]
fn zero_resamples() {
    let a = Sample::new(vec![1.0f64, 2.0]);
    let b = Sample::new(vec![3.0f64]);
    let d: TupledDistributions<f64> = bootstrap(&a, &b, 0, 1, mean_diff);
    assert_eq!(d.fields.len(), 1);
    assert_eq!(d.fields[0].len(), 0);
}

#[test]
fn one_resample_two_fields_aligned() {
    let a = Sample::new(vec![1.0f64, 2.0, 3.0]);
    let b = Sample::new(vec![4.0f64, 5.0]);
    // The second field is a function of the first, so equal indices must
    // come from the same invocation.
    let paired = |x: &Sample<f64>, y: &Sample<f64>| -> Vec<f64> {
        let m = mean(x) - mean(y);
        vec![m, 2.0 * m + 1.0]
    };
    let d: TupledDistributions<f64> = bootstrap(&a, &b, 1, 2, paired);
    assert_eq!(d.fields.len(), 2);
    assert_eq!(d.fields[0].len(), 1);
    assert_eq!(d.fields[1].len(), 1);
    assert_eq!(d.fields[1][0], 2.0 * d.fields[0][0] + 1.0);
}

#[test]
fn two_fields_aligned_across_paths() {
    let a = Sample::new(vec![10.0f64, 20.0]);
    let b = Sample::new(vec![1.0f64]);
    let paired = |x: &Sample<f64>, y: &Sample<f64>| -> Vec<f64> {
        let m = mean(x) - mean(y);
        vec![m, 2.0 * m + 1.0]
    };
    for &workers in &[1usize, 3, 7] {
        let d: TupledDistributions<f64> = bootstrap_with(&a, &b, 33, 2, workers, 9, paired);
        assert_eq!(d.fields.len(), 2);
        for j in 0..33 {
            assert_eq!(d.fields[1][j], 2.0 * d.fields[0][j] + 1.0);
        }
    }
}

#[test]
fn non_square_counts_truncate() {
    let a = Sample::new(vec![1.0f64, 2.0]);
    let b = Sample::new(vec![3.0f64]);
    // None of these is a perfect square; the run must still produce exactly
    // n evaluations, not ceil(sqrt(n))^2.
    for &n in &[2usize, 3, 5, 7, 8, 10, 99] {
        let s = ceil_sqrt(n);
        assert!(s * s >= n && (s - 1) * (s - 1) < n);
        let d: TupledDistributions<f64> = bootstrap_with(&a, &b, n, 1, 1, 21, mean_diff);
        assert_eq!(d.fields[0].len(), n);
        let p: TupledDistributions<f64> = bootstrap_with(&a, &b, n, 1, 5, 22, mean_diff);
        assert_eq!(p.fields[0].len(), n);
    }
}

#[test]
fn ceil_sqrt_values() {
    let cases = [
        (0usize, 0usize),
        (1, 1),
        (2, 2),
        (3, 2),
        (4, 2),
        (5, 3),
        (9, 3),
        (10, 4),
        (16, 4),
        (17, 5),
        (100, 10),
        (101, 11),
    ];
    for &(n, s) in &cases {
        assert_eq!(ceil_sqrt(n), s, "ceil_sqrt({})", n);
    }
}

#[test]
fn values_are_resample_means() {
    // With a constant sample, every resample mean is that constant: the
    // distribution must be constant too.
    let a = Sample::new(vec![2.5f64, 2.5, 2.5]);
    let b = Sample::new(vec![0.5f64]);
    let d: TupledDistributions<f64> = bootstrap(&a, &b, 40, 1, mean_diff);
    for &v in &d.fields[0] {
        assert_eq!(v, 2.0);
    }
}
