use engram_accel::ragged::{get_or, map_with_defaults};

#[test]
fn get_or_reads_default_past_end() {
    let v = vec![1.5f64, 2.5];
    assert_eq!(get_or(&v, 0, 0.0), 1.5);
    assert_eq!(get_or(&v, 1, 0.0), 2.5);
    assert_eq!(get_or(&v, 2, 0.0), 0.0);
    assert_eq!(get_or(&Vec::<u32>::new(), 0, 7), 7);
}

#[test]
fn short_parameters_use_defaults() {
    let items = vec![(1.0f64, 0.5f64, 0.25f64), (0.9, 0.8, 0.7), (0.3, 0.2, 0.1)];
    let days = vec![2.0f64];
    let counts = vec![4u32, 5];
    let out = map_with_defaults(&items, &days, 0.0, &counts, 0, &|t: (f64, f64, f64), d: f64, c: u32| {
        (t.0, d, c)
    });
    assert_eq!(out, vec![(1.0, 2.0, 4), (0.9, 0.0, 5), (0.3, 0.0, 0)]);
}

#[test]
fn extra_parameters_are_ignored() {
    let items = vec![10u32];
    let out = map_with_defaults(&items, &vec![1u32, 2, 3], 0, &vec![7u32, 8], 0, &|a: u32, b: u32, c: u32| a + b + c);
    assert_eq!(out, vec![18]);
}

#[test]
fn zero_days_leave_value_unchanged() {
    let items = vec![0.75f64, 0.5];
    let days: Vec<f64> = Vec::new();
    let counts: Vec<u32> = Vec::new();
    let out = map_with_defaults(&items, &days, 0.0, &counts, 0, &|s: f64, d: f64, _c: u32| {
        s * (-0.3 * d).exp()
    });
    assert_eq!(out, vec![0.75, 0.5]);
}
