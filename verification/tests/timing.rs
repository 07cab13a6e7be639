use dining_philosophers::timing::sample_duration;

#[test]
fn single_time_range_gives_that_time() {
    for _ in 0..50 {
        assert_eq!(sample_duration((10, 10)), 10);
    }
    assert_eq!(sample_duration((0, 0)), 0);
    assert_eq!(sample_duration((u32::MAX, u32::MAX)), u32::MAX);
}

#[test]
fn samples_stay_in_the_range() {
    for _ in 0..1000 {
        let time = sample_duration((5, 8));
        assert!(5 <= time && time < 8);
    }
    for _ in 0..100 {
        assert_eq!(sample_duration((41, 42)), 41);
    }
}

#[test]
fn samples_vary() {
    let first = sample_duration((100, 1_000_000_000));
    let mut differs = false;
    for _ in 0..200 {
        let time = sample_duration((100, 1_000_000_000));
        assert!(100 <= time && time < 1_000_000_000);
        if time != first {
            differs = true;
        }
    }
    assert!(differs);
}
