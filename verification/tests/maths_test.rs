use esp_fan::maths::RangeDomainMapper;

#[test]
fn mapper_ascending_domain() {
    let m = RangeDomainMapper::new((0, 15), (0, 3200));
    assert_eq!(m.value(&0), 0);
    assert_eq!(m.value(&1), 213);
    assert_eq!(m.value(&14), 2986);
    assert_eq!(m.value(&15), 3200);
}

#[test]
fn mapper_clamps_outside_range() {
    let m = RangeDomainMapper::new((10, 20), (100, 200));
    assert_eq!(m.value(&0), 100);
    assert_eq!(m.value(&10), 100);
    assert_eq!(m.value(&15), 150);
    assert_eq!(m.value(&20), 200);
    assert_eq!(m.value(&1000), 200);
}

#[test]
fn mapper_inverted_domain() {
    let m = RangeDomainMapper::new((0, 10), (100, 0));
    assert_eq!(m.value(&0), 100);
    assert_eq!(m.value(&3), 70);
    assert_eq!(m.value(&10), 0);
    assert_eq!(m.value(&11), 0);
}

#[test]
fn mapper_rounds_towards_domain_start() {
    // 1 * 10 / 3 = 3 (rounded down), in both directions.
    let up = RangeDomainMapper::new((0, 3), (0, 10));
    assert_eq!(up.value(&1), 3);
    let down = RangeDomainMapper::new((0, 3), (10, 0));
    assert_eq!(down.value(&1), 7);
}

#[test]
fn mapper_monotonic() {
    let m = RangeDomainMapper::new((3, 40), (7, 1000));
    let mut last = 0;
    for v in 0u32..50 {
        let r = m.value(&v);
        assert!(r >= last);
        assert!((7..=1000).contains(&r));
        last = r;
    }
}
