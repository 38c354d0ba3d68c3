use coverart::classify::classify;

#[test]
fn classify_large_returns_300() {
    assert_eq!(classify(500, 400), (300, 300));
    assert_eq!(classify(301, 10), (300, 300));
    assert_eq!(classify(10, 301), (300, 300));
    assert_eq!(classify(301, 301), (300, 300));
    assert_eq!(classify(u32::MAX, 1), (300, 300));
}

#[test]
fn classify_small_is_identity() {
    assert_eq!(classify(150, 100), (150, 100));
    assert_eq!(classify(200, 200), (200, 200));
    assert_eq!(classify(1, 1), (1, 1));
    assert_eq!(classify(0, 0), (0, 0));
}

#[test]
fn classify_middle_returns_200() {
    assert_eq!(classify(250, 100), (200, 200));
    assert_eq!(classify(100, 250), (200, 200));
    assert_eq!(classify(300, 300), (200, 200));
    assert_eq!(classify(201, 200), (200, 200));
    assert_eq!(classify(200, 201), (200, 200));
}
