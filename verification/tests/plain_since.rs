use gtrend::gtrend::Since;

#[test]
fn test_since_to_string() {
    let x: &str = Since::Daily.to_string();
    assert_eq!(x, "daily");
}

#[test]
fn test_since_from_string() {
    let x: Since = Since::from_string("daily");
    assert_eq!(x, Since::Daily);
}
