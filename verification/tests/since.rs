use gtrend::Since;

#[test]
fn since_to_str() {
    let x: &str = Since::Daily.to_str();
    assert_eq!(x, "daily");
}

#[test]
fn since_from_str() {
    let x: Since = Since::from_str("daily").unwrap_or(Since::Daily);
    assert_eq!(x, Since::Daily);
}
