use backend::get_version;

#[test]
fn get_version_matches_crate_metadata() {
    assert_eq!(get_version(), "0.0.1");
}

#[test]
fn get_version_is_non_empty() {
    assert!(!get_version().is_empty());
}

#[test]
fn get_version_twice_yields_equal_strings() {
    let first = get_version();
    let second = get_version();
    assert_eq!(first, second);
}
