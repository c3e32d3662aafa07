use panoptic::version::get_app_version;

#[test]
fn version_is_the_build_time_string() {
    assert_eq!(get_app_version(), "0.1.0".to_string());
}

#[test]
fn version_is_non_empty() {
    assert!(!get_app_version().is_empty());
}

#[test]
fn version_is_identical_across_calls() {
    let first = get_app_version();
    let second = get_app_version();
    let third = get_app_version();
    assert_eq!(first, second);
    assert_eq!(second, third);
}
