use edgars::{NAME, VERSION};

#[test]
fn lib_test_version_defined() {
    assert!(!VERSION.is_empty());
}

#[test]
fn lib_test_name_defined() {
    assert_eq!(NAME, "edgars");
}

#[test]
fn test_version_defined() {
    assert!(!VERSION.is_empty());
}

#[test]
fn test_name_defined() {
    assert_eq!(NAME, "edgars");
}

#[test]
fn version_is_dotted_numbers() {
    assert!(VERSION.split('.').count() >= 2);
    assert!(VERSION.chars().all(|c| c.is_ascii_digit() || c == '.'));
}
