use llvm_jit::{Reply, Request, Version};

#[test]
fn test_version() {
    let v = Version::minimum();
    assert!(v.major >= 3);
    assert!(v.minor >= 6);
}

#[test]
fn minimum_version_is_supported() {
    assert_eq!(Version::minimum(), Version::new(3, 6));
    assert!(Version::minimum().is_supported());
    assert!(Version::new(3, 6).is_supported());
}

#[test]
fn older_versions_are_not_supported() {
    assert!(!Version::new(3, 5).is_supported());
    assert!(!Version::new(2, 9).is_supported());
    assert!(!Version::new(0, 0).is_supported());
}

#[test]
fn later_versions_are_supported_whatever_their_minor() {
    assert!(Version::new(3, 7).is_supported());
    assert!(Version::new(4, 0).is_supported());
    assert!(Version::new(14, 0).is_supported());
}

#[test]
fn the_version_is_asked_in_two_requests_and_read_from_two_answers() {
    assert_eq!(Version::query(), (Request::VersionMajor, Request::VersionMinor));
    let v = Version::read(&Reply::found(3), &Reply::found(8));
    assert_eq!(v, Version::new(3, 8));
    assert!(v.is_supported());
    let v = Version::read(&Reply::found(14), &Reply::found(0));
    assert_eq!(v, Version { major: 14, minor: 0 });
    assert!(v.is_supported());
    let v = Version::read(&Reply::found(3), &Reply::found(5));
    assert!(!v.is_supported());
}
