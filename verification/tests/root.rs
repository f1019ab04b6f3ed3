use acton_ern::{ArnError, Root, UnixTime};

#[test]
fn test_root_creation() {
    let root: Root<UnixTime> = Root::new("test").unwrap();
    assert!(root.as_str().starts_with("test"));
}

#[test]
fn test_root_default() {
    let root: Root<UnixTime> = Root::default();
    assert!(root.as_str().starts_with("acton"));
}

#[test]
fn test_root_display() {
    let root: Root<UnixTime> = Root::new("example").unwrap();
    assert!(format!("{}", root.as_str()).starts_with("example"));
}

#[test]
fn test_root_from_str() {
    let root: Root<UnixTime> = "test".parse().unwrap();
    assert!(root.as_str().starts_with("test"));
}

#[test]
fn test_root_equality() -> Result<(), ArnError> {
    let root1: Root<UnixTime> = Root::new("test")?;
    let root2: Root<UnixTime> = Root::new("test")?;
    let root3: Root<UnixTime> = Root::new("other")?;
    assert_ne!(root1, root2);
    assert_ne!(root1, root3);
    Ok(())
}

#[test]
fn test_root_into_string() {
    let root: Root<UnixTime> = Root::new("test").unwrap();
    let string: String = root.into_string();
    assert!(string.starts_with("test"));
}
