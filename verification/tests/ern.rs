use std::str::FromStr;

use acton_ern::{Account, ArnError, Category, Domain, Eid, Part, Parts, Root, UnixTime};

#[test]
fn test_eid_with_root() {
    let eid: Eid<UnixTime> = Eid::with_root("custom_root").unwrap();
    assert!(eid.root.as_str().starts_with("custom_root"));
    assert_eq!(eid.domain, Domain::default());
    assert_eq!(eid.category, Category::default());
    assert_eq!(eid.account, Account::default());
    assert_eq!(eid.parts, Parts::default());
}

#[test]
fn test_eid_with_new_root() {
    let original_eid: Eid<UnixTime> = Eid::default();
    let new_eid: Eid<UnixTime> = original_eid.with_new_root("new_root").unwrap();
    assert!(new_eid.root.as_str().starts_with("new_root"));
    assert_eq!(new_eid.domain, original_eid.domain);
    assert_eq!(new_eid.category, original_eid.category);
    assert_eq!(new_eid.account, original_eid.account);
    assert_eq!(new_eid.parts, original_eid.parts);
}

#[test]
fn test_add_eids() -> Result<(), ArnError> {
    let parent_root: Root<UnixTime> = Root::from_str("root_a")?;
    let parent: Eid<UnixTime> = Eid::new(
        Domain::from_str("acton-internal").unwrap(),
        Category::from_str("hr").unwrap(),
        Account::from_str("company123").unwrap(),
        parent_root.clone(),
        Parts(vec![
            Part::from_str("department_a").unwrap(),
            Part::from_str("team1").unwrap(),
        ]),
    );

    let child: Eid<UnixTime> = Eid::new(
        Domain::from_str("acton-internal").unwrap(),
        Category::from_str("hr").unwrap(),
        Account::from_str("company123").unwrap(),
        Root::from_str("root_b").unwrap(),
        Parts(vec![Part::from_str("role_x").unwrap()]),
    );

    let combined: Eid<UnixTime> = parent + child;

    assert_eq!(combined.domain, Domain::from_str("acton-internal").unwrap());
    assert_eq!(combined.category, Category::from_str("hr").unwrap());
    assert_eq!(combined.account, Account::from_str("company123").unwrap());
    assert_eq!(combined.root, parent_root);
    assert_eq!(
        combined.parts,
        Parts(vec![
            Part::from_str("department_a").unwrap(),
            Part::from_str("team1").unwrap(),
            Part::from_str("role_x").unwrap(),
        ])
    );
    Ok(())
}

#[test]
fn test_add_eids_empty_child() {
    let parent: Eid<UnixTime> = Eid::new(
        Domain::from_str("acton-internal").unwrap(),
        Category::from_str("hr").unwrap(),
        Account::from_str("company123").unwrap(),
        Root::from_str("rootp").unwrap(),
        Parts(vec![Part::from_str("department_a").unwrap()]),
    );

    let child: Eid<UnixTime> = Eid::new(
        Domain::from_str("acton-internal").unwrap(),
        Category::from_str("hr").unwrap(),
        Account::from_str("company123").unwrap(),
        Root::from_str("rootc").unwrap(),
        Parts(vec![]),
    );

    let combined = parent + child;

    assert_eq!(
        combined.parts,
        Parts(vec![Part::from_str("department_a").unwrap()])
    );
}

#[test]
fn test_add_eids_empty_parent() {
    let parent: Eid<UnixTime> = Eid::new(
        Domain::from_str("acton-internal").unwrap(),
        Category::from_str("hr").unwrap(),
        Account::from_str("company123").unwrap(),
        Root::from_str("rootp").unwrap(),
        Parts(vec![]),
    );
    let child: Eid<UnixTime> = Eid::new(
        Domain::from_str("acton-internal").unwrap(),
        Category::from_str("hr").unwrap(),
        Account::from_str("company123").unwrap(),
        Root::from_str("rootc").unwrap(),
        Parts(vec![Part::from_str("role_x").unwrap()]),
    );
    let combined = parent + child;
    assert_eq!(combined.parts, Parts(vec![Part::from_str("role_x").unwrap()]));
}

#[test]
fn test_add_eids_display() {
    let parent: Eid<UnixTime> = Eid::new(
        Domain::from_str("acton-internal").unwrap(),
        Category::from_str("hr").unwrap(),
        Account::from_str("company123").unwrap(),
        Root::from_str("rootp").unwrap(),
        Parts(vec![Part::from_str("department_a").unwrap()]),
    );

    let child: Eid<UnixTime> = Eid::new(
        Domain::from_str("acton-internal").unwrap(),
        Category::from_str("hr").unwrap(),
        Account::from_str("company123").unwrap(),
        Root::from_str("rootc").unwrap(),
        Parts(vec![Part::from_str("team1").unwrap()]),
    );

    let combined = parent + child;

    assert!(combined
        .to_text()
        .starts_with("eid:acton-internal:hr:company123:rootp"));
}

#[test]
fn test_eid_custom() -> Result<(), ArnError> {
    let eid: Eid<UnixTime> = Eid::new(
        Domain::new("custom")?,
        Category::new("service"),
        Account::new("account123"),
        Root::new("root")?,
        Parts::new(vec![Part::new("resource")?]),
    );
    assert!(eid
        .to_text()
        .starts_with("eid:custom:service:account123:root"));
    Ok(())
}

#[test]
fn test_eid_append_invalid_part() -> Result<(), ArnError> {
    let invalid_part = Part::new(":invalid");

    assert!(invalid_part.is_err());
    Ok(())
}
