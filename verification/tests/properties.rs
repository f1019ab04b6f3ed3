use acton_ern::{
    Account, ArnError, Category, Domain, Eid, Ern, ErnBuilder, ErnParser, Part, Parts,
    PrivateErnBuilder, Root, Timestamp, UnixTime,
};

#[test]
fn round_trip_built_identifier() -> Result<(), ArnError> {
    let ern: Ern<UnixTime> = ErnBuilder::new()
        .with::<Domain>("acton-internal")?
        .with::<Category>("hr")?
        .with::<Account>("company123")?
        .with::<Root<UnixTime>>("root")?
        .with::<Part>("departmentA")?
        .with::<Part>("team1")?
        .build()?;
    let parsed: Ern<UnixTime> = ErnParser::new(ern.to_text()).parse()?;
    assert_eq!(parsed, ern);
    Ok(())
}

#[test]
fn round_trip_without_parts() -> Result<(), ArnError> {
    let ern: Ern<UnixTime> = ErnBuilder::new()
        .with::<Domain>("custom")?
        .with::<Category>("service")?
        .with::<Account>("account123")?
        .with::<Root<UnixTime>>("resource")?
        .build()?;
    let parsed: Ern<UnixTime> = ErnParser::new(ern.to_text()).parse()?;
    assert_eq!(parsed, ern);
    Ok(())
}

#[test]
fn part_validation_cases() {
    assert!(Part::new("").is_err());
    assert!(Part::new(":x").is_err());
    assert!(Part::new("a/b").is_err());
    let ok = Part::new("departmentA").unwrap();
    assert_eq!(ok.as_str(), "departmentA");
    assert!(matches!(Part::new(""), Err(ArnError::IllegalPartFormat)));
    // a ':' after the first character is allowed
    assert!(Part::new("a:b").is_ok());
}

#[test]
fn parent_child_relation() -> Result<(), ArnError> {
    let parent: Eid<UnixTime> = Eid::new(
        Domain::new("custom")?,
        Category::new("service"),
        Account::new("account123"),
        Root::new("root")?,
        Parts::new(vec![Part::new("a")?, Part::new("b")?]),
    );
    let child = parent.add_part("c")?;
    assert!(child.is_child_of(&parent));
    assert!(!parent.is_child_of(&child));
    assert_eq!(child.parent().unwrap(), parent);
    assert!(Eid::<UnixTime>::with_root("alone")?.parent().is_none());
    Ok(())
}

#[test]
fn concatenation_keeps_left_identity() -> Result<(), ArnError> {
    let left: Eid<UnixTime> = Eid::new(
        Domain::new("left-domain")?,
        Category::new("hr"),
        Account::new("acct"),
        Root::new("root")?,
        Parts::new(vec![Part::new("a")?, Part::new("b")?]),
    );
    let right: Eid<UnixTime> = Eid::new(
        Domain::new("right-domain")?,
        Category::new("other"),
        Account::new("elsewhere"),
        Root::new("root")?,
        Parts::new(vec![Part::new("c")?]),
    );
    let left_domain = left.domain.clone();
    let left_root = left.root.clone();
    let combined = left + right;
    assert_eq!(combined.domain, left_domain);
    assert_eq!(combined.root, left_root);
    assert_eq!(
        combined.parts,
        Parts::new(vec![Part::new("a")?, Part::new("b")?, Part::new("c")?])
    );
    Ok(())
}

#[test]
fn build_without_root_fails_naming_root() -> Result<(), ArnError> {
    let staged: PrivateErnBuilder<UnixTime> = PrivateErnBuilder::new()
        .add_part("ern:", "custom")?
        .add_part("", "service")?
        .add_part("", "account123")?;
    let result = staged.build();
    assert!(matches!(result, Err(ArnError::MissingPart(ref m)) if m == "root"));
    Ok(())
}

#[test]
fn build_empty_fails_naming_domain() {
    let empty: PrivateErnBuilder<UnixTime> = PrivateErnBuilder::new();
    assert!(matches!(empty.build(), Err(ArnError::MissingPart(ref m)) if m == "domain"));
}

#[test]
fn unknown_routing_token_is_rejected() {
    let fresh: PrivateErnBuilder<UnixTime> = PrivateErnBuilder::new();
    let result = fresh.add_part("bogus", "value");
    assert!(matches!(result, Err(ArnError::InvalidPrefix(ref p)) if p == "bogus"));
}

#[test]
fn root_synthesis_is_unique_per_call() -> Result<(), ArnError> {
    let first: Ern<UnixTime> = ErnBuilder::new()
        .with::<Domain>("custom")?
        .with::<Category>("service")?
        .with::<Account>("account123")?
        .with::<Root<UnixTime>>("sample")?
        .build()?;
    let second: Ern<UnixTime> = ErnBuilder::new()
        .with::<Domain>("custom")?
        .with::<Category>("service")?
        .with::<Account>("account123")?
        .with::<Root<UnixTime>>("sample")?
        .build()?;
    assert_ne!(first.root, second.root);
    let first_again: Ern<UnixTime> = ErnParser::new(first.to_text()).parse()?;
    let second_again: Ern<UnixTime> = ErnParser::new(second.to_text()).parse()?;
    assert_eq!(first_again, first);
    assert_eq!(second_again, second);
    Ok(())
}

#[test]
fn synthesized_root_shape() {
    let root: Root<UnixTime> = Root::new("test").unwrap();
    let text = root.as_str();
    assert_eq!(text.len(), "test".len() + 27);
    assert_eq!(text.as_bytes()["test".len()], b'_');
    let default_root: Root<UnixTime> = Root::default();
    assert_eq!(default_root.as_str().len(), "acton".len() + 27);
}

#[test]
fn timestamp_marker_also_synthesizes() {
    let root: Root<Timestamp> = Root::new("test").unwrap();
    assert!(root.as_str().starts_with("test_"));
    let other: Root<Timestamp> = Root::new("test").unwrap();
    assert_ne!(root, other);
}

#[test]
fn rejected_tags_report_generation_failure() {
    assert!(matches!(
        Root::<UnixTime>::new("Not A Tag"),
        Err(ArnError::IdGenerationFailure(_))
    ));
    assert!(matches!(
        Root::<UnixTime>::new("_leading"),
        Err(ArnError::IdGenerationFailure(_))
    ));
    assert!(matches!(
        Eid::<UnixTime>::with_root("UPPER"),
        Err(ArnError::IdGenerationFailure(_))
    ));
}

#[test]
fn render_is_exact() -> Result<(), ArnError> {
    let ern: Ern<UnixTime> = Ern::new(
        Domain::new("d")?,
        Category::new("c"),
        Account::new("a"),
        "r".parse()?,
        Parts::new(vec![Part::new("p")?, Part::new("q")?]),
    );
    assert_eq!(ern.to_text(), "ern:d:c:a:r/p/q");
    let bare: Ern<UnixTime> = Ern::new(
        Domain::new("d")?,
        Category::new("c"),
        Account::new("a"),
        "r".parse()?,
        Parts::new(vec![]),
    );
    assert_eq!(bare.to_text(), "ern:d:c:a:r");
    Ok(())
}

#[test]
fn parse_recovers_exact_fields() -> Result<(), ArnError> {
    let parsed: Ern<UnixTime> = ErnParser::new(String::from("ern:d:c:a:r/p/q")).parse()?;
    assert_eq!(parsed.domain.as_str(), "d");
    assert_eq!(parsed.category.as_str(), "c");
    assert_eq!(parsed.account.as_str(), "a");
    assert_eq!(parsed.root.as_str(), "r");
    assert_eq!(parsed.parts, Parts::new(vec![Part::new("p")?, Part::new("q")?]));
    Ok(())
}

#[test]
fn parse_accepts_empty_category_and_account() -> Result<(), ArnError> {
    let parsed: Ern<UnixTime> = ErnParser::new(String::from("ern:d:::r")).parse()?;
    assert_eq!(parsed.domain.as_str(), "d");
    assert_eq!(parsed.category.as_str(), "");
    assert_eq!(parsed.account.as_str(), "");
    assert_eq!(parsed.root.as_str(), "r");
    Ok(())
}

#[test]
fn parse_rejects_malformed_text() {
    let bad_prefix: Result<Ern<UnixTime>, ArnError> =
        ErnParser::new(String::from("arn:d:c:a:r")).parse();
    assert!(matches!(bad_prefix, Err(ArnError::InvalidFormat)));

    let empty_rest: Result<Ern<UnixTime>, ArnError> = ErnParser::new(String::from("ern:")).parse();
    assert!(matches!(empty_rest, Err(ArnError::InvalidFormat)));

    let few_fields: Result<Ern<UnixTime>, ArnError> =
        ErnParser::new(String::from("ern:d:c:a")).parse();
    assert!(matches!(few_fields, Err(ArnError::InvalidFormat)));

    let empty_domain: Result<Ern<UnixTime>, ArnError> =
        ErnParser::new(String::from("ern::c:a:r")).parse();
    assert!(matches!(empty_domain, Err(ArnError::ParseFailure("domain", _))));

    let empty_part: Result<Ern<UnixTime>, ArnError> =
        ErnParser::new(String::from("ern:d:c:a:r//x")).parse();
    assert!(matches!(empty_part, Err(ArnError::IllegalPartFormat)));

    let trailing_slash: Result<Ern<UnixTime>, ArnError> =
        ErnParser::new(String::from("ern:d:c:a:r/")).parse();
    assert!(matches!(trailing_slash, Err(ArnError::IllegalPartFormat)));
}

#[test]
fn with_parts_replaces_or_rejects() -> Result<(), ArnError> {
    let base: Eid<UnixTime> = Eid::with_root("base")?;
    let replaced = base.with_parts(vec![String::from("x"), String::from("y")])?;
    assert_eq!(replaced.parts, Parts::new(vec![Part::new("x")?, Part::new("y")?]));
    let rejected = base.with_parts(vec![String::from("x"), String::from("bad/part")]);
    assert!(matches!(rejected, Err(ArnError::IllegalPartFormat)));
    Ok(())
}

#[test]
fn convenience_constructors_use_defaults() -> Result<(), ArnError> {
    let by_domain: Eid<UnixTime> = Eid::with_domain("custom")?;
    assert_eq!(by_domain.domain.as_str(), "custom");
    assert_eq!(by_domain.category.as_str(), "");
    assert!(by_domain.root.as_str().starts_with("acton_"));
    assert!(Eid::<UnixTime>::with_domain("").is_err());
    assert!(Eid::<UnixTime>::with_domain("a:b").is_err());

    let by_category: Eid<UnixTime> = Eid::with_category("service")?;
    assert_eq!(by_category.category.as_str(), "service");
    assert_eq!(by_category.domain.as_str(), "acton");

    let by_account: Eid<UnixTime> = Eid::with_account("account123")?;
    assert_eq!(by_account.account.as_str(), "account123");
    assert_eq!(by_account.domain.as_str(), "acton");
    Ok(())
}
