use acton_ern::{
    Account, ArnError, Category, Domain, Ern, ErnBuilder, ErnParser, Part, Root, UnixTime,
};

#[test]
fn test() -> Result<(), ArnError> {
    let ern: Result<Ern<UnixTime>, ArnError> = ErnBuilder::new()
        .with::<Domain>("acton-internal")?
        .with::<Category>("hr")?
        .with::<Account>("company123")?
        .with::<Root<UnixTime>>("root")?
        .with::<Part>("departmentA")?
        .with::<Part>("team1")?
        .build();

    assert!(
        ern.is_ok(),
        "ern:acton-internal:hr:company123:root/departmentA/team1"
    );
    Ok(())
}

#[test]
fn test_ern_builder() -> Result<(), ArnError> {
    let ern: Ern<UnixTime> = ErnBuilder::new()
        .with::<Domain>("custom")?
        .with::<Category>("service")?
        .with::<Account>("account123")?
        .with::<Root<UnixTime>>("resource")?
        .with::<Part>("subresource")?
        .build()?;

    assert!(
        ern.to_text().ends_with("/subresource"),
        "{} did not end with expected string",
        ern.to_text()
    );

    Ok(())
}

#[test]
fn test_ern_builder_with_default_parts() -> Result<(), ArnError> {
    let ern: Ern<UnixTime> = Ern::default();
    let parser: ErnParser<UnixTime> = ErnParser::new(ern.to_text());
    let parsed: Ern<UnixTime> = parser.parse()?;
    assert_eq!(parsed.domain.as_str(), "acton");
    Ok(())
}

#[test]
fn test_ern_builder_with_owned_strings() -> Result<(), ArnError> {
    let ern: Ern<UnixTime> = ErnBuilder::new()
        .with::<Domain>(String::from("custom").as_str())?
        .with::<Category>(String::from("service").as_str())?
        .with::<Account>(String::from("account123").as_str())?
        .with::<Root<UnixTime>>(String::from("resource").as_str())?
        .build()?;

    assert!(ern
        .to_text()
        .starts_with("ern:custom:service:account123:resource"));
    Ok(())
}
