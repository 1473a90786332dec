use mycelium_subject::{
    is_valid_region_code, Environment, Field, GeoLocator, Locator, MyceliumSubject,
    OwnershipGroup, PayloadType, ServiceIdentifier, SubjectBuilder, SubjectError,
};

fn parse(s: &str) -> Result<MyceliumSubject, SubjectError> {
    MyceliumSubject::from_str(s)
}

fn strings(v: &[&str]) -> Vec<String> {
    v.iter().map(|s| s.to_string()).collect()
}

#[test]
fn scenario_local_with_payload_path() {
    let s = "prod.abc.xyz.local.plc-gateway.1.data.system.sub-system.sensor.value";
    let v = parse(s).unwrap();
    assert_eq!(v.environment, Environment::Production);
    assert_eq!(v.ownership_group.enterprise(), "abc");
    assert_eq!(v.ownership_group.op_group(), "xyz");
    assert_eq!(v.geo_locator, GeoLocator::Local);
    assert_eq!(v.service_identifier.service_name(), "plc-gateway");
    assert_eq!(v.service_identifier.instance_id(), "1");
    assert_eq!(v.payload_type, PayloadType::Data);
    assert_eq!(v.payload_identifier, strings(&["system", "sub-system", "sensor", "value"]));
    assert_eq!(v.to_string(), s);
}

#[test]
fn scenario_explicit_locator_empty_payload() {
    let s = "prod.abc.xyz.US-CA.south.abc.plc-gateway.1.data";
    let v = parse(s).unwrap();
    let l = Locator::new("US-CA", "south", "abc").unwrap();
    assert_eq!(v.geo_locator, GeoLocator::Locator(l));
    assert!(v.payload_identifier.is_empty());
    assert_eq!(v.to_string(), s);
}

#[test]
fn scenario_bad_environment_token() {
    let r = parse("production.abc.xyz.local.plc-gateway.1.data");
    assert_eq!(
        r,
        Err(SubjectError::InvalidEnumToken {
            field: Field::Environment,
            value: "production".to_string()
        })
    );
}

#[test]
fn scenario_unrecognised_region_code() {
    let r = parse("prod.abc.xyz.US-AA.south.abc.plc-gateway.1");
    assert_eq!(r, Err(SubjectError::InvalidGeoCode { code: "US-AA".to_string() }));
}

#[test]
fn scenario_missing_payload_type() {
    assert_eq!(parse("prod.abc.xyz.local.plc-gateway.1"), Err(SubjectError::TooShort));
}

#[test]
fn six_tokens_are_too_short() {
    assert_eq!(parse("dev.a.b.global.svc.2"), Err(SubjectError::TooShort));
    assert_eq!(parse("a.b.c.d.e.f"), Err(SubjectError::TooShort));
    assert_eq!(parse(""), Err(SubjectError::TooShort));
}

#[test]
fn seven_tokens_with_sentinel_parse() {
    let v = parse("staging.a.b.global.svc.2.heartbeat").unwrap();
    assert_eq!(v.environment, Environment::Staging);
    assert_eq!(v.geo_locator, GeoLocator::Global);
    assert_eq!(v.payload_type, PayloadType::Heartbeat);
    assert!(v.payload_identifier.is_empty());
    assert_eq!(v.to_string(), "staging.a.b.global.svc.2.heartbeat");
}

#[test]
fn sentinel_is_never_a_region_code() {
    // Enough tokens for an explicit locator, but "local" still takes one token.
    let v = parse("dev.a.b.local.US-CA.south.command.x.y").unwrap();
    assert_eq!(v.geo_locator, GeoLocator::Local);
    assert_eq!(v.service_identifier.service_name(), "US-CA");
    assert_eq!(v.service_identifier.instance_id(), "south");
    assert_eq!(
        v.payload_type,
        PayloadType::Command
    );
    assert_eq!(v.payload_identifier, strings(&["x", "y"]));
    let r = parse("dev.a.b.global.US-CA.south.abc.command");
    assert_eq!(
        r,
        Err(SubjectError::InvalidEnumToken {
            field: Field::PayloadType,
            value: "abc".to_string()
        })
    );
}

#[test]
fn explicit_locator_needs_nine_tokens() {
    assert_eq!(parse("prod.a.b.US-CA.south.abc.svc.1"), Err(SubjectError::TooShort));
    assert_eq!(parse("prod.a.b.US-CA.svc.1.data"), Err(SubjectError::TooShort));
    // The locator is read before the later fields are counted.
    assert_eq!(
        parse("prod.a.b.US-AA.svc.1.data"),
        Err(SubjectError::InvalidGeoCode { code: "US-AA".to_string() })
    );
}

#[test]
fn geo_code_gates_explicit_locator() {
    assert_eq!(
        parse("prod.a.b.US-AA.south.abc.svc.1.event.x"),
        Err(SubjectError::InvalidGeoCode { code: "US-AA".to_string() })
    );
    let v = parse("prod.a.b.US-TX.south.abc.svc.1.event.x").unwrap();
    assert_eq!(v.geo_locator.to_string(), "US-TX.south.abc");
    assert_eq!(v.payload_type, PayloadType::Event);
}

#[test]
fn empty_tokens_are_rejected_in_composite_fields() {
    assert_eq!(
        parse("prod..xyz.local.svc.1.data"),
        Err(SubjectError::InvalidArity { field: Field::OwnershipGroup })
    );
    assert_eq!(
        parse("prod.a.b.local.svc..data"),
        Err(SubjectError::InvalidArity { field: Field::ServiceIdentifier })
    );
}

#[test]
fn explicit_locator_accepts_empty_region_and_identifier() {
    let s = "prod.abc.xyz.US-CA..abc.plc-gateway.1.data";
    let v = parse(s).unwrap();
    let l = Locator::new("US-CA", "", "abc").unwrap();
    assert_eq!(v.geo_locator, GeoLocator::Locator(l));
    assert!(v.payload_identifier.is_empty());
    assert_eq!(v.to_string(), s);
    // Eight tokens: the locator is read, then the payload type is missing.
    assert_eq!(parse("prod.abc.xyz.US-CA..abc.plc-gateway.1"), Err(SubjectError::TooShort));
    let l = Locator::from_str("US-CA..").unwrap();
    assert_eq!((l.op_region(), l.op_identifier()), ("", ""));
    assert_eq!(
        GeoLocator::from_str("US-CA.south."),
        Ok(GeoLocator::Locator(Locator::new("US-CA", "south", "").unwrap()))
    );
}

#[test]
fn empty_payload_token_round_trips() {
    let s = "prod.a.b.local.svc.1.diagnostics.";
    let v = parse(s).unwrap();
    assert_eq!(v.payload_type, PayloadType::Diagnostics);
    assert_eq!(v.payload_identifier, strings(&[""]));
    assert_eq!(v.to_string(), s);
}

#[test]
fn environment_tokens() {
    assert_eq!(Environment::Production.to_string(), "prod");
    assert_eq!(Environment::Staging.to_string(), "staging");
    assert_eq!(Environment::Dev.to_string(), "dev");
    assert_eq!(Environment::from_str("dev"), Ok(Environment::Dev));
    assert_eq!(
        Environment::from_str("Prod"),
        Err(SubjectError::InvalidEnumToken { field: Field::Environment, value: "Prod".to_string() })
    );
}

#[test]
fn payload_type_tokens() {
    let all = [
        (PayloadType::Heartbeat, "heartbeat"),
        (PayloadType::Data, "data"),
        (PayloadType::Diagnostics, "diagnostics"),
        (PayloadType::Command, "command"),
        (PayloadType::Event, "event"),
        (PayloadType::Custom, "custom"),
    ];
    for (p, t) in all {
        assert_eq!(p.to_string(), t);
        assert_eq!(PayloadType::from_str(t), Ok(p));
    }
    assert!(PayloadType::from_str("datas").is_err());
}

#[test]
fn composite_fields_from_text() {
    let g = OwnershipGroup::from_str("abc.xyz").unwrap();
    assert_eq!(g.to_string(), "abc.xyz");
    assert_eq!(
        OwnershipGroup::from_str("abc.xyz.q"),
        Err(SubjectError::InvalidArity { field: Field::OwnershipGroup })
    );
    assert_eq!(
        OwnershipGroup::from_str("abc"),
        Err(SubjectError::InvalidArity { field: Field::OwnershipGroup })
    );
    let v = ServiceIdentifier::from_str("plc-gateway.1").unwrap();
    assert_eq!(v.to_string(), "plc-gateway.1");
    assert_eq!(
        ServiceIdentifier::new("a.b", "1"),
        Err(SubjectError::InvalidArity { field: Field::ServiceIdentifier })
    );
}

#[test]
fn geo_locator_from_text() {
    assert_eq!(GeoLocator::from_str("local"), Ok(GeoLocator::Local));
    assert_eq!(GeoLocator::from_str("global"), Ok(GeoLocator::Global));
    let g = GeoLocator::from_str("US-CA.south.abc").unwrap();
    assert_eq!(g.to_string(), "US-CA.south.abc");
    assert_eq!(
        GeoLocator::from_str("US-AA.south.abc"),
        Err(SubjectError::InvalidGeoCode { code: "US-AA".to_string() })
    );
    assert_eq!(GeoLocator::from_str("US-CA.south"), Err(SubjectError::TooShort));
    assert_eq!(
        GeoLocator::from_str("local.south.abc"),
        Err(SubjectError::InvalidArity { field: Field::GeoLocator })
    );
    assert_eq!(
        Locator::new("global", "south", "abc"),
        Err(SubjectError::InvalidArity { field: Field::GeoLocator })
    );
    let l = Locator::from_str("SE-O.west.7").unwrap();
    assert_eq!((l.iso_3166_2(), l.op_region(), l.op_identifier()), ("SE-O", "west", "7"));
}

#[test]
fn region_code_lookup() {
    assert!(is_valid_region_code("US-CA"));
    assert!(is_valid_region_code("SE-O"));
    assert!(!is_valid_region_code("US-AA"));
    assert!(!is_valid_region_code("local"));
}

fn full_builder() -> SubjectBuilder {
    let mut b = SubjectBuilder::new();
    b.set_environment(Environment::Dev);
    b.set_ownership_group(OwnershipGroup::new("acme", "ops").unwrap());
    b.set_geo_locator(GeoLocator::Locator(Locator::new("US-CA", "south", "abc").unwrap()));
    b.set_service_identifier(ServiceIdentifier::new("svc", "7").unwrap());
    b.set_payload_type(PayloadType::Event);
    b.set_payload_identifier(strings(&["door", "open"]));
    b
}

#[test]
fn builder_round_trip() {
    let s = full_builder().build().unwrap();
    let text = s.to_string();
    assert_eq!(text, "dev.acme.ops.US-CA.south.abc.svc.7.event.door.open");
    assert_eq!(parse(&text), Ok(s));
}

#[test]
fn builder_last_write_wins() {
    let mut b = full_builder();
    b.set_environment(Environment::Production);
    b.set_geo_locator(GeoLocator::Global);
    b.set_payload_identifier(Vec::new());
    let s = b.build().unwrap();
    assert_eq!(s.to_string(), "prod.acme.ops.global.svc.7.event");
}

#[test]
fn builder_reports_first_missing_field() {
    assert_eq!(
        SubjectBuilder::new().build(),
        Err(SubjectError::MissingField { field: Field::Environment })
    );
    let mut b = SubjectBuilder::new();
    b.set_environment(Environment::Dev);
    b.set_ownership_group(OwnershipGroup::new("acme", "ops").unwrap());
    b.set_geo_locator(GeoLocator::Local);
    b.set_service_identifier(ServiceIdentifier::new("svc", "7").unwrap());
    b.set_payload_type(PayloadType::Event);
    assert_eq!(b.build(), Err(SubjectError::MissingField { field: Field::PayloadIdentifier }));
}

#[test]
fn builder_checks_region_code() {
    let mut b = full_builder();
    b.set_geo_locator(GeoLocator::Locator(Locator::new("US-AA", "south", "abc").unwrap()));
    assert_eq!(b.build(), Err(SubjectError::InvalidGeoCode { code: "US-AA".to_string() }));
}

#[test]
fn builder_rejects_dotted_payload_token() {
    let mut b = full_builder();
    b.set_payload_identifier(strings(&["a.b"]));
    assert_eq!(
        b.build(),
        Err(SubjectError::InvalidArity { field: Field::PayloadIdentifier })
    );
}
