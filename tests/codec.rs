use mycelium_subject::MyceliumSubject;

#[test]
fn locator_from_string_success() {
    let subject_string =
        "prod.abc.xyz.US-CA.south.abc.plc-gateway.1.data.system.sub-system.sensor.value";
    let res = MyceliumSubject::from_str(subject_string).unwrap();
    assert_eq!(subject_string, res.to_string());
}

#[test]
fn locator_from_string_fail_bad_environment() {
    let subject_string =
        "production.abc.xyz.US-CA.south.abc.plc-gateway.1.data.system.sub-system.sensor.value";
    let res = MyceliumSubject::from_str(subject_string);
    assert!(res.is_err());
}

#[test]
fn locator_from_string_no_payload_id() {
    let subject_string = "prod.abc.xyz.US-CA.south.abc.plc-gateway.1.data";
    let res = MyceliumSubject::from_str(subject_string).unwrap();
    assert_eq!(subject_string, res.to_string());
}

#[test]
fn locator_from_string_fail_no_payload_type() {
    let subject_string = "prod.abc.xyz.US-CA.south.abc.plc-gateway.1";
    let res = MyceliumSubject::from_str(subject_string);
    assert!(res.is_err());
}

#[test]
fn locator_from_string_fail_bad_iso_code() {
    let subject_string = "prod.abc.xyz.US-AA.south.abc.plc-gateway.1";
    let res = MyceliumSubject::from_str(subject_string);
    assert!(res.is_err());
}

#[test]
fn local_from_string_success() {
    let subject_string = "prod.abc.xyz.local.plc-gateway.1.data.system.sub-system.sensor.value";
    let res = MyceliumSubject::from_str(subject_string).unwrap();
    assert_eq!(subject_string, res.to_string());
}

#[test]
fn local_from_string_fail_bad_environment() {
    let subject_string =
        "production.abc.xyz.local.plc-gateway.1.data.system.sub-system.sensor.value";
    let res = MyceliumSubject::from_str(subject_string);
    assert!(res.is_err());
}

#[test]
fn local_from_string_no_payload_id() {
    let subject_string = "prod.abc.xyz.local.plc-gateway.1.data";
    let res = MyceliumSubject::from_str(subject_string).unwrap();
    assert_eq!(subject_string, res.to_string());
}

#[test]
fn local_from_string_fail_no_payload_type() {
    let subject_string = "prod.abc.xyz.local.plc-gateway.1";
    let res = MyceliumSubject::from_str(subject_string);
    assert!(res.is_err());
}

#[test]
fn local_from_string_fail_bad_payload_id() {
    let subject_string = "prod.abc.xyz.local.plc-gateway.1.datas";
    let res = MyceliumSubject::from_str(subject_string);
    assert!(res.is_err());
}

#[test]
fn global_from_string_success() {
    let subject_string =
        "prod.abc.xyz.global.plc-gateway.1.data.system.sub-system.sensor.value";
    let res = MyceliumSubject::from_str(subject_string).unwrap();
    assert_eq!(subject_string, res.to_string());
}

#[test]
fn global_from_string_fail_bad_environment() {
    let subject_string =
        "production.abc.xyz.global.plc-gateway.1.data.system.sub-system.sensor.value";
    let res = MyceliumSubject::from_str(subject_string);
    assert!(res.is_err());
}

#[test]
fn global_from_string_no_payload_id() {
    let subject_string = "prod.abc.xyz.global.plc-gateway.1.data";
    let res = MyceliumSubject::from_str(subject_string).unwrap();
    assert_eq!(subject_string, res.to_string());
}

#[test]
fn global_from_string_fail_no_payload_type() {
    let subject_string = "prod.abc.xyz.global.plc-gateway.1";
    let res = MyceliumSubject::from_str(subject_string);
    assert!(res.is_err());
}

#[test]
fn global_from_string_fail_bad_payload_id() {
    let subject_string = "prod.abc.xyz.global.plc-gateway.1.datas";
    let res = MyceliumSubject::from_str(subject_string);
    assert!(res.is_err());
}
