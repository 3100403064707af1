use std::str::FromStr;

use chrono::{DateTime, Utc};
use parkeerservice::json::{JsonNumber, JsonValue};
use parkeerservice::session::Session;
use parkeerservice::time::UtcDateTime;
use serde_json::Value;

const TEST_DATA: &str = r#"
    {
        "recordsFiltered": 2,
        "recordsTotal": 2,
        "data": [
            {
                "id": 1,
                "permitId": 1,
                "timeStartUtc": "2025-01-01T00:00:00",
                "timeEndUtc": "2026-01-01T00:00:00",
                "status": null,
                "startMessage": "Automatisch proces",
                "stopMessage": null,
                "costMoney": 0.0,
                "costTime": 525600,
                "parkingRegime": null,
                "hourRate": 0.0,
                "lp": "ABCDEFG",
                "psRightId": "1",
                "name": "Bewonersvergunning 1e",
                "permitNumber": "1",
                "lpName": null,
                "unlimitedTimeBalance": true,
                "isActive": true,
                "isGaragePermit": false,
                "lpDescription": null,
                "permitAreaDescription": "zone A1",
                "zoneCode": "A_A01",
                "authorizationType": -1,
                "email": "example@example.org",
                "fullName": "Example",
                "user": null,
                "userType": null,
                "initials": null,
                "customerPays": true,
                "isPermitOwner": true,
                "visitorName": null,
                "startUserRoleId": 1,
                "discountCode": null,
                "anonymousVisitorDescription": null
            },
            {
                "id": 2,
                "permitId": 1,
                "timeStartUtc": "2025-01-01T00:00:00",
                "timeEndUtc": "2025-01-05T00:00:00",
                "status": null,
                "startMessage": "Gebruiker",
                "stopMessage": null,
                "costMoney": 1.2,
                "costTime": 240,
                "parkingRegime": null,
                "hourRate": null,
                "lp": "XYZ",
                "psRightId": "1",
                "name": "Digitale bezoekersregeling",
                "permitNumber": "1",
                "lpName": null,
                "unlimitedTimeBalance": false,
                "isActive": true,
                "isGaragePermit": false,
                "lpDescription": "My Other Car",
                "permitAreaDescription": "zone A2",
                "zoneCode": "A_A01",
                "authorizationType": -1,
                "email": "example@example.com",
                "fullName": "Example",
                "user": null,
                "userType": null,
                "initials": null,
                "customerPays": true,
                "isPermitOwner": true,
                "visitorName": null,
                "startUserRoleId": 1,
                "discountCode": null,
                "anonymousVisitorDescription": null
            }
        ]
    }
    "#;

/// The library's model of a decoded JSON document.
fn to_json(v: &Value) -> JsonValue {
    match v {
        Value::Null => JsonValue::Null,
        Value::Bool(b) => JsonValue::Bool(*b),
        Value::Number(n) => {
            if let Some(u) = n.as_u64() {
                JsonValue::Number(JsonNumber::PosInt(u))
            } else if let Some(i) = n.as_i64() {
                JsonValue::Number(JsonNumber::NegInt(i))
            } else {
                JsonValue::Number(JsonNumber::Float(n.to_string()))
            }
        }
        Value::String(s) => JsonValue::String(s.clone()),
        Value::Array(items) => JsonValue::Array(items.iter().map(to_json).collect()),
        Value::Object(members) => JsonValue::Object(
            members
                .iter()
                .map(|(k, v)| (k.clone(), to_json(v)))
                .collect(),
        ),
    }
}

/// The instant a `chrono` date-time stands for.
fn instant(text: &str) -> UtcDateTime {
    let t = DateTime::<Utc>::from_str(text).unwrap();
    UtcDateTime::from_timestamp(t.timestamp(), t.timestamp_subsec_nanos()).unwrap()
}

#[test]
fn test_data_to_sessions() {
    let data: Value = serde_json::from_str(TEST_DATA).unwrap();
    let data = to_json(&data);
    let entries = data.index("data").as_array().unwrap();

    let session1 = Session::from_json(&entries[0]).unwrap();
    assert_eq!(session1.start, instant("2025-01-01T00:00:00Z"));
    assert_eq!(session1.end, instant("2026-01-01T00:00:00Z"));
    assert_eq!(&session1.name, "Bewonersvergunning 1e");
    assert!(session1.active);
    assert_eq!(&session1.area, "zone A1");
    assert_eq!(&session1.license_plate.plate, "ABCDEFG");
    assert_eq!(session1.license_plate.description, None);

    let session2 = Session::from_json(&entries[1]).unwrap();
    assert_eq!(session2.start, instant("2025-01-01T00:00:00Z"));

    assert_eq!(session2.end, instant("2025-01-05T00:00:00Z"));
    assert_eq!(&session2.name, "Digitale bezoekersregeling");
    assert!(session2.active);
    assert_eq!(&session2.area, "zone A2");
    assert_eq!(&session2.license_plate.plate, "XYZ");
    assert_eq!(
        session2.license_plate.description,
        Some("My Other Car".to_string())
    );
}
