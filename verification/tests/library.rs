use parkeerservice::client::{
    get_customer_id, get_permit_document, get_permits, get_verification_token, permits_from_json,
    resolve_endpoint, Client, Credentials, Permit, EMAIL_MISSING, ENDPOINT_MISSING,
    PASSWORD_MISSING,
};
use parkeerservice::json::{JsonNumber, JsonValue};
use parkeerservice::login::{Login, LoginAction, LoginEvent};
use parkeerservice::request::{Body, HttpRequest, Method};
use parkeerservice::session::{
    check_response, find_permit, find_session_id, named_start_request, parking_sessions_request,
    sessions_from_answer, sessions_from_response, start_session_request, stop_by_plate_request, stop_session_request,
    try_named_start_request, LicensePlate, Session, PLATE_NOT_FOUND,
};
use parkeerservice::text::{decimal_string, remove_backslashes};
use parkeerservice::time::{TimeSpan, UtcDateTime};
use parkeerservice::Error;

fn text(s: &str) -> JsonValue {
    JsonValue::String(s.to_string())
}

fn number(n: u64) -> JsonValue {
    JsonValue::Number(JsonNumber::PosInt(n))
}

fn object(members: Vec<(&str, JsonValue)>) -> JsonValue {
    JsonValue::Object(members.into_iter().map(|(k, v)| (k.to_string(), v)).collect())
}

fn permit(id: u32, product_id: u32, name: &str) -> Permit {
    Permit { id, product_id, name: name.to_string() }
}

fn client() -> Client {
    Client::from_parts(
        567,
        "https://parking.example".to_string(),
        vec![permit(123, 99, "Bewoners"), permit(112233, 12, "Bezoekers"), permit(7, 1, "Bezoekers")],
    )
}

/// 2025-01-01T10:00:00Z
fn morning() -> UtcDateTime {
    UtcDateTime::from_timestamp(1_735_725_600, 0).unwrap()
}

fn headers(req: &HttpRequest) -> Vec<(&str, &str)> {
    req.headers.iter().map(|(n, v)| (n.as_str(), v.as_str())).collect()
}

fn json_members(req: &HttpRequest) -> &Vec<(String, JsonValue)> {
    match &req.body {
        Body::Json(JsonValue::Object(members)) => members,
        other => panic!("not a JSON object body: {:?}", other),
    }
}

fn session_entry(id: u64, plate: &str) -> JsonValue {
    session_entry_running(id, plate, true)
}

fn session_entry_running(id: u64, plate: &str, active: bool) -> JsonValue {
    object(vec![
        ("id", number(id)),
        ("timeStartUtc", text("2025-01-01T00:00:00")),
        ("timeEndUtc", text("2025-01-05T00:00:00")),
        ("name", text("Bezoekers")),
        ("isActive", JsonValue::Bool(active)),
        ("permitAreaDescription", text("zone A1")),
        ("lp", text(plate)),
    ])
}

#[test]
fn json_lookup_takes_the_first_member_and_null_for_missing() {
    let doc = object(vec![("a", number(1)), ("b", text("x")), ("a", number(2))]);
    assert_eq!(doc.get("a").unwrap().as_u64(), Some(1));
    assert!(doc.get("c").is_none());
    assert!(matches!(doc.index("c"), JsonValue::Null));
    assert!(matches!(number(3).index("a"), JsonValue::Null));
    assert_eq!(doc.index("b").as_str(), Some("x"));
    assert_eq!(doc.index("b").as_u64(), None);
    assert_eq!(JsonValue::Bool(false).as_bool(), Some(false));
    assert_eq!(JsonValue::Number(JsonNumber::NegInt(-4)).as_u64(), None);
    assert!(JsonValue::Array(vec![]).as_array().unwrap().is_empty());
}

#[test]
fn decimal_numerals() {
    assert_eq!(decimal_string(0), "0");
    assert_eq!(decimal_string(567), "567");
    assert_eq!(decimal_string(u64::MAX), "18446744073709551615");
}

#[test]
fn customer_number_reads_back_as_written() {
    for n in [0u64, 7, 567, 1_000_000, u64::MAX] {
        let page = format!("x \\\"customerId\\\": {} y", decimal_string(n));
        assert_eq!(get_customer_id(&page).unwrap(), n);
    }
}

#[test]
fn backslashes_are_removed_once_and_for_all() {
    let once = remove_backslashes(r#"{\"a\":\\1}"#);
    assert_eq!(once, r#"{"a":1}"#);
    assert_eq!(remove_backslashes(&once), once);
}

#[test]
fn inserted_backslashes_do_not_change_the_document() {
    let plain = r#"{"permitList":[]}"#;
    let escaped = r#"{\"permitList\":[]}"#;
    assert_eq!(remove_backslashes(escaped), remove_backslashes(plain));
    let page = |doc: &str| format!("planSession.init('{}');", doc);
    assert_eq!(
        get_permit_document(&page(escaped)).unwrap(),
        get_permit_document(&page(plain)).unwrap()
    );
    let listed = r#"{"permitList":[{"id":1,"permitProductId":2,"permitProduct":"A"}]}"#;
    let listed_escaped = r#"{\"permitList\":[{\"id\":1,\"permitProductId\":2,\"permitProduct\":\"A\"}]}"#;
    let a = get_permits(&page(listed)).unwrap();
    let b = get_permits(&page(listed_escaped)).unwrap();
    assert_eq!(a.len(), 1);
    assert_eq!((a[0].id, a[0].product_id, &a[0].name), (b[0].id, b[0].product_id, &b[0].name));
}

#[test]
fn credentials_are_percent_encoded_in_the_form() {
    let c = Credentials::load(
        Some("a b&c=d@example.nl".to_string()),
        Some("pä~ss".to_string()),
        None,
        None,
    )
    .unwrap();
    let body = c.to_body();
    assert_eq!(body, "Email=a%20b%26c%3Dd%40example.nl&Password=p%C3%A4~ss");
    assert_eq!(body.matches('&').count(), 1);
    assert_eq!(body.matches('=').count(), 2);
    let fields: Vec<&str> = body.split('&').collect();
    assert_eq!(fields.len(), 2);
    let email = fields[0].strip_prefix("Email=").unwrap();
    let password = fields[1].strip_prefix("Password=").unwrap();
    assert_eq!(percent_decode(email), "a b&c=d@example.nl");
    assert_eq!(percent_decode(password), "pä~ss");
}

fn percent_decode(text: &str) -> String {
    let bytes = text.as_bytes();
    let mut out = Vec::new();
    let mut i = 0;
    while i < bytes.len() {
        if bytes[i] == b'%' {
            let hex = std::str::from_utf8(&bytes[i + 1..i + 3]).unwrap();
            out.push(u8::from_str_radix(hex, 16).unwrap());
            i += 3;
        } else {
            out.push(bytes[i]);
            i += 1;
        }
    }
    String::from_utf8(out).unwrap()
}

#[test]
fn a_login_begins_with_the_address_then_the_credentials() {
    let (login, first) = Login::begin(
        None,
        Some("https://parking.example".into()),
        Some("me@x.nl".into()),
        None,
        None,
        Some("pw".into()),
    )
    .unwrap();
    assert!(!login.is_finished());
    match first {
        LoginAction::Send(req) => {
            assert_eq!(req.method, Method::Get);
            assert_eq!(req.url, "https://parking.example");
        }
        other => panic!("{:?}", other),
    }
    match Login::begin(None, None, None, None, None, None) {
        Err(Error::EnvironmentVariable(m)) => assert_eq!(m, ENDPOINT_MISSING),
        other => panic!("{:?}", other.map(|_| ())),
    }
    match Login::begin(Some("https://parking.example".into()), None, None, None, None, None) {
        Err(Error::EnvironmentVariable(m)) => assert_eq!(m, EMAIL_MISSING),
        other => panic!("{:?}", other.map(|_| ())),
    }
    match Login::begin(Some("h".into()), None, Some("e".into()), None, None, None) {
        Err(Error::EnvironmentVariable(m)) => assert_eq!(m, PASSWORD_MISSING),
        other => panic!("{:?}", other.map(|_| ())),
    }
}

#[test]
fn credentials_fall_back_to_the_settings_email_first() {
    let c = Credentials::load(None, Some("pw".into()), Some("me@x.nl".into()), None).unwrap();
    assert_eq!(c.to_body(), "Email=me%40x.nl&Password=pw");
    match Credentials::load(None, None, None, None) {
        Err(Error::EnvironmentVariable(m)) => assert_eq!(m, EMAIL_MISSING),
        other => panic!("{:?}", other.map(|_| ())),
    }
    match Credentials::load(Some("e".into()), None, None, None) {
        Err(Error::EnvironmentVariable(m)) => assert_eq!(m, PASSWORD_MISSING),
        other => panic!("{:?}", other.map(|_| ())),
    }
}

#[test]
fn endpoint_comes_from_hostname_then_setting() {
    assert_eq!(resolve_endpoint(Some("h".into()), Some("s".into())).unwrap(), "h");
    assert_eq!(resolve_endpoint(None, Some("s".into())).unwrap(), "s");
    match resolve_endpoint(None, None) {
        Err(Error::EnvironmentVariable(m)) => assert_eq!(m, ENDPOINT_MISSING),
        other => panic!("{:?}", other),
    }
}

#[test]
fn verification_token_is_read_from_the_form() {
    let page = r#"<form><input name="__RequestVerificationToken" type="hidden" value="tok-123" /></form>"#;
    assert_eq!(get_verification_token(page.to_string()).unwrap(), "tok-123");
    assert!(matches!(
        get_verification_token("<form></form>".to_string()),
        Err(Error::VerificationTokenMissing)
    ));
}

#[test]
fn customer_number_errors() {
    assert!(matches!(get_customer_id("nothing here"), Err(Error::CustomerIdNotAvailable)));
    assert!(matches!(
        get_customer_id("\\\"customerId\\\": 99999999999999999999"),
        Err(Error::ParseInt(_))
    ));
    // Unicode digits match the pattern but are no ASCII numeral.
    assert!(matches!(get_customer_id("\\\"customerId\\\": \u{0663}"), Err(Error::ParseInt(_))));
}

#[test]
fn permit_document_and_permit_errors() {
    assert!(matches!(get_permit_document("no script"), Err(Error::NoPermitsFound)));
    assert_eq!(get_permit_document(r#"planSession.init('{\"a\":1}')"#).unwrap(), r#"{"a":1}"#);
    assert!(matches!(permits_from_json(&object(vec![])), Err(Error::NoPermitsFound)));
    assert!(matches!(
        permits_from_json(&object(vec![("permitList", number(1))])),
        Err(Error::NoPermitsFound)
    ));
    let bad = object(vec![(
        "permitList",
        JsonValue::Array(vec![object(vec![("id", number(1)), ("permitProduct", text("p"))])]),
    )]);
    assert!(matches!(permits_from_json(&bad), Err(Error::InvalidIndex)));
    let wide = object(vec![(
        "permitList",
        JsonValue::Array(vec![object(vec![
            ("id", number((1u64 << 32) + 5)),
            ("permitProductId", number(2)),
            ("permitProduct", text("p")),
        ])]),
    )]);
    let permits = permits_from_json(&wide).unwrap();
    assert_eq!(permits[0].id, 5);
}

#[test]
fn session_errors_follow_reading_order() {
    let mut entry = session_entry(1, "AB");
    if let JsonValue::Object(m) = &mut entry {
        m.retain(|(k, _)| k != "name");
    }
    assert!(matches!(Session::from_json(&entry), Err(Error::InvalidIndex)));
    let bad_time = object(vec![("timeStartUtc", text("2025-13-01T00:00:00"))]);
    assert!(matches!(Session::from_json(&bad_time), Err(Error::ChronoParse(_))));
    assert!(matches!(Session::from_json(&object(vec![])), Err(Error::InvalidIndex)));
}

#[test]
fn session_listing() {
    assert!(sessions_from_response(&object(vec![])).unwrap().is_empty());
    let doc = object(vec![("data", JsonValue::Array(vec![session_entry(1, "AB"), session_entry(2, "CD")]))]);
    let sessions = sessions_from_response(&doc).unwrap();
    assert_eq!(sessions.len(), 2);
    assert_eq!(sessions[1].id, 2);
    let broken = object(vec![("data", JsonValue::Array(vec![session_entry(1, "AB"), object(vec![])]))]);
    assert!(matches!(sessions_from_response(&broken), Err(Error::InvalidIndex)));
}

#[test]
fn session_listing_keeps_only_running_sessions() {
    let doc = object(vec![(
        "data",
        JsonValue::Array(vec![
            session_entry_running(1, "AB", false),
            session_entry_running(2, "CD", true),
            session_entry_running(3, "EF", false),
            session_entry_running(4, "GH", true),
        ]),
    )]);
    let sessions = sessions_from_response(&doc).unwrap();
    let ids: Vec<u32> = sessions.iter().map(|s| s.id).collect();
    assert_eq!(ids, vec![2, 4]);
    assert!(sessions.iter().all(|s| s.active));
    let only_stopped =
        object(vec![("data", JsonValue::Array(vec![session_entry_running(1, "AB", false)]))]);
    assert!(sessions_from_response(&only_stopped).unwrap().is_empty());
    let stopped_then_broken = object(vec![(
        "data",
        JsonValue::Array(vec![session_entry_running(1, "AB", false), object(vec![])]),
    )]);
    assert!(matches!(sessions_from_response(&stopped_then_broken), Err(Error::InvalidIndex)));
}

#[test]
fn listing_request() {
    let req = parking_sessions_request(&client());
    assert_eq!(req.method, Method::Post);
    assert_eq!(req.url, "https://parking.example/Customer/SessionsOverview/GetParkingSessions/");
    assert_eq!(
        headers(&req),
        vec![
            ("referer", "https://parking.example/Customer/SessionsOverview/Index/"),
            ("content-type", "application/x-www-form-urlencoded; charset=UTF-8"),
        ]
    );
    assert!(matches!(&req.body, Body::Form(f) if f == "cstId=567"));
}

#[test]
fn stop_requests() {
    let req = stop_session_request(&client(), 42);
    assert_eq!(req.url, "https://parking.example/Customer/SessionsOverview/StopParkingSession");
    assert_eq!(headers(&req), vec![("referer", "https://parking.example/Customer/SessionsOverview/Index/")]);
    let members = json_members(&req);
    assert_eq!(members.len(), 1);
    assert_eq!(members[0].0, "parkingSessionId");
    assert_eq!(members[0].1.as_u64(), Some(42));

    let doc = object(vec![(
        "data",
        JsonValue::Array(vec![session_entry(1, "AB"), session_entry(2, "CD"), session_entry(3, "CD")]),
    )]);
    let sessions = sessions_from_response(&doc).unwrap();
    assert_eq!(find_session_id(&sessions, "CD").unwrap(), 2);
    let req = stop_by_plate_request(&client(), &sessions, "CD").unwrap();
    assert_eq!(json_members(&req)[0].1.as_u64(), Some(2));
    match stop_by_plate_request(&client(), &sessions, "ZZ") {
        Err(Error::Custom(m)) => assert_eq!(m, PLATE_NOT_FOUND),
        other => panic!("{:?}", other),
    }
}

#[test]
fn time_handling() {
    let t = morning();
    assert_eq!(t.to_rfc3339(), "2025-01-01T10:00:00+00:00");
    let eod = t.end_of_day();
    assert_eq!(eod.to_rfc3339(), "2025-01-01T23:59:59+00:00");
    assert_eq!(eod.end_of_day(), eod);
    let before_epoch = UtcDateTime::from_timestamp(-1, 0).unwrap();
    assert_eq!(before_epoch.end_of_day().secs(), -1);
    assert_eq!(UtcDateTime::from_timestamp(0, 0).unwrap().end_of_day().secs(), 86399);
    let hour = TimeSpan::new(3600, 0).unwrap();
    assert_eq!(t.checked_add(hour).unwrap().to_rfc3339(), "2025-01-01T11:00:00+00:00");
    let longest = TimeSpan::new(9_223_372_036_854_775, 807_000_000).unwrap();
    assert!(t.checked_add(longest).is_none());
    assert!(UtcDateTime::from_timestamp(i64::MAX, 0).is_none());
    let parsed = UtcDateTime::parse_naive("2025-01-01T10:00:00", "%Y-%m-%dT%H:%M:%S").unwrap();
    assert_eq!(parsed, t);
    assert_eq!(parsed.nanos(), 0);
}

#[test]
fn start_requests() {
    let c = client();
    let plate = LicensePlate::new("XYZ".to_string());
    let req = start_session_request(&c, &c.get_permits()[1], &plate, morning(), None);
    assert_eq!(req.url, "https://parking.example/Customer/PlanSession/StartParkingSession");
    assert_eq!(
        headers(&req),
        vec![
            ("referer", "https://parking.example/Customer/PlanSession"),
            ("x-requested-with", "XMLHttpRequest"),
        ]
    );
    let m = json_members(&req);
    let keys: Vec<&str> = m.iter().map(|(k, _)| k.as_str()).collect();
    assert_eq!(keys, vec!["parkingSessionId", "permitId", "lp", "startedForUser", "timeStart", "timeEnd"]);
    assert_eq!(m[0].1.as_u64(), Some(0));
    assert_eq!(m[1].1.as_u64(), Some(112233));
    assert_eq!(m[2].1.as_str(), Some("XYZ"));
    assert_eq!(m[3].1.as_u64(), Some(567));
    assert_eq!(m[4].1.as_str(), Some("2025-01-01T10:00:00+00:00"));
    assert_eq!(m[5].1.as_str(), Some("2025-01-01T23:59:59+00:00"));

    let end = morning().checked_add(TimeSpan::new(60, 0).unwrap()).unwrap();
    let req = start_session_request(&c, &c.get_permits()[0], &plate, morning(), Some(end));
    assert_eq!(json_members(&req)[5].1.as_str(), Some("2025-01-01T10:01:00+00:00"));

    let last = UtcDateTime::from_timestamp(8_210_266_876_799, 0).unwrap();
    let req = start_session_request(&c, &c.get_permits()[0], &plate, last, None);
    assert_eq!(json_members(&req)[5].1.as_str(), Some("+262142-12-31T23:59:59+00:00"));
    let first = UtcDateTime::from_timestamp(-8_334_601_228_800, 0).unwrap();
    let req = start_session_request(&c, &c.get_permits()[0], &plate, first, None);
    assert_eq!(json_members(&req)[5].1.as_str(), Some("-262143-01-01T23:59:59+00:00"));
}

#[test]
fn spans_are_those_chrono_holds() {
    let bounds = [
        (9_223_372_036_854_775i64, 807_000_000u32),
        (9_223_372_036_854_775, 807_000_001),
        (-9_223_372_036_854_776, 193_000_000),
        (-9_223_372_036_854_776, 192_999_999),
        (9_223_372_036_854_776, 0),
        (-9_223_372_036_854_777, 999_999_999),
        (0, 999_999_999),
        (0, 1_000_000_000),
        (-5, 0),
    ];
    for (secs, nanos) in bounds {
        let ours = TimeSpan::new(secs, nanos);
        assert_eq!(ours.is_some(), chrono::TimeDelta::new(secs, nanos).is_some(), "{} {}", secs, nanos);
        if let Some(span) = ours {
            assert_eq!((span.secs(), span.nanos()), (secs, nanos));
        }
    }
}

#[test]
fn spans_add_as_chrono_adds() {
    let starts = [(0i64, 0u32), (1_735_725_600, 999_999_999), (-1, 500_000_000), (8_210_266_876_799, 0)];
    let spans = [(0i64, 0u32), (1, 1), (-1, 999_999_999), (86_399, 500_000_000), (-86_400, 0), (1, 0)];
    for (secs, nanos) in starts {
        for (ds, dn) in spans {
            let ours = UtcDateTime::from_timestamp(secs, nanos)
                .unwrap()
                .checked_add(TimeSpan::new(ds, dn).unwrap())
                .map(|t| (t.secs(), t.nanos()));
            let total = (secs as i128 + ds as i128) * 1_000_000_000 + nanos as i128 + dn as i128;
            let expected = UtcDateTime::from_timestamp(
                total.div_euclid(1_000_000_000) as i64,
                total.rem_euclid(1_000_000_000) as u32,
            )
            .map(|t| (t.secs(), t.nanos()));
            assert_eq!(ours, expected, "{} {} {} {}", secs, nanos, ds, dn);
        }
    }
}

#[test]
fn chrono_range_is_as_stated() {
    assert!(UtcDateTime::from_timestamp(-8_334_601_228_800, 0).is_some());
    assert!(UtcDateTime::from_timestamp(-8_334_601_228_801, 0).is_none());
    assert!(UtcDateTime::from_timestamp(8_210_266_876_799, 999_999_999).is_some());
    assert!(UtcDateTime::from_timestamp(8_210_266_876_800, 0).is_none());
    assert!(UtcDateTime::from_timestamp(59, 1_500_000_000).is_some());
    assert!(UtcDateTime::from_timestamp(58, 1_500_000_000).is_none());
    assert!(UtcDateTime::from_timestamp(59, 2_000_000_000).is_none());
    assert!(UtcDateTime::from_timestamp(-1, 1_999_999_999).is_some());
    assert!(UtcDateTime::from_timestamp(0, 1_000_000_000).is_none());
}

#[test]
fn named_starts_use_the_first_permit_of_that_name() {
    let c = client();
    assert_eq!(find_permit(c.get_permits(), "Bezoekers").unwrap().id, 112233);
    let req = named_start_request(&c, "Bezoekers", "XYZ".to_string(), morning(), Some(TimeSpan::new(7200, 0).unwrap())).unwrap();
    let m = json_members(&req);
    assert_eq!(m[1].1.as_u64(), Some(112233));
    assert_eq!(m[5].1.as_str(), Some("2025-01-01T12:00:00+00:00"));
    match named_start_request(&c, "Nope", "XYZ".to_string(), morning(), None) {
        Err(Error::Custom(m)) => assert_eq!(m, "Permit Nope could not be found."),
        other => panic!("{:?}", other),
    }
    let longest = TimeSpan::new(9_223_372_036_854_775, 0).unwrap();
    assert!(try_named_start_request(&c, "Bezoekers", "XYZ".into(), morning(), Some(longest)).is_none());
    let half = TimeSpan::new(90, 500_000_000).unwrap();
    let req = named_start_request(&c, "Bezoekers", "XYZ".to_string(), morning(), Some(half)).unwrap();
    assert_eq!(json_members(&req)[5].1.as_str(), Some("2025-01-01T10:01:30.500+00:00"));
    let back = TimeSpan::new(-1, 250_000_000).unwrap();
    let req = named_start_request(&c, "Bezoekers", "XYZ".to_string(), morning(), Some(back)).unwrap();
    assert_eq!(json_members(&req)[5].1.as_str(), Some("2025-01-01T09:59:59.250+00:00"));
    assert!(matches!(
        try_named_start_request(&c, "Nope", "XYZ".into(), morning(), Some(longest)),
        Some(Err(Error::Custom(_)))
    ));
}

#[test]
fn responses_are_checked() {
    assert!(check_response(true, "fine".into()).is_ok());
    match check_response(false, "refused".into()) {
        Err(Error::Custom(m)) => assert_eq!(m, "refused"),
        other => panic!("{:?}", other),
    }
}

#[test]
fn client_accessors() {
    let c = client();
    assert_eq!(c.get_customer_id(), 567);
    assert_eq!(c.customer_id(), 567);
    assert_eq!(c.get_endpoint(), "https://parking.example");
    assert_eq!(c.endpoint(), "https://parking.example");
    let permits = c.permits();
    assert_eq!(permits.len(), 3);
    assert_eq!(permits[2].name, "Bezoekers");
    assert_eq!(c.get_permits()[0].product_id, 99);
}

fn answer(success: bool, text: &str) -> LoginEvent {
    LoginEvent { success, text: text.to_string() }
}

#[test]
fn a_login_runs_through_its_three_steps() {
    let credentials = Credentials::load(Some("me@x.nl".into()), Some("pw".into()), None, None).unwrap();
    let (mut login, first) = Login::start("https://parking.example".to_string(), &credentials);
    match first {
        LoginAction::Send(req) => {
            assert_eq!(req.method, Method::Get);
            assert_eq!(req.url, "https://parking.example");
        }
        other => panic!("{:?}", other),
    }
    let page = r#"<input name="__RequestVerificationToken" value="T1">"#;
    match login.step(answer(true, page)) {
        LoginAction::Send(req) => {
            assert_eq!(req.method, Method::Post);
            assert_eq!(headers(&req), vec![("content-type", "application/x-www-form-urlencoded")]);
            assert!(matches!(&req.body,
                Body::Form(f) if f == "__RequestVerificationToken=T1&Email=me%40x.nl&Password=pw"));
        }
        other => panic!("{:?}", other),
    }
    match login.step(answer(true, "welcome")) {
        LoginAction::Send(req) => assert_eq!(req.url, "https://parking.example/Customer/PlanSession"),
        other => panic!("{:?}", other),
    }
    let customer_page = r#"{\"customerId\":567} planSession.init('{\"permitList\":[{\"id\":5,\"permitProductId\":6,\"permitProduct\":\"P\"}]}')"#;
    match login.step(answer(true, customer_page)) {
        LoginAction::Complete(c) => {
            assert_eq!(c.get_customer_id(), 567);
            assert_eq!(c.get_endpoint(), "https://parking.example");
            assert_eq!(c.get_permits().len(), 1);
            assert_eq!(c.get_permits()[0].id, 5);
            assert_eq!(c.get_permits()[0].product_id, 6);
            assert_eq!(c.get_permits()[0].name, "P");
        }
        other => panic!("{:?}", other),
    }
    assert!(login.is_finished());
}

#[test]
fn a_login_stops_at_the_first_failure() {
    let credentials = Credentials::load(Some("e".into()), Some("p".into()), None, None).unwrap();
    let (mut login, _) = Login::start("https://parking.example".to_string(), &credentials);
    assert!(matches!(login.step(answer(true, "no form")), LoginAction::Abort(Error::VerificationTokenMissing)));

    let (mut login, _) = Login::start("https://parking.example".to_string(), &credentials);
    let _ = login.step(answer(true, r#"name="__RequestVerificationToken" value="T""#));
    match login.step(answer(false, "wrong password")) {
        LoginAction::Abort(Error::Custom(m)) => assert_eq!(m, "wrong password"),
        other => panic!("{:?}", other),
    }

    let (mut login, _) = Login::start("https://parking.example".to_string(), &credentials);
    let _ = login.step(answer(true, r#"name="__RequestVerificationToken" value="T""#));
    let _ = login.step(answer(true, "ok"));
    assert!(matches!(login.step(answer(true, "no id")), LoginAction::Abort(Error::CustomerIdNotAvailable)));

    let (mut login, _) = Login::start("https://parking.example".to_string(), &credentials);
    let _ = login.step(answer(true, r#"name="__RequestVerificationToken" value="T""#));
    let _ = login.step(answer(true, "ok"));
    let broken = r#"{\"customerId\":1} planSession.init('{\"permitList\":[')"#;
    assert!(matches!(login.step(answer(true, broken)), LoginAction::Abort(Error::SerdeJson(_))));

    let (mut login, _) = Login::start("https://parking.example".to_string(), &credentials);
    let _ = login.step(answer(true, r#"name="__RequestVerificationToken" value="T""#));
    let _ = login.step(answer(true, "ok"));
    let no_list = r#"{\"customerId\":1} planSession.init('{\"other\":[]}')"#;
    assert!(matches!(login.step(answer(true, no_list)), LoginAction::Abort(Error::NoPermitsFound)));
}

#[test]
fn permits_are_read_from_the_customer_page() {
    let page = |doc: &str| format!("<script>planSession.init('{}');</script>", doc);
    let permits = get_permits(&page(r#"{\"permitList\":[{\"id\":1,\"permitProductId\":2,\"permitProduct\":\"A\"},{\"id\":3,\"permitProductId\":4,\"permitProduct\":\"B\"}]}"#)).unwrap();
    assert_eq!(permits.iter().map(|p| p.id).collect::<Vec<_>>(), vec![1, 3]);
    assert_eq!(permits[1].name, "B");
    assert!(get_permits(&page(r#"{\"permitList\":[]}"#)).unwrap().is_empty());
    assert!(matches!(get_permits("no script here"), Err(Error::NoPermitsFound)));
    assert!(matches!(get_permits(&page("{not json")), Err(Error::SerdeJson(_))));
    assert!(matches!(get_permits(&page(r#"{\"permitList\":3}"#)), Err(Error::NoPermitsFound)));
    assert!(matches!(
        get_permits(&page(r#"{\"permitList\":[{\"id\":1}]}"#)),
        Err(Error::InvalidIndex)
    ));
}

#[test]
fn session_answers_are_decoded() {
    let answer = r#"{"data":[{"id":7,"timeStartUtc":"2025-01-01T00:00:00","timeEndUtc":"2025-01-02T00:00:00",
        "name":"N","isActive":true,"permitAreaDescription":"A","lp":"XY","lpDescription":null},
        {"id":8,"timeStartUtc":"2025-01-01T00:00:00","timeEndUtc":"2025-01-02T00:00:00",
        "name":"N","isActive":false,"permitAreaDescription":"A","lp":"ZZ"}]}"#;
    let sessions = sessions_from_answer(answer).unwrap();
    assert_eq!(sessions.len(), 1);
    assert_eq!(sessions[0].id, 7);
    assert_eq!(sessions[0].end.secs(), 1_735_776_000);
    assert!(sessions_from_answer(r#"{"recordsTotal":0}"#).unwrap().is_empty());
    assert!(matches!(sessions_from_answer("<html>"), Err(Error::SerdeJson(_))));
}
