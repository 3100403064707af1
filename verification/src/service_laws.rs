//! Properties of the conversation with the service: where each request
//! goes, with which method and which fields, and what the answers give.
//!
//! These are stated in the service's own terms (addresses, member names,
//! the date format), so that they say what each operation is for.
use vstd::prelude::*;

use crate::client::{
    credentials_outcome, endpoint_outcome, given_or_set, Credentials,
    customer_id_outcome, customer_id_value, page_permits_outcome, page_permits_value,
    permit_document_outcome, permits_outcome, token_outcome, token_value, Client, Permit,
};
use crate::error::Error;
use crate::json::json_document;
use crate::pattern::{regex_accepts, regex_capture};
use crate::text::{decimal_value, reads_as_u64, unsigned_digits, without_char};
use crate::json::{JsonNumber, JsonValue};
use crate::login::{started, Login, LoginAction, LoginEvent, LoginStage};
use crate::request::{Body, Method};
use crate::session::{
    check_outcome, permit_search_outcome, session_id_outcome,
    is_listing_request, is_start_request, is_stop_request, named_start_outcome, session_entry,
    session_outcome, sessions_outcome, Session, SessionModel,
};
use crate::text::decimal_text;
use crate::time::{chrono_naive_parse, chrono_rfc3339, TimeSpan, UtcDateTime};

verus! {

/// The login form is posted, with `POST`, to the very address the login
/// began at (where its first `GET` went): the token that the login page
/// showed, then the encoded credentials.
pub proof fn law_login_form_goes_to_login_address(
    l0: Login,
    a0: LoginAction,
    endpoint: Seq<char>,
    credentials: Seq<char>,
    e1: LoginEvent,
    l1: Login,
    a1: LoginAction,
)
    requires
        started(l0, a0, endpoint, credentials),
        l0.stepped(e1, l1, a1),
        token_value(e1.text@) is Some,
    ensures
        a0 matches LoginAction::Send(first) && first.model().method == Method::Get
            && first.model().url == endpoint && first.body is Empty,
        a1 matches LoginAction::Send(req) && {
            &&& req.model().method == Method::Post
            &&& req.model().url == endpoint
            &&& req.model().headers == seq![("content-type"@, "application/x-www-form-urlencoded"@)]
            &&& req.body matches Body::Form(f) && f@ == "__RequestVerificationToken="@ + token_value(
                e1.text@,
            )->0 + "&"@ + credentials
        },
        l1.spec_stage() == LoginStage::SubmittingCredentials,
        l1.spec_endpoint() == endpoint,
{
}

/// Once the service accepts the credentials, the next request is a plain
/// `GET` of the customer page under the login's address.
pub proof fn law_customer_page_follows_accepted_credentials(l: Login, e: LoginEvent, n: Login, a: LoginAction)
    requires
        l.spec_stage() == LoginStage::SubmittingCredentials,
        l.stepped(e, n, a),
        e.success,
    ensures
        a matches LoginAction::Send(req) && {
            &&& req.model().method == Method::Get
            &&& req.model().url == l.spec_endpoint() + "/Customer/PlanSession"@
            &&& req.body is Empty
        },
        n.spec_stage() == LoginStage::FetchingCustomerPage,
{
}

/// A session read from an entry of the service's list holds what the
/// entry's members say: its start and end are what `chrono` reads from
/// `timeStartUtc` and `timeEndUtc` as year-month-day, `T`, then hour,
/// minute and second; the other fields are the members `id` (cut to 32
/// bits), `name`, `isActive`, `permitAreaDescription` and `lp`, and the
/// plate's description is `lpDescription` where that is text.
pub proof fn law_session_reads_its_members(data: JsonValue, s: Session)
    requires
        session_outcome(data, Ok(s)),
    ensures
        data.member("timeStartUtc"@) matches JsonValue::String(t) && chrono_naive_parse(
            t@,
            "%Y-%m-%dT%H:%M:%S"@,
        ) == Some((s.start.spec_secs(), s.start.spec_nanos())),
        data.member("timeEndUtc"@) matches JsonValue::String(t) && chrono_naive_parse(
            t@,
            "%Y-%m-%dT%H:%M:%S"@,
        ) == Some((s.end.spec_secs(), s.end.spec_nanos())),
        data.member("id"@) matches JsonValue::Number(JsonNumber::PosInt(n)) && s.id == n as u32,
        data.member("name"@) matches JsonValue::String(t) && s.name@ == t@,
        data.member("isActive"@) == JsonValue::Bool(s.active),
        data.member("permitAreaDescription"@) matches JsonValue::String(t) && s.area@ == t@,
        data.member("lp"@) matches JsonValue::String(t) && s.license_plate.plate@ == t@,
        match data.member("lpDescription"@) {
            JsonValue::String(t) => s.license_plate.description matches Some(d) && d@ == t@,
            _ => s.license_plate.description is None,
        },
{
    reveal_strlit("%Y-%m-%dT%H:%M:%S");
}

/// The model of entry `v`, where it is a session.
pub open spec fn entry_model(v: JsonValue) -> SessionModel {
    session_entry(v)->0
}

/// Whether a session is running.
pub open spec fn is_running(m: SessionModel) -> bool {
    m.active
}

proof fn lemma_listing_filters(items: Seq<JsonValue>)
    requires
        forall|i: int| 0 <= i < items.len() ==> #[trigger] session_entry(items[i]) is Some,
    ensures
        crate::session::active_sessions(items) == items.map_values(|v: JsonValue| entry_model(v)).filter(
            |m: SessionModel| is_running(m),
        ),
    decreases items.len(),
{
    reveal(Seq::filter);
    let models = items.map_values(|v: JsonValue| entry_model(v));
    if items.len() > 0 {
        let rest = items.drop_last();
        assert forall|i: int| 0 <= i < rest.len() implies #[trigger] session_entry(rest[i]) is Some by {
            assert(rest[i] == items[i]);
        }
        lemma_listing_filters(rest);
        assert(models.drop_last() =~= rest.map_values(|v: JsonValue| entry_model(v)));
        assert(session_entry(items[items.len() - 1]) is Some);
        assert(models.last() == entry_model(items.last()));
    } else {
        assert(models =~= Seq::<SessionModel>::empty());
    }
}

/// A session listing holds every running entry of the answer's `data`
/// array and nothing else, in the order of the array, whatever else the
/// entries carry (a plate's description among it); an answer without such
/// an array lists nothing.
pub proof fn law_listing_is_the_running_entries(document: JsonValue, sessions: Vec<Session>)
    requires
        sessions_outcome(document, Ok(sessions)),
    ensures
        match document.field("data"@) {
            Some(JsonValue::Array(items)) => sessions@.map_values(|s: Session| s.model())
                == items@.map_values(|v: JsonValue| entry_model(v)).filter(
                |m: SessionModel| is_running(m),
            ),
            _ => sessions@.len() == 0,
        },
        forall|i: int| 0 <= i < sessions@.len() ==> (#[trigger] sessions@[i]).active,
{
    if let Some(JsonValue::Array(items)) = document.field("data"@) {
        lemma_listing_filters(items@);
        let listed = items@.map_values(|v: JsonValue| entry_model(v)).filter(
            |m: SessionModel| is_running(m),
        );
        assert(sessions@.map_values(|s: Session| s.model()) =~= listed);
        assert forall|i: int| 0 <= i < sessions@.len() implies (#[trigger] sessions@[i]).active by {
            items@.map_values(|v: JsonValue| entry_model(v)).lemma_filter_pred(
                |m: SessionModel| is_running(m),
                i,
            );
            assert(sessions@.map_values(|s: Session| s.model())[i] == sessions@[i].model());
        }
    }
}

/// The request that stops a session is a `POST` to the stop address under
/// the service's address, sent from the overview page, whose JSON body
/// names exactly that session.
pub proof fn law_stop_request_posts(req: crate::request::HttpRequest, client: Client, session_id: u32)
    requires
        is_stop_request(req, client, session_id),
    ensures
        req.model().method == Method::Post,
        req.model().url == client.spec_endpoint() + "/Customer/SessionsOverview/StopParkingSession"@,
        req.model().headers == seq![
            ("referer"@, client.spec_endpoint() + "/Customer/SessionsOverview/Index/"@),
        ],
        req.body matches Body::Json(JsonValue::Object(members)) && members@.len() == 1
            && members@[0].0@ == "parkingSessionId"@ && members@[0].1 == JsonValue::Number(
            JsonNumber::PosInt(session_id as u64),
        ),
{
    reveal_strlit("/Customer/SessionsOverview/StopParkingSession");
    reveal_strlit("/Customer/SessionsOverview/Index/");
    reveal_strlit("referer");
    reveal_strlit("parkingSessionId");
}

/// The request that lists sessions is a `POST` to the listing address,
/// sent from the overview page as a form, whose body is `cstId=` and the
/// customer number in decimal.
pub proof fn law_listing_request_posts(req: crate::request::HttpRequest, client: Client)
    requires
        is_listing_request(req, client),
    ensures
        req.model().method == Method::Post,
        req.model().url == client.spec_endpoint() + "/Customer/SessionsOverview/GetParkingSessions/"@,
        req.model().headers == seq![
            ("referer"@, client.spec_endpoint() + "/Customer/SessionsOverview/Index/"@),
            ("content-type"@, "application/x-www-form-urlencoded; charset=UTF-8"@),
        ],
        req.body matches Body::Form(f) && f@ == "cstId="@ + decimal_text(
            client.spec_customer_id() as nat,
        ),
{
    reveal_strlit("/Customer/SessionsOverview/GetParkingSessions/");
    reveal_strlit("/Customer/SessionsOverview/Index/");
    reveal_strlit("referer");
    reveal_strlit("content-type");
    reveal_strlit("application/x-www-form-urlencoded; charset=UTF-8");
}

/// The text member `key` at position `i` of `members`.
pub open spec fn text_at(members: Seq<(String, JsonValue)>, i: int, key: Seq<char>, text: Seq<char>) -> bool {
    &&& members[i].0@ == key
    &&& members[i].1 matches JsonValue::String(s) && s@ == text
}

/// The number member `key` at position `i` of `members`.
pub open spec fn number_at(members: Seq<(String, JsonValue)>, i: int, key: Seq<char>, n: u64) -> bool {
    &&& members[i].0@ == key
    &&& members[i].1 == JsonValue::Number(JsonNumber::PosInt(n))
}

/// The last second of the UTC day of `secs`, written out.
pub open spec fn day_end(secs: i64) -> i64 {
    ((secs / 86400) * 86400 + 86399) as i64
}

/// The instant `now` moved by `d`, counted in nanoseconds.
pub open spec fn later_by(now: UtcDateTime, d: TimeSpan) -> (i64, u32) {
    let total = (now.spec_secs() + d.spec_secs()) * 1_000_000_000 + now.spec_nanos() + d.spec_nanos();
    ((total / 1_000_000_000) as i64, (total % 1_000_000_000) as u32)
}

/// A request that starts a session is a `POST` to the start address, sent
/// from the plan page, whose JSON body asks for a new session (number 0) on
/// the permit for the plate, started for the customer, from `now` until
/// the chosen end, or until the last second of the current UTC day when no
/// end is chosen.
pub proof fn law_start_request_shape(
    req: crate::request::HttpRequest,
    client: Client,
    permit_id: u32,
    plate: Seq<char>,
    now: UtcDateTime,
    end: Option<(i64, u32)>,
)
    requires
        is_start_request(req, client, permit_id, plate, now, end),
    ensures
        req.model().method == Method::Post,
        req.model().url == client.spec_endpoint() + "/Customer/PlanSession/StartParkingSession"@,
        req.model().headers == seq![
            ("referer"@, client.spec_endpoint() + "/Customer/PlanSession"@),
            ("x-requested-with"@, "XMLHttpRequest"@),
        ],
        req.body matches Body::Json(JsonValue::Object(members)) && {
            &&& members@.len() == 6
            &&& number_at(members@, 0, "parkingSessionId"@, 0)
            &&& number_at(members@, 1, "permitId"@, permit_id as u64)
            &&& text_at(members@, 2, "lp"@, plate)
            &&& number_at(members@, 3, "startedForUser"@, client.spec_customer_id())
            &&& text_at(members@, 4, "timeStart"@, chrono_rfc3339(now.spec_secs(), now.spec_nanos()))
            &&& text_at(
                members@,
                5,
                "timeEnd"@,
                match end {
                    Some(t) => chrono_rfc3339(t.0, t.1),
                    None => chrono_rfc3339(day_end(now.spec_secs()), 0),
                },
            )
        },
{
    reveal_strlit("/Customer/PlanSession/StartParkingSession");
    reveal_strlit("/Customer/PlanSession");
    reveal_strlit("referer");
    reveal_strlit("x-requested-with");
    reveal_strlit("XMLHttpRequest");
}

/// Starting by permit name succeeds exactly when the account has a permit
/// of that name, and then asks for a session on the first such permit, for
/// the plate, from `now` until the last second of the current UTC day when
/// no duration is given, or until `now` plus the duration (unless `now` is
/// a leap second).
pub proof fn law_named_start(
    client: Client,
    permit_name: Seq<char>,
    plate: Seq<char>,
    now: UtcDateTime,
    duration: Option<TimeSpan>,
    r: crate::error::Result<crate::request::HttpRequest>,
)
    requires
        named_start_outcome(client, permit_name, plate, now, duration, r),
    ensures
        r is Ok <==> exists|k: int|
            0 <= k < client.spec_permit_list().len() && #[trigger] client.spec_permit_list()[k].name@
                == permit_name,
        r matches Ok(req) ==> req.body matches Body::Json(JsonValue::Object(members)) && {
            &&& members@.len() == 6
            &&& exists|k: int|
                0 <= k < client.spec_permit_list().len() && client.spec_permit_list()[k].name@
                    == permit_name && (forall|j: int|
                    0 <= j < k ==> #[trigger] client.spec_permit_list()[j].name@ != permit_name)
                    && number_at(
                    members@,
                    1,
                    "permitId"@,
                    #[trigger] client.spec_permit_list()[k].id as u64,
                )
            &&& text_at(members@, 2, "lp"@, plate)
            &&& text_at(members@, 4, "timeStart"@, chrono_rfc3339(now.spec_secs(), now.spec_nanos()))
            &&& match duration {
                None => text_at(
                    members@,
                    5,
                    "timeEnd"@,
                    chrono_rfc3339(day_end(now.spec_secs()), 0),
                ),
                Some(d) => now.spec_nanos() < 1_000_000_000 && crate::time::shifted(
                    now.spec_secs(),
                    now.spec_nanos(),
                    d.spec_secs(),
                    d.spec_nanos(),
                ) is Some ==> text_at(
                    members@,
                    5,
                    "timeEnd"@,
                    chrono_rfc3339(later_by(now, d).0, later_by(now, d).1),
                ),
            }
        },
{
    if let Ok(req) = r {
        let k = choose|k: int|
            crate::session::first_permit_named(client.spec_permit_list(), permit_name, k)
                && is_start_request(
                req,
                client,
                #[trigger] client.spec_permit_list()[k].id,
                plate,
                now,
                crate::session::end_after(now, duration),
            );
        law_start_request_shape(
            req,
            client,
            client.spec_permit_list()[k].id,
            plate,
            now,
            crate::session::end_after(now, duration),
        );
        if let Some(d) = duration {
            if now.spec_nanos() < 1_000_000_000 && crate::time::shifted(
                now.spec_secs(),
                now.spec_nanos(),
                d.spec_secs(),
                d.spec_nanos(),
            ) is Some {
                assert(crate::session::end_after(now, duration) == Some(later_by(now, d)));
            }
        }
    }
}

/// The pattern of the login form's hidden token field.
pub open spec fn token_field() -> Seq<char> {
    r#"name="__RequestVerificationToken"[^>]*value="([^"]+)""#@
}

/// The pattern of the customer number on the customer page.
pub open spec fn customer_number_field() -> Seq<char> {
    r#"\\+"customerId\\+":\s*(\d+)"#@
}

/// The pattern of the document the customer page hands to its script.
pub open spec fn script_document() -> Seq<char> {
    r"planSession\.init\('([^']*)'\)"@
}

/// The verification token is the value of the hidden field
/// `__RequestVerificationToken` of the login page (the first group of the
/// first match of the field's pattern), and its absence is
/// `VerificationTokenMissing`.
pub proof fn law_token_is_the_hidden_field(page: Seq<char>, r: crate::error::Result<String>)
    requires
        token_outcome(page, r),
        regex_accepts(token_field()),
    ensures
        match regex_capture(token_field(), page, 1) {
            Some(t) => r matches Ok(s) && s@ == t,
            None => r matches Err(Error::VerificationTokenMissing),
        },
        token_value(page) == regex_capture(token_field(), page, 1),
{
}

/// The customer number is the decimal number after `customerId` in the
/// customer page's escaped script text; its absence is
/// `CustomerIdNotAvailable`, and digits that do not fit are `ParseInt`.
pub proof fn law_customer_number_is_read_from_the_page(page: Seq<char>, r: crate::error::Result<u64>)
    requires
        customer_id_outcome(page, r),
        regex_accepts(customer_number_field()),
    ensures
        match regex_capture(customer_number_field(), page, 1) {
            Some(d) => if reads_as_u64(d) {
                r matches Ok(n) && n == decimal_value(unsigned_digits(d))
                    && customer_id_value(page) == Some(n)
            } else {
                r matches Err(Error::ParseInt(_)) && customer_id_value(page) is None
            },
            None => r matches Err(Error::CustomerIdNotAvailable) && customer_id_value(page) is None,
        },
{
}

/// The permits of the customer page are read from the argument of its
/// script's `planSession.init('...')`, backslashes removed and decoded as
/// JSON: one permit per entry of its `permitList`, in order, each with the
/// entry's `id`, `permitProductId` (cut to 32 bits) and `permitProduct`.
/// No such argument is `NoPermitsFound`, text that is not JSON is
/// `SerdeJson`.
pub proof fn law_permits_come_from_the_script_document(page: Seq<char>, r: crate::error::Result<Vec<Permit>>)
    requires
        page_permits_outcome(page, r),
        regex_accepts(script_document()),
    ensures
        match regex_capture(script_document(), page, 1) {
            None => r matches Err(Error::NoPermitsFound),
            Some(t) => match json_document(without_char(t, '\\')) {
                None => r matches Err(Error::SerdeJson(_)),
                Some(document) => match document.field("permitList"@) {
                    Some(JsonValue::Array(items)) => r matches Ok(permits) ==> permits@.len()
                        == items@.len() && forall|i: int|
                        0 <= i < items@.len() ==> {
                            &&& (#[trigger] items@[i]).member("id"@) matches JsonValue::Number(
                                JsonNumber::PosInt(n),
                            ) && permits@[i].id == n as u32
                            &&& items@[i].member("permitProductId"@) matches JsonValue::Number(
                                JsonNumber::PosInt(n),
                            ) && permits@[i].product_id == n as u32
                            &&& items@[i].member("permitProduct"@) matches JsonValue::String(s)
                                && permits@[i].name@ == s@
                        },
                    _ => r matches Err(Error::NoPermitsFound),
                },
            },
        },
{
    if let Some(t) = regex_capture(script_document(), page, 1) {
        if let Some(document) = json_document(without_char(t, '\\')) {
            if let Ok(permits) = r {
                assert(permits_outcome(document, r));
                if let Some(JsonValue::Array(items)) = document.field("permitList"@) {
                    assert forall|i: int| 0 <= i < items@.len() implies {
                        &&& (#[trigger] items@[i]).member("id"@) matches JsonValue::Number(
                            JsonNumber::PosInt(n),
                        ) && permits@[i].id == n as u32
                        &&& items@[i].member("permitProductId"@) matches JsonValue::Number(
                            JsonNumber::PosInt(n),
                        ) && permits@[i].product_id == n as u32
                        &&& items@[i].member("permitProduct"@) matches JsonValue::String(s)
                            && permits@[i].name@ == s@
                    } by {
                        assert(Some(permits@[i].model()) == crate::client::permit_entry(items@[i]));
                    }
                }
            }
        }
    }
}

/// The session a plate is stopped by is the first of the listed sessions
/// parked under that plate.
pub proof fn law_stop_by_plate_takes_the_first(sessions: Seq<Session>, plate: Seq<char>, k: int)
    requires
        crate::session::first_session_with_plate(sessions, plate, k),
    ensures
        0 <= k < sessions.len(),
        sessions[k].license_plate.plate@ == plate,
        forall|j: int| 0 <= j < k ==> #[trigger] sessions[j].license_plate.plate@ != plate,
{
}

/// An address given outright is the one used, whatever is set in the
/// environment; the setting is used only where none is given; with
/// neither, the error names the missing setting.
pub proof fn law_given_address_wins(hostname: Option<String>, setting: Option<String>, r: crate::error::Result<String>)
    requires
        endpoint_outcome(hostname, setting, r),
    ensures
        match (hostname, setting) {
            (Some(h), _) => r matches Ok(e) && e@ == h@,
            (None, Some(s)) => r matches Ok(e) && e@ == s@,
            (None, None) => r matches Err(Error::EnvironmentVariable(m)) && m@
                == "PARKEERSERVICE_ENDPOINT url not set. E.g. 'PARKEERSERVICE_ENDPOINT=https://parkstart-LOCATION.parkpermit.eu'."@,
        },
{
}

/// Credentials given outright are the ones used, each setting only stands
/// in for a value not given, and a missing e-mail address is reported
/// before a missing password.
pub proof fn law_given_credentials_win(
    email: Option<String>,
    password: Option<String>,
    email_setting: Option<String>,
    password_setting: Option<String>,
    r: crate::error::Result<Credentials>,
)
    requires
        credentials_outcome(email, password, email_setting, password_setting, r),
    ensures
        r is Err <==> (email is None && email_setting is None) || (password is None
            && password_setting is None),
        match (r, email, email_setting) {
            (Ok(c), Some(e), _) => c.spec_email() == e@,
            (Ok(c), None, Some(e)) => c.spec_email() == e@,
            (Err(err), None, None) => err matches Error::EnvironmentVariable(m) && m@
                == "Email not provided, cannot load credentials. Please set PARKEERSERVICE_EMAIL."@,
            _ => true,
        },
        match (r, password, password_setting) {
            (Ok(c), Some(p), _) => c.spec_password() == p@,
            (Ok(c), None, Some(p)) => c.spec_password() == p@,
            _ => true,
        },
{
}

/// An answer that the service marks as a success passes; any other is
/// refused with the answer's own text.
pub proof fn law_refusal_carries_the_answer(success: bool, text: Seq<char>, r: crate::error::Result<()>)
    requires
        check_outcome(success, text, r),
    ensures
        r is Ok <==> success,
        match r {
            Ok(_) => true,
            Err(Error::Custom(m)) => m@ == text,
            Err(_) => false,
        },
{
}

/// The session found for a plate is the first listed session parked under
/// that plate; where none is, the error says the plate was not found.
pub proof fn law_plate_finds_its_first_session(sessions: Seq<Session>, plate: Seq<char>, r: crate::error::Result<u32>)
    requires
        session_id_outcome(sessions, plate, r),
    ensures
        r matches Ok(id) ==> exists|k: int|
            0 <= k < sessions.len() && sessions[k].license_plate.plate@ == plate && (forall|j: int|
                0 <= j < k ==> #[trigger] sessions[j].license_plate.plate@ != plate) && #[trigger] sessions[k].id
                == id,
        r is Err <==> forall|j: int| 0 <= j < sessions.len() ==> #[trigger] sessions[j].license_plate.plate@ != plate,
        match r {
            Err(Error::Custom(m)) => m@ == "License plate was not, could not stop it."@,
            Err(_) => false,
            Ok(_) => true,
        },
{
    if r is Ok {
        let id = r->Ok_0;
        let k = choose|k: int| crate::session::first_session_with_plate(sessions, plate, k) && #[trigger] sessions[k].id == id;
        assert(sessions[k].license_plate.plate@ == plate);
    }
}

/// The permit found by name is the first permit of that name; where none
/// is, the error names the permit.
pub proof fn law_name_finds_its_first_permit(permits: Seq<Permit>, name: Seq<char>, r: crate::error::Result<Permit>)
    requires
        permit_search_outcome(permits, name, r),
    ensures
        r matches Ok(p) ==> exists|k: int|
            0 <= k < permits.len() && permits[k].name@ == name && (forall|j: int|
                0 <= j < k ==> #[trigger] permits[j].name@ != name) && p.model() == (#[trigger] permits[k]).model(),
        r is Err <==> forall|j: int| 0 <= j < permits.len() ==> #[trigger] permits[j].name@ != name,
        match r {
            Err(Error::Custom(m)) => m@ == "Permit "@ + name + " could not be found."@,
            Err(_) => false,
            Ok(_) => true,
        },
{
    if r is Ok {
        let p = r->Ok_0;
        let k = choose|k: int| crate::session::first_permit_named(permits, name, k) && p.model() == (#[trigger] permits[k]).model();
        assert(permits[k].name@ == name);
    }
}

} // verus!
