//! Parking sessions: reading them from the service's answers and building
//! the requests that list, start and stop them.
use vstd::prelude::*;
use vstd::string::StringExecFns;

use crate::client::{Client, Permit};
use crate::error::{Error, Result};
use crate::json::{decode_json, json_document, JsonValue};
use crate::request::{
    form_body, header, number_entry, number_member, text_entry, text_member, Body, HttpRequest,
    Method, CONTENT_TYPE, FORM_MEDIA_TYPE_UTF8, REFERER, REQUESTED_WITH, XML_HTTP_REQUEST,
};
use crate::text::{decimal_string, decimal_text, join};
use crate::time::{chrono_naive_parse, chrono_rfc3339, end_of_day_secs, moved, TimeSpan, UtcDateTime};

verus! {

/// A license plate, with the description its owner gave it, if any.
#[derive(Debug, Clone)]
pub struct LicensePlate {
    /// The plate, for example `ABCDEFG`.
    pub plate: String,
    /// The owner's description of the plate.
    pub description: Option<String>,
}

/// An optional text as a mathematical value.
pub open spec fn text_option(t: Option<String>) -> Option<Seq<char>> {
    match t {
        Some(s) => Some(s@),
        None => None,
    }
}

impl LicensePlate {
    /// A plate without description.
    pub fn new(plate: String) -> (r: LicensePlate)
        ensures
            r.plate@ == plate@,
            r.description is None,
    {
        LicensePlate { plate, description: None }
    }
}

/// A parking session.
#[derive(Debug)]
pub struct Session {
    /// The service's number for the session.
    pub id: u32,
    /// When the session starts.
    pub start: UtcDateTime,
    /// When the session ends, as currently set.
    pub end: UtcDateTime,
    /// The name of the permit the session runs on.
    pub name: String,
    /// Whether the session is running.
    pub active: bool,
    /// The area the session is in.
    pub area: String,
    /// The car parked.
    pub license_plate: LicensePlate,
}

/// A session as mathematical values.
pub struct SessionModel {
    pub id: u32,
    pub start: (i64, u32),
    pub end: (i64, u32),
    pub name: Seq<char>,
    pub active: bool,
    pub area: Seq<char>,
    pub plate: Seq<char>,
    pub description: Option<Seq<char>>,
}

impl Session {
    /// The session as mathematical values.
    pub open spec fn model(&self) -> SessionModel {
        SessionModel {
            id: self.id,
            start: (self.start.spec_secs(), self.start.spec_nanos()),
            end: (self.end.spec_secs(), self.end.spec_nanos()),
            name: self.name@,
            active: self.active,
            area: self.area@,
            plate: self.license_plate.plate@,
            description: text_option(self.license_plate.description),
        }
    }
}

/// How the service writes the start and end of a session.
pub const SESSION_TIME_FORMAT: &'static str = "%Y-%m-%dT%H:%M:%S";

/// The instant that the text member `key` of a session entry gives, where
/// that member is text and reads as a date and time.
pub open spec fn entry_time(data: JsonValue, key: Seq<char>) -> Option<(i64, u32)> {
    match data.member(key).text_value() {
        Some(t) => chrono_naive_parse(t, SESSION_TIME_FORMAT@),
        None => None,
    }
}

/// What a session entry of the service's list holds, where every member is
/// present with the right type and both times read.
pub open spec fn session_entry(data: JsonValue) -> Option<SessionModel> {
    match (
        entry_time(data, "timeStartUtc"@),
        entry_time(data, "timeEndUtc"@),
        data.member("id"@).u64_value(),
        data.member("name"@).text_value(),
        data.member("isActive"@).bool_value(),
        data.member("permitAreaDescription"@).text_value(),
        data.member("lp"@).text_value(),
    ) {
        (Some(start), Some(end), Some(id), Some(name), Some(active), Some(area), Some(plate)) => Some(
            SessionModel {
                id: id as u32,
                start,
                end,
                name,
                active,
                area,
                plate,
                description: data.member("lpDescription"@).text_value(),
            },
        ),
        _ => None,
    }
}

/// The error that reading a session entry runs into first: the start time,
/// then the end time, then the other members, in that order.
pub open spec fn session_entry_error(data: JsonValue, e: Error) -> bool {
    match data.member("timeStartUtc"@).text_value() {
        None => e matches Error::InvalidIndex,
        Some(start) => match chrono_naive_parse(start, SESSION_TIME_FORMAT@) {
            None => e matches Error::ChronoParse(_),
            Some(_) => match data.member("timeEndUtc"@).text_value() {
                None => e matches Error::InvalidIndex,
                Some(end) => match chrono_naive_parse(end, SESSION_TIME_FORMAT@) {
                    None => e matches Error::ChronoParse(_),
                    Some(_) => e matches Error::InvalidIndex,
                },
            },
        },
    }
}

/// What reading a session entry gives.
pub open spec fn session_outcome(data: JsonValue, r: Result<Session>) -> bool {
    match session_entry(data) {
        Some(m) => r matches Ok(s) && s.model() == m,
        None => r matches Err(e) && session_entry_error(data, e),
    }
}

/// Reads the text member `key` of a session entry as a date and time.
fn read_time(data: &JsonValue, key: &str) -> (r: Result<UtcDateTime>)
    ensures
        match data.member(key@).text_value() {
            None => r matches Err(Error::InvalidIndex),
            Some(t) => match chrono_naive_parse(t, SESSION_TIME_FORMAT@) {
                None => r matches Err(Error::ChronoParse(_)),
                Some(v) => r matches Ok(time) && (time.spec_secs(), time.spec_nanos()) == v,
            },
        },
{
    let text = match data.index(key).as_str() {
        Some(t) => t,
        None => return Err(Error::InvalidIndex),
    };
    match UtcDateTime::parse_naive(text, SESSION_TIME_FORMAT) {
        Ok(time) => Ok(time),
        Err(e) => Err(Error::ChronoParse(e)),
    }
}

impl Session {
    /// Reads a session from an entry of the service's session list.
    pub fn from_json(data: &JsonValue) -> (r: Result<Session>)
        ensures
            session_outcome(*data, r),
    {
        let start = read_time(data, "timeStartUtc")?;
        let end = read_time(data, "timeEndUtc")?;
        let description = match data.index("lpDescription").as_str() {
            Some(d) => Some(d.to_owned()),
            None => None,
        };
        let id = match data.index("id").as_u64() {
            Some(v) => v as u32,
            None => return Err(Error::InvalidIndex),
        };
        let name = match data.index("name").as_str() {
            Some(s) => s.to_owned(),
            None => return Err(Error::InvalidIndex),
        };
        let active = match data.index("isActive").as_bool() {
            Some(b) => b,
            None => return Err(Error::InvalidIndex),
        };
        let area = match data.index("permitAreaDescription").as_str() {
            Some(s) => s.to_owned(),
            None => return Err(Error::InvalidIndex),
        };
        let plate = match data.index("lp").as_str() {
            Some(s) => s.to_owned(),
            None => return Err(Error::InvalidIndex),
        };
        Ok(Session {
            id,
            start,
            end,
            name,
            active,
            area,
            license_plate: LicensePlate { plate, description },
        })
    }
}

/// The sessions that the entries `items` describe and that are running, in
/// the order of the entries; entries that are not sessions are passed over.
pub open spec fn active_sessions(items: Seq<JsonValue>) -> Seq<SessionModel>
    decreases items.len(),
{
    if items.len() == 0 {
        Seq::empty()
    } else {
        let earlier = active_sessions(items.drop_last());
        match session_entry(items.last()) {
            Some(m) => if m.active {
                earlier.push(m)
            } else {
                earlier
            },
            None => earlier,
        }
    }
}

/// What reading the service's answer to a session listing gives: no
/// sessions without a `data` array, else the error of the first entry that
/// is not a session, else the running sessions among the entries, in
/// order.
pub open spec fn sessions_outcome(document: JsonValue, r: Result<Vec<Session>>) -> bool {
    match document.field("data"@) {
        Some(JsonValue::Array(items)) => if forall|i: int|
            0 <= i < items@.len() ==> #[trigger] session_entry(items@[i]) is Some {
            r matches Ok(sessions) && sessions@.len() == active_sessions(items@).len() && forall|i: int|
                0 <= i < sessions@.len() ==> #[trigger] sessions@[i].model() == active_sessions(
                    items@,
                )[i]
        } else {
            r matches Err(e) && exists|k: int|
                0 <= k < items@.len() && #[trigger] session_entry(items@[k]) is None && (forall|j: int|
                    0 <= j < k ==> #[trigger] session_entry(items@[j]) is Some) && session_entry_error(
                    items@[k],
                    e,
                )
        },
        _ => r matches Ok(sessions) && sessions@.len() == 0,
    }
}

/// Reads the running sessions from the service's answer to a session
/// listing. Every entry must be a session; those that are not running are
/// left out.
pub fn sessions_from_response(document: &JsonValue) -> (r: Result<Vec<Session>>)
    ensures
        sessions_outcome(*document, r),
{
    let mut sessions: Vec<Session> = Vec::new();
    let items = match document.get("data") {
        Some(JsonValue::Array(items)) => items,
        _ => return Ok(sessions),
    };
    let n = items.len();
    let mut i: usize = 0;
    assert(items@.take(0) =~= Seq::<JsonValue>::empty());
    while i < n
        invariant
            n == items@.len(),
            i <= n,
            document.field("data"@) == Some(JsonValue::Array(*items)),
            forall|j: int| 0 <= j < i ==> #[trigger] session_entry(items@[j]) is Some,
            sessions@.len() == active_sessions(items@.take(i as int)).len(),
            forall|j: int|
                0 <= j < sessions@.len() ==> #[trigger] sessions@[j].model() == active_sessions(
                    items@.take(i as int),
                )[j],
        decreases n - i,
    {
        proof {
            assert(items@.take(i + 1).drop_last() =~= items@.take(i as int));
            assert(items@.take(i + 1).last() == items@[i as int]);
        }
        match Session::from_json(&items[i]) {
            Ok(s) => {
                if s.active {
                    sessions.push(s);
                }
            },
            Err(e) => {
                assert(session_entry(items@[i as int]) is None);
                return Err(e);
            },
        }
        i += 1;
    }
    assert(items@.take(n as int) =~= items@);
    Ok(sessions)
}

/// What reading the service's answer text to a session listing gives:
/// [`Error::SerdeJson`] where the text is not JSON, else what
/// [`sessions_outcome`] says of the decoded document.
pub open spec fn answer_sessions_outcome(text: Seq<char>, r: Result<Vec<Session>>) -> bool {
    match json_document(text) {
        None => r matches Err(Error::SerdeJson(_)),
        Some(document) => sessions_outcome(document, r),
    }
}

/// Decodes the service's answer to a session listing and reads the running
/// sessions from it.
pub fn sessions_from_answer(text: &str) -> (r: Result<Vec<Session>>)
    ensures
        answer_sessions_outcome(text@, r),
{
    match decode_json(text) {
        Ok(document) => sessions_from_response(&document),
        Err(e) => Err(Error::SerdeJson(e)),
    }
}

/// The service's address followed by `path`.
pub open spec fn service_url(client: Client, path: Seq<char>) -> Seq<char> {
    client.spec_endpoint() + path
}

/// The path that lists sessions.
pub const SESSIONS_PATH: &'static str = "/Customer/SessionsOverview/GetParkingSessions/";

/// The path of the sessions overview page.
pub const OVERVIEW_PATH: &'static str = "/Customer/SessionsOverview/Index/";

/// The path that stops a session.
pub const STOP_PATH: &'static str = "/Customer/SessionsOverview/StopParkingSession";

/// The path of the page that plans sessions.
pub const PLAN_PATH: &'static str = "/Customer/PlanSession";

/// The path that starts a session.
pub const START_PATH: &'static str = "/Customer/PlanSession/StartParkingSession";

/// `req` lists the account's sessions: a form post of the customer number
/// to the listing address, as the overview page sends it.
pub open spec fn is_listing_request(req: HttpRequest, client: Client) -> bool {
    &&& req.model().method == Method::Post
    &&& req.model().url == service_url(client, SESSIONS_PATH@)
    &&& req.model().headers == seq![
        (REFERER@, service_url(client, OVERVIEW_PATH@)),
        (CONTENT_TYPE@, FORM_MEDIA_TYPE_UTF8@),
    ]
    &&& form_body(req.body, "cstId="@ + decimal_text(client.spec_customer_id() as nat))
}

/// The request that lists the account's sessions: a form post of the
/// customer number, as the overview page sends it.
pub fn parking_sessions_request(client: &Client) -> (r: HttpRequest)
    ensures
        is_listing_request(r, *client),
        r.model().method == Method::Post,
        r.model().url == service_url(*client, SESSIONS_PATH@),
        r.model().headers == seq![
            (REFERER@, service_url(*client, OVERVIEW_PATH@)),
            (CONTENT_TYPE@, FORM_MEDIA_TYPE_UTF8@),
        ],
        form_body(r.body, "cstId="@ + decimal_text(client.spec_customer_id() as nat)),
{
    let endpoint = client.get_endpoint();
    let mut form = "cstId=".to_owned();
    form.append(decimal_string(client.get_customer_id()).as_str());
    let headers = vec![header(REFERER, join(endpoint, OVERVIEW_PATH).as_str()), header(CONTENT_TYPE, FORM_MEDIA_TYPE_UTF8)];
    let r = HttpRequest {
        method: Method::Post,
        url: join(endpoint, SESSIONS_PATH),
        headers,
        body: Body::Form(form),
    };
    assert(r.model().headers =~= seq![
        (REFERER@, service_url(*client, OVERVIEW_PATH@)),
        (CONTENT_TYPE@, FORM_MEDIA_TYPE_UTF8@),
    ]);
    r
}

/// What checking an answer gives: success where the service reported it,
/// else an error carrying the answer's text.
pub open spec fn check_outcome(success: bool, text: Seq<char>, r: Result<()>) -> bool {
    if success {
        r is Ok
    } else {
        r matches Err(Error::Custom(m)) && m@ == text
    }
}

/// The answer to a request: an error carrying the answer's text where the
/// service did not report success.
pub fn check_response(success: bool, text: String) -> (r: Result<()>)
    ensures
        check_outcome(success, text@, r),
        success ==> r is Ok,
        !success ==> (r matches Err(Error::Custom(m)) && m@ == text@),
{
    if success {
        Ok(())
    } else {
        Err(Error::Custom(text))
    }
}

/// The message when no session is parked under the plate.
pub const PLATE_NOT_FOUND: &'static str = "License plate was not, could not stop it.";

/// What looking up the session of a plate gives: the number of the first
/// session parked under it, else the error that none is.
pub open spec fn session_id_outcome(sessions: Seq<Session>, plate: Seq<char>, r: Result<u32>) -> bool {
    match r {
        Ok(id) => exists|k: int|
            first_session_with_plate(sessions, plate, k) && #[trigger] sessions[k].id == id,
        Err(e) => e matches Error::Custom(m) && m@ == PLATE_NOT_FOUND@ && forall|j: int|
            0 <= j < sessions.len() ==> #[trigger] sessions[j].license_plate.plate@ != plate,
    }
}

/// The number of the first session parked under `plate`.
pub fn find_session_id(sessions: &[Session], plate: &str) -> (r: Result<u32>)
    ensures
        session_id_outcome(sessions@, plate@, r),
        match r {
            Ok(id) => exists|k: int|
                0 <= k < sessions@.len() && #[trigger] sessions@[k].license_plate.plate@ == plate@
                    && sessions@[k].id == id && forall|j: int|
                    0 <= j < k ==> #[trigger] sessions@[j].license_plate.plate@ != plate@,
            Err(e) => e matches Error::Custom(m) && m@ == PLATE_NOT_FOUND@ && forall|j: int|
                0 <= j < sessions@.len() ==> #[trigger] sessions@[j].license_plate.plate@ != plate@,
        },
{
    let wanted = plate.to_owned();
    let n = sessions.len();
    let mut i: usize = 0;
    while i < n
        invariant
            n == sessions@.len(),
            i <= n,
            wanted@ == plate@,
            forall|j: int| 0 <= j < i ==> #[trigger] sessions@[j].license_plate.plate@ != plate@,
        decreases n - i,
    {
        if sessions[i].license_plate.plate == wanted {
            return Ok(sessions[i].id);
        }
        i += 1;
    }
    Err(Error::Custom(PLATE_NOT_FOUND.to_owned()))
}

/// `req` stops session `session_id`: a JSON post of the session's number,
/// as the overview page sends it.
pub open spec fn is_stop_request(req: HttpRequest, client: Client, session_id: u32) -> bool {
    &&& req.model().method == Method::Post
    &&& req.model().url == service_url(client, STOP_PATH@)
    &&& req.model().headers == seq![(REFERER@, service_url(client, OVERVIEW_PATH@))]
    &&& req.body matches Body::Json(JsonValue::Object(members)) && members@.len() == 1
        && number_member(members@[0], "parkingSessionId"@, session_id as u64)
}

/// The request that stops session `session_id`.
pub fn stop_session_request(client: &Client, session_id: u32) -> (r: HttpRequest)
    ensures
        is_stop_request(r, *client, session_id),
{
    let endpoint = client.get_endpoint();
    let members = vec![number_entry("parkingSessionId", session_id as u64)];
    let headers = vec![header(REFERER, join(endpoint, OVERVIEW_PATH).as_str())];
    let r = HttpRequest {
        method: Method::Post,
        url: join(endpoint, STOP_PATH),
        headers,
        body: Body::Json(JsonValue::Object(members)),
    };
    assert(r.model().headers =~= seq![(REFERER@, service_url(*client, OVERVIEW_PATH@))]);
    r
}

/// The body of a start request: session 0 (a new one) on `permit_id` for
/// `plate`, started for `customer_id` from `start` until `end` (RFC 3339
/// texts).
pub open spec fn start_body(
    body: Body,
    permit_id: u32,
    plate: Seq<char>,
    customer_id: u64,
    start: Seq<char>,
    end: Seq<char>,
) -> bool {
    &&& body matches Body::Json(JsonValue::Object(members))
    &&& members@.len() == 6
    &&& number_member(members@[0], "parkingSessionId"@, 0)
    &&& number_member(members@[1], "permitId"@, permit_id as u64)
    &&& text_member(members@[2], "lp"@, plate)
    &&& number_member(members@[3], "startedForUser"@, customer_id)
    &&& text_member(members@[4], "timeStart"@, start)
    &&& text_member(members@[5], "timeEnd"@, end)
}

/// The end a session gets when none is chosen: the last second of the
/// current UTC day.
pub open spec fn default_end(now: UtcDateTime) -> (i64, u32) {
    (end_of_day_secs(now.spec_secs() as int) as i64, 0u32)
}

/// `req` is a JSON post to the start address that starts a new session on
/// permit `permit_id` for `plate`, from `now` until `end`, or until the end
/// of the current day when no end is chosen.
pub open spec fn is_start_request(
    req: HttpRequest,
    client: Client,
    permit_id: u32,
    plate: Seq<char>,
    now: UtcDateTime,
    end: Option<(i64, u32)>,
) -> bool {
    let until = match end {
        Some(t) => t,
        None => default_end(now),
    };
    &&& req.model().method == Method::Post
    &&& req.model().url == service_url(client, START_PATH@)
    &&& req.model().headers == seq![
        (REFERER@, service_url(client, PLAN_PATH@)),
        (REQUESTED_WITH@, XML_HTTP_REQUEST@),
    ]
    &&& start_body(
        req.body,
        permit_id,
        plate,
        client.spec_customer_id(),
        chrono_rfc3339(now.spec_secs(), now.spec_nanos()),
        chrono_rfc3339(until.0, until.1),
    )
}

/// An optional instant as a mathematical value.
pub open spec fn instant_option(t: Option<UtcDateTime>) -> Option<(i64, u32)> {
    match t {
        Some(t) => Some((t.spec_secs(), t.spec_nanos())),
        None => None,
    }
}

/// The request that starts a session on `permit` for `license_plate`,
/// beginning `now` and ending at `end_time`, or at the end of the current
/// day when no end is chosen.
pub fn start_session_request(
    client: &Client,
    permit: &Permit,
    license_plate: &LicensePlate,
    now: UtcDateTime,
    end_time: Option<UtcDateTime>,
) -> (r: HttpRequest)
    ensures
        is_start_request(r, *client, permit.id, license_plate.plate@, now, instant_option(end_time)),
{
    let end = match end_time {
        Some(t) => t,
        None => now.end_of_day(),
    };
    let endpoint = client.get_endpoint();
    let members = vec![
        number_entry("parkingSessionId", 0),
        number_entry("permitId", permit.id as u64),
        text_entry("lp", license_plate.plate.clone()),
        number_entry("startedForUser", client.get_customer_id()),
        text_entry("timeStart", now.to_rfc3339()),
        text_entry("timeEnd", end.to_rfc3339()),
    ];
    let headers = vec![header(REFERER, join(endpoint, PLAN_PATH).as_str()), header(REQUESTED_WITH, XML_HTTP_REQUEST)];
    let r = HttpRequest {
        method: Method::Post,
        url: join(endpoint, START_PATH),
        headers,
        body: Body::Json(JsonValue::Object(members)),
    };
    assert(r.model().headers =~= seq![
        (REFERER@, service_url(*client, PLAN_PATH@)),
        (REQUESTED_WITH@, XML_HTTP_REQUEST@),
    ]);
    r
}

/// What looking up a permit by name gives: a copy of the first permit of
/// that name, else the error that none has it.
pub open spec fn permit_search_outcome(permits: Seq<Permit>, name: Seq<char>, r: Result<Permit>) -> bool {
    match r {
        Ok(p) => exists|k: int|
            first_permit_named(permits, name, k) && p.model() == (#[trigger] permits[k]).model(),
        Err(e) => e matches Error::Custom(m) && m@ == "Permit "@ + name + " could not be found."@
            && forall|j: int| 0 <= j < permits.len() ==> #[trigger] permits[j].name@ != name,
    }
}

/// The first permit named `name`.
pub fn find_permit(permits: &[Permit], name: &str) -> (r: Result<Permit>)
    ensures
        permit_search_outcome(permits@, name@, r),
        match r {
            Ok(p) => exists|k: int|
                0 <= k < permits@.len() && #[trigger] permits@[k].name@ == name@ && p.model()
                    == permits@[k].model() && forall|j: int|
                    0 <= j < k ==> #[trigger] permits@[j].name@ != name@,
            Err(e) => e matches Error::Custom(m) && m@ == "Permit "@ + name@ + " could not be found."@
                && forall|j: int| 0 <= j < permits@.len() ==> #[trigger] permits@[j].name@ != name@,
        },
{
    let wanted = name.to_owned();
    let n = permits.len();
    let mut i: usize = 0;
    while i < n
        invariant
            n == permits@.len(),
            i <= n,
            wanted@ == name@,
            forall|j: int| 0 <= j < i ==> #[trigger] permits@[j].name@ != name@,
        decreases n - i,
    {
        if permits[i].name == wanted {
            return Ok(permits[i].duplicate());
        }
        i += 1;
    }
    let mut message = "Permit ".to_owned();
    message.append(name);
    message.append(" could not be found.");
    Err(Error::Custom(message))
}

/// The first session parked under `plate` in `sessions`, by position.
pub open spec fn first_session_with_plate(sessions: Seq<Session>, plate: Seq<char>, k: int) -> bool {
    &&& 0 <= k < sessions.len()
    &&& sessions[k].license_plate.plate@ == plate
    &&& forall|j: int| 0 <= j < k ==> #[trigger] sessions[j].license_plate.plate@ != plate
}

/// The request that stops the first of `sessions` parked under `plate`, or
/// the error that no session is.
pub fn stop_by_plate_request(client: &Client, sessions: &[Session], plate: &str) -> (r: Result<HttpRequest>)
    ensures
        match r {
            Ok(req) => exists|k: int|
                first_session_with_plate(sessions@, plate@, k) && is_stop_request(
                    req,
                    *client,
                    #[trigger] sessions@[k].id,
                ),
            Err(e) => e matches Error::Custom(m) && m@ == PLATE_NOT_FOUND@ && forall|j: int|
                0 <= j < sessions@.len() ==> #[trigger] sessions@[j].license_plate.plate@ != plate@,
        },
{
    let id = find_session_id(sessions, plate)?;
    Ok(stop_session_request(client, id))
}

/// Some permit in `permits` is named `name`.
pub open spec fn has_permit_named(permits: Seq<Permit>, name: Seq<char>) -> bool {
    exists|k: int| 0 <= k < permits.len() && #[trigger] permits[k].name@ == name
}

/// The first permit in `permits` named `name`, by position.
pub open spec fn first_permit_named(permits: Seq<Permit>, name: Seq<char>, k: int) -> bool {
    &&& 0 <= k < permits.len()
    &&& permits[k].name@ == name
    &&& forall|j: int| 0 <= j < k ==> #[trigger] permits[j].name@ != name
}

/// The end of a session that lasts `duration` from `now`.
pub open spec fn end_after(now: UtcDateTime, duration: Option<TimeSpan>) -> Option<(i64, u32)> {
    match duration {
        Some(d) => moved(now, d),
        None => None,
    }
}

/// What building a start request by permit name gives: the error that
/// no permit has the name, else the request that [`start_session_request`]
/// builds for the first permit of that name and a plate without
/// description.
pub open spec fn named_start_outcome(
    client: Client,
    permit_name: Seq<char>,
    license_plate: Seq<char>,
    now: UtcDateTime,
    duration: Option<TimeSpan>,
    r: Result<HttpRequest>,
) -> bool {
    if has_permit_named(client.spec_permit_list(), permit_name) {
        r matches Ok(req) && exists|k: int|
            first_permit_named(client.spec_permit_list(), permit_name, k) && is_start_request(
                req,
                client,
                #[trigger] client.spec_permit_list()[k].id,
                license_plate,
                now,
                end_after(now, duration),
            )
    } else {
        r matches Err(Error::Custom(m)) && m@ == "Permit "@ + permit_name + " could not be found."@
    }
}

/// The request that starts a session for `license_plate` on the account's
/// first permit named `permit_name`, beginning `now` and lasting `duration`,
/// or until the end of the current day when no duration is given.
///
/// Where such a permit exists, the end must be representable.
pub fn named_start_request(
    client: &Client,
    permit_name: &str,
    license_plate: String,
    now: UtcDateTime,
    duration: Option<TimeSpan>,
) -> (r: Result<HttpRequest>)
    requires
        has_permit_named(client.spec_permit_list(), permit_name@) && duration is Some ==> end_after(
            now,
            duration,
        ) is Some,
    ensures
        named_start_outcome(*client, permit_name@, license_plate@, now, duration, r),
{
    let permit = find_permit(client.get_permits(), permit_name)?;
    let plate = LicensePlate::new(license_plate);
    let end_time = match duration {
        Some(d) => match now.checked_add(d) {
            Some(t) => Some(t),
            None => unreached(),
        },
        None => None,
    };
    Ok(start_session_request(client, &permit, &plate, now, end_time))
}

/// As [`named_start_request`], where the end of the session can be
/// represented; `None` where a permit of that name exists and `now` moved
/// by `duration` cannot be.
pub fn try_named_start_request(
    client: &Client,
    permit_name: &str,
    license_plate: String,
    now: UtcDateTime,
    duration: Option<TimeSpan>,
) -> (r: Option<Result<HttpRequest>>)
    ensures
        r is None <==> has_permit_named(client.spec_permit_list(), permit_name@) && duration is Some
            && end_after(now, duration) is None,
        r matches Some(outcome) ==> named_start_outcome(
            *client,
            permit_name@,
            license_plate@,
            now,
            duration,
            outcome,
        ),
{
    if let Some(d) = duration {
        if let Ok(_) = find_permit(client.get_permits(), permit_name) {
            if now.checked_add(d).is_none() {
                return None;
            }
        }
    }
    Some(named_start_request(client, permit_name, license_plate, now, duration))
}

} // verus!
