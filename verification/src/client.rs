//! The account: its permits, its credentials, and what the service's pages
//! reveal about it.
use vstd::prelude::*;
use vstd::string::StringExecFns;
use vstd::utf8::encode_utf8;

use crate::error::{Error, Result};
use crate::json::{decode_json, json_document, JsonValue};
use crate::pattern::{find_group, regex_accepts, regex_capture};
use crate::text::{
    decimal_value, parse_u64, percent_encoded, reads_as_u64, remove_backslashes, unsigned_digits,
    url_encode, without_char,
};

verus! {

/// A permit assigned to the account; each permit of an account is its own.
///
/// For example the residents' permit (`bewoners`), or the permit for
/// visitors (`bezoekersparkeren`).
#[derive(Debug, Clone)]
pub struct Permit {
    /// The service's number for the permit.
    pub id: u32,
    /// The number of the kind of permit, e.g. residents or visitors.
    pub product_id: u32,
    /// The permit's display name.
    pub name: String,
}

/// What a permit entry of the customer page holds: its `id`, its
/// `permitProductId` (each cut to 32 bits) and its `permitProduct` name.
pub open spec fn permit_entry(data: JsonValue) -> Option<(u32, u32, Seq<char>)> {
    match (
        data.member("id"@).u64_value(),
        data.member("permitProductId"@).u64_value(),
        data.member("permitProduct"@).text_value(),
    ) {
        (Some(id), Some(product), Some(name)) => Some((id as u32, product as u32, name)),
        _ => None,
    }
}

impl Permit {
    /// The permit's fields as mathematical values.
    pub open spec fn model(&self) -> (u32, u32, Seq<char>) {
        (self.id, self.product_id, self.name@)
    }

    /// Reads a permit from an entry of the customer page's permit list.
    pub fn from_json(data: &JsonValue) -> (r: Result<Permit>)
        ensures
            match permit_entry(*data) {
                Some(m) => r matches Ok(p) && p.model() == m,
                None => r matches Err(Error::InvalidIndex),
            },
    {
        let id = match data.index("id").as_u64() {
            Some(v) => v as u32,
            None => return Err(Error::InvalidIndex),
        };
        let product_id = match data.index("permitProductId").as_u64() {
            Some(v) => v as u32,
            None => return Err(Error::InvalidIndex),
        };
        let name = match data.index("permitProduct").as_str() {
            Some(s) => s.to_owned(),
            None => return Err(Error::InvalidIndex),
        };
        Ok(Permit { id, product_id, name })
    }

    /// An equal permit.
    pub fn duplicate(&self) -> (r: Permit)
        ensures
            r.model() == self.model(),
    {
        Permit { id: self.id, product_id: self.product_id, name: self.name.clone() }
    }
}

/// What reading the permit list of a customer-page document gives: the
/// error [`Error::NoPermitsFound`] without a `permitList` array, else
/// [`Error::InvalidIndex`] if some entry is not a permit, else the permits
/// of all entries in order.
pub open spec fn permits_outcome(document: JsonValue, r: Result<Vec<Permit>>) -> bool {
    match document.field("permitList"@) {
        Some(JsonValue::Array(items)) => if forall|i: int|
            0 <= i < items@.len() ==> #[trigger] permit_entry(items@[i]) is Some {
            r matches Ok(permits) && permits@.len() == items@.len() && forall|i: int|
                0 <= i < items@.len() ==> Some(#[trigger] permits@[i].model()) == permit_entry(
                    items@[i],
                )
        } else {
            r matches Err(Error::InvalidIndex)
        },
        _ => r matches Err(Error::NoPermitsFound),
    }
}

/// Reads the permits from the document embedded in the customer page.
pub fn permits_from_json(document: &JsonValue) -> (r: Result<Vec<Permit>>)
    ensures
        permits_outcome(*document, r),
{
    let items = match document.get("permitList") {
        Some(list) => match list {
            JsonValue::Array(items) => items,
            _ => return Err(Error::NoPermitsFound),
        },
        None => return Err(Error::NoPermitsFound),
    };
    let mut permits: Vec<Permit> = Vec::new();
    let n = items.len();
    let mut i: usize = 0;
    while i < n
        invariant
            n == items@.len(),
            i <= n,
            document.field("permitList"@) == Some(JsonValue::Array(*items)),
            permits@.len() == i,
            forall|j: int|
                #![trigger permits@[j]]
                #![trigger permit_entry(items@[j])]
                0 <= j < i ==> Some(permits@[j].model()) == permit_entry(items@[j]),
        decreases n - i,
    {
        match Permit::from_json(&items[i]) {
            Ok(p) => permits.push(p),
            Err(e) => {
                assert(permit_entry(items@[i as int]) is None);
                return Err(e);
            },
        }
        i += 1;
    }
    assert forall|j: int| 0 <= j < items@.len() implies #[trigger] permit_entry(items@[j]) is Some by {
        assert(Some(permits@[j].model()) == permit_entry(items@[j]));
    }
    Ok(permits)
}

/// The pattern that finds the verification token in the login form.
pub const TOKEN_PATTERN: &'static str = r#"name="__RequestVerificationToken"[^>]*value="([^"]+)""#;

/// The pattern that finds the customer number in the customer page.
pub const CUSTOMER_ID_PATTERN: &'static str = r#"\\+"customerId\\+":\s*(\d+)"#;

/// The pattern that finds the document embedded in the customer page.
pub const PERMITS_PATTERN: &'static str = r"planSession\.init\('([^']*)'\)";

/// The verification token on the login page, where the pattern is
/// accepted and finds one.
pub open spec fn token_value(page: Seq<char>) -> Option<Seq<char>> {
    if regex_accepts(TOKEN_PATTERN@) {
        regex_capture(TOKEN_PATTERN@, page, 1)
    } else {
        None
    }
}

/// The customer number on the customer page, where the pattern is accepted
/// and finds digits that read as a `u64`.
pub open spec fn customer_id_value(page: Seq<char>) -> Option<u64> {
    if regex_accepts(CUSTOMER_ID_PATTERN@) {
        match regex_capture(CUSTOMER_ID_PATTERN@, page, 1) {
            Some(digits) => if reads_as_u64(digits) {
                Some(decimal_value(unsigned_digits(digits)) as u64)
            } else {
                None
            },
            None => None,
        }
    } else {
        None
    }
}

/// The document embedded in the customer page, backslashes removed, where
/// the pattern is accepted and finds it.
pub open spec fn permit_document_value(page: Seq<char>) -> Option<Seq<char>> {
    if regex_accepts(PERMITS_PATTERN@) {
        match regex_capture(PERMITS_PATTERN@, page, 1) {
            Some(text) => Some(without_char(text, '\\')),
            None => None,
        }
    } else {
        None
    }
}

/// The permits of a customer-page document, where it has a `permitList`
/// array of permit entries.
pub open spec fn permits_value(document: JsonValue) -> Option<Seq<(u32, u32, Seq<char>)>> {
    match document.field("permitList"@) {
        Some(JsonValue::Array(items)) => if forall|i: int|
            0 <= i < items@.len() ==> #[trigger] permit_entry(items@[i]) is Some {
            Some(items@.map_values(|v: JsonValue| permit_entry(v)->0))
        } else {
            None
        },
        _ => None,
    }
}

/// What reading the verification token from the login page gives: the
/// text of the pattern's first group, or [`Error::VerificationTokenMissing`].
pub open spec fn token_outcome(page: Seq<char>, r: Result<String>) -> bool {
    if !regex_accepts(TOKEN_PATTERN@) {
        r matches Err(Error::Regex(_))
    } else {
        match regex_capture(TOKEN_PATTERN@, page, 1) {
            Some(token) => r matches Ok(s) && s@ == token,
            None => r matches Err(Error::VerificationTokenMissing),
        }
    }
}

/// Reads the verification token from the hidden field of the login form.
pub fn get_verification_token(body: String) -> (r: Result<String>)
    ensures
        token_outcome(body@, r),
{
    match find_group(TOKEN_PATTERN, body.as_str(), 1) {
        Err(e) => Err(Error::Regex(e)),
        Ok(None) => Err(Error::VerificationTokenMissing),
        Ok(Some(token)) => Ok(token),
    }
}

/// What reading the customer number from the customer page gives.
pub open spec fn customer_id_outcome(page: Seq<char>, r: Result<u64>) -> bool {
    if !regex_accepts(CUSTOMER_ID_PATTERN@) {
        r matches Err(Error::Regex(_))
    } else {
        match regex_capture(CUSTOMER_ID_PATTERN@, page, 1) {
            Some(digits) => if reads_as_u64(digits) {
                r matches Ok(n) && n == decimal_value(unsigned_digits(digits))
            } else {
                r matches Err(Error::ParseInt(_))
            },
            None => r matches Err(Error::CustomerIdNotAvailable),
        }
    }
}

/// Reads the customer number from the customer page.
pub fn get_customer_id(raw_body: &str) -> (r: Result<u64>)
    ensures
        customer_id_outcome(raw_body@, r),
{
    match find_group(CUSTOMER_ID_PATTERN, raw_body, 1) {
        Err(e) => Err(Error::Regex(e)),
        Ok(None) => Err(Error::CustomerIdNotAvailable),
        Ok(Some(digits)) => match parse_u64(digits.as_str()) {
            Ok(n) => Ok(n),
            Err(e) => Err(Error::ParseInt(e)),
        },
    }
}

/// What extracting the embedded document from the customer page gives: the
/// text of the pattern's first group with its backslashes removed, or
/// [`Error::NoPermitsFound`].
pub open spec fn permit_document_outcome(page: Seq<char>, r: Result<String>) -> bool {
    if !regex_accepts(PERMITS_PATTERN@) {
        r matches Err(Error::Regex(_))
    } else {
        match regex_capture(PERMITS_PATTERN@, page, 1) {
            Some(text) => r matches Ok(s) && s@ == without_char(text, '\\'),
            None => r matches Err(Error::NoPermitsFound),
        }
    }
}

/// Extracts the JSON text that the customer page hands to its script, with
/// the backslashes of its string escaping removed.
pub fn get_permit_document(raw_body: &str) -> (r: Result<String>)
    ensures
        permit_document_outcome(raw_body@, r),
{
    match find_group(PERMITS_PATTERN, raw_body, 1) {
        Err(e) => Err(Error::Regex(e)),
        Ok(None) => Err(Error::NoPermitsFound),
        Ok(Some(text)) => Ok(remove_backslashes(text.as_str())),
    }
}

/// The permits listed on the customer page: those of the document that
/// the page hands to its script, backslashes removed and decoded as JSON,
/// where that document lists permits.
pub open spec fn page_permits_value(page: Seq<char>) -> Option<Seq<(u32, u32, Seq<char>)>> {
    match permit_document_value(page) {
        Some(text) => match json_document(text) {
            Some(document) => permits_value(document),
            None => None,
        },
        None => None,
    }
}

/// What reading the permits from the customer page gives: the errors of
/// [`permit_document_outcome`] where the document cannot be extracted,
/// [`Error::SerdeJson`] where it is not JSON, else what
/// [`permits_outcome`] says of the decoded document.
pub open spec fn page_permits_outcome(page: Seq<char>, r: Result<Vec<Permit>>) -> bool {
    if !regex_accepts(PERMITS_PATTERN@) {
        r matches Err(Error::Regex(_))
    } else {
        match regex_capture(PERMITS_PATTERN@, page, 1) {
            None => r matches Err(Error::NoPermitsFound),
            Some(text) => match json_document(without_char(text, '\\')) {
                None => r matches Err(Error::SerdeJson(_)),
                Some(document) => permits_outcome(document, r),
            },
        }
    }
}

/// Reads the permits from the customer page: extracts the document the
/// page hands to its script, removes its backslashes, decodes it as JSON
/// and reads its permit list.
pub fn get_permits(raw_body: &str) -> (r: Result<Vec<Permit>>)
    ensures
        page_permits_outcome(raw_body@, r),
        r matches Ok(permits) ==> page_permits_value(raw_body@) == Some(
            permits@.map_values(|p: Permit| p.model()),
        ),
        r is Err ==> page_permits_value(raw_body@) is None,
{
    let text = get_permit_document(raw_body)?;
    let document = match decode_json(text.as_str()) {
        Ok(document) => document,
        Err(e) => return Err(Error::SerdeJson(e)),
    };
    let r = permits_from_json(&document);
    proof {
        if let Ok(permits) = &r {
            let items = match document.field("permitList"@) {
                Some(JsonValue::Array(items)) => items@,
                _ => Seq::empty(),
            };
            assert(permits@.map_values(|p: Permit| p.model()) =~= items.map_values(
                |v: JsonValue| permit_entry(v)->0,
            ));
        }
    }
    r
}

/// A logged-in account: its customer number, the service's address and the
/// permits it holds.
#[derive(Debug, Clone)]
pub struct Client {
    customer_id: u64,
    endpoint: String,
    permits: Vec<Permit>,
}

impl Client {
    /// The customer number.
    pub closed spec fn spec_customer_id(&self) -> u64 {
        self.customer_id
    }

    /// The service's address.
    pub closed spec fn spec_endpoint(&self) -> Seq<char> {
        self.endpoint@
    }

    /// The permits.
    pub closed spec fn spec_permit_list(&self) -> Seq<Permit> {
        self.permits@
    }

    /// The permits, as mathematical values.
    pub closed spec fn spec_permits(&self) -> Seq<(u32, u32, Seq<char>)> {
        self.permits@.map_values(|p: Permit| p.model())
    }

    /// An account with these parts.
    pub fn from_parts(customer_id: u64, endpoint: String, permits: Vec<Permit>) -> (r: Client)
        ensures
            r.spec_customer_id() == customer_id,
            r.spec_endpoint() == endpoint@,
            r.spec_permit_list() == permits@,
            r.spec_permits() == permits@.map_values(|p: Permit| p.model()),
    {
        Client { customer_id, endpoint, permits }
    }

    /// The customer number.
    pub fn get_customer_id(&self) -> (r: u64)
        ensures
            r == self.spec_customer_id(),
    {
        self.customer_id
    }

    /// The address of the parking service.
    pub fn get_endpoint(&self) -> (r: &str)
        ensures
            r@ == self.spec_endpoint(),
    {
        self.endpoint.as_str()
    }

    /// The permits of the account.
    pub fn get_permits(&self) -> (r: &[Permit])
        ensures
            r@ == self.spec_permit_list(),
            r@.map_values(|p: Permit| p.model()) == self.spec_permits(),
    {
        self.permits.as_slice()
    }

    /// The customer number.
    pub fn customer_id(&self) -> (r: u64)
        ensures
            r == self.spec_customer_id(),
    {
        self.customer_id
    }

    /// The address of the parking service.
    pub fn endpoint(&self) -> (r: &str)
        ensures
            r@ == self.spec_endpoint(),
    {
        self.endpoint.as_str()
    }

    /// A copy of the permits of the account.
    pub fn permits(&self) -> (r: Vec<Permit>)
        ensures
            r@.map_values(|p: Permit| p.model()) == self.spec_permits(),
    {
        let mut copies: Vec<Permit> = Vec::new();
        let n = self.permits.len();
        let mut i: usize = 0;
        while i < n
            invariant
                n == self.permits@.len(),
                i <= n,
                copies@.len() == i,
                forall|j: int| 0 <= j < i ==> #[trigger] copies@[j].model() == self.permits@[j].model(),
            decreases n - i,
        {
            copies.push(self.permits[i].duplicate());
            i += 1;
        }
        assert(copies@.map_values(|p: Permit| p.model()) =~= self.permits@.map_values(|p: Permit| p.model()));
        copies
    }
}

/// The message when no address for the service is known.
pub const ENDPOINT_MISSING: &'static str = "PARKEERSERVICE_ENDPOINT url not set. E.g. 'PARKEERSERVICE_ENDPOINT=https://parkstart-LOCATION.parkpermit.eu'.";

/// The message when no e-mail address is known.
pub const EMAIL_MISSING: &'static str = "Email not provided, cannot load credentials. Please set PARKEERSERVICE_EMAIL.";

/// The message when no password is known.
pub const PASSWORD_MISSING: &'static str = "Password not provided, cannot load credentials. Please set PARKEERSERVICE_PASSWORD.";

/// What resolving the service's address gives: the address given, else
/// the one set, else the error that none is known.
pub open spec fn endpoint_outcome(hostname: Option<String>, setting: Option<String>, r: Result<String>) -> bool {
    match hostname {
        Some(h) => r matches Ok(e) && e@ == h@,
        None => match setting {
            Some(s) => r matches Ok(e) && e@ == s@,
            None => r matches Err(Error::EnvironmentVariable(m)) && m@ == ENDPOINT_MISSING@,
        },
    }
}

/// The address of the service: the one given, else the one set in the
/// environment (`PARKEERSERVICE_ENDPOINT`, passed in as `setting`).
pub fn resolve_endpoint(hostname: Option<String>, setting: Option<String>) -> (r: Result<String>)
    ensures
        endpoint_outcome(hostname, setting, r),
        match hostname {
            Some(h) => r matches Ok(e) && e@ == h@,
            None => match setting {
                Some(s) => r matches Ok(e) && e@ == s@,
                None => r matches Err(Error::EnvironmentVariable(m)) && m@ == ENDPOINT_MISSING@,
            },
        },
{
    match hostname {
        Some(url) => Ok(url),
        None => match setting {
            Some(endpoint) => Ok(endpoint),
            None => Err(Error::EnvironmentVariable(ENDPOINT_MISSING.to_owned())),
        },
    }
}

/// The e-mail address and password of an account.
pub struct Credentials {
    email: String,
    password: String,
}

/// A value given directly, else the one from the environment.
pub open spec fn given_or_set(given: Option<String>, setting: Option<String>) -> Option<Seq<char>> {
    match given {
        Some(g) => Some(g@),
        None => match setting {
            Some(s) => Some(s@),
            None => None,
        },
    }
}

/// The form fields `Email=...&Password=...`, each value percent-encoded.
pub open spec fn credentials_form(email: Seq<char>, password: Seq<char>) -> Seq<char> {
    "Email="@ + percent_encoded(encode_utf8(email)) + "&Password="@ + percent_encoded(
        encode_utf8(password),
    )
}

/// What loading credentials gives: each value given, else the one set;
/// where one is missing, the error for the e-mail address first.
pub open spec fn credentials_outcome(
    email: Option<String>,
    password: Option<String>,
    email_setting: Option<String>,
    password_setting: Option<String>,
    r: Result<Credentials>,
) -> bool {
    match (given_or_set(email, email_setting), given_or_set(password, password_setting)) {
        (Some(e), Some(p)) => r matches Ok(c) && c.spec_email() == e && c.spec_password() == p,
        (None, _) => r matches Err(Error::EnvironmentVariable(m)) && m@ == EMAIL_MISSING@,
        (Some(_), None) => r matches Err(Error::EnvironmentVariable(m)) && m@ == PASSWORD_MISSING@,
    }
}

impl Credentials {
    /// The e-mail address.
    pub closed spec fn spec_email(&self) -> Seq<char> {
        self.email@
    }

    /// The password.
    pub closed spec fn spec_password(&self) -> Seq<char> {
        self.password@
    }

    /// The credentials given, each missing one taken from the environment
    /// (`PARKEERSERVICE_EMAIL`, `PARKEERSERVICE_PASSWORD`, passed in as the
    /// settings). The e-mail address is looked for first.
    pub fn load(
        email: Option<String>,
        password: Option<String>,
        email_setting: Option<String>,
        password_setting: Option<String>,
    ) -> (r: Result<Credentials>)
        ensures
            credentials_outcome(email, password, email_setting, password_setting, r),
            match (given_or_set(email, email_setting), given_or_set(password, password_setting)) {
                (Some(e), Some(p)) => r matches Ok(c) && c.spec_email() == e && c.spec_password() == p,
                (None, _) => r matches Err(Error::EnvironmentVariable(m)) && m@ == EMAIL_MISSING@,
                (Some(_), None) => r matches Err(Error::EnvironmentVariable(m)) && m@
                    == PASSWORD_MISSING@,
            },
    {
        let email = match email {
            Some(email) => email,
            None => match email_setting {
                Some(email) => email,
                None => return Err(Error::EnvironmentVariable(EMAIL_MISSING.to_owned())),
            },
        };
        let password = match password {
            Some(password) => password,
            None => match password_setting {
                Some(password) => password,
                None => return Err(Error::EnvironmentVariable(PASSWORD_MISSING.to_owned())),
            },
        };
        Ok(Credentials { email, password })
    }

    /// The credentials as the login form expects them.
    pub fn to_body(&self) -> (r: String)
        ensures
            r@ == credentials_form(self.spec_email(), self.spec_password()),
    {
        let email = url_encode(self.email.as_str());
        let password = url_encode(self.password.as_str());
        let mut body = "Email=".to_owned();
        body.append(email.as_str());
        body.append("&Password=");
        body.append(password.as_str());
        body
    }
}

} // verus!
