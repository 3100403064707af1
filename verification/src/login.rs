//! Logging in: the decisions of the login conversation with the service.
//!
//! Logging in takes three page loads. The caller sends each request that a
//! [`LoginAction`] asks for and reports the answer as a [`LoginEvent`];
//! [`Login::step`] decides what happens next.
use vstd::prelude::*;
use vstd::string::StringExecFns;

use crate::client::{
    credentials_form, given_or_set, resolve_endpoint, EMAIL_MISSING, ENDPOINT_MISSING, PASSWORD_MISSING,
    customer_id_outcome, customer_id_value, get_customer_id, get_permits, get_verification_token,
    page_permits_outcome, page_permits_value, token_outcome, token_value, Client, Credentials,
    Permit,
};
use crate::error::Error;
use crate::request::{form_body, header, Body, HttpRequest, Method, CONTENT_TYPE, FORM_MEDIA_TYPE};
use crate::session::PLAN_PATH;
use crate::text::join;

verus! {

/// How far a login has come.
#[derive(Debug, Clone, Copy, PartialEq, Eq, Structural)]
pub enum LoginStage {
    /// The login page has been requested.
    FetchingLoginPage,
    /// The credentials have been posted.
    SubmittingCredentials,
    /// The customer page has been requested.
    FetchingCustomerPage,
    /// The login has completed or failed.
    Finished,
}

/// The answer to the last request: whether the service reported success,
/// and the answer's text.
#[derive(Debug)]
pub struct LoginEvent {
    pub success: bool,
    pub text: String,
}

/// What to do next.
#[derive(Debug)]
pub enum LoginAction {
    /// Send this request and report its answer.
    Send(HttpRequest),
    /// The login succeeded.
    Complete(Client),
    /// The login failed.
    Abort(Error),
}

/// A login in progress.
pub struct Login {
    endpoint: String,
    credentials: String,
    stage: LoginStage,
}

/// The form that posts the credentials along with the page's token.
pub open spec fn login_form(token: Seq<char>, credentials: Seq<char>) -> Seq<char> {
    "__RequestVerificationToken="@ + token + "&"@ + credentials
}

/// The request is a plain `GET` of `url`.
pub open spec fn is_get(req: HttpRequest, url: Seq<char>) -> bool {
    &&& req.model().method == Method::Get
    &&& req.model().url == url
    &&& req.model().headers.len() == 0
    &&& req.body matches Body::Empty
}

/// The request posts the login form with `token` to `endpoint`.
pub open spec fn is_login_post(req: HttpRequest, endpoint: Seq<char>, token: Seq<char>, credentials: Seq<char>) -> bool {
    &&& req.model().method == Method::Post
    &&& req.model().url == endpoint
    &&& req.model().headers == seq![(CONTENT_TYPE@, FORM_MEDIA_TYPE@)]
    &&& form_body(req.body, login_form(token, credentials))
}

/// `login` has just begun at `endpoint` with the form-encoded
/// `credentials`, and `action` is its first request: a plain `GET` of the
/// login page at `endpoint`.
pub open spec fn started(login: Login, action: LoginAction, endpoint: Seq<char>, credentials: Seq<char>) -> bool {
    &&& login.spec_stage() == LoginStage::FetchingLoginPage
    &&& login.spec_endpoint() == endpoint
    &&& login.spec_credentials() == credentials
    &&& action matches LoginAction::Send(req) && is_get(req, endpoint)
}

impl Login {
    /// The stage reached.
    pub closed spec fn spec_stage(&self) -> LoginStage {
        self.stage
    }

    /// The address of the service.
    pub closed spec fn spec_endpoint(&self) -> Seq<char> {
        self.endpoint@
    }

    /// The credentials, as the login form carries them.
    pub closed spec fn spec_credentials(&self) -> Seq<char> {
        self.credentials@
    }

    /// Whether the login waits for an answer: it does until it has
    /// finished.
    pub open spec fn expects(&self, event: LoginEvent) -> bool {
        self.spec_stage() != LoginStage::Finished
    }

    /// What one step does: `next` is the login after `event` arrived at
    /// `self`, and `action` what it asks for.
    pub open spec fn stepped(&self, event: LoginEvent, next: Login, action: LoginAction) -> bool {
        &&& next.spec_endpoint() == self.spec_endpoint()
        &&& next.spec_credentials() == self.spec_credentials()
        &&& match self.spec_stage() {
            LoginStage::FetchingLoginPage => match token_value(event.text@) {
                Some(token) => {
                    &&& next.spec_stage() == LoginStage::SubmittingCredentials
                    &&& action matches LoginAction::Send(req)
                        && is_login_post(req, self.spec_endpoint(), token, self.spec_credentials())
                },
                None => {
                    &&& next.spec_stage() == LoginStage::Finished
                    &&& action matches LoginAction::Abort(e) && token_outcome(event.text@, Err(e))
                },
            },
            LoginStage::SubmittingCredentials => if event.success {
                &&& next.spec_stage() == LoginStage::FetchingCustomerPage
                &&& action matches LoginAction::Send(req) && is_get(req, self.spec_endpoint() + PLAN_PATH@)
            } else {
                &&& next.spec_stage() == LoginStage::Finished
                &&& action matches LoginAction::Abort(Error::Custom(m)) && m@ == event.text@
            },
            LoginStage::FetchingCustomerPage => {
                &&& next.spec_stage() == LoginStage::Finished
                &&& match customer_id_value(event.text@) {
                    None => action matches LoginAction::Abort(e) && customer_id_outcome(
                        event.text@,
                        Err(e),
                    ),
                    Some(id) => match page_permits_value(event.text@) {
                        Some(permits) => action matches LoginAction::Complete(client) && {
                            &&& client.spec_customer_id() == id
                            &&& client.spec_endpoint() == self.spec_endpoint()
                            &&& client.spec_permits() == permits
                        },
                        None => action matches LoginAction::Abort(e) && page_permits_outcome(
                            event.text@,
                            Err(e),
                        ),
                    },
                }
            },
            LoginStage::Finished => false,
        }
    }

    /// Whether the login has completed or failed.
    pub fn is_finished(&self) -> (r: bool)
        ensures
            r == (self.spec_stage() == LoginStage::Finished),
    {
        match self.stage {
            LoginStage::Finished => true,
            _ => false,
        }
    }

    /// Begins a login at `endpoint` with `credentials`: the first action is
    /// to load the login page.
    pub fn start(endpoint: String, credentials: &Credentials) -> (r: (Login, LoginAction))
        ensures
            r.0.spec_stage() == LoginStage::FetchingLoginPage,
            r.0.spec_endpoint() == endpoint@,
            r.0.spec_credentials() == crate::client::credentials_form(
                credentials.spec_email(),
                credentials.spec_password(),
            ),
            r.1 matches LoginAction::Send(req) && is_get(req, endpoint@),
            started(
                r.0,
                r.1,
                endpoint@,
                crate::client::credentials_form(credentials.spec_email(), credentials.spec_password()),
            ),
    {
        let request = HttpRequest {
            method: Method::Get,
            url: endpoint.clone(),
            headers: Vec::new(),
            body: Body::Empty,
        };
        assert(request.model().headers =~= Seq::empty());
        let login = Login {
            endpoint,
            credentials: credentials.to_body(),
            stage: LoginStage::FetchingLoginPage,
        };
        (login, LoginAction::Send(request))
    }

    /// Begins a login as the client does: the service's address is the one
    /// given, else the one set in the environment; then the credentials are
    /// loaded (see [`Credentials::load`]); then the login page is requested.
    /// A missing address is reported before missing credentials.
    pub fn begin(
        hostname: Option<String>,
        endpoint_setting: Option<String>,
        email: Option<String>,
        password: Option<String>,
        email_setting: Option<String>,
        password_setting: Option<String>,
    ) -> (r: Result<(Login, LoginAction), Error>)
        ensures
            match given_or_set(hostname, endpoint_setting) {
                None => r matches Err(Error::EnvironmentVariable(m)) && m@ == ENDPOINT_MISSING@,
                Some(endpoint) => match (
                    given_or_set(email, email_setting),
                    given_or_set(password, password_setting),
                ) {
                    (Some(e), Some(p)) => r matches Ok((login, action)) && {
                        &&& login.spec_stage() == LoginStage::FetchingLoginPage
                        &&& login.spec_endpoint() == endpoint
                        &&& login.spec_credentials() == credentials_form(e, p)
                        &&& action matches LoginAction::Send(req) && is_get(req, endpoint)
                        &&& started(login, action, endpoint, credentials_form(e, p))
                    },
                    (None, _) => r matches Err(Error::EnvironmentVariable(m)) && m@ == EMAIL_MISSING@,
                    (Some(_), None) => r matches Err(Error::EnvironmentVariable(m)) && m@
                        == PASSWORD_MISSING@,
                },
            },
    {
        let endpoint = resolve_endpoint(hostname, endpoint_setting)?;
        let credentials = Credentials::load(email, password, email_setting, password_setting)?;
        Ok(Login::start(endpoint, &credentials))
    }

    /// Takes in what the last action brought and decides the next action.
    pub fn step(&mut self, event: LoginEvent) -> (action: LoginAction)
        requires
            old(self).expects(event),
        ensures
            old(self).stepped(event, *final(self), action),
    {
        match self.stage {
            LoginStage::FetchingLoginPage => {
                match get_verification_token(event.text) {
                    Ok(token) => {
                        let mut form = "__RequestVerificationToken=".to_owned();
                        form.append(token.as_str());
                        form.append("&");
                        form.append(self.credentials.as_str());
                        let request = HttpRequest {
                            method: Method::Post,
                            url: self.endpoint.clone(),
                            headers: vec![header(CONTENT_TYPE, FORM_MEDIA_TYPE)],
                            body: Body::Form(form),
                        };
                        assert(request.model().headers =~= seq![(CONTENT_TYPE@, FORM_MEDIA_TYPE@)]);
                        self.stage = LoginStage::SubmittingCredentials;
                        LoginAction::Send(request)
                    },
                    Err(e) => {
                        self.stage = LoginStage::Finished;
                        LoginAction::Abort(e)
                    },
                }
            },
            LoginStage::SubmittingCredentials => {
                if event.success {
                    let request = HttpRequest {
                        method: Method::Get,
                        url: join(self.endpoint.as_str(), PLAN_PATH),
                        headers: Vec::new(),
                        body: Body::Empty,
                    };
                    assert(request.model().headers =~= Seq::empty());
                    self.stage = LoginStage::FetchingCustomerPage;
                    LoginAction::Send(request)
                } else {
                    self.stage = LoginStage::Finished;
                    LoginAction::Abort(Error::Custom(event.text))
                }
            },
            LoginStage::FetchingCustomerPage => {
                self.stage = LoginStage::Finished;
                let customer_id = match get_customer_id(event.text.as_str()) {
                    Ok(id) => id,
                    Err(e) => return LoginAction::Abort(e),
                };
                match get_permits(event.text.as_str()) {
                    Ok(permits) => LoginAction::Complete(
                        Client::from_parts(customer_id, self.endpoint.clone(), permits),
                    ),
                    Err(e) => LoginAction::Abort(e),
                }
            },
            LoginStage::Finished => unreached(),
        }
    }
}

} // verus!
