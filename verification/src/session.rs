//! The session with the appliance cloud: which address a request goes to,
//! when credentials are sent, what a reply means, and when the access token
//! is renewed.

use vstd::prelude::*;
use vstd::string::StringExecFns;
use crate::region::Region;

verus! {

/// The two services of the appliance cloud.
#[derive(Clone, Copy, Debug, PartialEq, Eq, Structural)]
pub enum RequestType {
    Device,
    User,
}

/// What an appliance is told to do.
#[derive(Clone, Copy, Debug, PartialEq, Eq, Structural)]
pub enum OperatingMode {
    Stop,
    Pause,
    Start,
    Return,
}

/// The exchanges with the cloud that can be turned down.
#[derive(Clone, Copy, Debug, PartialEq, Eq, Structural)]
pub enum Exchange {
    SignIn,
    RefreshToken,
    SignOut,
    Api,
}

/// Why the account service turned an exchange down.
#[derive(Debug)]
pub enum AylaError {
    /// Sign-in was answered with this status and text.
    LoginError(u16, String),
    /// The renewal of the token was answered with this status and text.
    RefreshTokenError(u16, String),
    /// Sign-out was answered with this status and text.
    LogoutError(u16, String),
    /// The request did not get through.
    ReqwestError,
}

/// Why a call of the appliance client failed.
#[derive(Debug)]
pub enum SharkError {
    /// The account service turned the exchange down.
    AylaError(AylaError),
    /// The device service answered with this status and text.
    ApiError(u16, String),
    /// The request did not get through.
    ReqwestError,
}

/// The status code of an accepted exchange.
pub const STATUS_OK: u16 = 200;

/// Seconds between two renewals of the access token: twelve hours.
pub const REFRESH_INTERVAL_SECS: u64 = 43200;

/// What the client holds of its session.
pub struct Session {
    access_token: Option<String>,
    refresh_token: Option<String>,
    is_authenticated: bool,
}

/// A session as plain values.
pub struct SessionView {
    pub access_token: Option<Seq<char>>,
    pub refresh_token: Option<Seq<char>>,
    pub is_authenticated: bool,
}

/// An optional text as plain values.
pub open spec fn text_of(text: Option<String>) -> Option<Seq<char>> {
    match text {
        Some(t) => Some(t@),
        None => None,
    }
}

impl View for Session {
    type V = SessionView;

    closed spec fn view(&self) -> SessionView {
        SessionView {
            access_token: text_of(self.access_token),
            refresh_token: text_of(self.refresh_token),
            is_authenticated: self.is_authenticated,
        }
    }
}

/// What a client is made from: an account and the region it lives in.
pub struct SharkClientBuilder {
    email: String,
    password: String,
    region: Region,
}

/// What the renewal loop does next.
#[derive(Clone, Copy, Debug, PartialEq, Eq, Structural)]
pub struct RefreshStep {
    /// Seconds to wait before the next renewal.
    pub wait_secs: u64,
    /// Whether the renewal that just ended is to be logged as an error.
    pub log_error: bool,
}

impl OperatingMode {
    /// The number that stands for the mode on the wire.
    pub open spec fn code_of(self) -> u8 {
        match self {
            OperatingMode::Stop => 0,
            OperatingMode::Pause => 1,
            OperatingMode::Start => 2,
            OperatingMode::Return => 3,
        }
    }

    /// The number that stands for the mode on the wire.
    pub fn code(&self) -> (code: u8)
        ensures
            code == self.code_of(),
    {
        match self {
            OperatingMode::Stop => 0,
            OperatingMode::Pause => 1,
            OperatingMode::Start => 2,
            OperatingMode::Return => 3,
        }
    }
}

/// The base address that a request of kind `request` goes to.
pub open spec fn base_url_text(region: Region, request: RequestType) -> Seq<char> {
    match request {
        RequestType::Device => region.device_url_text(),
        RequestType::User => region.user_url_text(),
    }
}

/// The path of the properties of the device with serial number `dsn`.
pub open spec fn properties_path_text(dsn: Seq<char>) -> Seq<char> {
    "/apiv1/dsns/"@ + dsn + "/properties"@
}

/// The path that takes a new operating mode for the device `dsn`.
pub open spec fn operating_mode_path_text(dsn: Seq<char>) -> Seq<char> {
    "/apiv1/dsns/"@ + dsn + "/properties/SET_Operating_Mode/datapoints"@
}

/// The path of an exchange that needs no serial number; for `Api` it is
/// the list of devices.
pub open spec fn exchange_path_text(exchange: Exchange) -> Seq<char> {
    match exchange {
        Exchange::SignIn => "/users/sign_in"@,
        Exchange::RefreshToken => "/users/refresh_token"@,
        Exchange::SignOut => "/users/sign_out"@,
        Exchange::Api => "/apiv1/devices"@,
    }
}

/// What a reply with status `status` and text `body` to `exchange` means:
/// the body to read on status 200, and else the error of that exchange
/// with the status and the text.
pub open spec fn reply_meaning(exchange: Exchange, status: u16, body: Seq<char>) -> Result<
    Seq<char>,
    (Exchange, u16, Seq<char>),
> {
    if status == STATUS_OK {
        Ok(body)
    } else {
        Err((exchange, status, body))
    }
}

/// The exchange, status and text that an error was made from.
pub open spec fn error_origin(error: SharkError) -> Option<(Exchange, u16, Seq<char>)> {
    match error {
        SharkError::AylaError(AylaError::LoginError(s, t)) => Some((Exchange::SignIn, s, t@)),
        SharkError::AylaError(AylaError::RefreshTokenError(s, t)) => Some(
            (Exchange::RefreshToken, s, t@),
        ),
        SharkError::AylaError(AylaError::LogoutError(s, t)) => Some((Exchange::SignOut, s, t@)),
        SharkError::ApiError(s, t) => Some((Exchange::Api, s, t@)),
        _ => None,
    }
}

/// The address that `Url::join` gives for the reference `path` on the base
/// address `base`; none where the base or the reference is no address.
pub uninterp spec fn joined_url(base: Seq<char>, path: Seq<char>) -> Option<Seq<char>>;

/// `Url::parse` and `Url::join` of the url crate, as reqwest hands them
/// out: `base` is read as an absolute address and `path` is resolved
/// against it. The contract gives the resulting text its name; it is none
/// exactly where one of the two calls fails.
#[verifier::external_body]
fn join_url(base: &str, path: &str) -> (url: Option<String>)
    ensures
        text_of(url) == joined_url(base@, path@),
{
    match reqwest::Url::parse(base) {
        Ok(parsed) => match parsed.join(path) {
            Ok(joined) => Some(String::from(joined)),
            Err(_) => None,
        },
        Err(_) => None,
    }
}

/// The base address that a request of kind `request` goes to.
pub fn base_url(region: Region, request: RequestType) -> (url: &'static str)
    ensures
        url@ == base_url_text(region, request),
{
    match request {
        RequestType::Device => region.device_url(),
        RequestType::User => region.user_url(),
    }
}

/// The full address of a request: `path` resolved against the base address
/// of the service. None where `path` cannot be resolved.
pub fn request_url(region: Region, request: RequestType, path: &str) -> (url: Option<String>)
    ensures
        text_of(url) == joined_url(base_url_text(region, request), path@),
{
    join_url(base_url(region, request), path)
}

/// The path of an exchange that needs no serial number.
pub fn exchange_path(exchange: Exchange) -> (path: &'static str)
    ensures
        path@ == exchange_path_text(exchange),
{
    match exchange {
        Exchange::SignIn => "/users/sign_in",
        Exchange::RefreshToken => "/users/refresh_token",
        Exchange::SignOut => "/users/sign_out",
        Exchange::Api => "/apiv1/devices",
    }
}

/// The path of the properties of the device with serial number `dsn`.
pub fn properties_path(dsn: &str) -> (path: String)
    ensures
        path@ == properties_path_text(dsn@),
{
    let mut path = String::from_str("/apiv1/dsns/");
    path.append(dsn);
    path.append("/properties");
    path
}

/// The path that takes a new operating mode for the device `dsn`.
pub fn operating_mode_path(dsn: &str) -> (path: String)
    ensures
        path@ == operating_mode_path_text(dsn@),
{
    let mut path = String::from_str("/apiv1/dsns/");
    path.append(dsn);
    path.append("/properties/SET_Operating_Mode/datapoints");
    path
}

/// Reads a reply: status 200 hands the body on, and every other status is
/// the error of the exchange, with the status and the text of the reply.
pub fn judge_reply(exchange: Exchange, status: u16, body: String) -> (verdict: Result<
    String,
    SharkError,
>)
    ensures
        match verdict {
            Ok(text) => reply_meaning(exchange, status, body@) == Ok::<
                Seq<char>,
                (Exchange, u16, Seq<char>),
            >(text@),
            Err(error) => error_origin(error) matches Some(origin) && reply_meaning(
                exchange,
                status,
                body@,
            ) == Err::<Seq<char>, (Exchange, u16, Seq<char>)>(origin),
        },
{
    if status == STATUS_OK {
        Ok(body)
    } else {
        match exchange {
            Exchange::SignIn => Err(SharkError::AylaError(AylaError::LoginError(status, body))),
            Exchange::RefreshToken => Err(
                SharkError::AylaError(AylaError::RefreshTokenError(status, body)),
            ),
            Exchange::SignOut => Err(SharkError::AylaError(AylaError::LogoutError(status, body))),
            Exchange::Api => Err(SharkError::ApiError(status, body)),
        }
    }
}

/// What the renewal loop does after a renewal: it waits the full interval
/// again whether the renewal worked or not, and logs a failure.
pub fn after_renewal(renewed: bool) -> (step: RefreshStep)
    ensures
        step == (RefreshStep { wait_secs: REFRESH_INTERVAL_SECS, log_error: !renewed }),
{
    RefreshStep { wait_secs: REFRESH_INTERVAL_SECS, log_error: !renewed }
}

impl SharkClientBuilder {
    /// The account's e-mail address.
    pub closed spec fn email(&self) -> Seq<char> {
        self.email@
    }

    /// The account's password.
    pub closed spec fn password(&self) -> Seq<char> {
        self.password@
    }

    /// The region that the client will talk to.
    pub closed spec fn chosen_region(&self) -> Region {
        self.region
    }

    /// Settings for the account in the US region.
    pub fn new(email: String, password: String) -> (builder: SharkClientBuilder)
        ensures
            builder.email() == email@,
            builder.password() == password@,
            builder.chosen_region() == Region::Us,
    {
        SharkClientBuilder { email, password, region: Region::Us }
    }

    /// The same account in another region.
    pub fn region(self, region: Region) -> (builder: SharkClientBuilder)
        ensures
            builder.email() == self.email(),
            builder.password() == self.password(),
            builder.chosen_region() == region,
    {
        SharkClientBuilder { email: self.email, password: self.password, region }
    }

    /// The region, the e-mail address and the password.
    pub fn into_parts(self) -> (parts: (Region, String, String))
        ensures
            parts.0 == self.chosen_region(),
            parts.1@ == self.email(),
            parts.2@ == self.password(),
    {
        (self.region, self.email, self.password)
    }
}

impl Session {
    /// A session that has not signed in: no tokens, not authenticated.
    pub fn new() -> (session: Session)
        ensures
            session@ == (SessionView {
                access_token: None,
                refresh_token: None,
                is_authenticated: false,
            }),
    {
        Session { access_token: None, refresh_token: None, is_authenticated: false }
    }

    /// Whether the session is signed in.
    pub fn is_authenticated(&self) -> (authenticated: bool)
        ensures
            authenticated == self@.is_authenticated,
    {
        self.is_authenticated
    }

    /// Whether signing in has anything to do: only a session that is not
    /// signed in sends its credentials.
    pub fn must_sign_in(&self) -> (needed: bool)
        ensures
            needed == !self@.is_authenticated,
    {
        !self.is_authenticated
    }

    /// Whether signing out has anything to do: only a session that is
    /// signed in has a token to give back.
    pub fn must_sign_out(&self) -> (needed: bool)
        ensures
            needed == self@.is_authenticated,
    {
        self.is_authenticated
    }

    /// The token that a request carries in its authorization header: the
    /// access token of a signed-in session, and nothing otherwise.
    pub fn authorization(&self) -> (token: Option<&String>)
        ensures
            match token {
                Some(t) => self@.is_authenticated && self@.access_token == Some(t@),
                None => !self@.is_authenticated || self@.access_token is None,
            },
    {
        if self.is_authenticated {
            self.access_token.as_ref()
        } else {
            None
        }
    }

    /// The access token, which signing out gives back.
    pub fn access_token(&self) -> (token: Option<&String>)
        ensures
            match token {
                Some(t) => self@.access_token == Some(t@),
                None => self@.access_token is None,
            },
    {
        self.access_token.as_ref()
    }

    /// The token that a renewal presents.
    pub fn refresh_token(&self) -> (token: Option<&String>)
        ensures
            match token {
                Some(t) => self@.refresh_token == Some(t@),
                None => self@.refresh_token is None,
            },
    {
        self.refresh_token.as_ref()
    }

    /// Takes over the tokens of an accepted sign-in or renewal: the session
    /// is signed in from then on.
    pub fn accept_tokens(&mut self, access_token: String, refresh_token: String)
        ensures
            final(self)@ == (SessionView {
                access_token: Some(access_token@),
                refresh_token: Some(refresh_token@),
                is_authenticated: true,
            }),
    {
        self.access_token = Some(access_token);
        self.refresh_token = Some(refresh_token);
        self.is_authenticated = true;
    }
}

} // verus!
