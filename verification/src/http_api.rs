//! The authenticated request pipeline of the networked backend.
//!
//! The pipeline is split where the network is: this module decides what is
//! sent (address, headers, body) and what an answer means (absent, failed,
//! or a document). Carrying a request to the service and bringing the answer
//! back is the caller's part.

use crate::error::{failed_to_decode, failed_with, DroneError, Failure};
use crate::frames::{command_of, CommandView, WireCommand};
use crate::json::{parse_document, parsed, Json};
use crate::telemetry::{rejected, snapshot_of, snapshot_outcome, TelemetrySnapshot};
use crate::text::{
    header_value_ok, is_header_value, join_url, joined, lemma_header_value_of_parts,
};
use vstd::prelude::*;
use vstd::slice::slice_to_vec;
use vstd::string::StringExecFns;
use vstd::utf8::encode_utf8;

verus! {

/// The request methods that the pipeline issues.
#[derive(Clone, Copy, Debug, PartialEq, Eq, Structural)]
pub enum SupportedHttpMethods {
    Get,
    Post,
}

/// One header of a request.
#[derive(Clone, Debug, PartialEq, Eq)]
pub struct Header {
    pub name: String,
    pub value: String,
}

impl View for Header {
    type V = (Seq<char>, Seq<char>);

    open spec fn view(&self) -> (Seq<char>, Seq<char>) {
        (self.name@, self.value@)
    }
}

/// The headers of a list, each as a pair of name and value.
pub open spec fn header_pairs(headers: Seq<Header>) -> Seq<(Seq<char>, Seq<char>)> {
    Seq::new(headers.len(), |i: int| headers[i]@)
}

/// A request, ready to be carried to the service.
#[derive(Debug, PartialEq, Eq)]
pub struct HttpRequest {
    pub method: SupportedHttpMethods,
    pub url: String,
    pub headers: Vec<Header>,
    pub body: Option<String>,
}

/// A request as contracts speak of it.
pub struct RequestView {
    pub method: SupportedHttpMethods,
    pub url: Seq<char>,
    pub headers: Seq<(Seq<char>, Seq<char>)>,
    pub body: Option<Seq<char>>,
}

/// The text of an optional body.
pub open spec fn body_text(body: Option<String>) -> Option<Seq<char>> {
    match body {
        Some(text) => Some(text@),
        None => None,
    }
}

impl View for HttpRequest {
    type V = RequestView;

    open spec fn view(&self) -> RequestView {
        RequestView {
            method: self.method,
            url: self.url@,
            headers: header_pairs(self.headers@),
            body: body_text(self.body),
        }
    }
}

/// What the service answered: the status code and the raw body.
#[derive(Clone, Debug, PartialEq, Eq)]
pub struct HttpResponse {
    pub status: u16,
    pub body: String,
}

/// The operations of the service.
#[derive(Clone, Copy, Debug, PartialEq, Eq, Structural)]
pub enum Endpoint {
    Health,
    Arm,
    Takeoff,
    Land,
    Status,
}

impl Endpoint {
    /// The operation's path below the base address.
    pub open spec fn path_text(self) -> Seq<char> {
        match self {
            Endpoint::Health => "health"@,
            Endpoint::Arm => "commands/arm"@,
            Endpoint::Takeoff => "commands/takeoff"@,
            Endpoint::Land => "commands/land"@,
            Endpoint::Status => "status"@,
        }
    }

    /// The method the operation is requested with.
    pub open spec fn method_of(self) -> SupportedHttpMethods {
        match self {
            Endpoint::Health => SupportedHttpMethods::Get,
            Endpoint::Arm => SupportedHttpMethods::Post,
            Endpoint::Takeoff => SupportedHttpMethods::Post,
            Endpoint::Land => SupportedHttpMethods::Post,
            Endpoint::Status => SupportedHttpMethods::Get,
        }
    }

    /// Whether a request for the operation carries the bearer credential:
    /// every one does but the health check.
    pub open spec fn carries_credential(self) -> bool {
        self != Endpoint::Health
    }

    /// The operation's path below the base address.
    pub fn path(self) -> (r: &'static str)
        ensures
            r@ == self.path_text(),
    {
        match self {
            Endpoint::Health => "health",
            Endpoint::Arm => "commands/arm",
            Endpoint::Takeoff => "commands/takeoff",
            Endpoint::Land => "commands/land",
            Endpoint::Status => "status",
        }
    }

    /// The method the operation is requested with.
    pub fn method(self) -> (r: SupportedHttpMethods)
        ensures
            r == self.method_of(),
    {
        match self {
            Endpoint::Health => SupportedHttpMethods::Get,
            Endpoint::Arm => SupportedHttpMethods::Post,
            Endpoint::Takeoff => SupportedHttpMethods::Post,
            Endpoint::Land => SupportedHttpMethods::Post,
            Endpoint::Status => SupportedHttpMethods::Get,
        }
    }

    /// Whether a request for the operation carries the bearer credential.
    pub fn needs_credential(self) -> (r: bool)
        ensures
            r == self.carries_credential(),
    {
        match self {
            Endpoint::Health => false,
            _ => true,
        }
    }
}

/// The headers that present `token` as a bearer credential.
pub open spec fn bearer_headers(token: Seq<char>) -> Seq<(Seq<char>, Seq<char>)> {
    seq![("Authorization"@, "Bearer "@ + token)]
}

/// The value of the credential header may be sent exactly when the token
/// may: testing the token is testing the header.
pub proof fn lemma_bearer_value_ok(token: Seq<char>)
    ensures
        header_value_ok(bearer_headers(token)[0].1) <==> header_value_ok(token),
        header_value_ok(bearer_headers(token)[0].0),
{
    reveal_strlit("Bearer ");
    reveal_strlit("Authorization");
    lemma_header_value_of_parts("Bearer "@, token);
}

/// The failure reported for a credential that cannot be sent in a header.
pub open spec fn bad_credential() -> Failure {
    Failure::Protocol { status: None, detail: "credential cannot be sent in a header"@ }
}

/// The networked backend: the base address of the service.
#[derive(Clone, Debug, PartialEq, Eq)]
pub struct HttpDroneApi {
    base: String,
}

impl View for HttpDroneApi {
    type V = Seq<char>;

    closed spec fn view(&self) -> Seq<char> {
        self.base@
    }
}

impl HttpDroneApi {
    /// A backend for the service at `base`.
    pub fn new(base: &str) -> (r: HttpDroneApi)
        ensures
            r@ == base@,
    {
        HttpDroneApi { base: String::from_str(base) }
    }

    /// The full address of `p`: the base and `p` joined by a single slash.
    pub fn url(&self, p: &str) -> (r: String)
        ensures
            r@ == joined(self@, p@),
    {
        join_url(self.base.as_str(), p)
    }

    /// The headers that present `token` as a bearer credential, or a protocol
    /// failure where `token` holds a character that no header may carry.
    pub fn retrieve_headers(&self, token: &str) -> (r: Result<Vec<Header>, DroneError>)
        ensures
            match r {
                Ok(headers) => header_value_ok(token@) && header_pairs(headers@) == bearer_headers(
                    token@,
                ),
                Err(e) => !header_value_ok(token@) && e@ == bad_credential(),
            },
    {
        if !is_header_value(token) {
            return Err(
                DroneError::Protocol {
                    status: None,
                    detail: String::from_str("credential cannot be sent in a header"),
                },
            );
        }
        let mut value = String::from_str("Bearer ");
        value.append(token);
        let mut headers: Vec<Header> = Vec::new();
        headers.push(Header { name: String::from_str("Authorization"), value });
        assert(header_pairs(headers@) =~= bearer_headers(token@));
        Ok(headers)
    }

    /// A GET request for `endpoint` with the headers of `extra`.
    pub fn get_request(&self, endpoint: &str, extra: Option<Vec<Header>>) -> (r: HttpRequest)
        ensures
            r@ == (RequestView {
                method: SupportedHttpMethods::Get,
                url: joined(self@, endpoint@),
                headers: match extra {
                    Some(headers) => header_pairs(headers@),
                    None => Seq::empty(),
                },
                body: None,
            }),
    {
        let headers = match extra {
            Some(headers) => headers,
            None => Vec::new(),
        };
        assert(extra is None ==> header_pairs(headers@) =~= Seq::empty());
        HttpRequest {
            method: SupportedHttpMethods::Get,
            url: self.url(endpoint),
            headers,
            body: None,
        }
    }

    /// A POST request for `endpoint` with the headers of `extra` and, where
    /// there is one, the body.
    pub fn post_request(
        &self,
        endpoint: &str,
        body: Option<String>,
        extra: Option<Vec<Header>>,
    ) -> (r: HttpRequest)
        ensures
            r@ == (RequestView {
                method: SupportedHttpMethods::Post,
                url: joined(self@, endpoint@),
                headers: match extra {
                    Some(headers) => header_pairs(headers@),
                    None => Seq::empty(),
                },
                body: body_text(body),
            }),
    {
        let headers = match extra {
            Some(headers) => headers,
            None => Vec::new(),
        };
        assert(extra is None ==> header_pairs(headers@) =~= Seq::empty());
        HttpRequest {
            method: SupportedHttpMethods::Post,
            url: self.url(endpoint),
            headers,
            body,
        }
    }

    /// The request for `endpoint` with `http_method`. A GET request carries
    /// no body, whatever `body` holds.
    pub fn send_request(
        &self,
        endpoint: &str,
        http_method: SupportedHttpMethods,
        body: Option<String>,
        extra_headers: Option<Vec<Header>>,
    ) -> (r: HttpRequest)
        ensures
            r@ == (RequestView {
                method: http_method,
                url: joined(self@, endpoint@),
                headers: match extra_headers {
                    Some(headers) => header_pairs(headers@),
                    None => Seq::empty(),
                },
                body: match http_method {
                    SupportedHttpMethods::Get => None,
                    SupportedHttpMethods::Post => body_text(body),
                },
            }),
    {
        match http_method {
            SupportedHttpMethods::Get => self.get_request(endpoint, extra_headers),
            SupportedHttpMethods::Post => self.post_request(endpoint, body, extra_headers),
        }
    }
}

/// The body of a land request: an object without fields.
pub open spec fn land_body_text() -> Seq<char> {
    "{}"@
}

/// The body of a takeoff request to `altitude` metres.
pub open spec fn takeoff_body_text(altitude: Seq<char>) -> Seq<char> {
    "{\"altitude_m\":"@ + altitude + "}"@
}

/// Whether `text` is one JSON number.
pub open spec fn is_number_text(text: Seq<char>) -> bool {
    parsed(text) matches Some(Json::Number(_))
}

/// The failure reported for an altitude that is not a number.
pub open spec fn bad_altitude() -> Failure {
    Failure::Protocol { status: None, detail: "altitude is not a number"@ }
}

/// Whether the reading of an altitude's text is a number.
pub fn reads_as_number(reading: &Result<Json, String>) -> (r: bool)
    ensures
        r == (*reading matches Ok(Json::Number(_))),
{
    match reading {
        Ok(Json::Number(_)) => true,
        _ => false,
    }
}

/// The body of a takeoff request: `altitude_m` as the one field of an
/// object. An altitude that is not a JSON number is refused, so that the
/// body is always a well-formed document.
pub fn takeoff_body(altitude_m: &str) -> (r: Result<String, DroneError>)
    ensures
        match r {
            Ok(body) => is_number_text(altitude_m@) && body@ == takeoff_body_text(altitude_m@),
            Err(e) => !is_number_text(altitude_m@) && e@ == bad_altitude(),
        },
{
    let reading = parse_document(altitude_m);
    if reads_as_number(&reading) {
        let mut body = String::from_str("{\"altitude_m\":");
        body.append(altitude_m);
        body.append("}");
        Ok(body)
    } else {
        Err(
            DroneError::Protocol {
                status: None,
                detail: String::from_str("altitude is not a number"),
            },
        )
    }
}

/// The request that `endpoint` is asked with: its method and path, the
/// bearer credential where the operation carries one, and the body where the
/// method sends one.
pub open spec fn planned(
    base: Seq<char>,
    endpoint: Endpoint,
    body: Option<Seq<char>>,
    token: Seq<char>,
) -> RequestView {
    RequestView {
        method: endpoint.method_of(),
        url: joined(base, endpoint.path_text()),
        headers: if endpoint.carries_credential() {
            bearer_headers(token)
        } else {
            Seq::empty()
        },
        body: match endpoint.method_of() {
            SupportedHttpMethods::Get => None,
            SupportedHttpMethods::Post => body,
        },
    }
}

/// The health check is the one request without the credential: every
/// other request presents it, in one header and as it was given, and the
/// health check has no header at all.
pub proof fn lemma_only_health_goes_without_credential(
    base: Seq<char>,
    endpoint: Endpoint,
    body: Option<Seq<char>>,
    token: Seq<char>,
)
    ensures
        planned(base, endpoint, body, token).headers.len() == 0 <==> endpoint == Endpoint::Health,
        endpoint != Endpoint::Health ==> planned(base, endpoint, body, token).headers == seq![
            ("Authorization"@, "Bearer "@ + token),
        ],
        planned(base, endpoint, body, token).body is Some ==> endpoint.method_of()
            == SupportedHttpMethods::Post,
{
}

impl HttpDroneApi {
    /// The request for `endpoint`. It fails only where the operation carries
    /// the credential and `token` cannot be sent in a header.
    pub fn plan(&self, endpoint: Endpoint, body: Option<String>, token: &str) -> (r: Result<
        HttpRequest,
        DroneError,
    >)
        ensures
            match r {
                Ok(request) => (endpoint.carries_credential() ==> header_value_ok(token@))
                    && request@ == planned(self@, endpoint, body_text(body), token@),
                Err(e) => endpoint.carries_credential() && !header_value_ok(token@) && e@
                    == bad_credential(),
            },
    {
        let extra = if endpoint.needs_credential() {
            match self.retrieve_headers(token) {
                Ok(headers) => Some(headers),
                Err(e) => {
                    return Err(e);
                },
            }
        } else {
            None
        };
        Ok(self.send_request(endpoint.path(), endpoint.method(), body, extra))
    }

    /// The health check that `connect` is verified with. It is the one
    /// request without a credential.
    pub fn connect_request(&self) -> (r: HttpRequest)
        ensures
            r@ == planned(self@, Endpoint::Health, None, Seq::empty()),
    {
        self.send_request(Endpoint::Health.path(), Endpoint::Health.method(), None, None)
    }

    /// The request that arms the vehicle. It has no body.
    pub fn arm_request(&self, token: &str) -> (r: Result<HttpRequest, DroneError>)
        ensures
            match r {
                Ok(request) => header_value_ok(token@) && request@ == planned(
                    self@,
                    Endpoint::Arm,
                    None,
                    token@,
                ),
                Err(e) => !header_value_ok(token@) && e@ == bad_credential(),
            },
    {
        self.plan(Endpoint::Arm, None, token)
    }

    /// The request that sends the vehicle up to `altitude_m` metres. The
    /// altitude is looked at first, then the credential.
    pub fn takeoff_request(&self, altitude_m: &str, token: &str) -> (r: Result<
        HttpRequest,
        DroneError,
    >)
        ensures
            match r {
                Ok(request) => is_number_text(altitude_m@) && header_value_ok(token@) && request@
                    == planned(
                    self@,
                    Endpoint::Takeoff,
                    Some(takeoff_body_text(altitude_m@)),
                    token@,
                ),
                Err(e) => if !is_number_text(altitude_m@) {
                    e@ == bad_altitude()
                } else {
                    !header_value_ok(token@) && e@ == bad_credential()
                },
            },
    {
        match takeoff_body(altitude_m) {
            Ok(body) => self.plan(Endpoint::Takeoff, Some(body), token),
            Err(e) => Err(e),
        }
    }

    /// The request that lands the vehicle. Its body is an object without
    /// fields: the service wants a body on every POST.
    pub fn land_request(&self, token: &str) -> (r: Result<HttpRequest, DroneError>)
        ensures
            match r {
                Ok(request) => header_value_ok(token@) && request@ == planned(
                    self@,
                    Endpoint::Land,
                    Some(land_body_text()),
                    token@,
                ),
                Err(e) => !header_value_ok(token@) && e@ == bad_credential(),
            },
    {
        self.plan(Endpoint::Land, Some(String::from_str("{}")), token)
    }

    /// The request that asks for the telemetry snapshot.
    pub fn status_request(&self, token: &str) -> (r: Result<HttpRequest, DroneError>)
        ensures
            match r {
                Ok(request) => header_value_ok(token@) && request@ == planned(
                    self@,
                    Endpoint::Status,
                    None,
                    token@,
                ),
                Err(e) => !header_value_ok(token@) && e@ == bad_credential(),
            },
    {
        self.plan(Endpoint::Status, None, token)
    }
}

/// What the status code of an answer says of it.
#[derive(Clone, Copy, Debug, PartialEq, Eq, Structural)]
pub enum ReplyClass {
    /// The service has nothing to say: a valid, empty result.
    Absent,
    /// The service answered with a body to decode.
    Success,
    /// The service refused or failed.
    Rejected,
}

/// The status code of an answer without content.
pub const NO_CONTENT: u16 = 204;

/// Whether `status` reports success.
pub open spec fn is_success(status: u16) -> bool {
    200 <= status < 300
}

/// The class of an answer with `status`.
pub open spec fn class_of(status: u16) -> ReplyClass {
    if status == NO_CONTENT {
        ReplyClass::Absent
    } else if is_success(status) {
        ReplyClass::Success
    } else {
        ReplyClass::Rejected
    }
}

/// Classifies an answer by its status code.
pub fn classify(status: u16) -> (r: ReplyClass)
    ensures
        r == class_of(status),
{
    if status == NO_CONTENT {
        ReplyClass::Absent
    } else if 200 <= status && status < 300 {
        ReplyClass::Success
    } else {
        ReplyClass::Rejected
    }
}

/// What an exchange amounts to before any body is decoded: a failure of the
/// transport is an I/O failure, an answer without content is absent, a
/// non-success status is a protocol failure that carries the status and the
/// raw body, and a success hands on its body.
pub open spec fn triaged(reply: Result<HttpResponse, String>) -> Result<Option<Seq<char>>, Failure> {
    match reply {
        Err(why) => Err(Failure::Io(why@)),
        Ok(response) => match class_of(response.status) {
            ReplyClass::Absent => Ok(None),
            ReplyClass::Success => Ok(Some(response.body@)),
            ReplyClass::Rejected => Err(
                Failure::Protocol { status: Some(response.status), detail: response.body@ },
            ),
        },
    }
}

/// Classifies an exchange: see [`triaged`].
pub fn triage(reply: Result<HttpResponse, String>) -> (r: Result<Option<String>, DroneError>)
    ensures
        match r {
            Ok(Some(body)) => triaged(reply) == Ok::<Option<Seq<char>>, Failure>(Some(body@)),
            Ok(None) => triaged(reply) == Ok::<Option<Seq<char>>, Failure>(None),
            Err(e) => triaged(reply) == Err::<Option<Seq<char>>, Failure>(e@),
        },
{
    match reply {
        Err(why) => Err(DroneError::Io(why)),
        Ok(response) => match classify(response.status) {
            ReplyClass::Absent => Ok(None),
            ReplyClass::Success => Ok(Some(response.body)),
            ReplyClass::Rejected => Err(
                DroneError::Protocol { status: Some(response.status), detail: response.body },
            ),
        },
    }
}

/// The failure reported for a body that is not a document; `why` is the
/// parser's description.
pub open spec fn undecodable(why: Seq<char>) -> Failure {
    Failure::Protocol { status: None, detail: why }
}

/// What the reading of a body amounts to: the document, or a protocol
/// failure with the parser's description.
pub fn body_outcome(reading: Result<Json, String>) -> (r: Result<Json, DroneError>)
    ensures
        match reading {
            Ok(tree) => r == Ok::<Json, DroneError>(tree),
            Err(why) => failed_with(r, undecodable(why@)),
        },
{
    match reading {
        Ok(tree) => Ok(tree),
        Err(why) => Err(DroneError::Protocol { status: None, detail: why }),
    }
}

/// The failure reported for a POST that was answered without content.
pub open spec fn missing_body() -> Failure {
    Failure::Protocol { status: Some(NO_CONTENT), detail: "POST endpoints must return a body"@ }
}

/// What the answer to a GET amounts to: absent for an answer without
/// content, the decoded document for a success, a failure otherwise.
pub fn get_reply(reply: Result<HttpResponse, String>) -> (r: Result<Option<Json>, DroneError>)
    ensures
        match triaged(reply) {
            Err(failure) => failed_with(r, failure),
            Ok(None) => r == Ok::<Option<Json>, DroneError>(None),
            Ok(Some(body)) => match parsed(body) {
                Some(tree) => r == Ok::<Option<Json>, DroneError>(Some(tree)),
                None => failed_to_decode(r),
            },
        },
{
    match triage(reply) {
        Err(e) => Err(e),
        Ok(None) => Ok(None),
        Ok(Some(body)) => match body_outcome(parse_document(body.as_str())) {
            Ok(tree) => Ok(Some(tree)),
            Err(e) => Err(e),
        },
    }
}

/// What the answer to a POST amounts to. The service owes every POST a
/// body: an answer without content is a protocol failure, never a default.
pub fn post_reply(reply: Result<HttpResponse, String>) -> (r: Result<Json, DroneError>)
    ensures
        match triaged(reply) {
            Err(failure) => failed_with(r, failure),
            Ok(None) => failed_with(r, missing_body()),
            Ok(Some(body)) => match parsed(body) {
                Some(tree) => r == Ok::<Json, DroneError>(tree),
                None => failed_to_decode(r),
            },
        },
{
    match triage(reply) {
        Err(e) => Err(e),
        Ok(None) => Err(
            DroneError::Protocol {
                status: Some(NO_CONTENT),
                detail: String::from_str("POST endpoints must return a body"),
            },
        ),
        Ok(Some(body)) => body_outcome(parse_document(body.as_str())),
    }
}

/// An answer without content is absent for a GET and a failure for a POST,
/// and an answer with a status outside the success range is a protocol
/// failure that carries that status and the raw body, for both.
pub proof fn lemma_triage_by_status(response: HttpResponse)
    ensures
        response.status == NO_CONTENT ==> triaged(Ok(response)) == Ok::<
            Option<Seq<char>>,
            Failure,
        >(None),
        !is_success(response.status) ==> triaged(Ok(response)) == Err::<
            Option<Seq<char>>,
            Failure,
        >(Failure::Protocol { status: Some(response.status), detail: response.body@ }),
        is_success(response.status) && response.status != NO_CONTENT ==> triaged(Ok(response))
            == Ok::<Option<Seq<char>>, Failure>(Some(response.body@)),
{
}

/// The failure of a health check that was answered with a non-success
/// status.
pub open spec fn unhealthy() -> Failure {
    Failure::Connect("health check failed"@)
}

/// What the answer to the health check says of the connection: it stands
/// with any success status; a failure of the transport and a non-success
/// status are both connection failures.
pub open spec fn connection_outcome(reply: Result<HttpResponse, String>) -> Result<(), Failure> {
    match reply {
        Err(why) => Err(Failure::Connect(why@)),
        Ok(response) => if is_success(response.status) {
            Ok(())
        } else {
            Err(unhealthy())
        },
    }
}

/// Settles a connect by the answer to its health check.
pub fn connect_reply(reply: Result<HttpResponse, String>) -> (r: Result<(), DroneError>)
    ensures
        match r {
            Ok(_) => connection_outcome(reply) is Ok,
            Err(e) => connection_outcome(reply) == Err::<(), Failure>(e@),
        },
{
    match reply {
        Err(why) => Err(DroneError::Connect(why)),
        Ok(response) => if 200 <= response.status && response.status < 300 {
            Ok(())
        } else {
            Err(DroneError::Connect(String::from_str("health check failed")))
        },
    }
}

/// Settles an arm, a takeoff or a land by the answer to its request: the
/// command went through exactly when the service answered with success and
/// a body that is a document.
pub fn command_reply(reply: Result<HttpResponse, String>) -> (r: Result<(), DroneError>)
    ensures
        match triaged(reply) {
            Err(failure) => failed_with(r, failure),
            Ok(None) => failed_with(r, missing_body()),
            Ok(Some(body)) => match parsed(body) {
                Some(_) => r is Ok,
                None => failed_to_decode(r),
            },
        },
{
    match post_reply(reply) {
        Ok(_) => Ok(()),
        Err(e) => Err(e),
    }
}

/// The failure of a status query that was answered without content.
pub open spec fn unreachable_service() -> Failure {
    Failure::Connect("the server is unreachable"@)
}

/// Settles a status query by the answer to its request: the snapshot that
/// the body decodes to. An answer without content is a connection failure.
pub fn status_reply(reply: Result<HttpResponse, String>) -> (r: Result<
    TelemetrySnapshot,
    DroneError,
>)
    ensures
        match triaged(reply) {
            Err(failure) => failed_with(r, failure),
            Ok(None) => failed_with(r, unreachable_service()),
            Ok(Some(body)) => match parsed(body) {
                Some(document) => match snapshot_of(document) {
                    Ok(view) => r matches Ok(snapshot) && snapshot@ == view,
                    Err(fault) => failed_with(r, rejected(fault)),
                },
                None => failed_to_decode(r),
            },
        },
{
    match get_reply(reply) {
        Err(e) => Err(e),
        Ok(None) => Err(DroneError::Connect(String::from_str("the server is unreachable"))),
        Ok(Some(document)) => snapshot_outcome(&document),
    }
}

/// The failure of a frame that stands for no command.
pub open spec fn unknown_frame() -> Failure {
    Failure::Protocol { status: None, detail: "frame stands for no command"@ }
}

/// The failure of taking an answer where none is waiting.
pub open spec fn nothing_received() -> Failure {
    Failure::Protocol { status: None, detail: "no answer to take"@ }
}

/// The request that carries out `command` on the service at `base`, or the
/// failure that keeps it from being sent.
pub open spec fn request_of(base: Seq<char>, command: CommandView, token: Seq<char>) -> Result<
    RequestView,
    Failure,
> {
    match command {
        CommandView::Takeoff(altitude) => if !is_number_text(altitude) {
            Err(bad_altitude())
        } else if !header_value_ok(token) {
            Err(bad_credential())
        } else {
            Ok(planned(base, Endpoint::Takeoff, Some(takeoff_body_text(altitude)), token))
        },
        _ => if !header_value_ok(token) {
            Err(bad_credential())
        } else {
            Ok(
                match command {
                    CommandView::Arm => planned(base, Endpoint::Arm, None, token),
                    CommandView::Land => planned(base, Endpoint::Land, Some(land_body_text()), token),
                    _ => planned(base, Endpoint::Status, None, token),
                },
            )
        },
    }
}

impl HttpDroneApi {
    /// The request that carries out `command`.
    pub fn command_request(&self, command: &WireCommand, token: &str) -> (r: Result<
        HttpRequest,
        DroneError,
    >)
        ensures
            match r {
                Ok(request) => request_of(self@, command@, token@) == Ok::<RequestView, Failure>(
                    request@,
                ),
                Err(e) => request_of(self@, command@, token@) == Err::<RequestView, Failure>(e@),
            },
    {
        match command {
            WireCommand::Arm => self.arm_request(token),
            WireCommand::Takeoff(altitude) => self.takeoff_request(altitude.as_str(), token),
            WireCommand::Land => self.land_request(token),
            WireCommand::Status => self.status_request(token),
        }
    }
}

/// The networked backend as the sequencer sees a transport, with the
/// network left out: for each step it names the request to carry to the
/// service, and takes the answer that came back.
pub struct HttpLink {
    api: HttpDroneApi,
    token: String,
    connected: bool,
    answer: Option<String>,
}

impl HttpLink {
    /// The base address of the service.
    pub closed spec fn base(&self) -> Seq<char> {
        self.api@
    }

    /// The credential that requests carry.
    pub closed spec fn credential(&self) -> Seq<char> {
        self.token@
    }

    /// Whether a health check has succeeded.
    pub closed spec fn connected(&self) -> bool {
        self.connected
    }

    /// The body of the last status answer, until it is taken.
    pub closed spec fn waiting(&self) -> Option<Seq<char>> {
        body_text(self.answer)
    }

    /// A link to the service at `base` that presents `token`.
    pub fn new(base: &str, token: &str) -> (r: HttpLink)
        ensures
            r.base() == base@,
            r.credential() == token@,
            !r.connected(),
            r.waiting() is None,
    {
        HttpLink {
            api: HttpDroneApi::new(base),
            token: String::from_str(token),
            connected: false,
            answer: None,
        }
    }

    /// Whether a health check has succeeded.
    pub fn is_connected(&self) -> (r: bool)
        ensures
            r == self.connected(),
    {
        self.connected
    }

    /// The request that a connect is verified with.
    pub fn connect_request(&self) -> (r: HttpRequest)
        ensures
            r@ == planned(self.base(), Endpoint::Health, None, Seq::empty()),
    {
        self.api.connect_request()
    }

    /// Takes the answer to the health check. The link is connected from the
    /// first success on.
    pub fn connect_answered(&mut self, reply: Result<HttpResponse, String>) -> (r: Result<
        (),
        DroneError,
    >)
        ensures
            match r {
                Ok(_) => connection_outcome(reply) is Ok,
                Err(e) => connection_outcome(reply) == Err::<(), Failure>(e@),
            },
            final(self).connected() == (old(self).connected() || r is Ok),
            final(self).base() == old(self).base(),
            final(self).credential() == old(self).credential(),
            final(self).waiting() == old(self).waiting(),
    {
        let outcome = connect_reply(reply);
        if outcome.is_ok() {
            self.connected = true;
        }
        outcome
    }

    /// The request for the command that `frame` stands for.
    pub fn frame_request(&self, frame: &[u8]) -> (r: Result<HttpRequest, DroneError>)
        ensures
            match command_of(frame@) {
                None => failed_with(r, unknown_frame()),
                Some(command) => match r {
                    Ok(request) => request_of(self.base(), command, self.credential()) == Ok::<
                        RequestView,
                        Failure,
                    >(request@),
                    Err(e) => request_of(self.base(), command, self.credential()) == Err::<
                        RequestView,
                        Failure,
                    >(e@),
                },
            },
    {
        match WireCommand::parse(frame) {
            None => Err(
                DroneError::Protocol {
                    status: None,
                    detail: String::from_str("frame stands for no command"),
                },
            ),
            Some(command) => self.api.command_request(&command, self.token.as_str()),
        }
    }

    /// Takes the answer to the request for `frame`. The body of a status
    /// answer is kept for [`HttpLink::take_answer`]; the answer to any
    /// other command only settles whether it went through.
    pub fn frame_answered(&mut self, frame: &[u8], reply: Result<HttpResponse, String>) -> (r:
        Result<(), DroneError>)
        ensures
            final(self).connected() == old(self).connected(),
            final(self).base() == old(self).base(),
            final(self).credential() == old(self).credential(),
            match command_of(frame@) {
                None => failed_with(r, unknown_frame()) && final(self).waiting() == old(self).waiting(),
                Some(CommandView::Status) => match triaged(reply) {
                    Err(failure) => failed_with(r, failure) && final(self).waiting()
                        == old(self).waiting(),
                    Ok(None) => failed_with(r, unreachable_service()) && final(self).waiting() == old(self).waiting(),
                    Ok(Some(body)) => r is Ok && final(self).waiting() == Some(body),
                },
                Some(_) => final(self).waiting() == old(self).waiting() && match triaged(reply) {
                    Err(failure) => failed_with(r, failure),
                    Ok(None) => failed_with(r, missing_body()),
                    Ok(Some(body)) => match parsed(body) {
                        Some(_) => r is Ok,
                        None => failed_to_decode(r),
                    },
                },
            },
    {
        match WireCommand::parse(frame) {
            None => Err(
                DroneError::Protocol {
                    status: None,
                    detail: String::from_str("frame stands for no command"),
                },
            ),
            Some(WireCommand::Status) => match triage(reply) {
                Err(e) => Err(e),
                Ok(None) => Err(DroneError::Connect(String::from_str("the server is unreachable"))),
                Ok(Some(body)) => {
                    self.answer = Some(body);
                    Ok(())
                },
            },
            Some(_) => command_reply(reply),
        }
    }

    /// Hands out the body of the last status answer, as bytes, and keeps
    /// it no longer.
    pub fn take_answer(&mut self) -> (r: Result<Vec<u8>, DroneError>)
        ensures
            final(self).connected() == old(self).connected(),
            final(self).base() == old(self).base(),
            final(self).credential() == old(self).credential(),
            final(self).waiting() is None,
            match old(self).waiting() {
                Some(body) => r matches Ok(payload) && payload@ == encode_utf8(body),
                None => failed_with(r, nothing_received()),
            },
    {
        let held = self.answer.take();
        match held {
            Some(body) => Ok(slice_to_vec(body.as_str().as_bytes())),
            None => Err(
                DroneError::Protocol {
                    status: None,
                    detail: String::from_str("no answer to take"),
                },
            ),
        }
    }
}

} // verus!
