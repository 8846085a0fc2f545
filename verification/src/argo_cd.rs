//! Argo CD: the requests that trigger and observe a rollout, and the rules
//! by which the answers are judged.

use vstd::prelude::*;
use vstd::string::*;
use vstd::utf8::encode_utf8;
use crate::config::{ArgoConfig, Config};
use crate::error::{RotationError, RotationErrorView};
use crate::text::equals_text;

verus! {

/// The environment variable that holds the token for Argo CD.
pub const ARGO_CD_TOKEN: &'static str = "ARGO_CD_TOKEN";

/// Seconds to sleep between two looks at the application.
pub const POLL_INTERVAL_SECONDS: u64 = 5;

/// Seconds to wait for a status when the configuration names no timeout.
pub const DEFAULT_SYNC_TIMEOUT_SECONDS: u64 = 60;

/// What Argo CD reports about an application, as far as it is read here.
#[derive(Debug)]
pub struct Application {
    pub status: ApplicationStatus,
}

#[derive(Debug)]
pub struct ApplicationStatus {
    pub sync: SyncStatus,
    pub health: HealthStatus,
    pub operation_state: Option<OperationState>,
}

#[derive(Debug)]
pub struct SyncStatus {
    pub status: String,
}

#[derive(Debug)]
pub struct HealthStatus {
    pub status: String,
}

#[derive(Debug)]
pub struct OperationState {
    pub phase: String,
}

/// The three texts of an [`Application`]; `phase` is absent when no
/// operation state is reported.
pub struct ApplicationView {
    pub sync: Seq<char>,
    pub health: Seq<char>,
    pub phase: Option<Seq<char>>,
}

impl View for Application {
    type V = ApplicationView;

    open spec fn view(&self) -> ApplicationView {
        ApplicationView {
            sync: self.status.sync.status@,
            health: self.status.health.status@,
            phase: match self.status.operation_state {
                Some(state) => Some(state.phase@),
                None => None,
            },
        }
    }
}

/// An operation is running right now.
pub open spec fn in_progress(application: ApplicationView) -> bool {
    application.phase == Some("Running"@)
}

/// The application is synced and healthy, and its last operation, if one is
/// reported, has succeeded.
pub open spec fn rolled_out(application: ApplicationView) -> bool {
    &&& application.sync == "Synced"@
    &&& application.health == "Healthy"@
    &&& (application.phase is None || application.phase == Some("Succeeded"@))
}

/// Whether an operation is running right now.
pub fn is_status_in_progress(app_information: &Application) -> (running: bool)
    ensures
        running == in_progress(app_information@),
{
    match &app_information.status.operation_state {
        Some(operation_state) => equals_text(&operation_state.phase, "Running"),
        None => false,
    }
}

/// Whether the application is fully reconciled.
pub fn is_status_synced(app_information: &Application) -> (synced: bool)
    ensures
        synced == rolled_out(app_information@),
{
    equals_text(&app_information.status.sync.status, "Synced") && equals_text(
        &app_information.status.health.status,
        "Healthy",
    ) && match &app_information.status.operation_state {
        Some(operation_state) => equals_text(&operation_state.phase, "Succeeded"),
        None => true,
    }
}

/// The status a wait is waiting for.
#[derive(Clone, Copy, Debug, PartialEq, Eq)]
pub enum StatusGoal {
    /// The triggered operation has become visible as running.
    InProgress,
    /// The application is fully reconciled.
    RolledOut,
}

impl StatusGoal {
    /// Whether `application` shows the awaited status.
    pub open spec fn met_by(self, application: ApplicationView) -> bool {
        match self {
            StatusGoal::InProgress => in_progress(application),
            StatusGoal::RolledOut => rolled_out(application),
        }
    }

    /// Whether `application` shows the awaited status.
    pub fn is_met(&self, application: &Application) -> (met: bool)
        ensures
            met == self.met_by(application@),
    {
        match self {
            StatusGoal::InProgress => is_status_in_progress(application),
            StatusGoal::RolledOut => is_status_synced(application),
        }
    }
}

/// Bytes that a URL path segment may hold as they are.
pub open spec fn is_unreserved(byte: u8) -> bool {
    ||| 0x30 <= byte <= 0x39
    ||| 0x41 <= byte <= 0x5a
    ||| 0x61 <= byte <= 0x7a
    ||| byte == 0x2d
    ||| byte == 0x2e
    ||| byte == 0x5f
    ||| byte == 0x7e
}

/// The upper-case hexadecimal digit for a value below sixteen.
pub open spec fn hex_digit(value: u8) -> char
    recommends
        value < 16,
{
    if value < 10 {
        ((48 + value) as u8) as char
    } else {
        ((55 + value) as u8) as char
    }
}

/// One byte as it stands in a URL: itself, or `%` and two hexadecimal digits.
pub open spec fn percent_encoded_byte(byte: u8) -> Seq<char> {
    if is_unreserved(byte) {
        seq![byte as char]
    } else {
        seq!['%', hex_digit(byte / 16), hex_digit(byte % 16)]
    }
}

/// A sequence of bytes as it stands in a URL.
pub open spec fn percent_encoded(bytes: Seq<u8>) -> Seq<char>
    decreases bytes.len(),
{
    if bytes.len() == 0 {
        Seq::empty()
    } else {
        percent_encoded_byte(bytes[0]) + percent_encoded(bytes.drop_first())
    }
}

/// `urlencoding::encode`: walks the UTF-8 bytes of the text, keeps ASCII
/// letters, digits, `-`, `.`, `_` and `~`, and writes every other byte as `%`
/// followed by its two upper-case hexadecimal digits.
#[verifier::external_body]
fn url_encode(data: &str) -> (encoded: String)
    ensures
        encoded@ == percent_encoded(encode_utf8(data@)),
{
    urlencoding::encode(data).into_owned()
}

/// The address of an application below the Argo CD API.
pub open spec fn application_url(base_url: Seq<char>, application: Seq<char>) -> Seq<char> {
    base_url + "/api/v1/applications/"@ + percent_encoded(encode_utf8(application))
}

/// The address that triggers a sync of an application.
pub open spec fn sync_url(base_url: Seq<char>, application: Seq<char>) -> Seq<char> {
    application_url(base_url, application) + "/sync"@
}

/// The value of the `Authorization` header for a token, if there is one.
pub open spec fn bearer(token: Option<Seq<char>>) -> Option<Seq<char>> {
    match token {
        Some(token) => Some("Bearer "@ + token),
        None => None,
    }
}

/// The view of an optional text.
pub open spec fn text_of(text: Option<String>) -> Option<Seq<char>> {
    match text {
        Some(text) => Some(text@),
        None => None,
    }
}

#[derive(Clone, Copy, Debug, PartialEq, Eq)]
pub enum Method {
    Get,
    Post,
}

/// An HTTP request for the caller to send.
#[derive(Debug)]
pub struct Request {
    pub method: Method,
    pub url: String,
    /// The `Content-Type` header, if one is to be sent.
    pub content_type: Option<String>,
    /// The `Authorization` header; without it the request is anonymous.
    pub authorization: Option<String>,
}

pub struct RequestView {
    pub method: Method,
    pub url: Seq<char>,
    pub content_type: Option<Seq<char>>,
    pub authorization: Option<Seq<char>>,
}

impl View for Request {
    type V = RequestView;

    open spec fn view(&self) -> RequestView {
        RequestView {
            method: self.method,
            url: self.url@,
            content_type: text_of(self.content_type),
            authorization: text_of(self.authorization),
        }
    }
}

/// The Argo CD side of a rotation.
#[derive(Debug)]
pub struct ArgoCD {
    pub argo_config: ArgoConfig,
}

impl ArgoCD {
    pub fn init(config: &Config) -> (argo_cd: ArgoCD)
        ensures
            argo_cd.argo_config == config.argo_cd,
    {
        ArgoCD { argo_config: config.argo_cd.clone() }
    }

    /// The budget of one wait, in seconds.
    pub open spec fn sync_timeout_seconds(&self) -> u64 {
        match self.argo_config.sync_timeout_seconds {
            Some(seconds) => seconds as u64,
            None => DEFAULT_SYNC_TIMEOUT_SECONDS,
        }
    }

    /// The budget of one wait, in seconds.
    pub fn get_sync_timeout_seconds(&self) -> (seconds: u64)
        ensures
            seconds == self.sync_timeout_seconds(),
    {
        match self.argo_config.sync_timeout_seconds {
            Some(seconds) => seconds as u64,
            None => DEFAULT_SYNC_TIMEOUT_SECONDS,
        }
    }

    /// Whether the HTTP client is to skip the verification of certificates.
    pub fn accepts_invalid_certificates(&self) -> (accepted: bool)
        ensures
            accepted == (self.argo_config.danger_accept_insecure == Some(true)),
    {
        match self.argo_config.danger_accept_insecure {
            Some(accept_insecure) => accept_insecure,
            None => false,
        }
    }

    /// The `Authorization` header for the given token: a bearer token where
    /// one is set, nothing otherwise.
    pub fn authorization_header(token: &Option<String>) -> (header: Option<String>)
        ensures
            text_of(header) == bearer(text_of(*token)),
    {
        match token {
            Some(token) => {
                let mut header = String::from_str("Bearer ");
                header.append(token.as_str());
                Some(header)
            },
            None => None,
        }
    }

    fn application_endpoint(&self) -> (url: String)
        ensures
            url@ == application_url(self.argo_config.base_url@, self.argo_config.application@),
    {
        let mut url = self.argo_config.base_url.clone();
        url.append("/api/v1/applications/");
        let name = url_encode(self.argo_config.application.as_str());
        url.append(name.as_str());
        url
    }

    /// The request that triggers a sync of the application.
    pub fn sync_request(&self, token: &Option<String>) -> (request: Request)
        ensures
            request@ == (RequestView {
                method: Method::Post,
                url: sync_url(self.argo_config.base_url@, self.argo_config.application@),
                content_type: Some("application/json"@),
                authorization: bearer(text_of(*token)),
            }),
    {
        let mut url = self.application_endpoint();
        url.append("/sync");
        Request {
            method: Method::Post,
            url,
            content_type: Some(String::from_str("application/json")),
            authorization: Self::authorization_header(token),
        }
    }

    /// The request that reads the status of the application.
    pub fn status_request(&self, token: &Option<String>) -> (request: Request)
        ensures
            request@ == (RequestView {
                method: Method::Get,
                url: application_url(self.argo_config.base_url@, self.argo_config.application@),
                content_type: None,
                authorization: bearer(text_of(*token)),
            }),
    {
        Request {
            method: Method::Get,
            url: self.application_endpoint(),
            content_type: None,
            authorization: Self::authorization_header(token),
        }
    }
}


/// Status codes that report success.
pub open spec fn is_success(status: u16) -> bool {
    200 <= status <= 299
}

/// Status codes with which a server refuses a request or fails at it.
pub open spec fn is_refusal(status: u16) -> bool {
    400 <= status <= 599
}

/// The text shown when Argo CD did not accept the sync; `response` is what
/// the server answered, or why it could not be reached.
pub open spec fn sync_failed_text(response: Seq<char>) -> Seq<char> {
    "Failed to sync ArgoCD: "@ + response
}

/// The text shown when the status of the application could not be requested.
pub open spec fn status_unreachable_text(detail: Seq<char>) -> Seq<char> {
    "Failed to request ArgoCD sync status: "@ + detail
}

/// Where a wait stands between two steps.
#[derive(Clone, Copy, Debug, PartialEq, Eq)]
pub enum WaitPhase {
    /// The elapsed time has been asked for.
    Checking,
    /// The status of the application has been asked for.
    Requesting,
    /// The pause before the next look has been asked for.
    Sleeping,
    /// The wait is over.
    Finished,
}

/// A wait for a status of the application: look, and look again after a
/// pause, until the status shows or the budget is used up.
#[derive(Clone, Copy, Debug, PartialEq, Eq)]
pub struct StatusWait {
    pub goal: StatusGoal,
    pub timeout_seconds: u64,
    pub phase: WaitPhase,
}

/// What the caller reports back to a wait.
#[derive(Debug)]
pub enum WaitEvent {
    /// Whole seconds that have passed since the wait began.
    Elapsed { seconds: u64 },
    /// The server answered; `application` is absent when the body could not
    /// be decoded.
    Response { status: u16, application: Option<Application> },
    /// The server could not be reached.
    Unreachable { detail: String },
    /// The pause is over.
    Slept,
}

pub enum WaitEventView {
    Elapsed { seconds: u64 },
    Response { status: u16, application: Option<ApplicationView> },
    Unreachable { detail: Seq<char> },
    Slept,
}

impl View for WaitEvent {
    type V = WaitEventView;

    open spec fn view(&self) -> WaitEventView {
        match self {
            WaitEvent::Elapsed { seconds } => WaitEventView::Elapsed { seconds: *seconds },
            WaitEvent::Response { status, application } => WaitEventView::Response {
                status: *status,
                application: match application {
                    Some(application) => Some(application@),
                    None => None,
                },
            },
            WaitEvent::Unreachable { detail } => WaitEventView::Unreachable { detail: detail@ },
            WaitEvent::Slept => WaitEventView::Slept,
        }
    }
}

/// What a wait asks the caller to do next.
#[derive(Debug)]
pub enum WaitAction {
    /// Report the seconds that have passed since the wait began.
    ReadClock,
    /// Send the status request and report the answer.
    Request,
    /// Pause for the given number of seconds.
    Sleep { seconds: u64 },
    /// Stop; the wait has ended as given.
    Finish(Result<(), RotationError>),
}

pub enum WaitActionView {
    ReadClock,
    Request,
    Sleep { seconds: u64 },
    Finish(Result<(), RotationErrorView>),
}

impl View for WaitAction {
    type V = WaitActionView;

    open spec fn view(&self) -> WaitActionView {
        match self {
            WaitAction::ReadClock => WaitActionView::ReadClock,
            WaitAction::Request => WaitActionView::Request,
            WaitAction::Sleep { seconds } => WaitActionView::Sleep { seconds: *seconds },
            WaitAction::Finish(outcome) => WaitActionView::Finish(
                match outcome {
                    Ok(_) => Ok(()),
                    Err(error) => Err(error@),
                },
            ),
        }
    }
}

/// Whether an event shows the awaited status: a successful answer with a
/// readable body that meets the goal.
pub open spec fn observes(goal: StatusGoal, event: WaitEventView) -> bool {
    event matches WaitEventView::Response { status, application: Some(application) }
        && is_success(status) && goal.met_by(application)
}

/// The wait after `event`, and what it asks for next.
///
/// Time is checked before each request, so a wait whose budget is used up
/// sends nothing more. An answer that is no success, or whose body cannot be
/// read, counts as "not yet": the wait pauses and looks again. An event that
/// does not answer the last request ends the wait.
pub open spec fn wait_step(wait: StatusWait, event: WaitEventView) -> (StatusWait, WaitActionView) {
    let finished = StatusWait { phase: WaitPhase::Finished, ..wait };
    match (wait.phase, event) {
        (WaitPhase::Checking, WaitEventView::Elapsed { seconds }) => {
            if seconds >= wait.timeout_seconds {
                (finished, WaitActionView::Finish(Err(RotationErrorView::DeploymentTimeout)))
            } else {
                (StatusWait { phase: WaitPhase::Requesting, ..wait }, WaitActionView::Request)
            }
        },
        (WaitPhase::Requesting, WaitEventView::Response { status, application }) => {
            if observes(wait.goal, event) {
                (finished, WaitActionView::Finish(Ok(())))
            } else {
                (
                    StatusWait { phase: WaitPhase::Sleeping, ..wait },
                    WaitActionView::Sleep { seconds: POLL_INTERVAL_SECONDS },
                )
            }
        },
        (WaitPhase::Requesting, WaitEventView::Unreachable { detail }) => (
            finished,
            WaitActionView::Finish(
                Err(
                    RotationErrorView::DeploymentSyncError {
                        message: status_unreachable_text(detail),
                    },
                ),
            ),
        ),
        (WaitPhase::Sleeping, WaitEventView::Slept) => (
            StatusWait { phase: WaitPhase::Checking, ..wait },
            WaitActionView::ReadClock,
        ),
        _ => (finished, WaitActionView::Finish(Err(RotationErrorView::UnexpectedEvent))),
    }
}

/// What a wait asks for, one after the other, while `events` come in.
pub open spec fn wait_actions(wait: StatusWait, events: Seq<WaitEventView>) -> Seq<WaitActionView>
    decreases events.len(),
{
    if events.len() == 0 {
        Seq::empty()
    } else {
        seq![wait_step(wait, events[0]).1] + wait_actions(
            wait_step(wait, events[0]).0,
            events.drop_first(),
        )
    }
}

impl StatusWait {
    /// A wait that has just begun, and its first request.
    pub fn begin(goal: StatusGoal, timeout_seconds: u64) -> (start: (StatusWait, WaitAction))
        ensures
            start.0 == (StatusWait { goal, timeout_seconds, phase: WaitPhase::Checking }),
            start.1@ == WaitActionView::ReadClock,
    {
        (StatusWait { goal, timeout_seconds, phase: WaitPhase::Checking }, WaitAction::ReadClock)
    }

    fn finish(self, outcome: Result<(), RotationError>) -> (next: (StatusWait, WaitAction))
        ensures
            next.0 == (StatusWait { phase: WaitPhase::Finished, ..self }),
            next.1 == WaitAction::Finish(outcome),
    {
        (
            StatusWait {
                goal: self.goal,
                timeout_seconds: self.timeout_seconds,
                phase: WaitPhase::Finished,
            },
            WaitAction::Finish(outcome),
        )
    }

    fn proceed(self, phase: WaitPhase, action: WaitAction) -> (next: (StatusWait, WaitAction))
        ensures
            next.0 == (StatusWait { phase, ..self }),
            next.1 == action,
    {
        (StatusWait { goal: self.goal, timeout_seconds: self.timeout_seconds, phase }, action)
    }

    /// Takes the answer to the last request and decides what comes next.
    pub fn step(self, event: WaitEvent) -> (next: (StatusWait, WaitAction))
        ensures
            (next.0, next.1@) == wait_step(self, event@),
    {
        match self.phase {
            WaitPhase::Checking => match event {
                WaitEvent::Elapsed { seconds } => {
                    if seconds >= self.timeout_seconds {
                        self.finish(Err(RotationError::DeploymentTimeout))
                    } else {
                        self.proceed(WaitPhase::Requesting, WaitAction::Request)
                    }
                },
                _ => self.finish(Err(RotationError::UnexpectedEvent)),
            },
            WaitPhase::Requesting => match event {
                WaitEvent::Response { status, application } => {
                    let met = 200 <= status && status <= 299 && match &application {
                        Some(application) => self.goal.is_met(application),
                        None => false,
                    };
                    if met {
                        self.finish(Ok(()))
                    } else {
                        self.proceed(
                            WaitPhase::Sleeping,
                            WaitAction::Sleep { seconds: POLL_INTERVAL_SECONDS },
                        )
                    }
                },
                WaitEvent::Unreachable { detail } => {
                    let mut message = String::from_str("Failed to request ArgoCD sync status: ");
                    message.append(detail.as_str());
                    self.finish(Err(RotationError::DeploymentSyncError { message }))
                },
                _ => self.finish(Err(RotationError::UnexpectedEvent)),
            },
            WaitPhase::Sleeping => match event {
                WaitEvent::Slept => self.proceed(WaitPhase::Checking, WaitAction::ReadClock),
                _ => self.finish(Err(RotationError::UnexpectedEvent)),
            },
            WaitPhase::Finished => self.finish(Err(RotationError::UnexpectedEvent)),
        }
    }
}

impl ArgoCD {
    /// Judges the answer to the sync request. A refusal ends the sync with
    /// what the server said; so does a server that could not be reached, with
    /// the reason. Any other answer starts the wait for the triggered
    /// operation to show as running.
    pub fn sync(&self, answer: Result<(u16, String), String>) -> (outcome: Result<
        (StatusWait, WaitAction),
        RotationError,
    >)
        ensures
            match answer {
                Ok((status, body)) => if is_refusal(status) {
                    outcome matches Err(error) && error@ == (RotationErrorView::DeploymentSyncError {
                        message: sync_failed_text(body@),
                    })
                } else {
                    outcome matches Ok(start) && start.0 == (StatusWait {
                        goal: StatusGoal::InProgress,
                        timeout_seconds: self.sync_timeout_seconds(),
                        phase: WaitPhase::Checking,
                    }) && start.1@ == WaitActionView::ReadClock
                },
                Err(detail) => outcome matches Err(error) && error@
                    == (RotationErrorView::DeploymentSyncError {
                    message: sync_failed_text(detail@),
                }),
            },
    {
        match answer {
            Ok((status, body)) => {
                if 400 <= status && status <= 599 {
                    let mut message = String::from_str("Failed to sync ArgoCD: ");
                    message.append(body.as_str());
                    Err(RotationError::DeploymentSyncError { message })
                } else {
                    Ok(StatusWait::begin(StatusGoal::InProgress, self.get_sync_timeout_seconds()))
                }
            },
            Err(detail) => {
                let mut message = String::from_str("Failed to sync ArgoCD: ");
                message.append(detail.as_str());
                Err(RotationError::DeploymentSyncError { message })
            },
        }
    }

    /// The wait for the application to be fully reconciled.
    pub fn wait_for_rollout(&self) -> (start: (StatusWait, WaitAction))
        ensures
            start.0 == (StatusWait {
                goal: StatusGoal::RolledOut,
                timeout_seconds: self.sync_timeout_seconds(),
                phase: WaitPhase::Checking,
            }),
            start.1@ == WaitActionView::ReadClock,
    {
        StatusWait::begin(StatusGoal::RolledOut, self.get_sync_timeout_seconds())
    }
}


/// A wait never changes what it waits for nor how long.
pub proof fn law_wait_keeps_goal_and_budget(wait: StatusWait, event: WaitEventView)
    ensures
        wait_step(wait, event).0.goal == wait.goal,
        wait_step(wait, event).0.timeout_seconds == wait.timeout_seconds,
{
}

/// A look at the clock at or after the end of the budget ends the wait with
/// the timeout, whatever was observed before, and the operator reads the
/// timeout text.
pub proof fn law_exhausted_budget_is_reported(wait: StatusWait, seconds: u64)
    requires
        wait.phase == WaitPhase::Checking,
        seconds >= wait.timeout_seconds,
    ensures
        wait_step(wait, WaitEventView::Elapsed { seconds }) == (
            StatusWait { phase: WaitPhase::Finished, ..wait },
            WaitActionView::Finish(Err(RotationErrorView::DeploymentTimeout)),
        ),
        RotationErrorView::DeploymentTimeout.message()
            == "Timeout reached while waiting for ArgoCD sync status"@,
{
}

/// A wait that never observes the awaited status never ends in success.
/// Where, in addition, the server was reached every time, the wait can end
/// in the timeout only, or in the refusal of an event it had not asked for.
pub proof fn law_unobserved_status_never_succeeds(wait: StatusWait, events: Seq<WaitEventView>)
    requires
        forall|i: int| 0 <= i < events.len() ==> !observes(wait.goal, #[trigger] events[i]),
    ensures
        wait_actions(wait, events).len() == events.len(),
        forall|i: int|
            0 <= i < events.len() ==> !(#[trigger] wait_actions(wait, events)[i] matches WaitActionView::Finish(
                Ok(_),
            )),
        (forall|i: int| 0 <= i < events.len() ==> !(#[trigger] events[i] is Unreachable))
            ==> forall|i: int|
            0 <= i < events.len() && #[trigger] wait_actions(wait, events)[i] is Finish ==> {
                ||| wait_actions(wait, events)[i] == WaitActionView::Finish(
                    Err(RotationErrorView::DeploymentTimeout),
                )
                ||| wait_actions(wait, events)[i] == WaitActionView::Finish(
                    Err(RotationErrorView::UnexpectedEvent),
                )
            },
    decreases events.len(),
{
    if events.len() > 0 {
        let next = wait_step(wait, events[0]).0;
        let rest = events.drop_first();
        assert(!observes(wait.goal, events[0]));
        assert forall|i: int| 0 <= i < rest.len() implies !observes(
            next.goal,
            #[trigger] rest[i],
        ) by {
            assert(rest[i] == events[i + 1]);
        }
        law_unobserved_status_never_succeeds(next, rest);
        let actions = wait_actions(wait, events);
        let tail = wait_actions(next, rest);
        assert forall|i: int| 0 <= i < events.len() implies !(#[trigger] actions[i] matches WaitActionView::Finish(
            Ok(_),
        )) by {
            if i > 0 {
                assert(actions[i] == tail[i - 1]);
            }
        }
        if forall|i: int| 0 <= i < events.len() ==> !(#[trigger] events[i] is Unreachable) {
            assert(!(events[0] is Unreachable));
            assert forall|i: int| 0 <= i < rest.len() implies !(#[trigger] rest[i] is Unreachable) by {
                assert(rest[i] == events[i + 1]);
            }
            assert forall|i: int|
                0 <= i < events.len() && #[trigger] actions[i] is Finish implies {
                ||| actions[i] == WaitActionView::Finish(Err(RotationErrorView::DeploymentTimeout))
                ||| actions[i] == WaitActionView::Finish(Err(RotationErrorView::UnexpectedEvent))
            } by {
                if i > 0 {
                    assert(actions[i] == tail[i - 1]);
                }
            }
        }
    }
}

} // verus!
