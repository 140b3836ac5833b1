//! Request Orchestrator and Retry Policy: the decisions of one orchestrated
//! call as an explicit state machine. The caller performs each returned
//! action (send, wait and resend, deliver, fail) and hands back the transport
//! outcome; every decision in between is made and verified here.

use crate::decode::{content_of_response, decode_response, extract_content, response_of_json};
use crate::encode::{encode_request, request_json_text, CompletionRequest, ReqModel};
use crate::errors::{ApiError, ErrorModel};
use crate::json::json_of;
use crate::messages::build_messages;
use crate::messages::build_messages_spec;
use vstd::prelude::*;

verus! {

/// Total attempts of one retried cycle.
pub const MAX_ATTEMPTS: u64 = 3;

/// The backoff before the first resend, in milliseconds.
pub const BASE_DELAY_MS: u64 = 100;

/// The backoff after the given number of failed attempts: the base delay,
/// doubled once per failure already counted.
pub open spec fn backoff_ms(attempt: u64) -> u64
    decreases attempt,
{
    if attempt == 0 {
        BASE_DELAY_MS
    } else {
        (2 * backoff_ms((attempt - 1) as u64)) as u64
    }
}

fn backoff_delay(attempt: u64) -> (r: u64)
    requires
        attempt < MAX_ATTEMPTS - 1,
    ensures
        r == backoff_ms(attempt),
{
    proof {
        reveal_with_fuel(backoff_ms, 3);
    }
    if attempt == 0 {
        100
    } else {
        200
    }
}

/// The delay actually slept: the backoff plus a perturbation below it, taken
/// from a caller-supplied random value, so that simultaneous invocations
/// desynchronize.
pub open spec fn jittered_ms(base: u64, jitter: u64) -> int {
    base + (jitter as int) % (base as int)
}

pub fn jittered_delay(base: u64, jitter: u64) -> (r: u64)
    requires
        0 < base <= 0x7fff_ffff_ffff_ffff,
    ensures
        r == jittered_ms(base, jitter),
{
    base + jitter % base
}

/// A successful HTTP status.
pub open spec fn is_success_status(status: u16) -> bool {
    200 <= status < 300
}

fn status_is_success(status: u16) -> (r: bool)
    ensures
        r == is_success_status(status),
{
    200 <= status && status < 300
}

pub open spec fn default_url() -> Seq<char> {
    "https://openrouter.ai/api/v1/chat/completions"@
}

/// The endpoint actually posted to: the provider's fixed endpoint unless a
/// caller (a test, usually) overrides it.
pub fn request_url(base_url: Option<&str>) -> (r: String)
    ensures
        r@ == match base_url {
            Some(u) => u@,
            None => default_url(),
        },
{
    match base_url {
        Some(u) => String::from_str(u),
        None => String::from_str("https://openrouter.ai/api/v1/chat/completions"),
    }
}

/// The authorization header value for one credential.
pub fn bearer_header(api_key: &str) -> (r: String)
    ensures
        r@ == "Bearer "@ + api_key@,
{
    String::from_str("Bearer ").concat(api_key)
}

/// Where one orchestrated call stands.
#[derive(Debug, Clone, Copy, PartialEq, Eq, Structural)]
pub enum Phase {
    /// The reformulation request is in flight.
    Preprocess,
    /// The main request is in flight.
    Main,
    /// The streaming handshake succeeded; chunks flow through the stream
    /// decoder.
    Streaming,
    /// The final text was delivered.
    Finished,
    /// The call failed for good.
    Failed,
}

/// What the caller must do next.
#[derive(Debug)]
pub enum Action {
    /// Post this body to the endpoint.
    SendRequest { body: String },
    /// Wait (with jitter applied to this backoff), then post the same body
    /// again.
    RetryAfter { delay_ms: u64 },
    /// Deliver this final text.
    Finish { text: String },
    /// Consume the response body chunk by chunk through the stream decoder.
    StreamReady,
    /// Surface this error.
    Fail { error: ApiError },
}

pub enum ActionModel {
    SendRequest(Seq<char>),
    RetryAfter(u64),
    Finish(Seq<char>),
    StreamReady,
    Fail(ErrorModel),
}

impl View for Action {
    type V = ActionModel;

    open spec fn view(&self) -> ActionModel {
        match self {
            Action::SendRequest { body } => ActionModel::SendRequest(body@),
            Action::RetryAfter { delay_ms } => ActionModel::RetryAfter(*delay_ms),
            Action::Finish { text } => ActionModel::Finish(text@),
            Action::StreamReady => ActionModel::StreamReady,
            Action::Fail { error } => ActionModel::Fail(error@),
        }
    }
}

/// What the transport reports back for one posted request.
#[derive(Debug)]
pub enum TransportEvent {
    /// The exchange completed; the status and the full body text.
    Response { status: u16, body: String },
    /// Streaming mode only: the handshake succeeded and the body was left
    /// unread, to be pulled chunk by chunk.
    Connected,
    /// The exchange could not be completed (connection, timeout, TLS).
    TransportFailed { message: String },
}

pub enum EventModel {
    Response { status: u16, body: Seq<char> },
    Connected,
    TransportFailed { message: Seq<char> },
}

impl View for TransportEvent {
    type V = EventModel;

    open spec fn view(&self) -> EventModel {
        match self {
            TransportEvent::Response { status, body } => EventModel::Response {
                status: *status,
                body: body@,
            },
            TransportEvent::Connected => EventModel::Connected,
            TransportEvent::TransportFailed { message } => EventModel::TransportFailed {
                message: message@,
            },
        }
    }
}

/// One orchestrated call: the inputs it was started with, the phase, and the
/// attempts already failed in the current cycle.
#[derive(Debug)]
pub struct Orchestrator {
    pub contents: Vec<String>,
    pub model: String,
    pub markdown: bool,
    pub stream: bool,
    pub phase: Phase,
    pub attempt: u64,
}

pub struct OrchModel {
    pub contents: Seq<Seq<char>>,
    pub model: Seq<char>,
    pub markdown: bool,
    pub stream: bool,
    pub phase: Phase,
    pub attempt: u64,
}

impl View for Orchestrator {
    type V = OrchModel;

    open spec fn view(&self) -> OrchModel {
        OrchModel {
            contents: self.contents.deep_view(),
            model: self.model@,
            markdown: self.markdown,
            stream: self.stream,
            phase: self.phase,
            attempt: self.attempt,
        }
    }
}

/// The body of the request that is (or is about to be) in flight: the
/// reformulation request in the pre-processing phase, the main request
/// otherwise. Only the main request may stream.
pub open spec fn body_for(m: OrchModel) -> Seq<char> {
    if m.phase is Preprocess {
        request_json_text(
            ReqModel {
                model: m.model,
                messages: build_messages_spec(m.contents, m.markdown, true),
                stream: false,
            },
        )
    } else {
        request_json_text(
            ReqModel {
                model: m.model,
                messages: build_messages_spec(m.contents, m.markdown, false),
                stream: m.stream,
            },
        )
    }
}

/// What a successful batch body yields: the decoded response's first-choice
/// text, or nothing when the body is not a response.
pub open spec fn decoded_text(body: Seq<char>) -> Option<Seq<char>> {
    match json_of(body) {
        Some(j) => match response_of_json(j) {
            Some(r) => Some(content_of_response(r)),
            None => None,
        },
        None => None,
    }
}

/// The reformulated text replaces the most recent content entry, or becomes
/// the only entry when there was none.
pub open spec fn apply_reformulated(contents: Seq<Seq<char>>, text: Seq<char>) -> Seq<
    Seq<char>,
> {
    if contents.len() > 0 {
        contents.update(contents.len() - 1, text)
    } else {
        contents.push(text)
    }
}

/// The Retry Policy on one failed attempt: any error is retryable until the
/// attempts are spent, and then the last attempt's error itself is surfaced
/// (the cause is preserved rather than replaced by a generic signal).
pub open spec fn step_fail(pre: OrchModel, e: ErrorModel) -> (OrchModel, ActionModel) {
    if pre.attempt + 1 < MAX_ATTEMPTS {
        (
            OrchModel {
                contents: pre.contents,
                model: pre.model,
                markdown: pre.markdown,
                stream: pre.stream,
                phase: pre.phase,
                attempt: (pre.attempt + 1) as u64,
            },
            ActionModel::RetryAfter(backoff_ms(pre.attempt)),
        )
    } else {
        (
            OrchModel {
                contents: pre.contents,
                model: pre.model,
                markdown: pre.markdown,
                stream: pre.stream,
                phase: Phase::Failed,
                attempt: pre.attempt,
            },
            ActionModel::Fail(e),
        )
    }
}

/// One step of the orchestrated call on one transport outcome.
pub open spec fn orch_step(pre: OrchModel, ev: EventModel) -> (OrchModel, ActionModel) {
    match ev {
        EventModel::Response { status, body } => {
            if is_success_status(status) {
                if pre.phase is Main && pre.stream {
                    (
                        OrchModel { phase: Phase::Streaming, ..pre },
                        ActionModel::StreamReady,
                    )
                } else {
                    match decoded_text(body) {
                        Some(text) => {
                            if pre.phase is Preprocess {
                                let m2 = OrchModel {
                                    contents: apply_reformulated(pre.contents, text),
                                    model: pre.model,
                                    markdown: pre.markdown,
                                    stream: pre.stream,
                                    phase: Phase::Main,
                                    attempt: 0,
                                };
                                (m2, ActionModel::SendRequest(body_for(m2)))
                            } else {
                                (
                                    OrchModel { phase: Phase::Finished, ..pre },
                                    ActionModel::Finish(text),
                                )
                            }
                        },
                        None => step_fail(pre, ErrorModel::ResponseParseFailed),
                    }
                }
            } else {
                step_fail(pre, ErrorModel::ApiErrorResponse(body))
            }
        },
        EventModel::Connected => {
            if pre.phase is Main && pre.stream {
                (OrchModel { phase: Phase::Streaming, ..pre }, ActionModel::StreamReady)
            } else {
                (
                    OrchModel { phase: Phase::Failed, ..pre },
                    ActionModel::Fail(
                        ErrorModel::RequestFailed("unexpected streaming handshake"@),
                    ),
                )
            }
        },
        EventModel::TransportFailed { message } => step_fail(
            pre,
            ErrorModel::RequestFailed(message),
        ),
    }
}

/// How an orchestrated call opens: without a credential it fails before any
/// request is sent; otherwise the first request (reformulation or main) goes
/// out.
pub open spec fn orch_start(
    contents: Seq<Seq<char>>,
    model: Seq<char>,
    markdown: bool,
    preprocess: bool,
    stream: bool,
    has_key: bool,
) -> (OrchModel, ActionModel) {
    let phase = if !has_key {
        Phase::Failed
    } else if preprocess {
        Phase::Preprocess
    } else {
        Phase::Main
    };
    let m = OrchModel { contents, model, markdown, stream, phase, attempt: 0 };
    if !has_key {
        (m, ActionModel::Fail(ErrorModel::MissingApiKey))
    } else {
        (m, ActionModel::SendRequest(body_for(m)))
    }
}

impl Orchestrator {
    /// A request is in flight and the next transport outcome is awaited.
    pub open spec fn in_flight(&self) -> bool {
        self.phase is Preprocess || self.phase is Main
    }

    fn current_body(&self) -> (r: String)
        ensures
            r@ == body_for(self@),
    {
        let preprocess = match self.phase {
            Phase::Preprocess => true,
            _ => false,
        };
        let slice = self.contents.as_slice();
        proof {
            assert(slice.deep_view() =~= self.contents.deep_view());
        }
        let messages = build_messages(slice, self.markdown, preprocess);
        let req = CompletionRequest {
            model: self.model.clone(),
            messages,
            stream: if preprocess {
                false
            } else {
                self.stream
            },
        };
        encode_request(&req)
    }

    /// Opens one orchestrated call. The credential itself stays with the
    /// caller; only its presence is decided here, before anything is sent.
    pub fn start(
        contents: Vec<String>,
        model: String,
        markdown: bool,
        preprocess: bool,
        stream: bool,
        api_key: Option<&str>,
    ) -> (r: (Orchestrator, Action))
        ensures
            r.0@ == orch_start(
                contents.deep_view(),
                model@,
                markdown,
                preprocess,
                stream,
                api_key is Some,
            ).0,
            r.1@ == orch_start(
                contents.deep_view(),
                model@,
                markdown,
                preprocess,
                stream,
                api_key is Some,
            ).1,
    {
        let has_key = api_key.is_some();
        let phase = if !has_key {
            Phase::Failed
        } else if preprocess {
            Phase::Preprocess
        } else {
            Phase::Main
        };
        let orch = Orchestrator { contents, model, markdown, stream, phase, attempt: 0 };
        if !has_key {
            (orch, Action::Fail { error: ApiError::MissingApiKey })
        } else {
            let body = orch.current_body();
            (orch, Action::SendRequest { body })
        }
    }

    fn fail_or_retry(&mut self, error: ApiError) -> (r: Action)
        requires
            old(self).in_flight(),
        ensures
            final(self)@ == step_fail(old(self)@, error@).0,
            r@ == step_fail(old(self)@, error@).1,
    {
        if self.attempt < MAX_ATTEMPTS - 1 {
            let delay_ms = backoff_delay(self.attempt);
            self.attempt = self.attempt + 1;
            Action::RetryAfter { delay_ms }
        } else {
            self.phase = Phase::Failed;
            Action::Fail { error }
        }
    }

    /// Consumes one transport outcome and decides what happens next: decode
    /// and deliver, move from the reformulation pass to the main request,
    /// hand over to the stream decoder, retry, or fail.
    pub fn on_event(&mut self, event: TransportEvent) -> (r: Action)
        requires
            old(self).in_flight(),
        ensures
            final(self)@ == orch_step(old(self)@, event@).0,
            r@ == orch_step(old(self)@, event@).1,
    {
        match event {
            TransportEvent::Response { status, body } => {
                if status_is_success(status) {
                    let streaming_main = match self.phase {
                        Phase::Main => self.stream,
                        _ => false,
                    };
                    if streaming_main {
                        self.phase = Phase::Streaming;
                        return Action::StreamReady;
                    }
                    match decode_response(body.as_str()) {
                        Ok(resp) => {
                            let text = extract_content(&resp);
                            let in_preprocess = match self.phase {
                                Phase::Preprocess => true,
                                _ => false,
                            };
                            if in_preprocess {
                                let ghost pre_contents = self.contents.deep_view();
                                if self.contents.len() > 0 {
                                    self.contents.pop();
                                    self.contents.push(text);
                                    proof {
                                        assert(self.contents.deep_view()
                                            =~= apply_reformulated(pre_contents, text@));
                                    }
                                } else {
                                    self.contents.push(text);
                                    proof {
                                        assert(self.contents.deep_view()
                                            =~= apply_reformulated(pre_contents, text@));
                                    }
                                }
                                self.phase = Phase::Main;
                                self.attempt = 0;
                                let body2 = self.current_body();
                                Action::SendRequest { body: body2 }
                            } else {
                                self.phase = Phase::Finished;
                                Action::Finish { text }
                            }
                        },
                        Err(e) => self.fail_or_retry(e),
                    }
                } else {
                    self.fail_or_retry(ApiError::ApiErrorResponse(body))
                }
            },
            TransportEvent::Connected => {
                let streaming_main = match self.phase {
                    Phase::Main => self.stream,
                    _ => false,
                };
                if streaming_main {
                    self.phase = Phase::Streaming;
                    Action::StreamReady
                } else {
                    self.phase = Phase::Failed;
                    Action::Fail {
                        error: ApiError::RequestFailed(
                            String::from_str("unexpected streaming handshake"),
                        ),
                    }
                }
            },
            TransportEvent::TransportFailed { message } => self.fail_or_retry(
                ApiError::RequestFailed(message),
            ),
        }
    }
}

/// Law: a call whose transport fails twice with a retryable status and then
/// succeeds delivers the decoded text, the backoff doubling between the
/// attempts. The transport is invoked exactly three times: the opening send
/// and one resend per retry action.
pub proof fn lemma_retry_then_success(
    contents: Seq<Seq<char>>,
    model: Seq<char>,
    markdown: bool,
    err_body: Seq<char>,
    ok_body: Seq<char>,
)
    requires
        decoded_text(ok_body) is Some,
    ensures
        ({
            let (m0, a0) = orch_start(contents, model, markdown, false, false, true);
            let (m1, a1) = orch_step(m0, EventModel::Response { status: 500, body: err_body });
            let (m2, a2) = orch_step(m1, EventModel::Response { status: 500, body: err_body });
            let (m3, a3) = orch_step(m2, EventModel::Response { status: 200, body: ok_body });
            &&& a0 == ActionModel::SendRequest(body_for(m0))
            &&& a1 == ActionModel::RetryAfter(100)
            &&& a2 == ActionModel::RetryAfter(200)
            &&& a3 == ActionModel::Finish(decoded_text(ok_body)->Some_0)
            &&& m3.phase is Finished
        }),
{
    reveal_with_fuel(backoff_ms, 3);
}

/// Law: a call whose transport always answers with a client error exhausts
/// exactly three attempts and then fails, surfacing the last attempt's error
/// — a signal distinguishable from any success.
pub proof fn lemma_retry_exhaustion(
    contents: Seq<Seq<char>>,
    model: Seq<char>,
    markdown: bool,
    err_body: Seq<char>,
)
    ensures
        ({
            let (m0, a0) = orch_start(contents, model, markdown, false, false, true);
            let (m1, a1) = orch_step(m0, EventModel::Response { status: 400, body: err_body });
            let (m2, a2) = orch_step(m1, EventModel::Response { status: 400, body: err_body });
            let (m3, a3) = orch_step(m2, EventModel::Response { status: 400, body: err_body });
            &&& a0 == ActionModel::SendRequest(body_for(m0))
            &&& a1 == ActionModel::RetryAfter(100)
            &&& a2 == ActionModel::RetryAfter(200)
            &&& a3 == ActionModel::Fail(ErrorModel::ApiErrorResponse(err_body))
            &&& m3.phase is Failed
        }),
{
    reveal_with_fuel(backoff_ms, 3);
}

/// Law: without a resolvable credential the call fails before any request is
/// sent: the opening action is already the failure, never a send.
pub proof fn lemma_missing_credential(
    contents: Seq<Seq<char>>,
    model: Seq<char>,
    markdown: bool,
    preprocess: bool,
    stream: bool,
)
    ensures
        ({
            let (m0, a0) = orch_start(contents, model, markdown, preprocess, stream, false);
            &&& a0 == ActionModel::Fail(ErrorModel::MissingApiKey)
            &&& !(a0 is SendRequest)
            &&& m0.phase is Failed
        }),
{
}

/// Law: once the reformulation pass has spent its attempts, its failure is
/// surfaced at once and the main request is never sent.
pub proof fn lemma_preprocess_failure_surfaces(pre: OrchModel, status: u16, body: Seq<char>)
    requires
        pre.phase is Preprocess,
        pre.attempt + 1 >= MAX_ATTEMPTS,
        !is_success_status(status),
    ensures
        ({
            let (m1, a1) = orch_step(pre, EventModel::Response { status, body });
            &&& a1 == ActionModel::Fail(ErrorModel::ApiErrorResponse(body))
            &&& m1.phase is Failed
        }),
{
}

} // verus!
