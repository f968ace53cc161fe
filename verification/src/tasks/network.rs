//! Network delivery and the poll scheduler: which exchange a queued request
//! turns into, what a poll's answer asks of the pump, and when polls are
//! queued.

use vstd::prelude::*;
use vstd::utf8::encode_utf8;
use crate::channels::enqueued;
use crate::channels::published;
use crate::channels::HttpChannel;
use crate::channels::PumpChannel;
use crate::channels::HTTP_QUEUE_CAPACITY;
use crate::config::ALERT_ENDPOINT;
use crate::config::API_KEY;
use crate::config::POLL_INTERVAL_SECS;
use crate::config::POLL_STARTUP_DELAY_SECS;
use crate::config::SENSOR_ENDPOINT;
use crate::config::SERVER_URL;
use crate::config::TASKS_ENDPOINT;
use crate::tasks::pump::clamp_duration;
use crate::tasks::pump::pump_step;
use crate::tasks::pump::run_secs;
use crate::tasks::pump::PumpAction;
use crate::tasks::pump::PumpState;
use crate::types::AlertMessage;
use crate::types::HttpRequest;
use crate::types::PumpCommand;
use crate::types::SensorData;
use crate::types::TasksResponse;

verus! {

/// Number of bytes that an address can hold.
pub const URL_CAPACITY: usize = 128;

/// Number of bytes that the body of an alert can hold.
pub const ALERT_BODY_CAPACITY: usize = 128;

/// The address of one exchange, at most `URL_CAPACITY` bytes of UTF-8, held
/// in a `heapless::String`.
#[verifier::external_body]
#[derive(Debug)]
pub struct Url {
    inner: heapless::String<128>,
}

/// The characters of an address.
pub uninterp spec fn url_text(url: Url) -> Seq<char>;

/// The JSON string that stands for a text, as `serde_json_core` writes it:
/// the text between double quotes, with the characters escaped that JSON
/// does not take as they are.
pub uninterp spec fn json_string(text: Seq<char>) -> Seq<u8>;

/// What a bounded text holds once `more` has been appended to it: all of
/// `more` where the UTF-8 encoding of both fits the capacity, and otherwise
/// what it held before.
pub open spec fn appended(text: Seq<char>, more: Seq<char>, capacity: nat) -> Seq<char> {
    if encode_utf8(text).len() + encode_utf8(more).len() <= capacity {
        text + more
    } else {
        text
    }
}

/// The address made of a base and a path: each part is appended where it
/// still fits, and left out where it does not.
pub open spec fn url_of(base: Seq<char>, path: Seq<char>) -> Seq<char> {
    appended(appended(Seq::empty(), base, URL_CAPACITY as nat), path, URL_CAPACITY as nat)
}

/// `heapless::String::new`: an empty text.
#[verifier::external_body]
fn url_new() -> (url: Url)
    ensures
        url_text(url) == Seq::<char>::empty(),
{
    Url { inner: heapless::String::new() }
}

/// `heapless::String::push_str`: appends the part where it fits into what is
/// left of the capacity, and otherwise changes nothing and says so.
#[verifier::external_body]
fn url_push_str(url: &mut Url, part: &str) -> (pushed: bool)
    ensures
        pushed == (encode_utf8(url_text(*old(url))).len() + encode_utf8(part@).len() <= URL_CAPACITY),
        url_text(*final(url)) == appended(url_text(*old(url)), part@, URL_CAPACITY as nat),
{
    url.inner.push_str(part).is_ok()
}

/// `heapless::String::as_str`: the text that the address holds.
#[verifier::external_body]
fn url_as_str(url: &Url) -> (text: &str)
    ensures
        text@ == url_text(*url),
{
    url.inner.as_str()
}

/// `serde_json_core::to_slice` on a text, with a buffer of `capacity` bytes:
/// the JSON string of the text where it fits the buffer, and nothing where
/// the buffer is too small.
#[verifier::external_body]
fn json_string_bytes(text: &str, capacity: usize) -> (bytes: Option<Vec<u8>>)
    requires
        capacity <= u16::MAX,
    ensures
        bytes is Some <==> json_string(text@).len() <= capacity,
        bytes is Some ==> bytes->0@ == json_string(text@),
{
    let mut buffer = vec![0u8; capacity];
    match serde_json_core::to_slice(text, &mut buffer) {
        Ok(len) => {
            buffer.truncate(len);
            Some(buffer)
        },
        Err(_) => None,
    }
}

impl View for Url {
    type V = Seq<char>;

    closed spec fn view(&self) -> Seq<char> {
        url_text(*self)
    }
}

impl Url {
    /// The text of the address.
    pub fn as_str(&self) -> (text: &str)
        ensures
            text@ == self@,
    {
        url_as_str(self)
    }
}

/// Builds the address of an exchange from the base address and a path. A
/// part that does not fit into what is left of the capacity is left out.
pub fn request_url(base: &str, path: &str) -> (url: Url)
    ensures
        url@ == url_of(base@, path@),
{
    let mut url = url_new();
    let _ = url_push_str(&mut url, base);
    let _ = url_push_str(&mut url, path);
    url
}

/// How a request is made.
#[derive(Clone, Copy, Debug, PartialEq, Eq, Structural)]
pub enum Method {
    Get,
    Post,
}

/// What a request carries.
#[derive(Debug, PartialEq, Eq)]
pub enum Body {
    /// Nothing.
    Empty,
    /// A snapshot of the sensors, still to be encoded.
    Reading(SensorData),
    /// Encoded JSON.
    Json(Vec<u8>),
}

/// What a body is, with its bytes as a sequence.
pub enum BodyView {
    Empty,
    Reading(SensorData),
    Json(Seq<u8>),
}

impl View for Body {
    type V = BodyView;

    open spec fn view(&self) -> BodyView {
        match *self {
            Body::Empty => BodyView::Empty,
            Body::Reading(data) => BodyView::Reading(data),
            Body::Json(bytes) => BodyView::Json(bytes@),
        }
    }
}

/// One exchange with the remote service.
#[derive(Debug)]
pub struct Exchange {
    pub method: Method,
    pub url: Url,
    /// Value of the `API_KEY_HEADER` header.
    pub credential: &'static str,
    /// Whether the body is declared as JSON.
    pub json: bool,
    pub body: Body,
}

/// What an exchange is, with its texts and body as sequences.
pub struct ExchangeView {
    pub method: Method,
    pub url: Seq<char>,
    pub credential: Seq<char>,
    pub json: bool,
    pub body: BodyView,
}

impl View for Exchange {
    type V = ExchangeView;

    open spec fn view(&self) -> ExchangeView {
        ExchangeView {
            method: self.method,
            url: self.url@,
            credential: self.credential@,
            json: self.json,
            body: self.body@,
        }
    }
}

/// The exchange that posts an alert whose JSON encoding came out as
/// `encoded`: none where the encoding did not fit.
pub open spec fn alert_plan(encoded: Option<Seq<u8>>) -> Option<ExchangeView> {
    match encoded {
        Some(bytes) => Some(
            ExchangeView {
                method: Method::Post,
                url: url_of(SERVER_URL@, ALERT_ENDPOINT@),
                credential: API_KEY@,
                json: true,
                body: BodyView::Json(bytes),
            },
        ),
        None => None,
    }
}

/// The JSON encoding of an alert's text, where it fits the body of an alert.
pub open spec fn encoded_alert(text: Seq<char>) -> Option<Seq<u8>> {
    if json_string(text).len() <= ALERT_BODY_CAPACITY {
        Some(json_string(text))
    } else {
        None
    }
}

/// The exchange that a request turns into: none for an alert whose encoding
/// does not fit, which is dropped.
pub open spec fn planned(request: HttpRequest) -> Option<ExchangeView> {
    match request {
        HttpRequest::PostSensorData(data) => Some(
            ExchangeView {
                method: Method::Post,
                url: url_of(SERVER_URL@, SENSOR_ENDPOINT@),
                credential: API_KEY@,
                json: true,
                body: BodyView::Reading(data),
            },
        ),
        HttpRequest::SendAlert { message } => alert_plan(encoded_alert(message@)),
        HttpRequest::PollTasks => Some(
            ExchangeView {
                method: Method::Get,
                url: url_of(SERVER_URL@, TASKS_ENDPOINT@),
                credential: API_KEY@,
                json: false,
                body: BodyView::Empty,
            },
        ),
    }
}

/// Encodes the text of an alert as a JSON string, unless that takes more
/// than `ALERT_BODY_CAPACITY` bytes.
pub fn encode_alert(message: &AlertMessage) -> (encoded: Option<Vec<u8>>)
    ensures
        encoded is Some <==> encoded_alert(message@) is Some,
        encoded is Some ==> encoded->0@ == encoded_alert(message@)->0,
{
    json_string_bytes(message.as_str(), ALERT_BODY_CAPACITY)
}

/// The exchange that posts an encoded alert, or none where the encoding
/// failed.
pub fn alert_exchange(encoded: Option<Vec<u8>>) -> (plan: Option<Exchange>)
    ensures
        plan is Some <==> encoded is Some,
        plan matches Some(exchange) ==> Some(exchange@) == alert_plan(Some(encoded->0@)),
{
    match encoded {
        Some(bytes) => Some(
            Exchange {
                method: Method::Post,
                url: request_url(SERVER_URL, ALERT_ENDPOINT),
                credential: API_KEY,
                json: true,
                body: Body::Json(bytes),
            },
        ),
        None => None,
    }
}

/// Turns a request into the exchange that delivers it. An alert whose
/// encoding does not fit gives none, and is dropped.
pub fn plan_request(request: HttpRequest) -> (plan: Option<Exchange>)
    ensures
        plan is Some <==> planned(request) is Some,
        plan matches Some(exchange) ==> Some(exchange@) == planned(request),
{
    match request {
        HttpRequest::PostSensorData(data) => Some(
            Exchange {
                method: Method::Post,
                url: request_url(SERVER_URL, SENSOR_ENDPOINT),
                credential: API_KEY,
                json: true,
                body: Body::Reading(data),
            },
        ),
        HttpRequest::SendAlert { message } => alert_exchange(encode_alert(&message)),
        HttpRequest::PollTasks => Some(
            Exchange {
                method: Method::Get,
                url: request_url(SERVER_URL, TASKS_ENDPOINT),
                credential: API_KEY,
                json: false,
                body: Body::Empty,
            },
        ),
    }
}

/// The pump command that the answer to a poll asks for: none where the answer
/// could not be read or asks for a run of zero seconds; otherwise a run of
/// the seconds asked for, cut down to the ceiling.
pub open spec fn directive_of(response: Option<TasksResponse>) -> Option<PumpCommand> {
    match response {
        Some(answer) => if answer.pump_duration == 0 {
            None
        } else {
            Some(PumpCommand { duration_secs: run_secs(answer.pump_duration) })
        },
        None => None,
    }
}

/// Reads the pump command out of the answer to a poll. `None` stands for an
/// answer that could not be decoded.
pub fn pump_directive(response: Option<TasksResponse>) -> (directive: Option<PumpCommand>)
    ensures
        directive == directive_of(response),
{
    match response {
        Some(answer) => if answer.pump_duration == 0 {
            None
        } else {
            Some(PumpCommand { duration_secs: clamp_duration(answer.pump_duration) })
        },
        None => None,
    }
}

/// Where the delivery task stands.
#[derive(Clone, Copy, Debug, PartialEq, Eq, Structural)]
pub enum HttpState {
    /// No exchange is in flight.
    Idle,
    /// A reading or an alert is being posted.
    Posting,
    /// A poll for watering instructions is in flight.
    Polling,
}

/// What happened since the delivery task's last step.
#[derive(Clone, Copy, Debug, PartialEq, Eq, Structural)]
pub enum HttpEvent {
    /// Nothing was in flight; a request may have been queued.
    Wake,
    /// The exchange in flight failed, in its encoding or in transport.
    Failed,
    /// The exchange in flight was answered. `response` is what the answer to
    /// a poll decoded to; it is `None` where the body could not be decoded.
    Answered { response: Option<TasksResponse> },
}

/// What the delivery task asks to be done next.
#[derive(Debug)]
pub enum HttpAction {
    /// Nothing to do until a request is queued.
    AwaitRequest,
    /// Perform this exchange and report how it ended.
    Send(Exchange),
}

/// What an action is, with its exchange as sequences.
pub enum HttpActionView {
    AwaitRequest,
    Send(ExchangeView),
}

impl View for HttpAction {
    type V = HttpActionView;

    open spec fn view(&self) -> HttpActionView {
        match *self {
            HttpAction::AwaitRequest => HttpActionView::AwaitRequest,
            HttpAction::Send(exchange) => HttpActionView::Send(exchange@),
        }
    }
}

/// The pump command that the end of an exchange gives: only the answer to a
/// poll can give one.
pub open spec fn settled_directive(state: HttpState, event: HttpEvent) -> Option<PumpCommand> {
    match (state, event) {
        (HttpState::Polling, HttpEvent::Answered { response }) => directive_of(response),
        _ => None,
    }
}

/// The exchange of the oldest queued request that turns into one.
pub open spec fn first_planned(queue: Seq<HttpRequest>) -> Option<ExchangeView>
    decreases queue.len(),
{
    if queue.len() == 0 {
        None
    } else if planned(queue.first()) is Some {
        planned(queue.first())
    } else {
        first_planned(queue.drop_first())
    }
}

/// What is left of the queue behind the oldest request that turns into an
/// exchange: the requests before it are dropped with it.
pub open spec fn after_first_planned(queue: Seq<HttpRequest>) -> Seq<HttpRequest>
    decreases queue.len(),
{
    if queue.len() == 0 {
        queue
    } else if planned(queue.first()) is Some {
        queue.drop_first()
    } else {
        after_first_planned(queue.drop_first())
    }
}

/// The state and the action that go with the next exchange, if there is one.
pub open spec fn http_step(next: Option<ExchangeView>) -> (HttpState, HttpActionView) {
    match next {
        None => (HttpState::Idle, HttpActionView::AwaitRequest),
        Some(exchange) => (
            match exchange.method {
                Method::Get => HttpState::Polling,
                Method::Post => HttpState::Posting,
            },
            HttpActionView::Send(exchange),
        ),
    }
}

/// One step of the delivery task. It first settles the exchange that was in
/// flight: the answer to a poll that asks for a run is published to the
/// pump's mailbox, and every other ending is let go. Then it takes requests
/// from the queue until one turns into an exchange, which it hands out, or
/// until the queue is empty.
pub fn http_task(
    state: HttpState,
    event: HttpEvent,
    outbound: &mut HttpChannel,
    commands: &mut PumpChannel,
) -> (step: (HttpState, HttpAction))
    ensures
        (step.0, step.1@) == http_step(first_planned(old(outbound)@)),
        final(outbound)@ == after_first_planned(old(outbound)@),
        final(commands)@ == match settled_directive(state, event) {
            Some(command) => published(old(commands)@, command),
            None => old(commands)@,
        },
{
    let directive = match (state, event) {
        (HttpState::Polling, HttpEvent::Answered { response }) => pump_directive(response),
        _ => None,
    };
    if let Some(command) = directive {
        commands.publish(command);
    }
    loop
        invariant
            first_planned(outbound@) == first_planned(old(outbound)@),
            after_first_planned(outbound@) == after_first_planned(old(outbound)@),
            commands@ == match settled_directive(state, event) {
                Some(command) => published(old(commands)@, command),
                None => old(commands)@,
            },
        decreases outbound@.len(),
    {
        match outbound.try_receive() {
            None => {
                return (HttpState::Idle, HttpAction::AwaitRequest);
            },
            Some(request) => {
                if let Some(exchange) = plan_request(request) {
                    let next = match exchange.method {
                        Method::Get => HttpState::Polling,
                        Method::Post => HttpState::Posting,
                    };
                    return (next, HttpAction::Send(exchange));
                }
            },
        }
    }
}

/// An exchange that failed, and an answer that could not be decoded, leave
/// the pump's mailbox alone; so does every ending of an exchange that was no
/// poll. What the delivery task does next depends on the queue alone.
pub proof fn lemma_bad_answer_gives_no_directive(state: HttpState, event: HttpEvent)
    ensures
        event == HttpEvent::Failed ==> settled_directive(state, event) is None,
        event == (HttpEvent::Answered { response: None }) ==> settled_directive(state, event) is None,
        event == HttpEvent::Wake ==> settled_directive(state, event) is None,
        state != HttpState::Polling ==> settled_directive(state, event) is None,
{
}

/// A directive is given exactly for the answer to a poll that asks for a run
/// of more than zero seconds, and it never asks for more than the ceiling.
pub proof fn lemma_directive_follows_answer(state: HttpState, event: HttpEvent)
    ensures
        settled_directive(state, event) is Some <==> state == HttpState::Polling && (
        event matches HttpEvent::Answered { response: Some(answer) } && answer.pump_duration != 0),
        settled_directive(state, event) matches Some(command) ==> command.duration_secs
            <= crate::config::PUMP_MAX_DURATION_SECS && (
        event matches HttpEvent::Answered { response: Some(answer) } && command.duration_secs
            == run_secs(answer.pump_duration)),
{
}

/// A poll answered with a run of more than zero seconds makes an idle pump
/// run for the seconds asked for or the ceiling, whichever is less, whatever
/// the pump's mailbox held before.
pub proof fn lemma_poll_answer_reaches_pump(answer: TasksResponse, before: Seq<PumpCommand>)
    requires
        answer.pump_duration != 0,
    ensures
        settled_directive(
            HttpState::Polling,
            HttpEvent::Answered { response: Some(answer) },
        ) matches Some(command) && pump_step(PumpState::Idle, published(before, command)) == (
            PumpState::Running { secs: run_secs(answer.pump_duration) },
            PumpAction::SwitchOn { secs: run_secs(answer.pump_duration) },
        ),
{
}

/// Where the poll scheduler stands.
#[derive(Clone, Copy, Debug, PartialEq, Eq, Structural)]
pub enum PollState {
    /// The startup delay is still to pass.
    Starting,
    /// Polls are queued at the poll interval.
    Running,
}

/// What the step of the scheduler from `state` leaves in the queue: the
/// first step queues nothing, every later one offers a poll.
pub open spec fn poll_queue_after(state: PollState, queue: Seq<HttpRequest>) -> Seq<HttpRequest> {
    match state {
        PollState::Starting => queue,
        PollState::Running => enqueued(queue, HttpRequest::PollTasks, HTTP_QUEUE_CAPACITY as nat),
    }
}

/// The seconds to sleep after the step of the scheduler from `state`.
pub open spec fn poll_sleep_secs(state: PollState) -> u64 {
    match state {
        PollState::Starting => POLL_STARTUP_DELAY_SECS,
        PollState::Running => POLL_INTERVAL_SECS,
    }
}

/// One step of the poll scheduler: the state to go on from and the seconds
/// to sleep before the next step. The first step only asks for the startup
/// delay. Every later one offers a poll to the queue, which drops it when
/// full, and asks for the poll interval.
pub fn poll_task(state: PollState, outbound: &mut HttpChannel) -> (step: (PollState, u64))
    ensures
        step == (PollState::Running, poll_sleep_secs(state)),
        final(outbound)@ == poll_queue_after(state, old(outbound)@),
{
    match state {
        PollState::Starting => (PollState::Running, POLL_STARTUP_DELAY_SECS),
        PollState::Running => {
            let _ = outbound.try_send(HttpRequest::PollTasks);
            (PollState::Running, POLL_INTERVAL_SECS)
        },
    }
}

} // verus!
