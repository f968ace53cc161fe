//! Values that travel between the tasks.

use vstd::prelude::*;
use vstd::utf8::encode_utf8;

verus! {

/// Number of bytes that an alert message can hold.
pub const ALERT_CAPACITY: usize = 64;

/// Text of an alert, at most `ALERT_CAPACITY` bytes of UTF-8, held in a
/// `heapless::String`.
#[verifier::external_body]
#[derive(Debug)]
pub struct AlertMessage {
    inner: heapless::String<64>,
}

/// The characters of an alert message.
pub uninterp spec fn alert_message_text(message: AlertMessage) -> Seq<char>;

/// `heapless::String::try_from`: the text as an alert message where its
/// UTF-8 encoding fits the capacity, and nothing otherwise.
#[verifier::external_body]
fn alert_message_try_from(text: &str) -> (made: Option<AlertMessage>)
    ensures
        made is Some <==> encode_utf8(text@).len() <= ALERT_CAPACITY,
        made is Some ==> alert_message_text(made->0) == text@,
{
    heapless::String::try_from(text).ok().map(|inner| AlertMessage { inner })
}

/// `heapless::String::as_str`: the text that the message holds.
#[verifier::external_body]
fn alert_message_as_str(message: &AlertMessage) -> (text: &str)
    ensures
        text@ == alert_message_text(*message),
{
    message.inner.as_str()
}

/// `Clone::clone` of `heapless::String`: a second message with the same text.
#[verifier::external_body]
fn alert_message_clone(message: &AlertMessage) -> (copy: AlertMessage)
    ensures
        alert_message_text(copy) == alert_message_text(*message),
{
    AlertMessage { inner: message.inner.clone() }
}

impl View for AlertMessage {
    type V = Seq<char>;

    closed spec fn view(&self) -> Seq<char> {
        alert_message_text(*self)
    }
}

impl AlertMessage {
    /// The text as an alert message, unless it is too long.
    pub fn new(text: &str) -> (made: Option<AlertMessage>)
        ensures
            made is Some <==> encode_utf8(text@).len() <= ALERT_CAPACITY,
            made is Some ==> made->0@ == text@,
    {
        alert_message_try_from(text)
    }

    /// The text of the message.
    pub fn as_str(&self) -> (text: &str)
        ensures
            text@ == self@,
    {
        alert_message_as_str(self)
    }
}

impl Clone for AlertMessage {
    fn clone(&self) -> (copy: Self)
        ensures
            copy@ == self@,
    {
        alert_message_clone(self)
    }
}

/// One snapshot of the sensors, in hundredths of each unit.
#[derive(Clone, Copy, Debug, PartialEq, Eq)]
pub struct SensorData {
    /// Hundredths of a degree Celsius.
    pub temperature: i32,
    /// Hundredths of a percent of relative humidity.
    pub humidity: u32,
    /// Hundredths of a hectopascal.
    pub pressure: u32,
    /// Hundredths of a percent, from 0 to 10000.
    pub soil_moisture: u16,
    /// Hundredths of a centimetre; `None` where the sonar gave no reading.
    pub water_level: Option<u32>,
}

impl Default for SensorData {
    fn default() -> (data: Self)
        ensures
            data == (SensorData {
                temperature: 0,
                humidity: 0,
                pressure: 0,
                soil_moisture: 0,
                water_level: None,
            }),
    {
        SensorData { temperature: 0, humidity: 0, pressure: 0, soil_moisture: 0, water_level: None }
    }
}

impl SensorData {
    /// Whether the snapshot holds what a snapshot can hold: a soil moisture of
    /// at most one hundred percent.
    pub open spec fn wf(&self) -> bool {
        self.soil_moisture <= 10_000
    }
}

/// A request that waits for the network.
#[derive(Debug)]
pub enum HttpRequest {
    /// Post a snapshot of the sensors.
    PostSensorData(SensorData),
    /// Post an alert.
    SendAlert { message: AlertMessage },
    /// Ask for watering instructions.
    PollTasks,
}

impl HttpRequest {
    /// Whether two requests ask for the same thing.
    pub open spec fn same_as(&self, other: &HttpRequest) -> bool {
        match (*self, *other) {
            (HttpRequest::PostSensorData(a), HttpRequest::PostSensorData(b)) => a == b,
            (HttpRequest::SendAlert { message: a }, HttpRequest::SendAlert { message: b }) => a@ == b@,
            (HttpRequest::PollTasks, HttpRequest::PollTasks) => true,
            _ => false,
        }
    }
}

impl Clone for HttpRequest {
    fn clone(&self) -> (copy: Self)
        ensures
            copy.same_as(self),
    {
        match self {
            HttpRequest::PostSensorData(data) => HttpRequest::PostSensorData(*data),
            HttpRequest::SendAlert { message } => HttpRequest::SendAlert { message: message.clone() },
            HttpRequest::PollTasks => HttpRequest::PollTasks,
        }
    }
}

/// A request to run the pump.
#[derive(Clone, Copy, Debug, PartialEq, Eq, Structural)]
pub struct PumpCommand {
    pub duration_secs: u16,
}

/// What the remote service answers to a poll.
#[derive(Clone, Copy, Debug, PartialEq, Eq, Structural)]
pub struct TasksResponse {
    /// Seconds to run the pump for; 0 asks for nothing.
    pub pump_duration: u16,
}

impl Default for TasksResponse {
    fn default() -> (response: Self)
        ensures
            response == (TasksResponse { pump_duration: 0 }),
    {
        TasksResponse { pump_duration: 0 }
    }
}

} // verus!
