//! The channels between the tasks: two latest-value mailboxes and one
//! bounded queue, each an `embassy_sync` channel behind a sequence model.

use vstd::prelude::*;
use embassy_sync::blocking_mutex::raw::NoopRawMutex;
use embassy_sync::channel::Channel;
use crate::types::HttpRequest;
use crate::types::PumpCommand;
use crate::types::SensorData;

verus! {

/// Number of values that a latest-value mailbox holds.
pub const MAILBOX_CAPACITY: usize = 1;

/// Number of requests that the outbound queue holds.
pub const HTTP_QUEUE_CAPACITY: usize = 4;

/// What a mailbox holds once `value` has been published into it: that value
/// alone, whatever was there before.
pub open spec fn published<T>(before: Seq<T>, value: T) -> Seq<T> {
    seq![value]
}

/// What a mailbox holds once `values` have been published one after another.
pub open spec fn published_all<T>(before: Seq<T>, values: Seq<T>) -> Seq<T>
    decreases values.len(),
{
    if values.len() == 0 {
        before
    } else {
        published(published_all(before, values.drop_last()), values.last())
    }
}

/// What a bounded queue holds once `value` has been offered to it: the value
/// goes to the back where there is room, and is dropped otherwise.
pub open spec fn enqueued<T>(before: Seq<T>, value: T, capacity: nat) -> Seq<T> {
    if before.len() < capacity {
        before.push(value)
    } else {
        before
    }
}

/// What a bounded queue holds once `values` have been offered one after
/// another.
pub open spec fn enqueued_all<T>(before: Seq<T>, values: Seq<T>, capacity: nat) -> Seq<T>
    decreases values.len(),
{
    if values.len() == 0 {
        before
    } else {
        enqueued(enqueued_all(before, values.drop_last(), capacity), values.last(), capacity)
    }
}

/// However many values are published into a mailbox, and whatever it held
/// before, it then holds the last of them and nothing else.
pub proof fn lemma_mailbox_keeps_only_latest<T>(before: Seq<T>, values: Seq<T>)
    requires
        values.len() > 0,
    ensures
        published_all(before, values) == seq![values.last()],
{
}

/// Offering values to a queue that has room for some more keeps as many of
/// them as fit, in the order they came in, behind what the queue held; the
/// rest is dropped.
pub proof fn lemma_queue_keeps_first_offers<T>(before: Seq<T>, values: Seq<T>, capacity: nat)
    requires
        before.len() <= capacity,
    ensures
        enqueued_all(before, values, capacity).len() == if before.len() + values.len() <= capacity {
            before.len() + values.len()
        } else {
            capacity
        },
        enqueued_all(before, values, capacity) == before + values.take(
            enqueued_all(before, values, capacity).len() - before.len(),
        ),
    decreases values.len(),
{
    if values.len() > 0 {
        let init = values.drop_last();
        lemma_queue_keeps_first_offers(before, init, capacity);
        let mid = enqueued_all(before, init, capacity);
        let kept = mid.len() - before.len();
        assert(init.take(kept) == values.take(kept));
        if mid.len() < capacity {
            assert(init.take(kept) == init);
            assert(values.take(kept + 1) == init.push(values.last()));
            assert(mid.push(values.last()) == before + values.take(kept + 1));
        }
    } else {
        assert(before + values.take(0) == before);
    }
}

/// Offering at least as many values as an empty queue has room for keeps the
/// first `capacity` of them, in order, and drops the excess.
pub proof fn lemma_full_queue_drops_excess<T>(values: Seq<T>, capacity: nat)
    requires
        values.len() >= capacity,
    ensures
        enqueued_all(Seq::<T>::empty(), values, capacity) == values.take(capacity as int),
{
    lemma_queue_keeps_first_offers(Seq::<T>::empty(), values, capacity);
    assert(Seq::<T>::empty() + values.take(capacity as int) == values.take(capacity as int));
}

/// The mailbox that holds the latest sensor snapshot for the display: an
/// `embassy_sync` `Channel` with room for one value.
#[verifier::external_body]
pub struct SensorChannel {
    inner: Channel<NoopRawMutex, SensorData, 1>,
}

/// The snapshots that wait in the mailbox, oldest first.
pub uninterp spec fn sensor_channel_items(ch: SensorChannel) -> Seq<SensorData>;

/// `Channel::new`: a channel that holds nothing.
#[verifier::external_body]
fn sensor_channel_new() -> (ch: SensorChannel)
    ensures
        sensor_channel_items(ch) == Seq::<SensorData>::empty(),
{
    SensorChannel { inner: Channel::new() }
}

/// `Channel::clear`: drops whatever the channel holds.
#[verifier::external_body]
fn sensor_channel_clear(ch: &mut SensorChannel)
    ensures
        sensor_channel_items(*final(ch)) == Seq::<SensorData>::empty(),
{
    ch.inner.clear()
}

/// `Channel::try_send`: puts the value at the back where the channel holds
/// fewer values than its capacity, and otherwise leaves the channel as it was.
#[verifier::external_body]
fn sensor_channel_try_send(ch: &mut SensorChannel, value: SensorData) -> (sent: bool)
    ensures
        sent == (sensor_channel_items(*old(ch)).len() < MAILBOX_CAPACITY),
        sensor_channel_items(*final(ch)) == enqueued(sensor_channel_items(*old(ch)), value, MAILBOX_CAPACITY as nat),
{
    ch.inner.try_send(value).is_ok()
}

/// `Channel::try_receive`: removes and returns the oldest value, if there is
/// one. A channel never holds more values than its capacity.
#[verifier::external_body]
fn sensor_channel_try_receive(ch: &mut SensorChannel) -> (got: Option<SensorData>)
    ensures
        sensor_channel_items(*old(ch)).len() <= MAILBOX_CAPACITY,
        got is None ==> sensor_channel_items(*old(ch)).len() == 0
            && sensor_channel_items(*final(ch)) == sensor_channel_items(*old(ch)),
        got is Some ==> sensor_channel_items(*old(ch)).len() > 0
            && got->0 == sensor_channel_items(*old(ch)).first()
            && sensor_channel_items(*final(ch)) == sensor_channel_items(*old(ch)).drop_first(),
{
    ch.inner.try_receive().ok()
}

impl View for SensorChannel {
    type V = Seq<SensorData>;

    closed spec fn view(&self) -> Seq<SensorData> {
        sensor_channel_items(*self)
    }
}

impl SensorChannel {
    /// An empty mailbox.
    pub fn new() -> (ch: Self)
        ensures
            ch@ == Seq::<SensorData>::empty(),
    {
        sensor_channel_new()
    }

    /// Publishes a value; one that was published before and not taken yet is
    /// replaced.
    pub fn publish(&mut self, value: SensorData)
        ensures
            final(self)@ == published(old(self)@, value),
    {
        sensor_channel_clear(self);
        let sent = sensor_channel_try_send(self, value);
        assert(sent);
    }

    /// Takes the value out of the mailbox, if one is there. The mailbox is
    /// empty afterwards.
    pub fn try_receive(&mut self) -> (got: Option<SensorData>)
        ensures
            old(self)@.len() <= MAILBOX_CAPACITY,
            got == if old(self)@.len() == 0 { None } else { Some(old(self)@.first()) },
            final(self)@ == Seq::<SensorData>::empty(),
    {
        sensor_channel_try_receive(self)
    }
}

/// The bounded queue of requests that wait for the network: an
/// `embassy_sync` `Channel` with room for `HTTP_QUEUE_CAPACITY` values.
#[verifier::external_body]
pub struct HttpChannel {
    inner: Channel<NoopRawMutex, HttpRequest, 4>,
}

/// The requests that wait in the queue, oldest first.
pub uninterp spec fn http_channel_items(ch: HttpChannel) -> Seq<HttpRequest>;

/// `Channel::new`: a channel that holds nothing.
#[verifier::external_body]
fn http_channel_new() -> (ch: HttpChannel)
    ensures
        http_channel_items(ch) == Seq::<HttpRequest>::empty(),
{
    HttpChannel { inner: Channel::new() }
}

/// `Channel::try_send`: puts the request at the back where the channel holds
/// fewer requests than its capacity, and otherwise leaves the channel as it
/// was. A channel never holds more values than its capacity.
#[verifier::external_body]
fn http_channel_try_send(ch: &mut HttpChannel, request: HttpRequest) -> (sent: bool)
    ensures
        http_channel_items(*old(ch)).len() <= HTTP_QUEUE_CAPACITY,
        sent == (http_channel_items(*old(ch)).len() < HTTP_QUEUE_CAPACITY),
        http_channel_items(*final(ch)) == enqueued(
            http_channel_items(*old(ch)),
            request,
            HTTP_QUEUE_CAPACITY as nat,
        ),
{
    ch.inner.try_send(request).is_ok()
}

/// `Channel::try_receive`: removes and returns the oldest request, if there is
/// one. A channel never holds more values than its capacity.
#[verifier::external_body]
fn http_channel_try_receive(ch: &mut HttpChannel) -> (got: Option<HttpRequest>)
    ensures
        http_channel_items(*old(ch)).len() <= HTTP_QUEUE_CAPACITY,
        got is None ==> http_channel_items(*old(ch)).len() == 0
            && http_channel_items(*final(ch)) == http_channel_items(*old(ch)),
        got is Some ==> http_channel_items(*old(ch)).len() > 0
            && got->0 == http_channel_items(*old(ch)).first()
            && http_channel_items(*final(ch)) == http_channel_items(*old(ch)).drop_first(),
{
    ch.inner.try_receive().ok()
}

impl View for HttpChannel {
    type V = Seq<HttpRequest>;

    closed spec fn view(&self) -> Seq<HttpRequest> {
        http_channel_items(*self)
    }
}

impl HttpChannel {
    /// An empty queue.
    pub fn new() -> (ch: Self)
        ensures
            ch@ == Seq::<HttpRequest>::empty(),
    {
        http_channel_new()
    }

    /// Offers a request to the queue without waiting. It goes to the back
    /// where there is room; where the queue is full it is dropped and the
    /// queue stays as it was.
    pub fn try_send(&mut self, request: HttpRequest) -> (sent: bool)
        ensures
            old(self)@.len() <= HTTP_QUEUE_CAPACITY,
            final(self)@.len() <= HTTP_QUEUE_CAPACITY,
            sent == (old(self)@.len() < HTTP_QUEUE_CAPACITY),
            final(self)@ == enqueued(old(self)@, request, HTTP_QUEUE_CAPACITY as nat),
    {
        http_channel_try_send(self, request)
    }

    /// Takes the oldest request out of the queue, if there is one.
    pub fn try_receive(&mut self) -> (got: Option<HttpRequest>)
        ensures
            old(self)@.len() <= HTTP_QUEUE_CAPACITY,
            got == if old(self)@.len() == 0 { None } else { Some(old(self)@.first()) },
            final(self)@ == if old(self)@.len() == 0 { old(self)@ } else { old(self)@.drop_first() },
    {
        http_channel_try_receive(self)
    }
}

/// The mailbox that holds the latest pump command: an `embassy_sync`
/// `Channel` with room for one value.
#[verifier::external_body]
pub struct PumpChannel {
    inner: Channel<NoopRawMutex, PumpCommand, 1>,
}

/// The commands that wait in the mailbox, oldest first.
pub uninterp spec fn pump_channel_items(ch: PumpChannel) -> Seq<PumpCommand>;

/// `Channel::new`: a channel that holds nothing.
#[verifier::external_body]
fn pump_channel_new() -> (ch: PumpChannel)
    ensures
        pump_channel_items(ch) == Seq::<PumpCommand>::empty(),
{
    PumpChannel { inner: Channel::new() }
}

/// `Channel::clear`: drops whatever the channel holds.
#[verifier::external_body]
fn pump_channel_clear(ch: &mut PumpChannel)
    ensures
        pump_channel_items(*final(ch)) == Seq::<PumpCommand>::empty(),
{
    ch.inner.clear()
}

/// `Channel::try_send`: puts the value at the back where the channel holds
/// fewer values than its capacity, and otherwise leaves the channel as it was.
#[verifier::external_body]
fn pump_channel_try_send(ch: &mut PumpChannel, value: PumpCommand) -> (sent: bool)
    ensures
        sent == (pump_channel_items(*old(ch)).len() < MAILBOX_CAPACITY),
        pump_channel_items(*final(ch)) == enqueued(pump_channel_items(*old(ch)), value, MAILBOX_CAPACITY as nat),
{
    ch.inner.try_send(value).is_ok()
}

/// `Channel::try_receive`: removes and returns the oldest value, if there is
/// one. A channel never holds more values than its capacity.
#[verifier::external_body]
fn pump_channel_try_receive(ch: &mut PumpChannel) -> (got: Option<PumpCommand>)
    ensures
        pump_channel_items(*old(ch)).len() <= MAILBOX_CAPACITY,
        got is None ==> pump_channel_items(*old(ch)).len() == 0
            && pump_channel_items(*final(ch)) == pump_channel_items(*old(ch)),
        got is Some ==> pump_channel_items(*old(ch)).len() > 0
            && got->0 == pump_channel_items(*old(ch)).first()
            && pump_channel_items(*final(ch)) == pump_channel_items(*old(ch)).drop_first(),
{
    ch.inner.try_receive().ok()
}

impl View for PumpChannel {
    type V = Seq<PumpCommand>;

    closed spec fn view(&self) -> Seq<PumpCommand> {
        pump_channel_items(*self)
    }
}

impl PumpChannel {
    /// An empty mailbox.
    pub fn new() -> (ch: Self)
        ensures
            ch@ == Seq::<PumpCommand>::empty(),
    {
        pump_channel_new()
    }

    /// Publishes a value; one that was published before and not taken yet is
    /// replaced.
    pub fn publish(&mut self, value: PumpCommand)
        ensures
            final(self)@ == published(old(self)@, value),
    {
        pump_channel_clear(self);
        let sent = pump_channel_try_send(self, value);
        assert(sent);
    }

    /// Takes the value out of the mailbox, if one is there. The mailbox is
    /// empty afterwards.
    pub fn try_receive(&mut self) -> (got: Option<PumpCommand>)
        ensures
            old(self)@.len() <= MAILBOX_CAPACITY,
            got == if old(self)@.len() == 0 { None } else { Some(old(self)@.first()) },
            final(self)@ == Seq::<PumpCommand>::empty(),
    {
        pump_channel_try_receive(self)
    }
}

/// The channels of the controller, made once at startup and handed to the
/// tasks.
pub struct Channels {
    /// Latest sensor snapshot, for the display.
    pub sensor: SensorChannel,
    /// Requests that wait for the network.
    pub http: HttpChannel,
    /// Latest pump command.
    pub pump: PumpChannel,
}

impl Channels {
    /// Three empty channels.
    pub fn new() -> (channels: Self)
        ensures
            channels.sensor@ == Seq::<SensorData>::empty(),
            channels.http@ == Seq::<HttpRequest>::empty(),
            channels.pump@ == Seq::<PumpCommand>::empty(),
    {
        Channels { sensor: SensorChannel::new(), http: HttpChannel::new(), pump: PumpChannel::new() }
    }
}

} // verus!
