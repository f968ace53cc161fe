use watering::channels::Channels;
use watering::channels::HttpChannel;
use watering::channels::PumpChannel;
use watering::channels::SensorChannel;
use watering::channels::HTTP_QUEUE_CAPACITY;
use watering::channels::MAILBOX_CAPACITY;
use watering::types::AlertMessage;
use watering::types::HttpRequest;
use watering::types::PumpCommand;
use watering::types::SensorData;

fn reading(temperature: i32) -> SensorData {
    SensorData {
        temperature,
        humidity: 4_500,
        pressure: 101_325,
        soil_moisture: 5_000,
        water_level: Some(1_200),
    }
}

fn posted_temperature(request: Option<HttpRequest>) -> Option<i32> {
    match request {
        Some(HttpRequest::PostSensorData(data)) => Some(data.temperature),
        _ => None,
    }
}

#[test]
fn capacities_are_one_and_four() {
    assert_eq!(MAILBOX_CAPACITY, 1);
    assert_eq!(HTTP_QUEUE_CAPACITY, 4);
}

#[test]
fn new_channels_are_empty() {
    let mut channels = Channels::new();
    assert_eq!(channels.sensor.try_receive(), None);
    assert!(channels.http.try_receive().is_none());
    assert_eq!(channels.pump.try_receive(), None);
}

#[test]
fn pump_mailbox_keeps_only_the_latest_command() {
    let mut mailbox = PumpChannel::new();
    for secs in 1..=7u16 {
        mailbox.publish(PumpCommand { duration_secs: secs });
    }
    assert_eq!(mailbox.try_receive(), Some(PumpCommand { duration_secs: 7 }));
    assert_eq!(mailbox.try_receive(), None);
}

#[test]
fn pump_mailbox_single_publish_is_received_once() {
    let mut mailbox = PumpChannel::new();
    mailbox.publish(PumpCommand { duration_secs: 12 });
    assert_eq!(mailbox.try_receive(), Some(PumpCommand { duration_secs: 12 }));
    assert_eq!(mailbox.try_receive(), None);
}

#[test]
fn pump_mailbox_publish_after_receive_is_seen() {
    let mut mailbox = PumpChannel::new();
    mailbox.publish(PumpCommand { duration_secs: 3 });
    assert_eq!(mailbox.try_receive(), Some(PumpCommand { duration_secs: 3 }));
    mailbox.publish(PumpCommand { duration_secs: 4 });
    mailbox.publish(PumpCommand { duration_secs: 5 });
    assert_eq!(mailbox.try_receive(), Some(PumpCommand { duration_secs: 5 }));
}

#[test]
fn sensor_mailbox_keeps_only_the_latest_snapshot() {
    let mut mailbox = SensorChannel::new();
    mailbox.publish(reading(2_000));
    mailbox.publish(reading(2_100));
    mailbox.publish(reading(2_200));
    assert_eq!(mailbox.try_receive(), Some(reading(2_200)));
    assert_eq!(mailbox.try_receive(), None);
}

#[test]
fn sensor_mailbox_empty_gives_nothing() {
    let mut mailbox = SensorChannel::new();
    assert_eq!(mailbox.try_receive(), None);
}

#[test]
fn queue_accepts_up_to_capacity_and_drops_the_excess() {
    let mut queue = HttpChannel::new();
    let mut accepted = Vec::new();
    for i in 0..6 {
        accepted.push(queue.try_send(HttpRequest::PostSensorData(reading(i))));
    }
    assert_eq!(accepted, vec![true, true, true, true, false, false]);
    for i in 0..4 {
        assert_eq!(posted_temperature(queue.try_receive()), Some(i));
    }
    assert!(queue.try_receive().is_none());
}

#[test]
fn queue_preserves_arrival_order_across_kinds() {
    let mut queue = HttpChannel::new();
    assert!(queue.try_send(HttpRequest::PollTasks));
    assert!(queue.try_send(HttpRequest::PostSensorData(reading(1))));
    assert!(queue.try_send(HttpRequest::SendAlert { message: AlertMessage::new("low water").unwrap() }));
    assert!(matches!(queue.try_receive(), Some(HttpRequest::PollTasks)));
    assert_eq!(posted_temperature(queue.try_receive()), Some(1));
    match queue.try_receive() {
        Some(HttpRequest::SendAlert { message }) => assert_eq!(message.as_str(), "low water"),
        other => panic!("unexpected request: {:?}", other),
    }
    assert!(queue.try_receive().is_none());
}

#[test]
fn queue_has_room_again_after_a_receive() {
    let mut queue = HttpChannel::new();
    for i in 0..4 {
        assert!(queue.try_send(HttpRequest::PostSensorData(reading(i))));
    }
    assert!(!queue.try_send(HttpRequest::PostSensorData(reading(4))));
    assert_eq!(posted_temperature(queue.try_receive()), Some(0));
    assert!(queue.try_send(HttpRequest::PostSensorData(reading(5))));
    assert!(!queue.try_send(HttpRequest::PostSensorData(reading(6))));
    for expected in [1, 2, 3, 5] {
        assert_eq!(posted_temperature(queue.try_receive()), Some(expected));
    }
    assert!(queue.try_receive().is_none());
}

#[test]
fn queue_empty_gives_nothing() {
    let mut queue = HttpChannel::new();
    assert!(queue.try_receive().is_none());
}
