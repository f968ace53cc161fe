use watering::channels::HttpChannel;
use watering::channels::SensorChannel;
use watering::tasks::sensor::distance_from_echo;
use watering::tasks::sensor::measure_distance;
use watering::tasks::sensor::measure_distance_avg;
use watering::tasks::sensor::sensor_task;
use watering::tasks::sensor::soil_moisture;
use watering::tasks::sensor::SonarPhase;
use watering::tasks::sensor::DISTANCE_SAMPLES;
use watering::tasks::sensor::ECHO_TIMEOUT_MS;
use watering::tasks::sensor::ECHO_US_PER_CM;
use watering::tasks::sensor::FULL_SCALE;
use watering::tasks::sensor::MAX_DISTANCE;
use watering::tasks::sensor::MIN_DISTANCE;
use watering::tasks::sensor::PING_INTERVAL_MS;
use watering::tasks::sensor::SOIL_DRY;
use watering::tasks::sensor::SOIL_WET;
use watering::tasks::sensor::TRIGGER_PULSE_US;
use watering::types::HttpRequest;
use watering::types::SensorData;

#[test]
fn sensor_constants() {
    assert_eq!(SOIL_DRY, 3550);
    assert_eq!(SOIL_WET, 150);
    assert_eq!(FULL_SCALE, 10_000);
    assert_eq!(TRIGGER_PULSE_US, 10);
    assert_eq!(ECHO_TIMEOUT_MS, 30);
    assert_eq!(ECHO_US_PER_CM, 58);
    assert_eq!(PING_INTERVAL_MS, 60);
    assert_eq!(DISTANCE_SAMPLES, 8);
    assert_eq!(MIN_DISTANCE, 200);
    assert_eq!(MAX_DISTANCE, 40_000);
}

#[test]
fn soil_at_or_beyond_dry_is_zero() {
    assert_eq!(soil_moisture(3550), 0);
    assert_eq!(soil_moisture(3551), 0);
    assert_eq!(soil_moisture(4095), 0);
    assert_eq!(soil_moisture(u16::MAX), 0);
}

#[test]
fn soil_at_or_beyond_wet_is_full_scale() {
    assert_eq!(soil_moisture(150), 10_000);
    assert_eq!(soil_moisture(149), 10_000);
    assert_eq!(soil_moisture(0), 10_000);
}

#[test]
fn soil_between_the_points_is_interpolated() {
    assert_eq!(soil_moisture(1850), 5_000);
    assert_eq!(soil_moisture(2700), 2_500);
    assert_eq!(soil_moisture(1000), 7_500);
    assert_eq!(soil_moisture(3549), 2);
    assert_eq!(soil_moisture(151), 9_997);
}

#[test]
fn soil_is_in_range_for_every_raw_reading() {
    let mut last = 10_000;
    for raw in 0..=u16::MAX {
        let moisture = soil_moisture(raw);
        assert!(moisture <= 10_000);
        assert!(moisture <= last);
        last = moisture;
    }
}

#[test]
fn echo_length_converts_to_distance() {
    assert_eq!(distance_from_echo(0), 0);
    assert_eq!(distance_from_echo(58), 100);
    assert_eq!(distance_from_echo(580), 1_000);
    assert_eq!(distance_from_echo(116), 200);
    assert_eq!(distance_from_echo(117), 201);
    assert_eq!(distance_from_echo(23_199), 39_998);
    assert_eq!(distance_from_echo(23_200), 40_000);
}

#[test]
fn echo_distance_saturates() {
    assert_eq!(distance_from_echo(2_491_081_031), 4_294_967_294);
    assert_eq!(distance_from_echo(2_491_081_032), u32::MAX);
    assert_eq!(distance_from_echo(4_294_967_295), u32::MAX);
    assert_eq!(distance_from_echo(4_294_967_296), u32::MAX);
    assert_eq!(distance_from_echo(u64::MAX), u32::MAX);
}

#[test]
fn sonar_leaves_ready_whatever_it_is_given() {
    assert_eq!(measure_distance(SonarPhase::Ready, false, 0), SonarPhase::AwaitingEcho);
    assert_eq!(measure_distance(SonarPhase::Ready, true, 99_999), SonarPhase::AwaitingEcho);
}

#[test]
fn sonar_waits_for_the_echo_to_start() {
    assert_eq!(measure_distance(SonarPhase::AwaitingEcho, false, 0), SonarPhase::AwaitingEcho);
    assert_eq!(measure_distance(SonarPhase::AwaitingEcho, false, 30_999), SonarPhase::AwaitingEcho);
    assert_eq!(measure_distance(SonarPhase::AwaitingEcho, true, 12), SonarPhase::TimingEcho);
    assert_eq!(measure_distance(SonarPhase::AwaitingEcho, true, 40_000), SonarPhase::TimingEcho);
}

#[test]
fn sonar_gives_up_when_the_echo_does_not_start() {
    assert_eq!(
        measure_distance(SonarPhase::AwaitingEcho, false, 31_000),
        SonarPhase::Done { distance: None }
    );
    assert_eq!(
        measure_distance(SonarPhase::AwaitingEcho, false, u64::MAX),
        SonarPhase::Done { distance: None }
    );
}

#[test]
fn sonar_times_the_echo() {
    assert_eq!(measure_distance(SonarPhase::TimingEcho, true, 5_000), SonarPhase::TimingEcho);
    assert_eq!(measure_distance(SonarPhase::TimingEcho, true, 30_999), SonarPhase::TimingEcho);
    assert_eq!(
        measure_distance(SonarPhase::TimingEcho, false, 580),
        SonarPhase::Done { distance: Some(1_000) }
    );
    assert_eq!(
        measure_distance(SonarPhase::TimingEcho, false, 35_000),
        SonarPhase::Done { distance: Some(60_344) }
    );
}

#[test]
fn sonar_gives_up_when_the_echo_does_not_end() {
    assert_eq!(
        measure_distance(SonarPhase::TimingEcho, true, 31_000),
        SonarPhase::Done { distance: None }
    );
}

#[test]
fn sonar_stays_done() {
    let done = SonarPhase::Done { distance: Some(777) };
    assert_eq!(measure_distance(done, true, 1), done);
    let failed = SonarPhase::Done { distance: None };
    assert_eq!(measure_distance(failed, false, 50_000), failed);
}

#[test]
fn sonar_runs_a_whole_measurement() {
    let mut phase = SonarPhase::Ready;
    phase = measure_distance(phase, false, 0);
    phase = measure_distance(phase, false, 200);
    phase = measure_distance(phase, true, 450);
    phase = measure_distance(phase, true, 100);
    phase = measure_distance(phase, false, 1_160);
    assert_eq!(phase, SonarPhase::Done { distance: Some(2_000) });
}

#[test]
fn filter_leaves_out_the_implausible_sample() {
    let samples = [Some(500), Some(500), Some(500), Some(100_000), Some(500)];
    assert_eq!(measure_distance_avg(&samples), Some(500));
}

#[test]
fn filter_gives_nothing_when_every_sample_timed_out() {
    let samples: [Option<u32>; 8] = [None; 8];
    assert_eq!(measure_distance_avg(&samples), None);
}

#[test]
fn filter_gives_nothing_when_every_sample_is_implausible() {
    let samples = [Some(0), Some(200), Some(40_000), Some(100_000), None, Some(u32::MAX)];
    assert_eq!(measure_distance_avg(&samples), None);
}

#[test]
fn filter_gives_nothing_for_no_samples() {
    let samples: [Option<u32>; 0] = [];
    assert_eq!(measure_distance_avg(&samples), None);
}

#[test]
fn filter_bounds_are_exclusive() {
    assert_eq!(measure_distance_avg(&[Some(201), Some(39_999)]), Some(20_100));
    assert_eq!(measure_distance_avg(&[Some(200), Some(201)]), Some(201));
    assert_eq!(measure_distance_avg(&[Some(39_999), Some(40_000)]), Some(39_999));
}

#[test]
fn filter_rounds_the_mean_down() {
    assert_eq!(measure_distance_avg(&[Some(300), Some(301)]), Some(300));
    assert_eq!(measure_distance_avg(&[Some(1_000), None, Some(2_000), Some(50), Some(3_001)]), Some(2_000));
}

#[test]
fn filter_takes_a_single_valid_sample() {
    assert_eq!(measure_distance_avg(&[None, Some(1_234), None]), Some(1_234));
}

#[test]
fn cycle_publishes_a_snapshot_to_both_channels() {
    let mut display = SensorChannel::new();
    let mut outbound = HttpChannel::new();
    let echoes = [Some(1_000); 8];
    let expected = SensorData {
        temperature: 2_150,
        humidity: 4_000,
        pressure: 101_325,
        soil_moisture: 5_000,
        water_level: Some(1_000),
    };
    let snapshot =
        sensor_task(Some(2_150), Some(4_000), Some(101_325), 1850, &echoes, &mut display, &mut outbound);
    assert_eq!(snapshot, Some(expected));
    assert_eq!(display.try_receive(), Some(expected));
    match outbound.try_receive() {
        Some(HttpRequest::PostSensorData(data)) => assert_eq!(data, expected),
        other => panic!("unexpected request: {:?}", other),
    }
    assert!(outbound.try_receive().is_none());
}

#[test]
fn cycle_without_a_water_level_still_publishes() {
    let mut display = SensorChannel::new();
    let mut outbound = HttpChannel::new();
    let echoes: [Option<u32>; 8] = [None; 8];
    let snapshot = sensor_task(Some(-550), Some(9_900), Some(98_000), 4000, &echoes, &mut display, &mut outbound);
    let expected = SensorData {
        temperature: -550,
        humidity: 9_900,
        pressure: 98_000,
        soil_moisture: 0,
        water_level: None,
    };
    assert_eq!(snapshot, Some(expected));
    assert_eq!(display.try_receive(), Some(expected));
}

#[test]
fn cycle_skips_publication_when_a_climate_value_is_missing() {
    let echoes = [Some(1_000); 8];
    let cases = [
        (None, Some(4_000), Some(101_325)),
        (Some(2_150), None, Some(101_325)),
        (Some(2_150), Some(4_000), None),
        (None, None, None),
    ];
    for (temperature, humidity, pressure) in cases {
        let mut display = SensorChannel::new();
        let mut outbound = HttpChannel::new();
        let snapshot = sensor_task(temperature, humidity, pressure, 1850, &echoes, &mut display, &mut outbound);
        assert_eq!(snapshot, None);
        assert_eq!(display.try_receive(), None);
        assert!(outbound.try_receive().is_none());
    }
}

#[test]
fn cycle_overwrites_the_display_and_drops_on_a_full_queue() {
    let mut display = SensorChannel::new();
    let mut outbound = HttpChannel::new();
    let echoes = [Some(1_000); 8];
    for step in 0..6 {
        let snapshot =
            sensor_task(Some(step), Some(4_000), Some(101_325), 1850, &echoes, &mut display, &mut outbound);
        assert_eq!(snapshot.map(|data| data.temperature), Some(step));
    }
    assert_eq!(display.try_receive().map(|data| data.temperature), Some(5));
    for expected in 0..4 {
        match outbound.try_receive() {
            Some(HttpRequest::PostSensorData(data)) => assert_eq!(data.temperature, expected),
            other => panic!("unexpected request: {:?}", other),
        }
    }
    assert!(outbound.try_receive().is_none());
}
