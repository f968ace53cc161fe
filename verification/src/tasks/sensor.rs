//! Sensor acquisition: the soil-moisture mapping, the timing of one sonar
//! measurement, the filter over several of them, and the publication of a
//! snapshot. Every measured value is an integer count of hundredths of its
//! unit.

use vstd::prelude::*;
use crate::channels::enqueued;
use crate::channels::published;
use crate::channels::HttpChannel;
use crate::channels::SensorChannel;
use crate::channels::HTTP_QUEUE_CAPACITY;
use crate::types::HttpRequest;
use crate::types::SensorData;

verus! {

/// Raw reading of the soil probe in air: no moisture.
pub const SOIL_DRY: u16 = 3550;

/// Raw reading of the soil probe in water: full moisture.
pub const SOIL_WET: u16 = 150;

/// Hundredths of a percent in one hundred percent.
pub const FULL_SCALE: u16 = 10_000;

/// Length of the trigger pulse, in microseconds.
pub const TRIGGER_PULSE_US: u64 = 10;

/// Longest wait for either edge of the echo, in milliseconds.
pub const ECHO_TIMEOUT_MS: u64 = 30;

/// Microseconds of echo per centimetre of distance.
pub const ECHO_US_PER_CM: u64 = 58;

/// Pause between two pings, in milliseconds.
pub const PING_INTERVAL_MS: u64 = 60;

/// Number of pings that one water-level reading is averaged over.
pub const DISTANCE_SAMPLES: u8 = 8;

/// A plausible distance is greater than this, in hundredths of a centimetre.
pub const MIN_DISTANCE: u32 = 200;

/// A plausible distance is less than this, in hundredths of a centimetre.
pub const MAX_DISTANCE: u32 = 40_000;

/// The raw soil reading, moved to the nearer calibration point where it lies
/// outside the two.
pub open spec fn clamped_soil(raw: u16) -> int {
    if raw < SOIL_WET {
        SOIL_WET as int
    } else if raw > SOIL_DRY {
        SOIL_DRY as int
    } else {
        raw as int
    }
}

/// Soil moisture in hundredths of a percent: the clamped reading's place on
/// the line from the dry point (0) to the wet point (`FULL_SCALE`), rounded
/// down.
pub open spec fn soil_moisture_of(raw: u16) -> int {
    (SOIL_DRY - clamped_soil(raw)) * FULL_SCALE / (SOIL_DRY - SOIL_WET)
}

/// Maps a raw soil reading to moisture in hundredths of a percent.
pub fn soil_moisture(raw: u16) -> (moisture: u16)
    ensures
        moisture == soil_moisture_of(raw),
        moisture <= FULL_SCALE,
{
    let clamped: u16 = if raw < SOIL_WET {
        SOIL_WET
    } else if raw > SOIL_DRY {
        SOIL_DRY
    } else {
        raw
    };
    let span: u32 = (SOIL_DRY - SOIL_WET) as u32;
    let above: u32 = (SOIL_DRY - clamped) as u32;
    (above * (FULL_SCALE as u32) / span) as u16
}

/// The mapped soil moisture never leaves the range from 0 to `FULL_SCALE`; a
/// reading at or beyond the dry point maps to 0, one at or beyond the wet
/// point to `FULL_SCALE`.
pub proof fn lemma_soil_moisture_in_range(raw: u16)
    ensures
        0 <= soil_moisture_of(raw) <= FULL_SCALE,
        raw >= SOIL_DRY ==> soil_moisture_of(raw) == 0,
        raw <= SOIL_WET ==> soil_moisture_of(raw) == FULL_SCALE,
{
}

/// A wetter probe, which reads lower, never maps to less moisture.
pub proof fn lemma_soil_moisture_is_monotonic(wetter: u16, drier: u16)
    requires
        wetter <= drier,
    ensures
        soil_moisture_of(wetter) >= soil_moisture_of(drier),
{
}

/// Where one sonar measurement stands.
#[derive(Clone, Copy, Debug, PartialEq, Eq)]
pub enum SonarPhase {
    /// The trigger pulse is still to be sent.
    Ready,
    /// The pulse went out and the echo line is still low.
    AwaitingEcho,
    /// The echo line went high and is being timed.
    TimingEcho,
    /// The measurement ended: with a distance in hundredths of a centimetre,
    /// or with nothing where an edge did not come in time.
    Done { distance: Option<u32> },
}

/// Whether a wait of `elapsed_us` microseconds has gone past the limit for an
/// edge of the echo. Whole milliseconds count.
pub open spec fn echo_timed_out(elapsed_us: u64) -> bool {
    elapsed_us / 1000 > ECHO_TIMEOUT_MS
}

/// The distance that an echo of `duration_us` microseconds stands for, in
/// hundredths of a centimetre, rounded down; `u32::MAX` where it is more
/// than that.
pub open spec fn echo_distance(duration_us: u64) -> u32 {
    let distance = duration_us * 100 / (ECHO_US_PER_CM as int);
    if distance > u32::MAX {
        u32::MAX
    } else {
        distance as u32
    }
}

/// The phase that follows `phase` when the echo line reads `echo_high` and
/// `elapsed_us` microseconds have passed since `phase` was entered.
pub open spec fn sonar_step(phase: SonarPhase, echo_high: bool, elapsed_us: u64) -> SonarPhase {
    match phase {
        SonarPhase::Ready => SonarPhase::AwaitingEcho,
        SonarPhase::AwaitingEcho => if echo_high {
            SonarPhase::TimingEcho
        } else if echo_timed_out(elapsed_us) {
            SonarPhase::Done { distance: None }
        } else {
            SonarPhase::AwaitingEcho
        },
        SonarPhase::TimingEcho => if !echo_high {
            SonarPhase::Done { distance: Some(echo_distance(elapsed_us)) }
        } else if echo_timed_out(elapsed_us) {
            SonarPhase::Done { distance: None }
        } else {
            SonarPhase::TimingEcho
        },
        SonarPhase::Done { distance } => SonarPhase::Done { distance },
    }
}

/// Converts the length of an echo to a distance.
pub fn distance_from_echo(duration_us: u64) -> (distance: u32)
    ensures
        distance == echo_distance(duration_us),
{
    if duration_us > 0xFFFF_FFFF {
        u32::MAX
    } else {
        let scaled: u64 = duration_us * 100 / ECHO_US_PER_CM;
        if scaled > 0xFFFF_FFFF {
            u32::MAX
        } else {
            scaled as u32
        }
    }
}

/// One step of a sonar measurement. The caller sends the trigger pulse on
/// leaving `Ready`, restarts its clock whenever the phase changes, and
/// samples the echo line and the clock before each further step.
pub fn measure_distance(phase: SonarPhase, echo_high: bool, elapsed_us: u64) -> (next: SonarPhase)
    ensures
        next == sonar_step(phase, echo_high, elapsed_us),
{
    match phase {
        SonarPhase::Ready => SonarPhase::AwaitingEcho,
        SonarPhase::AwaitingEcho => if echo_high {
            SonarPhase::TimingEcho
        } else if elapsed_us / 1000 > ECHO_TIMEOUT_MS {
            SonarPhase::Done { distance: None }
        } else {
            SonarPhase::AwaitingEcho
        },
        SonarPhase::TimingEcho => if !echo_high {
            SonarPhase::Done { distance: Some(distance_from_echo(elapsed_us)) }
        } else if elapsed_us / 1000 > ECHO_TIMEOUT_MS {
            SonarPhase::Done { distance: None }
        } else {
            SonarPhase::TimingEcho
        },
        SonarPhase::Done { distance } => SonarPhase::Done { distance },
    }
}

/// A measurement cannot stall: once the limit has passed, no step stays in
/// the phase it was taken from, whatever the echo line reads; and a wait that
/// ran out of time ends without a distance.
pub proof fn lemma_measurement_cannot_stall(phase: SonarPhase, echo_high: bool, elapsed_us: u64)
    requires
        !(phase is Done),
        echo_timed_out(elapsed_us),
    ensures
        sonar_step(phase, echo_high, elapsed_us) != phase,
        phase is AwaitingEcho && !echo_high ==> sonar_step(phase, echo_high, elapsed_us)
            == (SonarPhase::Done { distance: None }),
        phase is TimingEcho && echo_high ==> sonar_step(phase, echo_high, elapsed_us)
            == (SonarPhase::Done { distance: None }),
{
}

/// Whether a distance lies in the range that the transducer can measure.
pub open spec fn plausible(distance: u32) -> bool {
    MIN_DISTANCE < distance < MAX_DISTANCE
}

/// Whether a sample counts: it is a distance, and a plausible one.
pub open spec fn valid_sample(sample: Option<u32>) -> bool {
    sample matches Some(distance) && plausible(distance)
}

/// How many of the samples count.
pub open spec fn valid_count(samples: Seq<Option<u32>>) -> nat
    decreases samples.len(),
{
    if samples.len() == 0 {
        0
    } else {
        valid_count(samples.drop_last()) + if valid_sample(samples.last()) { 1nat } else { 0nat }
    }
}

/// The sum of the samples that count.
pub open spec fn valid_total(samples: Seq<Option<u32>>) -> nat
    decreases samples.len(),
{
    if samples.len() == 0 {
        0
    } else {
        valid_total(samples.drop_last()) + if valid_sample(samples.last()) {
            samples.last()->0 as nat
        } else {
            0nat
        }
    }
}

/// The arithmetic mean of the samples that count, rounded down, or nothing
/// where none counts.
pub open spec fn filtered_mean(samples: Seq<Option<u32>>) -> Option<u32> {
    if valid_count(samples) == 0 {
        None
    } else {
        Some((valid_total(samples) / valid_count(samples)) as u32)
    }
}

/// The sum of the samples that count is at least the count times the least
/// plausible distance and at most the count times the greatest.
pub proof fn lemma_valid_total_bounds(samples: Seq<Option<u32>>)
    ensures
        valid_count(samples) <= samples.len(),
        valid_count(samples) * (MIN_DISTANCE + 1) <= valid_total(samples) <= valid_count(samples) * (
        MAX_DISTANCE - 1),
    decreases samples.len(),
{
    if samples.len() > 0 {
        lemma_valid_total_bounds(samples.drop_last());
        let before = valid_count(samples.drop_last());
        assert((before + 1) * (MIN_DISTANCE + 1) == before * (MIN_DISTANCE + 1) + MIN_DISTANCE + 1)
            by (nonlinear_arith);
        assert((before + 1) * (MAX_DISTANCE - 1) == before * (MAX_DISTANCE - 1) + MAX_DISTANCE - 1)
            by (nonlinear_arith);
    }
}

/// Averages the samples of one water-level reading. A sample that timed out
/// (`None`) or that lies outside the plausible range is left out.
pub fn measure_distance_avg(samples: &[Option<u32>]) -> (mean: Option<u32>)
    ensures
        mean == filtered_mean(samples@),
{
    let mut total: u128 = 0;
    let mut valid: usize = 0;
    let mut i: usize = 0;
    while i < samples.len()
        invariant
            i <= samples.len(),
            valid == valid_count(samples@.take(i as int)),
            total == valid_total(samples@.take(i as int)),
        decreases samples.len() - i,
    {
        proof {
            assert(samples@.take(i + 1).drop_last() == samples@.take(i as int));
            lemma_valid_total_bounds(samples@.take(i as int));
            assert(valid * (MAX_DISTANCE - 1) <= usize::MAX * (MAX_DISTANCE - 1)) by (nonlinear_arith)
                requires
                    valid <= usize::MAX,
            ;
        }
        if let Some(distance) = samples[i] {
            if distance > MIN_DISTANCE && distance < MAX_DISTANCE {
                total = total + distance as u128;
                valid = valid + 1;
            }
        }
        i = i + 1;
    }
    proof {
        assert(samples@.take(i as int) == samples@);
        lemma_valid_total_bounds(samples@);
    }
    if valid > 0 {
        let mean: u128 = total / (valid as u128);
        proof {
            lemma_mean_within_bounds(total as int, valid as int);
        }
        Some(mean as u32)
    } else {
        None
    }
}

/// The rounded-down mean of plausible distances is a plausible distance.
proof fn lemma_mean_within_bounds(total: int, count: int)
    requires
        count > 0,
        count * (MIN_DISTANCE + 1) <= total <= count * (MAX_DISTANCE - 1),
    ensures
        MIN_DISTANCE < total / count < MAX_DISTANCE,
{
    assert(MIN_DISTANCE < total / count < MAX_DISTANCE) by (nonlinear_arith)
        requires
            count > 0,
            count * (MIN_DISTANCE + 1) <= total <= count * (MAX_DISTANCE - 1),
    ;
}

/// The filter gives nothing exactly where no sample counts, so a missing
/// reading is never taken for a distance; and a mean that it does give is a
/// plausible distance.
pub proof fn lemma_filter_gives_none_iff_no_sample_counts(samples: Seq<Option<u32>>)
    ensures
        filtered_mean(samples) is None <==> forall|i: int|
            0 <= i < samples.len() ==> !valid_sample(#[trigger] samples[i]),
        filtered_mean(samples) matches Some(mean) ==> plausible(mean),
    decreases samples.len(),
{
    lemma_valid_total_bounds(samples);
    if valid_count(samples) > 0 {
        lemma_mean_within_bounds(valid_total(samples) as int, valid_count(samples) as int);
    }
    if samples.len() > 0 {
        let init = samples.drop_last();
        lemma_filter_gives_none_iff_no_sample_counts(init);
        lemma_valid_total_bounds(init);
        if valid_count(samples) == 0 {
            assert forall|i: int| 0 <= i < samples.len() implies !valid_sample(#[trigger] samples[i]) by {
                if i < init.len() {
                    assert(init[i] == samples[i]);
                }
            }
        } else if valid_count(init) > 0 {
            let j = choose|j: int| 0 <= j < init.len() && valid_sample(#[trigger] init[j]);
            assert(valid_sample(samples[j]));
        } else {
            assert(valid_sample(samples[samples.len() - 1]));
        }
    }
}

/// The snapshot that one acquisition cycle gives: none where any of the
/// three climate values is missing. The pressure comes in pascals, which are
/// hundredths of a hectopascal.
pub open spec fn snapshot_of(
    temperature: Option<i32>,
    humidity: Option<u32>,
    pressure_pa: Option<u32>,
    soil_raw: u16,
    echoes: Seq<Option<u32>>,
) -> Option<SensorData> {
    if temperature is Some && humidity is Some && pressure_pa is Some {
        Some(
            SensorData {
                temperature: temperature->0,
                humidity: humidity->0,
                pressure: pressure_pa->0,
                soil_moisture: soil_moisture_of(soil_raw) as u16,
                water_level: filtered_mean(echoes),
            },
        )
    } else {
        None
    }
}

/// The deciding half of one acquisition cycle. The caller has read the
/// climate sensor (a value is `None` where its read failed), the soil probe
/// and the sonar samples. Where all three climate values are there, the
/// snapshot is published to the display's mailbox and offered to the outbound
/// queue, which drops it when full. Where one is missing nothing is
/// published.
pub fn sensor_task(
    temperature: Option<i32>,
    humidity: Option<u32>,
    pressure_pa: Option<u32>,
    soil_raw: u16,
    echoes: &[Option<u32>],
    display: &mut SensorChannel,
    outbound: &mut HttpChannel,
) -> (snapshot: Option<SensorData>)
    ensures
        snapshot == snapshot_of(temperature, humidity, pressure_pa, soil_raw, echoes@),
        snapshot matches Some(data) ==> {
            &&& data.wf()
            &&& data.water_level matches Some(level) ==> plausible(level)
            &&& final(display)@ == published(old(display)@, data)
            &&& final(outbound)@ == enqueued(
                old(outbound)@,
                HttpRequest::PostSensorData(data),
                HTTP_QUEUE_CAPACITY as nat,
            )
        },
        snapshot is None ==> final(display)@ == old(display)@ && final(outbound)@ == old(outbound)@,
{
    let soil = soil_moisture(soil_raw);
    let water_level = measure_distance_avg(echoes);
    proof {
        lemma_filter_gives_none_iff_no_sample_counts(echoes@);
    }
    match (temperature, humidity, pressure_pa) {
        (Some(t), Some(h), Some(p)) => {
            let data = SensorData {
                temperature: t,
                humidity: h,
                pressure: p,
                soil_moisture: soil,
                water_level,
            };
            display.publish(data);
            let _ = outbound.try_send(HttpRequest::PostSensorData(data));
            Some(data)
        },
        _ => None,
    }
}

} // verus!
