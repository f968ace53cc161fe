//! Constants that the controller is configured with.

use vstd::prelude::*;

verus! {

/// Pause between two acquisition cycles, in milliseconds.
pub const SENSOR_INTERVAL_MS: u64 = 60_000;

/// Pause between two polls for watering instructions, in seconds.
pub const POLL_INTERVAL_SECS: u64 = 30;

/// Pause before the first poll, in seconds.
pub const POLL_STARTUP_DELAY_SECS: u64 = 5;

/// Base address of the remote service.
pub const SERVER_URL: &'static str = "";

/// Path that watering instructions are polled from.
pub const TASKS_ENDPOINT: &'static str = "";

/// Path that readings are posted to.
pub const SENSOR_ENDPOINT: &'static str = "";

/// Path that alerts are posted to.
pub const ALERT_ENDPOINT: &'static str = "/alert";

/// Name of the header that carries the credential.
pub const API_KEY_HEADER: &'static str = "X-Api-Key";

/// Credential sent with every request.
pub const API_KEY: &'static str = "";

/// Hard ceiling on one pump run, in seconds.
pub const PUMP_MAX_DURATION_SECS: u16 = 30;

} // verus!
