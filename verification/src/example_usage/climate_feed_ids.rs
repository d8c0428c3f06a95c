//! Names of the climate feeds that an oracle may serve.

use vstd::prelude::*;

verus! {

pub const TEMPERATURE_CELSIUS: &'static str = "temperature_celsius";

pub const TEMP_DAILY_AVG: &'static str = "temp_daily_avg";

pub const TEMP_DAILY_MAX: &'static str = "temp_daily_max";

pub const TEMP_DAILY_MIN: &'static str = "temp_daily_min";

pub const RAINFALL_MM: &'static str = "rainfall_mm";

pub const PRECIPITATION_DAILY: &'static str = "precipitation_daily";

pub const PRECIPITATION_MONTHLY: &'static str = "precipitation_monthly";

pub const WIND_SPEED_MS: &'static str = "wind_speed_ms";

pub const WIND_GUST_MS: &'static str = "wind_gust_ms";

pub const WIND_DIRECTION_DEGREES: &'static str = "wind_direction_degrees";

pub const HUMIDITY_PERCENT: &'static str = "humidity_percent";

pub const RELATIVE_HUMIDITY: &'static str = "relative_humidity";

pub const ATMOSPHERIC_PRESSURE: &'static str = "atmospheric_pressure_hpa";

pub const BAROMETRIC_PRESSURE: &'static str = "barometric_pressure_mb";

} // verus!
