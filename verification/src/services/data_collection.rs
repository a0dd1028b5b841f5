//! The decisions of the sensor simulation that feeds the platform: the ice a
//! cold humid spell builds, the precipitation it brings, the state a tower is
//! reported in, and the precipitation of the hourly forecast. The simulated
//! baselines themselves follow daily cycles and are drawn by the caller.
//!
//! Values are in hundredths: temperature in degrees Celsius, humidity in
//! percent, ice in mm, wind in m/s.
use vstd::prelude::*;
use crate::models::ice_detection::{PrecipitationType, IceReading};
use crate::models::weather;
use crate::models::weather::{WeatherData, WeatherDataSource};
use crate::models::sensor::ReadingQuality;
use crate::models::vibration::VibrationReading;
use crate::models::wind_speed::WindSpeedReading;
use crate::models::tower::{Tower, TowerStatus, TowerStatusResponse, RiskLevel};
use crate::services::tower::{calculate_risk_level, tower_risk_for, tower_risk_score};
use crate::ids::{new_uuid, random_in_range};

verus! {

/// The ice a spell builds: below freezing above 80 % humidity, half the frost
/// plus a tenth of the humidity above 80 %, at most 15 mm; none otherwise.
pub open spec fn ice_base_for(temperature: int, humidity: int) -> int {
    if temperature < 0 && humidity > 8000 {
        let b = (-temperature) / 2 + (humidity - 8000) / 10;
        if b > 1500 { 1500 } else { b }
    } else {
        0
    }
}

/// The simulated ice thickness: the base of the spell plus a noise, never
/// below 0.
pub fn simulated_ice_thickness(temperature: i64, humidity: i64, noise: i64) -> (r: i64)
    requires
        -100000 <= noise <= 100000,
    ensures
        r as int == (if ice_base_for(temperature as int, humidity as int) + noise < 0 { 0 } else {
            ice_base_for(temperature as int, humidity as int) + noise
        }),
{
    let base: i64 = if temperature < 0 && humidity > 8000 {
        let frost: i128 = -(temperature as i128);
        let b: i128 = frost / 2 + (humidity as i128 - 8000) / 10;
        if b > 1500 { 1500 } else { b as i64 }
    } else {
        0
    };
    let t = base + noise;
    if t < 0 { 0 } else { t }
}

/// The precipitation of an ice reading: snow below freezing above 90 %
/// humidity, freezing rain wherever ice builds otherwise, none else.
pub fn ice_precipitation(temperature: i64, humidity: i64, ice_thickness: i64) -> (r: Option<PrecipitationType>)
    ensures
        r == if temperature < 0 && humidity > 9000 {
            Some(PrecipitationType::Snow)
        } else if ice_thickness > 0 {
            Some(PrecipitationType::FreezingRain)
        } else {
            None
        },
{
    if temperature < 0 && humidity > 9000 {
        Some(PrecipitationType::Snow)
    } else if ice_thickness > 0 {
        Some(PrecipitationType::FreezingRain)
    } else {
        None
    }
}

/// The state reported of a tower at `now` for its readings: the risk of the
/// readings, and a warning exactly when that risk is critical.
pub open spec fn simulated_status_matches(
    r: TowerStatusResponse, tower: Tower, vibration: int, wind_speed: int, ice_thickness: int, now: int,
) -> bool {
    &&& r.tower_id == tower.id
    &&& r.tower_name@ == tower.name@
    &&& r.risk_level == tower_risk_for(tower_risk_score(vibration, wind_speed, ice_thickness))
    &&& r.status == if r.risk_level == RiskLevel::Critical { TowerStatus::Warning } else { TowerStatus::Operational }
    &&& r.vibration_level == vibration
    &&& r.wind_speed == wind_speed
    &&& r.ice_thickness == ice_thickness
    &&& r.last_update == now
}

/// The state of a tower the simulation reports at `now`: the risk of its
/// readings, and a warning exactly when that risk is critical.
pub fn simulated_tower_status(tower: &Tower, vibration: i64, wind_speed: i64, ice_thickness: i64, now: i64)
    -> (r: TowerStatusResponse)
    ensures
        simulated_status_matches(r, *tower, vibration as int, wind_speed as int, ice_thickness as int, now as int),
{
    let risk_level = calculate_risk_level(vibration, wind_speed, ice_thickness);
    let critical = match risk_level {
        RiskLevel::Critical => true,
        _ => false,
    };
    TowerStatusResponse {
        tower_id: tower.id,
        tower_name: tower.name.clone(),
        status: if critical { TowerStatus::Warning } else { TowerStatus::Operational },
        vibration_level: vibration,
        wind_speed,
        ice_thickness,
        risk_level,
        last_update: now,
    }
}

/// The precipitation of an hour of the forecast: below freezing, snow with a
/// probability of 70 %; otherwise rain with 30 % (hundredths of a percent).
pub fn forecast_precipitation(temperature: i64) -> (r: (i64, weather::PrecipitationType))
    ensures
        r == if temperature < 0 {
            (7000i64, weather::PrecipitationType::Snow)
        } else {
            (3000i64, weather::PrecipitationType::Rain)
        },
{
    if temperature < 0 {
        (7000, weather::PrecipitationType::Snow)
    } else {
        (3000, weather::PrecipitationType::Rain)
    }
}

/// The precipitation type of a simulated weather record: snow below freezing,
/// none otherwise.
pub fn weather_precipitation(temperature: i64) -> (r: weather::PrecipitationType)
    ensures
        r == if temperature < 0 { weather::PrecipitationType::Snow } else { weather::PrecipitationType::NoPrecipitation },
{
    if temperature < 0 { weather::PrecipitationType::Snow } else { weather::PrecipitationType::NoPrecipitation }
}

/// A value never below 0.
pub open spec fn at_least_zero(x: int) -> int {
    if x < 0 { 0 } else { x }
}

/// The bound on the daily baselines handed to the simulation.
pub open spec fn baseline_in_range(x: int) -> bool {
    -1_000_000_000_000_000 <= x <= 1_000_000_000_000_000
}

/// A vibration reading simulated from its baseline velocity and the draws:
/// velocity noise `dv` in [-0.3, 0.3) mm/s, frequency 2.5 Hz with noise `df`
/// in [-0.2, 0.2), a direction in [0, 360) degrees and a temperature of 5 C
/// with noise in [-2, 2); amplitude a tenth, acceleration ten times and
/// displacement a twentieth of the velocity; a fixed sample spectrum.
pub open spec fn simulated_vibration(
    r: VibrationReading, tower_id: u128, sensor_id: u128, now: int, base: int,
    dv: int, df: int, direction: int, dt: int,
) -> bool {
    &&& -30 <= dv < 30
    &&& -20 <= df < 20
    &&& 0 <= direction < 36000
    &&& -200 <= dt < 200
    &&& r.sensor_id == sensor_id
    &&& r.tower_id == tower_id
    &&& r.timestamp == now
    &&& r.velocity_mm_s == at_least_zero(base + dv)
    &&& r.frequency_hz == 250 + df
    &&& r.amplitude_mm_s == r.velocity_mm_s / 10
    &&& r.acceleration_mm_s2 == r.velocity_mm_s * 10
    &&& r.displacement_mm == r.velocity_mm_s / 20
    &&& r.direction == Some(direction as i64)
    &&& r.temperature == Some((500 + dt) as i64)
    &&& r.raw_spectrum matches Some(v) && v@ == seq![10i64, 50, 120, 80, 30]
}

/// A wind reading simulated from its baseline speed and the draws: noise `dw`
/// in [-2, 2) m/s, never below 0, a direction in [0, 360) degrees, gusts of
/// one and a half times the speed (rounded down to the hundredth of m/s; an
/// odd speed in hundredths has no gust exactly one and a half times it in
/// hundredths) and a temperature of 5 C with noise in [-2, 2).
pub open spec fn simulated_wind(
    r: WindSpeedReading, tower_id: u128, sensor_id: u128, now: int, base: int,
    dw: int, direction: int, dt: int,
) -> bool {
    &&& -200 <= dw < 200
    &&& 0 <= direction < 36000
    &&& -200 <= dt < 200
    &&& r.sensor_id == sensor_id
    &&& r.tower_id == tower_id
    &&& r.timestamp == now
    &&& r.wind_speed_ms == at_least_zero(base + dw)
    &&& r.wind_direction_deg == direction
    &&& r.gust_speed_ms == Some((r.wind_speed_ms * 3 / 2) as i64)
    &&& r.temperature == Some((500 + dt) as i64)
}

/// An ice reading simulated from the baseline temperature, the wind and the
/// draws: temperature noise `dt` in [-1, 1) C, humidity 85 % with noise `dh`
/// in [-10, 10), thickness noise `di` in [-1, 1) mm, and, only when there is
/// ice, a density of 900 kg/m3 with noise `dd` in [-50, 50).
pub open spec fn simulated_ice(
    r: IceReading, tower_id: u128, sensor_id: u128, now: int, base_temperature: int, wind: int,
    dt: int, dh: int, di: int, dd: int,
) -> bool {
    let temperature = base_temperature + dt;
    let humidity = 8500 + dh;
    let thickness = at_least_zero(ice_base_for(temperature, humidity) + di);
    &&& -100 <= dt < 100
    &&& -1000 <= dh < 1000
    &&& -100 <= di < 100
    &&& -5000 <= dd < 5000
    &&& r.sensor_id == sensor_id
    &&& r.tower_id == tower_id
    &&& r.timestamp == now
    &&& r.ambient_temp_c == temperature
    &&& r.humidity_percent == Some(humidity as i64)
    &&& r.ice_thickness_mm == thickness
    &&& r.ice_density_kg_m3 == (if thickness > 0 { Some((90000 + dd) as i64) } else { None })
    &&& r.wind_speed_ms == Some(wind as i64)
    &&& r.precipitation_type == (if temperature < 0 && humidity > 9000 {
            Some(PrecipitationType::Snow)
        } else if thickness > 0 {
            Some(PrecipitationType::FreezingRain)
        } else {
            None
        })
}

/// The weather record of the same moment: the ice reading's temperature and
/// humidity, the wind reading's speed, direction and gusts, a pressure of
/// 1013 hPa with noise `dp` in [-5, 5), precipitation in [0, 2) mm (`dr`)
/// when there is ice and none otherwise, snow below freezing, visibility of
/// 10 000 m less 50 m per mm of ice, cloud cover of 80 % with noise `dc` in
/// [-20, 20), sunshine of 200 W/m2 with noise `ds` in [-100, 100) between 6
/// and 18 o'clock and none otherwise, the dew point 2 C below the
/// temperature and the wind chill half the wind speed below it.
pub open spec fn simulated_weather(
    r: WeatherData, tower_id: u128, now: int, hour: int, ice: IceReading, wind: WindSpeedReading,
    dp: int, dr: int, dc: int, ds: int,
) -> bool {
    let temperature = ice.ambient_temp_c as int;
    let thickness = ice.ice_thickness_mm as int;
    &&& -500 <= dp < 500
    &&& 0 <= dr < 200
    &&& -2000 <= dc < 2000
    &&& -10000 <= ds < 10000
    &&& r.tower_id == tower_id
    &&& r.timestamp == now
    &&& r.temperature_c == temperature
    &&& Some(r.humidity_percent) == ice.humidity_percent
    &&& r.pressure_hpa == 101300 + dp
    &&& r.wind_speed_ms == wind.wind_speed_ms
    &&& r.wind_direction_deg == wind.wind_direction_deg
    &&& r.wind_gust_ms == wind.gust_speed_ms
    &&& r.precipitation_mm == Some((if thickness > 0 { dr } else { 0 }) as i64)
    &&& r.precipitation_type == (if temperature < 0 { weather::PrecipitationType::Snow } else { weather::PrecipitationType::NoPrecipitation })
    &&& r.visibility_m == Some((1_000_000 - thickness * 50) as i64)
    &&& r.cloud_cover_percent == Some((8000 + dc) as i64)
    &&& r.solar_radiation_w_m2 == Some((if 6 < hour < 18 { 20000 + ds } else { 0 }) as i64)
    &&& r.dew_point_c == Some((temperature - 200) as i64)
    &&& r.wind_chill_c == Some((temperature - wind.wind_speed_ms / 2) as i64)
    &&& r.source == WeatherDataSource::Sensor
    &&& r.quality == ReadingQuality::Good
}

/// Simulates one round of readings of a tower at `now` (hour of the day
/// `hour`), from the daily baselines of the vibration velocity, the wind
/// speed and the temperature: a vibration, a wind and an ice reading of the
/// sensor `sensor_id`, the weather record of the moment, and the state the
/// tower is reported in. The noise is drawn at random; every outcome is one
/// of the draws below.
pub fn simulate_sensor_readings(
    tower: &Tower, sensor_id: u128, now: i64, hour: u32,
    base_vibration: i64, base_wind: i64, base_temperature: i64,
) -> (r: (VibrationReading, WindSpeedReading, IceReading, WeatherData, TowerStatusResponse))
    requires
        baseline_in_range(base_vibration as int),
        baseline_in_range(base_wind as int),
        baseline_in_range(base_temperature as int),
    ensures
        exists|dv: int, df: int, direction: int, dt: int|
            #[trigger] simulated_vibration(r.0, tower.id, sensor_id, now as int, base_vibration as int, dv, df, direction, dt),
        exists|dw: int, direction: int, dt: int|
            #[trigger] simulated_wind(r.1, tower.id, sensor_id, now as int, base_wind as int, dw, direction, dt),
        exists|dt: int, dh: int, di: int, dd: int|
            #[trigger] simulated_ice(r.2, tower.id, sensor_id, now as int, base_temperature as int, r.1.wind_speed_ms as int, dt, dh, di, dd),
        exists|dp: int, dr: int, dc: int, ds: int|
            #[trigger] simulated_weather(r.3, tower.id, now as int, hour as int, r.2, r.1, dp, dr, dc, ds),
        simulated_status_matches(r.4, *tower, r.0.velocity_mm_s as int, r.1.wind_speed_ms as int, r.2.ice_thickness_mm as int, now as int),
{
    // Vibration.
    let dv = random_in_range(-30, 30);
    let v = base_vibration + dv;
    let velocity: i64 = if v < 0 { 0 } else { v };
    let df = random_in_range(-20, 20);
    let vib_direction = random_in_range(0, 36000);
    let vib_dt = random_in_range(-200, 200);
    let spectrum: Vec<i64> = vec![10, 50, 120, 80, 30];
    let vibration = VibrationReading {
        sensor_id,
        tower_id: tower.id,
        timestamp: now,
        frequency_hz: 250 + df,
        amplitude_mm_s: velocity / 10,
        velocity_mm_s: velocity,
        acceleration_mm_s2: velocity * 10,
        displacement_mm: velocity / 20,
        direction: Some(vib_direction),
        temperature: Some(500 + vib_dt),
        raw_spectrum: Some(spectrum),
    };
    assert(simulated_vibration(vibration, tower.id, sensor_id, now as int, base_vibration as int,
        dv as int, df as int, vib_direction as int, vib_dt as int));

    // Wind.
    let dw = random_in_range(-200, 200);
    let w = base_wind + dw;
    let wind_speed: i64 = if w < 0 { 0 } else { w };
    let wind_direction = random_in_range(0, 36000);
    let wind_dt = random_in_range(-200, 200);
    let wind = WindSpeedReading {
        sensor_id,
        tower_id: tower.id,
        timestamp: now,
        wind_speed_ms: wind_speed,
        wind_direction_deg: wind_direction,
        gust_speed_ms: Some(wind_speed * 3 / 2),
        temperature: Some(500 + wind_dt),
    };
    assert(simulated_wind(wind, tower.id, sensor_id, now as int, base_wind as int,
        dw as int, wind_direction as int, wind_dt as int));

    // Ice.
    let dt = random_in_range(-100, 100);
    let temperature = base_temperature + dt;
    let dh = random_in_range(-1000, 1000);
    let humidity = 8500 + dh;
    let di = random_in_range(-100, 100);
    let thickness = simulated_ice_thickness(temperature, humidity, di);
    let dd = random_in_range(-5000, 5000);
    let ice = IceReading {
        sensor_id,
        tower_id: tower.id,
        timestamp: now,
        ice_thickness_mm: thickness,
        ice_density_kg_m3: if thickness > 0 { Some(90000 + dd) } else { None },
        ambient_temp_c: temperature,
        wind_speed_ms: Some(wind_speed),
        humidity_percent: Some(humidity),
        precipitation_type: ice_precipitation(temperature, humidity, thickness),
    };
    assert(simulated_ice(ice, tower.id, sensor_id, now as int, base_temperature as int, wind_speed as int,
        dt as int, dh as int, di as int, dd as int));

    // Weather.
    let dp = random_in_range(-500, 500);
    let dr = random_in_range(0, 200);
    let dc = random_in_range(-2000, 2000);
    let ds = random_in_range(-10000, 10000);
    assert(thickness <= 1600) by {
        assert(ice_base_for(temperature as int, humidity as int) <= 1500);
    }
    let weather = WeatherData {
        id: new_uuid(),
        tower_id: tower.id,
        timestamp: now,
        temperature_c: temperature,
        humidity_percent: humidity,
        pressure_hpa: 101300 + dp,
        wind_speed_ms: wind_speed,
        wind_direction_deg: wind_direction,
        wind_gust_ms: Some(wind_speed * 3 / 2),
        precipitation_mm: Some(if thickness > 0 { dr } else { 0 }),
        precipitation_type: weather_precipitation(temperature),
        visibility_m: Some(1_000_000 - thickness * 50),
        cloud_cover_percent: Some(8000 + dc),
        solar_radiation_w_m2: Some(if hour > 6 && hour < 18 { 20000 + ds } else { 0 }),
        dew_point_c: Some(temperature - 200),
        wind_chill_c: Some(temperature - wind_speed / 2),
        source: WeatherDataSource::Sensor,
        quality: ReadingQuality::Good,
    };
    assert(simulated_weather(weather, tower.id, now as int, hour as int, ice, wind,
        dp as int, dr as int, dc as int, ds as int));

    let status = simulated_tower_status(tower, velocity, wind_speed, thickness, now);
    let r = (vibration, wind, ice, weather, status);
    assert(simulated_weather(r.3, tower.id, now as int, hour as int, r.2, r.1,
        dp as int, dr as int, dc as int, ds as int));
    r
}

} // verus!
