//! The message subjects of the platform and the decisions its subscribers
//! take on each message: the record to store for a reading, whether to check
//! it for an alert, and what an alert or a video verification sets off.
use vstd::prelude::*;
use crate::models::vibration::{VibrationReading, VibrationData};
use crate::models::wind_speed::{WindSpeedReading, WindSpeedData};
use crate::models::ice_detection::{IceReading, IceDetectionData};
use crate::models::sensor::ReadingQuality;
use crate::models::alert::{AlertMessage, AlertSeverity};
use crate::models::video::VideoVerificationResult;
use crate::config::SystemConfig;
use crate::text::{uuid_text, uuid_string};
use crate::ids::new_uuid;
use crate::readings::{clamp_i64, clamp_to_i64, floor_div};

verus! {

pub const VIBRATION_DATA: &'static str = "sensor.vibration";
pub const WIND_SPEED_DATA: &'static str = "sensor.wind_speed";
pub const ICE_DETECTION_DATA: &'static str = "sensor.ice_detection";
pub const WEATHER_DATA: &'static str = "sensor.weather";
pub const ALERT_TRIGGERED: &'static str = "alert.triggered";
pub const ALERT_ACKNOWLEDGED: &'static str = "alert.acknowledged";
pub const ALERT_RESOLVED: &'static str = "alert.resolved";
pub const SHUTDOWN_STRATEGY_TRIGGERED: &'static str = "shutdown.triggered";
pub const SHUTDOWN_EXECUTED: &'static str = "shutdown.executed";
pub const VIDEO_VERIFICATION_REQUESTED: &'static str = "video.verification.requested";
pub const VIDEO_VERIFICATION_COMPLETED: &'static str = "video.verification.completed";
pub const INSPECTION_CREATED: &'static str = "inspection.created";
pub const INSPECTION_COMPLETED: &'static str = "inspection.completed";
pub const TOWER_STATUS_UPDATED: &'static str = "tower.status.updated";
pub const SYSTEM_HEARTBEAT: &'static str = "system.heartbeat";
pub const DATA_INGESTION_COMPLETED: &'static str = "data.ingestion.completed";

/// The subject of one tower under a prefix: `prefix.tower`.
pub fn tower_specific(prefix: &str, tower_id: u128) -> (r: String)
    ensures
        r@ == prefix@ + "."@ + uuid_text(tower_id),
{
    let mut s = String::from_str(prefix);
    s.append(".");
    let id = uuid_string(tower_id);
    s.append(id.as_str());
    s
}

/// The record stored for a vibration reading, with a good quality, and
/// whether the reading is to be checked for an alert: when its velocity is
/// above the threshold.
pub fn vibration_record(reading: VibrationReading, config: &SystemConfig) -> (r: (VibrationData, bool))
    ensures
        r.0.tower_id == reading.tower_id,
        r.0.sensor_id == reading.sensor_id,
        r.0.timestamp == reading.timestamp,
        r.0.frequency_hz == reading.frequency_hz,
        r.0.amplitude_mm_s == reading.amplitude_mm_s,
        r.0.velocity_mm_s == reading.velocity_mm_s,
        r.0.acceleration_mm_s2 == reading.acceleration_mm_s2,
        r.0.displacement_mm == reading.displacement_mm,
        r.0.direction == reading.direction,
        r.0.temperature == reading.temperature,
        r.0.quality == ReadingQuality::Good,
        r.0.raw_spectrum == reading.raw_spectrum,
        r.1 == (reading.velocity_mm_s > config.vibration_alert_threshold_mms),
{
    let check = reading.velocity_mm_s > config.vibration_alert_threshold_mms;
    (VibrationData {
        id: new_uuid(),
        tower_id: reading.tower_id,
        sensor_id: reading.sensor_id,
        timestamp: reading.timestamp,
        frequency_hz: reading.frequency_hz,
        amplitude_mm_s: reading.amplitude_mm_s,
        velocity_mm_s: reading.velocity_mm_s,
        acceleration_mm_s2: reading.acceleration_mm_s2,
        displacement_mm: reading.displacement_mm,
        direction: reading.direction,
        temperature: reading.temperature,
        quality: ReadingQuality::Good,
        raw_spectrum: reading.raw_spectrum,
    }, check)
}

/// The record stored for a wind reading, with a good quality, and whether it
/// is to be checked for an alert: when the speed is above the threshold.
pub fn wind_speed_record(reading: WindSpeedReading, config: &SystemConfig) -> (r: (WindSpeedData, bool))
    ensures
        r.0.tower_id == reading.tower_id,
        r.0.sensor_id == reading.sensor_id,
        r.0.timestamp == reading.timestamp,
        r.0.wind_speed_ms == reading.wind_speed_ms,
        r.0.wind_direction_deg == reading.wind_direction_deg,
        r.0.gust_speed_ms == reading.gust_speed_ms,
        r.0.temperature == reading.temperature,
        r.0.quality == ReadingQuality::Good,
        r.1 == (reading.wind_speed_ms > config.wind_speed_threshold_ms),
{
    let check = reading.wind_speed_ms > config.wind_speed_threshold_ms;
    (WindSpeedData {
        id: new_uuid(),
        tower_id: reading.tower_id,
        sensor_id: reading.sensor_id,
        timestamp: reading.timestamp,
        wind_speed_ms: reading.wind_speed_ms,
        wind_direction_deg: reading.wind_direction_deg,
        gust_speed_ms: reading.gust_speed_ms,
        temperature: reading.temperature,
        quality: ReadingQuality::Good,
    }, check)
}

/// The weight of ice on a metre of cable, in hundredths of a kilogram, from
/// the density (hundredths of kg/m3) and the thickness (hundredths of a
/// millimetre): density times thickness over 1000, rounded down (and limited
/// to the range of `i64` where it is stored).
pub open spec fn ice_weight(density: int, thickness: int) -> int {
    density * thickness / 100000
}

/// The record stored for an ice reading, with its weight where the density is
/// known and a good quality, and whether it is to be checked for an alert:
/// when the thickness is above the threshold.
pub fn ice_record(reading: IceReading, config: &SystemConfig) -> (r: (IceDetectionData, bool))
    ensures
        r.0.tower_id == reading.tower_id,
        r.0.sensor_id == reading.sensor_id,
        r.0.timestamp == reading.timestamp,
        r.0.ice_thickness_mm == reading.ice_thickness_mm,
        r.0.ice_density_kg_m3 == reading.ice_density_kg_m3,
        r.0.ice_weight_kg == match reading.ice_density_kg_m3 {
            Some(d) => Some(clamp_i64(ice_weight(d as int, reading.ice_thickness_mm as int)) as i64),
            None => None,
        },
        r.0.ambient_temp_c == reading.ambient_temp_c,
        r.0.wind_speed_ms == reading.wind_speed_ms,
        r.0.humidity_percent == reading.humidity_percent,
        r.0.precipitation_type == reading.precipitation_type,
        r.0.quality == ReadingQuality::Good,
        r.1 == (reading.ice_thickness_mm > config.ice_alert_threshold_mm),
{
    let weight = match reading.ice_density_kg_m3 {
        Some(d) => {
            let t = reading.ice_thickness_mm;
            assert(-0x4000_0000_0000_0000_0000_0000_0000_0000 <= (d as int) * (t as int) <= 0x4000_0000_0000_0000_0000_0000_0000_0000)
                by (nonlinear_arith)
                requires
                    i64::MIN <= d <= i64::MAX,
                    i64::MIN <= t <= i64::MAX;
            let w = floor_div(d as i128 * t as i128, 100000);
            Some(clamp_to_i64(w))
        }
        None => None,
    };
    let check = reading.ice_thickness_mm > config.ice_alert_threshold_mm;
    (IceDetectionData {
        id: new_uuid(),
        tower_id: reading.tower_id,
        sensor_id: reading.sensor_id,
        timestamp: reading.timestamp,
        ice_thickness_mm: reading.ice_thickness_mm,
        ice_density_kg_m3: reading.ice_density_kg_m3,
        ice_weight_kg: weight,
        ambient_temp_c: reading.ambient_temp_c,
        wind_speed_ms: reading.wind_speed_ms,
        humidity_percent: reading.humidity_percent,
        precipitation_type: reading.precipitation_type,
        quality: ReadingQuality::Good,
    }, check)
}

/// Whether an alert sets off a video verification and a shutdown evaluation:
/// it does from the high severity on.
pub fn alert_needs_follow_up(alert: &AlertMessage) -> (r: bool)
    ensures
        r == (alert.severity.spec_rank() >= AlertSeverity::High.spec_rank()),
{
    alert.severity.rank() >= 2
}

/// What a completed video verification sets off: an alert asking for a check
/// by a person when one is required and has not happened, and the confirmation of the ice
/// alert when ice was seen thicker than the threshold.
pub fn verification_follow_up(result: &VideoVerificationResult, config: &SystemConfig) -> (r: (bool, bool))
    ensures
        r.0 == (result.human_review_required && !result.human_reviewed),
        r.1 == (result.ice_verification matches Some(v)
            && v.ice_present && v.estimated_thickness_mm > config.ice_alert_threshold_mm),
{
    let review = result.human_review_required && !result.human_reviewed;
    let confirm = match &result.ice_verification {
        Some(v) => v.ice_present && v.estimated_thickness_mm > config.ice_alert_threshold_mm,
        None => false,
    };
    (review, confirm)
}

} // verus!
