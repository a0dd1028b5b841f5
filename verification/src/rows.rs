//! The rows that ice and weather readings, inspections, sensors, shutdown
//! logs and users are written as: every kind, status and type as its name in lower case
//! (an optional kind as `none` or `some(..)` around the name), a flag as 0 or
//! 1, everything else as it is.
use vstd::prelude::*;
use crate::models::ice_detection::{IceDetectionData, PrecipitationType as IcePrecipitation};
use crate::models::weather::{WeatherData, PrecipitationType, WeatherDataSource};
use crate::models::inspection::{InspectionRecord, InspectionType, InspectionStatus, OverallCondition};
use crate::models::sensor::{Sensor, SensorType, SensorStatus};
use crate::models::shutdown_strategy::{ShutdownLog, ShutdownType};
use crate::models::user::{User, UserRole};
use crate::store::{quality_column, quality_text};

verus! {

/// The name of a kind of precipitation on an ice reading, in lower case.
pub open spec fn ice_precipitation_name(p: IcePrecipitation) -> Seq<char> {
    match p {
        IcePrecipitation::NoPrecipitation => "none"@,
        IcePrecipitation::Rain => "rain"@,
        IcePrecipitation::Snow => "snow"@,
        IcePrecipitation::Sleet => "sleet"@,
        IcePrecipitation::FreezingRain => "freezingrain"@,
        IcePrecipitation::Hail => "hail"@,
    }
}

/// The text an optional kind of precipitation is stored as.
pub open spec fn ice_precipitation_column(p: Option<IcePrecipitation>) -> Seq<char> {
    match p {
        Some(x) => "some("@ + ice_precipitation_name(x) + ")"@,
        None => "none"@,
    }
}

/// The text a kind of precipitation of the weather is stored as.
pub open spec fn precipitation_column(p: PrecipitationType) -> Seq<char> {
    match p {
        PrecipitationType::NoPrecipitation => "none"@,
        PrecipitationType::Rain => "rain"@,
        PrecipitationType::Snow => "snow"@,
        PrecipitationType::Sleet => "sleet"@,
        PrecipitationType::FreezingRain => "freezingrain"@,
        PrecipitationType::Hail => "hail"@,
        PrecipitationType::Drizzle => "drizzle"@,
        PrecipitationType::Mixed => "mixed"@,
    }
}

/// The text a source of weather data is stored as.
pub open spec fn source_column(s: WeatherDataSource) -> Seq<char> {
    match s {
        WeatherDataSource::Sensor => "sensor"@,
        WeatherDataSource::WeatherAPI => "weatherapi"@,
        WeatherDataSource::Forecast => "forecast"@,
        WeatherDataSource::Manual => "manual"@,
    }
}

/// The text a type of inspection is stored as.
pub open spec fn inspection_type_column(t: InspectionType) -> Seq<char> {
    match t {
        InspectionType::Routine => "routine"@,
        InspectionType::AfterStorm => "afterstorm"@,
        InspectionType::AfterShutdown => "aftershutdown"@,
        InspectionType::Complaint => "complaint"@,
        InspectionType::PreventiveMaintenance => "preventivemaintenance"@,
        InspectionType::Emergency => "emergency"@,
        InspectionType::Annual => "annual"@,
        InspectionType::Seasonal => "seasonal"@,
    }
}

/// The text an inspection status is stored as.
pub open spec fn inspection_status_column(s: InspectionStatus) -> Seq<char> {
    match s {
        InspectionStatus::Scheduled => "scheduled"@,
        InspectionStatus::InProgress => "inprogress"@,
        InspectionStatus::Completed => "completed"@,
        InspectionStatus::Cancelled => "cancelled"@,
        InspectionStatus::Overdue => "overdue"@,
    }
}

/// The text an overall condition is stored as.
pub open spec fn condition_column(c: OverallCondition) -> Seq<char> {
    match c {
        OverallCondition::Excellent => "excellent"@,
        OverallCondition::Good => "good"@,
        OverallCondition::Fair => "fair"@,
        OverallCondition::Poor => "poor"@,
        OverallCondition::Critical => "critical"@,
    }
}

/// The text a type of sensor is stored as.
pub open spec fn sensor_type_column(t: SensorType) -> Seq<char> {
    match t {
        SensorType::Vibration => "vibration"@,
        SensorType::WindSpeed => "windspeed"@,
        SensorType::WindDirection => "winddirection"@,
        SensorType::Temperature => "temperature"@,
        SensorType::Humidity => "humidity"@,
        SensorType::IceThickness => "icethickness"@,
        SensorType::Tilt => "tilt"@,
        SensorType::Stress => "stress"@,
        SensorType::Accelerometer => "accelerometer"@,
        SensorType::Gyroscope => "gyroscope"@,
        SensorType::GPS => "gps"@,
    }
}

/// The text a sensor status is stored as.
pub open spec fn sensor_status_column(s: SensorStatus) -> Seq<char> {
    match s {
        SensorStatus::Active => "active"@,
        SensorStatus::Inactive => "inactive"@,
        SensorStatus::Calibrating => "calibrating"@,
        SensorStatus::Faulty => "faulty"@,
        SensorStatus::Maintenance => "maintenance"@,
        SensorStatus::Decommissioned => "decommissioned"@,
    }
}

/// The text a type of shutdown is stored as.
pub open spec fn shutdown_type_column(t: ShutdownType) -> Seq<char> {
    match t {
        ShutdownType::Preemptive => "preemptive"@,
        ShutdownType::Emergency => "emergency"@,
        ShutdownType::Scheduled => "scheduled"@,
        ShutdownType::Manual => "manual"@,
        ShutdownType::Recovery => "recovery"@,
    }
}

fn ice_precipitation_name_text(p: IcePrecipitation) -> (r: &'static str)
    ensures
        r@ == ice_precipitation_name(p),
{
    match p {
        IcePrecipitation::NoPrecipitation => "none",
        IcePrecipitation::Rain => "rain",
        IcePrecipitation::Snow => "snow",
        IcePrecipitation::Sleet => "sleet",
        IcePrecipitation::FreezingRain => "freezingrain",
        IcePrecipitation::Hail => "hail",
    }
}

/// The text an optional kind of precipitation is stored as.
pub fn ice_precipitation_text(p: Option<IcePrecipitation>) -> (r: String)
    ensures
        r@ == ice_precipitation_column(p),
{
    match p {
        Some(x) => {
            let mut s = String::from_str("some(");
            s.append(ice_precipitation_name_text(x));
            s.append(")");
            s
        }
        None => String::from_str("none"),
    }
}

/// The text a kind of precipitation of the weather is stored as.
pub fn precipitation_text(p: PrecipitationType) -> (r: &'static str)
    ensures
        r@ == precipitation_column(p),
{
    match p {
        PrecipitationType::NoPrecipitation => "none",
        PrecipitationType::Rain => "rain",
        PrecipitationType::Snow => "snow",
        PrecipitationType::Sleet => "sleet",
        PrecipitationType::FreezingRain => "freezingrain",
        PrecipitationType::Hail => "hail",
        PrecipitationType::Drizzle => "drizzle",
        PrecipitationType::Mixed => "mixed",
    }
}

/// The text a source of weather data is stored as.
pub fn source_text(s: WeatherDataSource) -> (r: &'static str)
    ensures
        r@ == source_column(s),
{
    match s {
        WeatherDataSource::Sensor => "sensor",
        WeatherDataSource::WeatherAPI => "weatherapi",
        WeatherDataSource::Forecast => "forecast",
        WeatherDataSource::Manual => "manual",
    }
}

/// The text a type of inspection is stored as.
pub fn inspection_type_text(t: InspectionType) -> (r: &'static str)
    ensures
        r@ == inspection_type_column(t),
{
    match t {
        InspectionType::Routine => "routine",
        InspectionType::AfterStorm => "afterstorm",
        InspectionType::AfterShutdown => "aftershutdown",
        InspectionType::Complaint => "complaint",
        InspectionType::PreventiveMaintenance => "preventivemaintenance",
        InspectionType::Emergency => "emergency",
        InspectionType::Annual => "annual",
        InspectionType::Seasonal => "seasonal",
    }
}

/// The text an inspection status is stored as.
pub fn inspection_status_text(s: InspectionStatus) -> (r: &'static str)
    ensures
        r@ == inspection_status_column(s),
{
    match s {
        InspectionStatus::Scheduled => "scheduled",
        InspectionStatus::InProgress => "inprogress",
        InspectionStatus::Completed => "completed",
        InspectionStatus::Cancelled => "cancelled",
        InspectionStatus::Overdue => "overdue",
    }
}

/// The text an overall condition is stored as.
pub fn condition_text(c: OverallCondition) -> (r: &'static str)
    ensures
        r@ == condition_column(c),
{
    match c {
        OverallCondition::Excellent => "excellent",
        OverallCondition::Good => "good",
        OverallCondition::Fair => "fair",
        OverallCondition::Poor => "poor",
        OverallCondition::Critical => "critical",
    }
}

/// The text a type of sensor is stored as.
pub fn sensor_type_text(t: SensorType) -> (r: &'static str)
    ensures
        r@ == sensor_type_column(t),
{
    match t {
        SensorType::Vibration => "vibration",
        SensorType::WindSpeed => "windspeed",
        SensorType::WindDirection => "winddirection",
        SensorType::Temperature => "temperature",
        SensorType::Humidity => "humidity",
        SensorType::IceThickness => "icethickness",
        SensorType::Tilt => "tilt",
        SensorType::Stress => "stress",
        SensorType::Accelerometer => "accelerometer",
        SensorType::Gyroscope => "gyroscope",
        SensorType::GPS => "gps",
    }
}

/// The text a sensor status is stored as.
pub fn sensor_status_text(s: SensorStatus) -> (r: &'static str)
    ensures
        r@ == sensor_status_column(s),
{
    match s {
        SensorStatus::Active => "active",
        SensorStatus::Inactive => "inactive",
        SensorStatus::Calibrating => "calibrating",
        SensorStatus::Faulty => "faulty",
        SensorStatus::Maintenance => "maintenance",
        SensorStatus::Decommissioned => "decommissioned",
    }
}

/// The text a type of shutdown is stored as.
pub fn shutdown_type_text(t: ShutdownType) -> (r: &'static str)
    ensures
        r@ == shutdown_type_column(t),
{
    match t {
        ShutdownType::Preemptive => "preemptive",
        ShutdownType::Emergency => "emergency",
        ShutdownType::Scheduled => "scheduled",
        ShutdownType::Manual => "manual",
        ShutdownType::Recovery => "recovery",
    }
}

fn clone_text(s: &Option<String>) -> (r: Option<String>)
    ensures
        r == *s,
{
    match s {
        Some(x) => Some(x.clone()),
        None => None,
    }
}

/// A stored ice reading.
#[derive(Debug, Clone)]
pub struct IceDetectionRow {
    pub id: u128,
    pub tower_id: u128,
    pub sensor_id: u128,
    pub timestamp: i64,
    pub ice_thickness_mm: i64,
    pub ice_density_kg_m3: Option<i64>,
    pub ice_weight_kg: Option<i64>,
    pub ambient_temp_c: i64,
    pub wind_speed_ms: Option<i64>,
    pub humidity_percent: Option<i64>,
    pub precipitation_type: String,
    pub quality: String,
}

/// The row an ice reading is stored as.
pub fn ice_detection_row(d: &IceDetectionData) -> (r: IceDetectionRow)
    ensures
        r.id == d.id,
        r.tower_id == d.tower_id,
        r.sensor_id == d.sensor_id,
        r.timestamp == d.timestamp,
        r.ice_thickness_mm == d.ice_thickness_mm,
        r.ice_density_kg_m3 == d.ice_density_kg_m3,
        r.ice_weight_kg == d.ice_weight_kg,
        r.ambient_temp_c == d.ambient_temp_c,
        r.wind_speed_ms == d.wind_speed_ms,
        r.humidity_percent == d.humidity_percent,
        r.precipitation_type@ == ice_precipitation_column(d.precipitation_type),
        r.quality@ == quality_column(d.quality),
{
    IceDetectionRow {
        id: d.id,
        tower_id: d.tower_id,
        sensor_id: d.sensor_id,
        timestamp: d.timestamp,
        ice_thickness_mm: d.ice_thickness_mm,
        ice_density_kg_m3: d.ice_density_kg_m3,
        ice_weight_kg: d.ice_weight_kg,
        ambient_temp_c: d.ambient_temp_c,
        wind_speed_ms: d.wind_speed_ms,
        humidity_percent: d.humidity_percent,
        precipitation_type: ice_precipitation_text(d.precipitation_type),
        quality: String::from_str(quality_text(d.quality)),
    }
}

/// A stored weather reading.
#[derive(Debug, Clone)]
pub struct WeatherRow {
    pub id: u128,
    pub tower_id: u128,
    pub timestamp: i64,
    pub temperature_c: i64,
    pub humidity_percent: i64,
    pub pressure_hpa: i64,
    pub wind_speed_ms: i64,
    pub wind_direction_deg: i64,
    pub wind_gust_ms: Option<i64>,
    pub precipitation_mm: Option<i64>,
    pub precipitation_type: String,
    pub visibility_m: Option<i64>,
    pub cloud_cover_percent: Option<i64>,
    pub solar_radiation_w_m2: Option<i64>,
    pub dew_point_c: Option<i64>,
    pub wind_chill_c: Option<i64>,
    pub source: String,
    pub quality: String,
}

/// The row a weather reading is stored as.
pub fn weather_row(d: &WeatherData) -> (r: WeatherRow)
    ensures
        r.id == d.id,
        r.tower_id == d.tower_id,
        r.timestamp == d.timestamp,
        r.temperature_c == d.temperature_c,
        r.humidity_percent == d.humidity_percent,
        r.pressure_hpa == d.pressure_hpa,
        r.wind_speed_ms == d.wind_speed_ms,
        r.wind_direction_deg == d.wind_direction_deg,
        r.wind_gust_ms == d.wind_gust_ms,
        r.precipitation_mm == d.precipitation_mm,
        r.precipitation_type@ == precipitation_column(d.precipitation_type),
        r.visibility_m == d.visibility_m,
        r.cloud_cover_percent == d.cloud_cover_percent,
        r.solar_radiation_w_m2 == d.solar_radiation_w_m2,
        r.dew_point_c == d.dew_point_c,
        r.wind_chill_c == d.wind_chill_c,
        r.source@ == source_column(d.source),
        r.quality@ == quality_column(d.quality),
{
    WeatherRow {
        id: d.id,
        tower_id: d.tower_id,
        timestamp: d.timestamp,
        temperature_c: d.temperature_c,
        humidity_percent: d.humidity_percent,
        pressure_hpa: d.pressure_hpa,
        wind_speed_ms: d.wind_speed_ms,
        wind_direction_deg: d.wind_direction_deg,
        wind_gust_ms: d.wind_gust_ms,
        precipitation_mm: d.precipitation_mm,
        precipitation_type: String::from_str(precipitation_text(d.precipitation_type)),
        visibility_m: d.visibility_m,
        cloud_cover_percent: d.cloud_cover_percent,
        solar_radiation_w_m2: d.solar_radiation_w_m2,
        dew_point_c: d.dew_point_c,
        wind_chill_c: d.wind_chill_c,
        source: String::from_str(source_text(d.source)),
        quality: String::from_str(quality_text(d.quality)),
    }
}

/// A stored inspection: the follow-up flag as 0 or 1; check items, findings,
/// recommendations, attachments and weather are not part of the row.
#[derive(Debug, Clone)]
pub struct InspectionRow {
    pub id: u128,
    pub tower_id: u128,
    pub inspection_type: String,
    pub status: String,
    pub inspector_id: u128,
    pub inspector_name: String,
    pub scheduled_date: i64,
    pub start_time: Option<i64>,
    pub end_time: Option<i64>,
    pub duration_minutes: Option<i64>,
    pub overall_condition: String,
    pub follow_up_required: u8,
    pub follow_up_date: Option<i64>,
    pub notes: Option<String>,
    pub created_at: i64,
    pub updated_at: i64,
}

/// The row an inspection is stored as.
pub fn inspection_row(i: &InspectionRecord) -> (r: InspectionRow)
    ensures
        r.id == i.id,
        r.tower_id == i.tower_id,
        r.inspection_type@ == inspection_type_column(i.inspection_type),
        r.status@ == inspection_status_column(i.status),
        r.inspector_id == i.inspector_id,
        r.inspector_name == i.inspector_name,
        r.scheduled_date == i.scheduled_date,
        r.start_time == i.start_time,
        r.end_time == i.end_time,
        r.duration_minutes == i.duration_minutes,
        r.overall_condition@ == condition_column(i.overall_condition),
        r.follow_up_required == (if i.follow_up_required { 1u8 } else { 0u8 }),
        r.follow_up_date == i.follow_up_date,
        r.notes == i.notes,
        r.created_at == i.created_at,
        r.updated_at == i.updated_at,
{
    InspectionRow {
        id: i.id,
        tower_id: i.tower_id,
        inspection_type: String::from_str(inspection_type_text(i.inspection_type)),
        status: String::from_str(inspection_status_text(i.status)),
        inspector_id: i.inspector_id,
        inspector_name: i.inspector_name.clone(),
        scheduled_date: i.scheduled_date,
        start_time: i.start_time,
        end_time: i.end_time,
        duration_minutes: i.duration_minutes,
        overall_condition: String::from_str(condition_text(i.overall_condition)),
        follow_up_required: if i.follow_up_required { 1 } else { 0 },
        follow_up_date: i.follow_up_date,
        notes: clone_text(&i.notes),
        created_at: i.created_at,
        updated_at: i.updated_at,
    }
}

/// A stored sensor.
#[derive(Debug, Clone)]
pub struct SensorRow {
    pub id: u128,
    pub device_id: String,
    pub sensor_type: String,
    pub model: String,
    pub manufacturer: String,
    pub status: String,
    pub calibration_date: Option<i64>,
    pub last_calibration_date: Option<i64>,
    pub calibration_interval_days: u32,
    pub sampling_rate_hz: i64,
    pub measurement_range_min: i64,
    pub measurement_range_max: i64,
    pub accuracy: i64,
    pub created_at: i64,
    pub updated_at: i64,
}

/// The row a sensor is stored as.
pub fn sensor_row(s: &Sensor) -> (r: SensorRow)
    ensures
        r.id == s.id,
        r.device_id == s.device_id,
        r.sensor_type@ == sensor_type_column(s.sensor_type),
        r.model == s.model,
        r.manufacturer == s.manufacturer,
        r.status@ == sensor_status_column(s.status),
        r.calibration_date == s.calibration_date,
        r.last_calibration_date == s.last_calibration_date,
        r.calibration_interval_days == s.calibration_interval_days,
        r.sampling_rate_hz == s.sampling_rate_hz,
        r.measurement_range_min == s.measurement_range_min,
        r.measurement_range_max == s.measurement_range_max,
        r.accuracy == s.accuracy,
        r.created_at == s.created_at,
        r.updated_at == s.updated_at,
{
    SensorRow {
        id: s.id,
        device_id: s.device_id.clone(),
        sensor_type: String::from_str(sensor_type_text(s.sensor_type)),
        model: s.model.clone(),
        manufacturer: s.manufacturer.clone(),
        status: String::from_str(sensor_status_text(s.status)),
        calibration_date: s.calibration_date,
        last_calibration_date: s.last_calibration_date,
        calibration_interval_days: s.calibration_interval_days,
        sampling_rate_hz: s.sampling_rate_hz,
        measurement_range_min: s.measurement_range_min,
        measurement_range_max: s.measurement_range_max,
        accuracy: s.accuracy,
        created_at: s.created_at,
        updated_at: s.updated_at,
    }
}

/// A stored shutdown log: the weather at the shutdown inline; the safety
/// incidents are not part of the row.
#[derive(Debug, Clone)]
pub struct ShutdownLogRow {
    pub id: u128,
    pub strategy_id: u128,
    pub tower_id: u128,
    pub shutdown_type: String,
    pub start_time: i64,
    pub end_time: Option<i64>,
    pub duration_minutes: Option<i64>,
    pub reason: String,
    pub executed_by: u128,
    pub passengers_affected: Option<u32>,
    pub economic_impact: Option<i64>,
    pub temperature_c: i64,
    pub wind_speed_ms: i64,
    pub wind_direction_deg: i64,
    pub ice_thickness_mm: Option<i64>,
    pub visibility_m: Option<i64>,
    pub precipitation_type: String,
    pub created_at: i64,
}

/// The row a shutdown log is stored as.
pub fn shutdown_log_row(l: &ShutdownLog) -> (r: ShutdownLogRow)
    ensures
        r.id == l.id,
        r.strategy_id == l.strategy_id,
        r.tower_id == l.tower_id,
        r.shutdown_type@ == shutdown_type_column(l.shutdown_type),
        r.start_time == l.start_time,
        r.end_time == l.end_time,
        r.duration_minutes == l.duration_minutes,
        r.reason == l.reason,
        r.executed_by == l.executed_by,
        r.passengers_affected == l.passengers_affected,
        r.economic_impact == l.economic_impact,
        r.temperature_c == l.weather_conditions.temperature_c,
        r.wind_speed_ms == l.weather_conditions.wind_speed_ms,
        r.wind_direction_deg == l.weather_conditions.wind_direction_deg,
        r.ice_thickness_mm == l.weather_conditions.ice_thickness_mm,
        r.visibility_m == l.weather_conditions.visibility_m,
        r.precipitation_type@ == ice_precipitation_column(l.weather_conditions.precipitation_type),
        r.created_at == l.created_at,
{
    ShutdownLogRow {
        id: l.id,
        strategy_id: l.strategy_id,
        tower_id: l.tower_id,
        shutdown_type: String::from_str(shutdown_type_text(l.shutdown_type)),
        start_time: l.start_time,
        end_time: l.end_time,
        duration_minutes: l.duration_minutes,
        reason: l.reason.clone(),
        executed_by: l.executed_by,
        passengers_affected: l.passengers_affected,
        economic_impact: l.economic_impact,
        temperature_c: l.weather_conditions.temperature_c,
        wind_speed_ms: l.weather_conditions.wind_speed_ms,
        wind_direction_deg: l.weather_conditions.wind_direction_deg,
        ice_thickness_mm: l.weather_conditions.ice_thickness_mm,
        visibility_m: l.weather_conditions.visibility_m,
        precipitation_type: ice_precipitation_text(l.weather_conditions.precipitation_type),
        created_at: l.created_at,
    }
}

/// The text a user role is stored as.
pub open spec fn role_column(r: UserRole) -> Seq<char> {
    match r {
        UserRole::Viewer => "viewer"@,
        UserRole::Operator => "operator"@,
        UserRole::Admin => "admin"@,
    }
}

/// The text a user role is stored as.
pub fn role_text(r: UserRole) -> (t: &'static str)
    ensures
        t@ == role_column(r),
{
    match r {
        UserRole::Viewer => "viewer",
        UserRole::Operator => "operator",
        UserRole::Admin => "admin",
    }
}

/// A stored user, with the hash of its password and the active flag as 0
/// or 1.
#[derive(Debug, Clone)]
pub struct UserRow {
    pub id: u128,
    pub username: String,
    pub email: String,
    pub full_name: String,
    pub role: String,
    pub department: String,
    pub phone: Option<String>,
    pub password_hash: String,
    pub is_active: u8,
    pub last_login: Option<i64>,
    pub created_at: i64,
    pub updated_at: i64,
}

/// The row a user is stored as, with the hash of its password.
pub fn user_row(u: &User, password_hash: &str) -> (r: UserRow)
    ensures
        r.id == u.id,
        r.username == u.username,
        r.email == u.email,
        r.full_name == u.full_name,
        r.role@ == role_column(u.role),
        r.department == u.department,
        r.phone == u.phone,
        r.password_hash@ == password_hash@,
        r.is_active == (if u.is_active { 1u8 } else { 0u8 }),
        r.last_login == u.last_login,
        r.created_at == u.created_at,
        r.updated_at == u.updated_at,
{
    UserRow {
        id: u.id,
        username: u.username.clone(),
        email: u.email.clone(),
        full_name: u.full_name.clone(),
        role: String::from_str(role_text(u.role)),
        department: u.department.clone(),
        phone: clone_text(&u.phone),
        password_hash: String::from_str(password_hash),
        is_active: if u.is_active { 1 } else { 0 },
        last_login: u.last_login,
        created_at: u.created_at,
        updated_at: u.updated_at,
    }
}

} // verus!
