//! The database client, and how alerts are kept in the database: the text
//! each kind, severity and status is stored as, how a stored row is read
//! back, and the query that lists alerts.
use vstd::prelude::*;
use crate::models::alert::{Alert, AlertType, AlertSeverity, AlertStatus, AlertTrigger, AlertQuery};
use crate::text::{uuid_text, uuid_string, decimal_text, append_decimal, same_text};

verus! {

/// The text a kind of alert is stored as: its name in lower case.
pub open spec fn alert_type_column(t: AlertType) -> Seq<char> {
    match t {
        AlertType::VibrationHigh => "vibrationhigh"@,
        AlertType::VibrationAnomaly => "vibrationanomaly"@,
        AlertType::WindSpeedHigh => "windspeedhigh"@,
        AlertType::WindGustHigh => "windgusthigh"@,
        AlertType::IceThicknessHigh => "icethicknesshigh"@,
        AlertType::IceAccumulationFast => "iceaccumulationfast"@,
        AlertType::IceLoadCritical => "iceloadcritical"@,
        AlertType::TemperatureExtreme => "temperatureextreme"@,
        AlertType::SensorFault => "sensorfault"@,
        AlertType::CommunicationError => "communicationerror"@,
        AlertType::PowerFailure => "powerfailure"@,
        AlertType::VideoVerificationRequired => "videoverificationrequired"@,
        AlertType::ShutdownRecommended => "shutdownrecommended"@,
        AlertType::ShutdownRequired => "shutdownrequired"@,
        AlertType::SystemError => "systemerror"@,
    }
}

/// The text a severity is stored as.
pub open spec fn severity_column(s: AlertSeverity) -> Seq<char> {
    match s {
        AlertSeverity::Info => "info"@,
        AlertSeverity::Warning => "warning"@,
        AlertSeverity::High => "high"@,
        AlertSeverity::Critical => "critical"@,
        AlertSeverity::Emergency => "emergency"@,
    }
}

/// The text a status is stored as.
pub open spec fn status_column(s: AlertStatus) -> Seq<char> {
    match s {
        AlertStatus::Open => "open"@,
        AlertStatus::Acknowledged => "acknowledged"@,
        AlertStatus::InProgress => "inprogress"@,
        AlertStatus::Resolved => "resolved"@,
        AlertStatus::Closed => "closed"@,
        AlertStatus::FalseAlarm => "falsealarm"@,
    }
}

/// The text a kind of alert is stored as.
pub fn alert_type_text(t: AlertType) -> (r: &'static str)
    ensures
        r@ == alert_type_column(t),
{
    match t {
        AlertType::VibrationHigh => "vibrationhigh",
        AlertType::VibrationAnomaly => "vibrationanomaly",
        AlertType::WindSpeedHigh => "windspeedhigh",
        AlertType::WindGustHigh => "windgusthigh",
        AlertType::IceThicknessHigh => "icethicknesshigh",
        AlertType::IceAccumulationFast => "iceaccumulationfast",
        AlertType::IceLoadCritical => "iceloadcritical",
        AlertType::TemperatureExtreme => "temperatureextreme",
        AlertType::SensorFault => "sensorfault",
        AlertType::CommunicationError => "communicationerror",
        AlertType::PowerFailure => "powerfailure",
        AlertType::VideoVerificationRequired => "videoverificationrequired",
        AlertType::ShutdownRecommended => "shutdownrecommended",
        AlertType::ShutdownRequired => "shutdownrequired",
        AlertType::SystemError => "systemerror",
    }
}

/// The text a severity is stored as.
pub fn severity_text(s: AlertSeverity) -> (r: &'static str)
    ensures
        r@ == severity_column(s),
{
    match s {
        AlertSeverity::Info => "info",
        AlertSeverity::Warning => "warning",
        AlertSeverity::High => "high",
        AlertSeverity::Critical => "critical",
        AlertSeverity::Emergency => "emergency",
    }
}

/// The text a status is stored as.
pub fn status_text(s: AlertStatus) -> (r: &'static str)
    ensures
        r@ == status_column(s),
{
    match s {
        AlertStatus::Open => "open",
        AlertStatus::Acknowledged => "acknowledged",
        AlertStatus::InProgress => "inprogress",
        AlertStatus::Resolved => "resolved",
        AlertStatus::Closed => "closed",
        AlertStatus::FalseAlarm => "falsealarm",
    }
}

/// The kind a stored text is read as: the kinds are read by their names in
/// snake case, and any other text is a system error.
pub open spec fn alert_type_from_column(s: Seq<char>) -> AlertType {
    if s == "vibration_high"@ { AlertType::VibrationHigh }
    else if s == "vibration_anomaly"@ { AlertType::VibrationAnomaly }
    else if s == "wind_speed_high"@ { AlertType::WindSpeedHigh }
    else if s == "wind_gust_high"@ { AlertType::WindGustHigh }
    else if s == "ice_thickness_high"@ { AlertType::IceThicknessHigh }
    else if s == "ice_accumulation_fast"@ { AlertType::IceAccumulationFast }
    else if s == "ice_load_critical"@ { AlertType::IceLoadCritical }
    else if s == "temperature_extreme"@ { AlertType::TemperatureExtreme }
    else if s == "sensor_fault"@ { AlertType::SensorFault }
    else if s == "communication_error"@ { AlertType::CommunicationError }
    else if s == "power_failure"@ { AlertType::PowerFailure }
    else if s == "video_verification_required"@ { AlertType::VideoVerificationRequired }
    else if s == "shutdown_recommended"@ { AlertType::ShutdownRecommended }
    else if s == "shutdown_required"@ { AlertType::ShutdownRequired }
    else { AlertType::SystemError }
}

/// The severity a stored text is read as; any other text is information.
pub open spec fn severity_from_column(s: Seq<char>) -> AlertSeverity {
    if s == "warning"@ { AlertSeverity::Warning }
    else if s == "high"@ { AlertSeverity::High }
    else if s == "critical"@ { AlertSeverity::Critical }
    else if s == "emergency"@ { AlertSeverity::Emergency }
    else { AlertSeverity::Info }
}

/// The status a stored text is read as, by names in snake case; any other
/// text is open.
pub open spec fn status_from_column(s: Seq<char>) -> AlertStatus {
    if s == "acknowledged"@ { AlertStatus::Acknowledged }
    else if s == "in_progress"@ { AlertStatus::InProgress }
    else if s == "resolved"@ { AlertStatus::Resolved }
    else if s == "closed"@ { AlertStatus::Closed }
    else if s == "false_alarm"@ { AlertStatus::FalseAlarm }
    else { AlertStatus::Open }
}

/// Reads a stored kind of alert.
pub fn alert_type_from_text(s: &str) -> (r: AlertType)
    ensures
        r == alert_type_from_column(s@),
{
    if same_text(s, "vibration_high") { AlertType::VibrationHigh }
    else if same_text(s, "vibration_anomaly") { AlertType::VibrationAnomaly }
    else if same_text(s, "wind_speed_high") { AlertType::WindSpeedHigh }
    else if same_text(s, "wind_gust_high") { AlertType::WindGustHigh }
    else if same_text(s, "ice_thickness_high") { AlertType::IceThicknessHigh }
    else if same_text(s, "ice_accumulation_fast") { AlertType::IceAccumulationFast }
    else if same_text(s, "ice_load_critical") { AlertType::IceLoadCritical }
    else if same_text(s, "temperature_extreme") { AlertType::TemperatureExtreme }
    else if same_text(s, "sensor_fault") { AlertType::SensorFault }
    else if same_text(s, "communication_error") { AlertType::CommunicationError }
    else if same_text(s, "power_failure") { AlertType::PowerFailure }
    else if same_text(s, "video_verification_required") { AlertType::VideoVerificationRequired }
    else if same_text(s, "shutdown_recommended") { AlertType::ShutdownRecommended }
    else if same_text(s, "shutdown_required") { AlertType::ShutdownRequired }
    else { AlertType::SystemError }
}

/// Reads a stored severity.
pub fn severity_from_text(s: &str) -> (r: AlertSeverity)
    ensures
        r == severity_from_column(s@),
{
    if same_text(s, "warning") { AlertSeverity::Warning }
    else if same_text(s, "high") { AlertSeverity::High }
    else if same_text(s, "critical") { AlertSeverity::Critical }
    else if same_text(s, "emergency") { AlertSeverity::Emergency }
    else { AlertSeverity::Info }
}

/// Reads a stored status.
pub fn status_from_text(s: &str) -> (r: AlertStatus)
    ensures
        r == status_from_column(s@),
{
    if same_text(s, "acknowledged") { AlertStatus::Acknowledged }
    else if same_text(s, "in_progress") { AlertStatus::InProgress }
    else if same_text(s, "resolved") { AlertStatus::Resolved }
    else if same_text(s, "closed") { AlertStatus::Closed }
    else if same_text(s, "false_alarm") { AlertStatus::FalseAlarm }
    else { AlertStatus::Open }
}

/// Severities are read back as they were stored. Statuses are too when their
/// name is one word; a stored "in progress" or "false alarm" is read back as
/// open, and every stored kind of alert is read back as a system error,
/// because they are written in lower case and read in snake case.
pub proof fn lemma_column_round_trips(t: AlertType, s: AlertSeverity, st: AlertStatus)
    ensures
        severity_from_column(severity_column(s)) == s,
        st != AlertStatus::InProgress && st != AlertStatus::FalseAlarm ==> status_from_column(status_column(st)) == st,
        st == AlertStatus::InProgress || st == AlertStatus::FalseAlarm ==> status_from_column(status_column(st)) == AlertStatus::Open,
        alert_type_from_column(alert_type_column(t)) == AlertType::SystemError,
{
    reveal_strlit("high");
    reveal_strlit("emergency");
    reveal_strlit("info");
    reveal_strlit("critical");
    reveal_strlit("warning");
    assert("info"@.len() != "warning"@.len());
    assert("info"@[0] != "high"@[0]);
    assert("info"@.len() != "critical"@.len());
    assert("info"@.len() != "emergency"@.len());
    assert("warning"@.len() != "high"@.len());
    assert("warning"@.len() != "critical"@.len());
    assert("warning"@.len() != "emergency"@.len());
    assert("high"@.len() != "warning"@.len());
    assert("high"@.len() != "critical"@.len());
    assert("high"@.len() != "emergency"@.len());
    assert("critical"@.len() != "warning"@.len());
    assert("critical"@.len() != "high"@.len());
    assert("critical"@.len() != "emergency"@.len());
    assert("emergency"@.len() != "warning"@.len());
    assert("emergency"@.len() != "high"@.len());
    assert("emergency"@.len() != "critical"@.len());
    reveal_strlit("false_alarm");
    reveal_strlit("closed");
    reveal_strlit("in_progress");
    reveal_strlit("resolved");
    reveal_strlit("open");
    reveal_strlit("falsealarm");
    reveal_strlit("inprogress");
    reveal_strlit("acknowledged");
    assert("open"@.len() != "acknowledged"@.len());
    assert("open"@.len() != "in_progress"@.len());
    assert("open"@.len() != "resolved"@.len());
    assert("open"@.len() != "closed"@.len());
    assert("open"@.len() != "false_alarm"@.len());
    assert("acknowledged"@.len() != "in_progress"@.len());
    assert("acknowledged"@.len() != "resolved"@.len());
    assert("acknowledged"@.len() != "closed"@.len());
    assert("acknowledged"@.len() != "false_alarm"@.len());
    assert("inprogress"@.len() != "acknowledged"@.len());
    assert("inprogress"@.len() != "in_progress"@.len());
    assert("inprogress"@.len() != "resolved"@.len());
    assert("inprogress"@.len() != "closed"@.len());
    assert("inprogress"@.len() != "false_alarm"@.len());
    assert("resolved"@.len() != "acknowledged"@.len());
    assert("resolved"@.len() != "in_progress"@.len());
    assert("resolved"@.len() != "closed"@.len());
    assert("resolved"@.len() != "false_alarm"@.len());
    assert("closed"@.len() != "acknowledged"@.len());
    assert("closed"@.len() != "in_progress"@.len());
    assert("closed"@.len() != "resolved"@.len());
    assert("closed"@.len() != "false_alarm"@.len());
    assert("falsealarm"@.len() != "acknowledged"@.len());
    assert("falsealarm"@.len() != "in_progress"@.len());
    assert("falsealarm"@.len() != "resolved"@.len());
    assert("falsealarm"@.len() != "closed"@.len());
    assert("falsealarm"@.len() != "false_alarm"@.len());
    lemma_alert_type_column_has_no_underscore(t);
}

/// The stored names of the kinds have no underscore while every snake-case
/// name has one, so none is read back as its kind.
proof fn lemma_alert_type_column_has_no_underscore(t: AlertType)
    ensures
        alert_type_from_column(alert_type_column(t)) == AlertType::SystemError,
{
    match t {
        AlertType::VibrationHigh => {
            reveal_strlit("vibrationhigh");
            reveal_strlit("vibration_high");
            assert("vibrationhigh"@.len() != "vibration_high"@.len());
            reveal_strlit("vibration_anomaly");
            assert("vibrationhigh"@.len() != "vibration_anomaly"@.len());
            reveal_strlit("wind_speed_high");
            assert("vibrationhigh"@.len() != "wind_speed_high"@.len());
            reveal_strlit("wind_gust_high");
            assert("vibrationhigh"@.len() != "wind_gust_high"@.len());
            reveal_strlit("ice_thickness_high");
            assert("vibrationhigh"@.len() != "ice_thickness_high"@.len());
            reveal_strlit("ice_accumulation_fast");
            assert("vibrationhigh"@.len() != "ice_accumulation_fast"@.len());
            reveal_strlit("ice_load_critical");
            assert("vibrationhigh"@.len() != "ice_load_critical"@.len());
            reveal_strlit("temperature_extreme");
            assert("vibrationhigh"@.len() != "temperature_extreme"@.len());
            reveal_strlit("sensor_fault");
            assert("vibrationhigh"@.len() != "sensor_fault"@.len());
            reveal_strlit("communication_error");
            assert("vibrationhigh"@.len() != "communication_error"@.len());
            reveal_strlit("power_failure");
            assert("vibrationhigh"@[0] != "power_failure"@[0]);
            reveal_strlit("video_verification_required");
            assert("vibrationhigh"@.len() != "video_verification_required"@.len());
            reveal_strlit("shutdown_recommended");
            assert("vibrationhigh"@.len() != "shutdown_recommended"@.len());
            reveal_strlit("shutdown_required");
            assert("vibrationhigh"@.len() != "shutdown_required"@.len());
        },
        AlertType::VibrationAnomaly => {
            reveal_strlit("vibrationanomaly");
            reveal_strlit("vibration_high");
            assert("vibrationanomaly"@.len() != "vibration_high"@.len());
            reveal_strlit("vibration_anomaly");
            assert("vibrationanomaly"@.len() != "vibration_anomaly"@.len());
            reveal_strlit("wind_speed_high");
            assert("vibrationanomaly"@.len() != "wind_speed_high"@.len());
            reveal_strlit("wind_gust_high");
            assert("vibrationanomaly"@.len() != "wind_gust_high"@.len());
            reveal_strlit("ice_thickness_high");
            assert("vibrationanomaly"@.len() != "ice_thickness_high"@.len());
            reveal_strlit("ice_accumulation_fast");
            assert("vibrationanomaly"@.len() != "ice_accumulation_fast"@.len());
            reveal_strlit("ice_load_critical");
            assert("vibrationanomaly"@.len() != "ice_load_critical"@.len());
            reveal_strlit("temperature_extreme");
            assert("vibrationanomaly"@.len() != "temperature_extreme"@.len());
            reveal_strlit("sensor_fault");
            assert("vibrationanomaly"@.len() != "sensor_fault"@.len());
            reveal_strlit("communication_error");
            assert("vibrationanomaly"@.len() != "communication_error"@.len());
            reveal_strlit("power_failure");
            assert("vibrationanomaly"@.len() != "power_failure"@.len());
            reveal_strlit("video_verification_required");
            assert("vibrationanomaly"@.len() != "video_verification_required"@.len());
            reveal_strlit("shutdown_recommended");
            assert("vibrationanomaly"@.len() != "shutdown_recommended"@.len());
            reveal_strlit("shutdown_required");
            assert("vibrationanomaly"@.len() != "shutdown_required"@.len());
        },
        AlertType::WindSpeedHigh => {
            reveal_strlit("windspeedhigh");
            reveal_strlit("vibration_high");
            assert("windspeedhigh"@.len() != "vibration_high"@.len());
            reveal_strlit("vibration_anomaly");
            assert("windspeedhigh"@.len() != "vibration_anomaly"@.len());
            reveal_strlit("wind_speed_high");
            assert("windspeedhigh"@.len() != "wind_speed_high"@.len());
            reveal_strlit("wind_gust_high");
            assert("windspeedhigh"@.len() != "wind_gust_high"@.len());
            reveal_strlit("ice_thickness_high");
            assert("windspeedhigh"@.len() != "ice_thickness_high"@.len());
            reveal_strlit("ice_accumulation_fast");
            assert("windspeedhigh"@.len() != "ice_accumulation_fast"@.len());
            reveal_strlit("ice_load_critical");
            assert("windspeedhigh"@.len() != "ice_load_critical"@.len());
            reveal_strlit("temperature_extreme");
            assert("windspeedhigh"@.len() != "temperature_extreme"@.len());
            reveal_strlit("sensor_fault");
            assert("windspeedhigh"@.len() != "sensor_fault"@.len());
            reveal_strlit("communication_error");
            assert("windspeedhigh"@.len() != "communication_error"@.len());
            reveal_strlit("power_failure");
            assert("windspeedhigh"@[0] != "power_failure"@[0]);
            reveal_strlit("video_verification_required");
            assert("windspeedhigh"@.len() != "video_verification_required"@.len());
            reveal_strlit("shutdown_recommended");
            assert("windspeedhigh"@.len() != "shutdown_recommended"@.len());
            reveal_strlit("shutdown_required");
            assert("windspeedhigh"@.len() != "shutdown_required"@.len());
        },
        AlertType::WindGustHigh => {
            reveal_strlit("windgusthigh");
            reveal_strlit("vibration_high");
            assert("windgusthigh"@.len() != "vibration_high"@.len());
            reveal_strlit("vibration_anomaly");
            assert("windgusthigh"@.len() != "vibration_anomaly"@.len());
            reveal_strlit("wind_speed_high");
            assert("windgusthigh"@.len() != "wind_speed_high"@.len());
            reveal_strlit("wind_gust_high");
            assert("windgusthigh"@.len() != "wind_gust_high"@.len());
            reveal_strlit("ice_thickness_high");
            assert("windgusthigh"@.len() != "ice_thickness_high"@.len());
            reveal_strlit("ice_accumulation_fast");
            assert("windgusthigh"@.len() != "ice_accumulation_fast"@.len());
            reveal_strlit("ice_load_critical");
            assert("windgusthigh"@.len() != "ice_load_critical"@.len());
            reveal_strlit("temperature_extreme");
            assert("windgusthigh"@.len() != "temperature_extreme"@.len());
            reveal_strlit("sensor_fault");
            assert("windgusthigh"@[0] != "sensor_fault"@[0]);
            reveal_strlit("communication_error");
            assert("windgusthigh"@.len() != "communication_error"@.len());
            reveal_strlit("power_failure");
            assert("windgusthigh"@.len() != "power_failure"@.len());
            reveal_strlit("video_verification_required");
            assert("windgusthigh"@.len() != "video_verification_required"@.len());
            reveal_strlit("shutdown_recommended");
            assert("windgusthigh"@.len() != "shutdown_recommended"@.len());
            reveal_strlit("shutdown_required");
            assert("windgusthigh"@.len() != "shutdown_required"@.len());
        },
        AlertType::IceThicknessHigh => {
            reveal_strlit("icethicknesshigh");
            reveal_strlit("vibration_high");
            assert("icethicknesshigh"@.len() != "vibration_high"@.len());
            reveal_strlit("vibration_anomaly");
            assert("icethicknesshigh"@.len() != "vibration_anomaly"@.len());
            reveal_strlit("wind_speed_high");
            assert("icethicknesshigh"@.len() != "wind_speed_high"@.len());
            reveal_strlit("wind_gust_high");
            assert("icethicknesshigh"@.len() != "wind_gust_high"@.len());
            reveal_strlit("ice_thickness_high");
            assert("icethicknesshigh"@.len() != "ice_thickness_high"@.len());
            reveal_strlit("ice_accumulation_fast");
            assert("icethicknesshigh"@.len() != "ice_accumulation_fast"@.len());
            reveal_strlit("ice_load_critical");
            assert("icethicknesshigh"@.len() != "ice_load_critical"@.len());
            reveal_strlit("temperature_extreme");
            assert("icethicknesshigh"@.len() != "temperature_extreme"@.len());
            reveal_strlit("sensor_fault");
            assert("icethicknesshigh"@.len() != "sensor_fault"@.len());
            reveal_strlit("communication_error");
            assert("icethicknesshigh"@.len() != "communication_error"@.len());
            reveal_strlit("power_failure");
            assert("icethicknesshigh"@.len() != "power_failure"@.len());
            reveal_strlit("video_verification_required");
            assert("icethicknesshigh"@.len() != "video_verification_required"@.len());
            reveal_strlit("shutdown_recommended");
            assert("icethicknesshigh"@.len() != "shutdown_recommended"@.len());
            reveal_strlit("shutdown_required");
            assert("icethicknesshigh"@.len() != "shutdown_required"@.len());
        },
        AlertType::IceAccumulationFast => {
            reveal_strlit("iceaccumulationfast");
            reveal_strlit("vibration_high");
            assert("iceaccumulationfast"@.len() != "vibration_high"@.len());
            reveal_strlit("vibration_anomaly");
            assert("iceaccumulationfast"@.len() != "vibration_anomaly"@.len());
            reveal_strlit("wind_speed_high");
            assert("iceaccumulationfast"@.len() != "wind_speed_high"@.len());
            reveal_strlit("wind_gust_high");
            assert("iceaccumulationfast"@.len() != "wind_gust_high"@.len());
            reveal_strlit("ice_thickness_high");
            assert("iceaccumulationfast"@.len() != "ice_thickness_high"@.len());
            reveal_strlit("ice_accumulation_fast");
            assert("iceaccumulationfast"@.len() != "ice_accumulation_fast"@.len());
            reveal_strlit("ice_load_critical");
            assert("iceaccumulationfast"@.len() != "ice_load_critical"@.len());
            reveal_strlit("temperature_extreme");
            assert("iceaccumulationfast"@[0] != "temperature_extreme"@[0]);
            reveal_strlit("sensor_fault");
            assert("iceaccumulationfast"@.len() != "sensor_fault"@.len());
            reveal_strlit("communication_error");
            assert("iceaccumulationfast"@[0] != "communication_error"@[0]);
            reveal_strlit("power_failure");
            assert("iceaccumulationfast"@.len() != "power_failure"@.len());
            reveal_strlit("video_verification_required");
            assert("iceaccumulationfast"@.len() != "video_verification_required"@.len());
            reveal_strlit("shutdown_recommended");
            assert("iceaccumulationfast"@.len() != "shutdown_recommended"@.len());
            reveal_strlit("shutdown_required");
            assert("iceaccumulationfast"@.len() != "shutdown_required"@.len());
        },
        AlertType::IceLoadCritical => {
            reveal_strlit("iceloadcritical");
            reveal_strlit("vibration_high");
            assert("iceloadcritical"@.len() != "vibration_high"@.len());
            reveal_strlit("vibration_anomaly");
            assert("iceloadcritical"@.len() != "vibration_anomaly"@.len());
            reveal_strlit("wind_speed_high");
            assert("iceloadcritical"@[0] != "wind_speed_high"@[0]);
            reveal_strlit("wind_gust_high");
            assert("iceloadcritical"@.len() != "wind_gust_high"@.len());
            reveal_strlit("ice_thickness_high");
            assert("iceloadcritical"@.len() != "ice_thickness_high"@.len());
            reveal_strlit("ice_accumulation_fast");
            assert("iceloadcritical"@.len() != "ice_accumulation_fast"@.len());
            reveal_strlit("ice_load_critical");
            assert("iceloadcritical"@.len() != "ice_load_critical"@.len());
            reveal_strlit("temperature_extreme");
            assert("iceloadcritical"@.len() != "temperature_extreme"@.len());
            reveal_strlit("sensor_fault");
            assert("iceloadcritical"@.len() != "sensor_fault"@.len());
            reveal_strlit("communication_error");
            assert("iceloadcritical"@.len() != "communication_error"@.len());
            reveal_strlit("power_failure");
            assert("iceloadcritical"@.len() != "power_failure"@.len());
            reveal_strlit("video_verification_required");
            assert("iceloadcritical"@.len() != "video_verification_required"@.len());
            reveal_strlit("shutdown_recommended");
            assert("iceloadcritical"@.len() != "shutdown_recommended"@.len());
            reveal_strlit("shutdown_required");
            assert("iceloadcritical"@.len() != "shutdown_required"@.len());
        },
        AlertType::TemperatureExtreme => {
            reveal_strlit("temperatureextreme");
            reveal_strlit("vibration_high");
            assert("temperatureextreme"@.len() != "vibration_high"@.len());
            reveal_strlit("vibration_anomaly");
            assert("temperatureextreme"@.len() != "vibration_anomaly"@.len());
            reveal_strlit("wind_speed_high");
            assert("temperatureextreme"@.len() != "wind_speed_high"@.len());
            reveal_strlit("wind_gust_high");
            assert("temperatureextreme"@.len() != "wind_gust_high"@.len());
            reveal_strlit("ice_thickness_high");
            assert("temperatureextreme"@[0] != "ice_thickness_high"@[0]);
            reveal_strlit("ice_accumulation_fast");
            assert("temperatureextreme"@.len() != "ice_accumulation_fast"@.len());
            reveal_strlit("ice_load_critical");
            assert("temperatureextreme"@.len() != "ice_load_critical"@.len());
            reveal_strlit("temperature_extreme");
            assert("temperatureextreme"@.len() != "temperature_extreme"@.len());
            reveal_strlit("sensor_fault");
            assert("temperatureextreme"@.len() != "sensor_fault"@.len());
            reveal_strlit("communication_error");
            assert("temperatureextreme"@.len() != "communication_error"@.len());
            reveal_strlit("power_failure");
            assert("temperatureextreme"@.len() != "power_failure"@.len());
            reveal_strlit("video_verification_required");
            assert("temperatureextreme"@.len() != "video_verification_required"@.len());
            reveal_strlit("shutdown_recommended");
            assert("temperatureextreme"@.len() != "shutdown_recommended"@.len());
            reveal_strlit("shutdown_required");
            assert("temperatureextreme"@.len() != "shutdown_required"@.len());
        },
        AlertType::SensorFault => {
            reveal_strlit("sensorfault");
            reveal_strlit("vibration_high");
            assert("sensorfault"@.len() != "vibration_high"@.len());
            reveal_strlit("vibration_anomaly");
            assert("sensorfault"@.len() != "vibration_anomaly"@.len());
            reveal_strlit("wind_speed_high");
            assert("sensorfault"@.len() != "wind_speed_high"@.len());
            reveal_strlit("wind_gust_high");
            assert("sensorfault"@.len() != "wind_gust_high"@.len());
            reveal_strlit("ice_thickness_high");
            assert("sensorfault"@.len() != "ice_thickness_high"@.len());
            reveal_strlit("ice_accumulation_fast");
            assert("sensorfault"@.len() != "ice_accumulation_fast"@.len());
            reveal_strlit("ice_load_critical");
            assert("sensorfault"@.len() != "ice_load_critical"@.len());
            reveal_strlit("temperature_extreme");
            assert("sensorfault"@.len() != "temperature_extreme"@.len());
            reveal_strlit("sensor_fault");
            assert("sensorfault"@.len() != "sensor_fault"@.len());
            reveal_strlit("communication_error");
            assert("sensorfault"@.len() != "communication_error"@.len());
            reveal_strlit("power_failure");
            assert("sensorfault"@.len() != "power_failure"@.len());
            reveal_strlit("video_verification_required");
            assert("sensorfault"@.len() != "video_verification_required"@.len());
            reveal_strlit("shutdown_recommended");
            assert("sensorfault"@.len() != "shutdown_recommended"@.len());
            reveal_strlit("shutdown_required");
            assert("sensorfault"@.len() != "shutdown_required"@.len());
        },
        AlertType::CommunicationError => {
            reveal_strlit("communicationerror");
            reveal_strlit("vibration_high");
            assert("communicationerror"@.len() != "vibration_high"@.len());
            reveal_strlit("vibration_anomaly");
            assert("communicationerror"@.len() != "vibration_anomaly"@.len());
            reveal_strlit("wind_speed_high");
            assert("communicationerror"@.len() != "wind_speed_high"@.len());
            reveal_strlit("wind_gust_high");
            assert("communicationerror"@.len() != "wind_gust_high"@.len());
            reveal_strlit("ice_thickness_high");
            assert("communicationerror"@[0] != "ice_thickness_high"@[0]);
            reveal_strlit("ice_accumulation_fast");
            assert("communicationerror"@.len() != "ice_accumulation_fast"@.len());
            reveal_strlit("ice_load_critical");
            assert("communicationerror"@.len() != "ice_load_critical"@.len());
            reveal_strlit("temperature_extreme");
            assert("communicationerror"@.len() != "temperature_extreme"@.len());
            reveal_strlit("sensor_fault");
            assert("communicationerror"@.len() != "sensor_fault"@.len());
            reveal_strlit("communication_error");
            assert("communicationerror"@.len() != "communication_error"@.len());
            reveal_strlit("power_failure");
            assert("communicationerror"@.len() != "power_failure"@.len());
            reveal_strlit("video_verification_required");
            assert("communicationerror"@.len() != "video_verification_required"@.len());
            reveal_strlit("shutdown_recommended");
            assert("communicationerror"@.len() != "shutdown_recommended"@.len());
            reveal_strlit("shutdown_required");
            assert("communicationerror"@.len() != "shutdown_required"@.len());
        },
        AlertType::PowerFailure => {
            reveal_strlit("powerfailure");
            reveal_strlit("vibration_high");
            assert("powerfailure"@.len() != "vibration_high"@.len());
            reveal_strlit("vibration_anomaly");
            assert("powerfailure"@.len() != "vibration_anomaly"@.len());
            reveal_strlit("wind_speed_high");
            assert("powerfailure"@.len() != "wind_speed_high"@.len());
            reveal_strlit("wind_gust_high");
            assert("powerfailure"@.len() != "wind_gust_high"@.len());
            reveal_strlit("ice_thickness_high");
            assert("powerfailure"@.len() != "ice_thickness_high"@.len());
            reveal_strlit("ice_accumulation_fast");
            assert("powerfailure"@.len() != "ice_accumulation_fast"@.len());
            reveal_strlit("ice_load_critical");
            assert("powerfailure"@.len() != "ice_load_critical"@.len());
            reveal_strlit("temperature_extreme");
            assert("powerfailure"@.len() != "temperature_extreme"@.len());
            reveal_strlit("sensor_fault");
            assert("powerfailure"@[0] != "sensor_fault"@[0]);
            reveal_strlit("communication_error");
            assert("powerfailure"@.len() != "communication_error"@.len());
            reveal_strlit("power_failure");
            assert("powerfailure"@.len() != "power_failure"@.len());
            reveal_strlit("video_verification_required");
            assert("powerfailure"@.len() != "video_verification_required"@.len());
            reveal_strlit("shutdown_recommended");
            assert("powerfailure"@.len() != "shutdown_recommended"@.len());
            reveal_strlit("shutdown_required");
            assert("powerfailure"@.len() != "shutdown_required"@.len());
        },
        AlertType::VideoVerificationRequired => {
            reveal_strlit("videoverificationrequired");
            reveal_strlit("vibration_high");
            assert("videoverificationrequired"@.len() != "vibration_high"@.len());
            reveal_strlit("vibration_anomaly");
            assert("videoverificationrequired"@.len() != "vibration_anomaly"@.len());
            reveal_strlit("wind_speed_high");
            assert("videoverificationrequired"@.len() != "wind_speed_high"@.len());
            reveal_strlit("wind_gust_high");
            assert("videoverificationrequired"@.len() != "wind_gust_high"@.len());
            reveal_strlit("ice_thickness_high");
            assert("videoverificationrequired"@.len() != "ice_thickness_high"@.len());
            reveal_strlit("ice_accumulation_fast");
            assert("videoverificationrequired"@.len() != "ice_accumulation_fast"@.len());
            reveal_strlit("ice_load_critical");
            assert("videoverificationrequired"@.len() != "ice_load_critical"@.len());
            reveal_strlit("temperature_extreme");
            assert("videoverificationrequired"@.len() != "temperature_extreme"@.len());
            reveal_strlit("sensor_fault");
            assert("videoverificationrequired"@.len() != "sensor_fault"@.len());
            reveal_strlit("communication_error");
            assert("videoverificationrequired"@.len() != "communication_error"@.len());
            reveal_strlit("power_failure");
            assert("videoverificationrequired"@.len() != "power_failure"@.len());
            reveal_strlit("video_verification_required");
            assert("videoverificationrequired"@.len() != "video_verification_required"@.len());
            reveal_strlit("shutdown_recommended");
            assert("videoverificationrequired"@.len() != "shutdown_recommended"@.len());
            reveal_strlit("shutdown_required");
            assert("videoverificationrequired"@.len() != "shutdown_required"@.len());
        },
        AlertType::ShutdownRecommended => {
            reveal_strlit("shutdownrecommended");
            reveal_strlit("vibration_high");
            assert("shutdownrecommended"@.len() != "vibration_high"@.len());
            reveal_strlit("vibration_anomaly");
            assert("shutdownrecommended"@.len() != "vibration_anomaly"@.len());
            reveal_strlit("wind_speed_high");
            assert("shutdownrecommended"@.len() != "wind_speed_high"@.len());
            reveal_strlit("wind_gust_high");
            assert("shutdownrecommended"@.len() != "wind_gust_high"@.len());
            reveal_strlit("ice_thickness_high");
            assert("shutdownrecommended"@.len() != "ice_thickness_high"@.len());
            reveal_strlit("ice_accumulation_fast");
            assert("shutdownrecommended"@.len() != "ice_accumulation_fast"@.len());
            reveal_strlit("ice_load_critical");
            assert("shutdownrecommended"@.len() != "ice_load_critical"@.len());
            reveal_strlit("temperature_extreme");
            assert("shutdownrecommended"@[0] != "temperature_extreme"@[0]);
            reveal_strlit("sensor_fault");
            assert("shutdownrecommended"@.len() != "sensor_fault"@.len());
            reveal_strlit("communication_error");
            assert("shutdownrecommended"@[0] != "communication_error"@[0]);
            reveal_strlit("power_failure");
            assert("shutdownrecommended"@.len() != "power_failure"@.len());
            reveal_strlit("video_verification_required");
            assert("shutdownrecommended"@.len() != "video_verification_required"@.len());
            reveal_strlit("shutdown_recommended");
            assert("shutdownrecommended"@.len() != "shutdown_recommended"@.len());
            reveal_strlit("shutdown_required");
            assert("shutdownrecommended"@.len() != "shutdown_required"@.len());
        },
        AlertType::ShutdownRequired => {
            reveal_strlit("shutdownrequired");
            reveal_strlit("vibration_high");
            assert("shutdownrequired"@.len() != "vibration_high"@.len());
            reveal_strlit("vibration_anomaly");
            assert("shutdownrequired"@.len() != "vibration_anomaly"@.len());
            reveal_strlit("wind_speed_high");
            assert("shutdownrequired"@.len() != "wind_speed_high"@.len());
            reveal_strlit("wind_gust_high");
            assert("shutdownrequired"@.len() != "wind_gust_high"@.len());
            reveal_strlit("ice_thickness_high");
            assert("shutdownrequired"@.len() != "ice_thickness_high"@.len());
            reveal_strlit("ice_accumulation_fast");
            assert("shutdownrequired"@.len() != "ice_accumulation_fast"@.len());
            reveal_strlit("ice_load_critical");
            assert("shutdownrequired"@.len() != "ice_load_critical"@.len());
            reveal_strlit("temperature_extreme");
            assert("shutdownrequired"@.len() != "temperature_extreme"@.len());
            reveal_strlit("sensor_fault");
            assert("shutdownrequired"@.len() != "sensor_fault"@.len());
            reveal_strlit("communication_error");
            assert("shutdownrequired"@.len() != "communication_error"@.len());
            reveal_strlit("power_failure");
            assert("shutdownrequired"@.len() != "power_failure"@.len());
            reveal_strlit("video_verification_required");
            assert("shutdownrequired"@.len() != "video_verification_required"@.len());
            reveal_strlit("shutdown_recommended");
            assert("shutdownrequired"@.len() != "shutdown_recommended"@.len());
            reveal_strlit("shutdown_required");
            assert("shutdownrequired"@.len() != "shutdown_required"@.len());
        },
        AlertType::SystemError => {
            reveal_strlit("systemerror");
            reveal_strlit("vibration_high");
            assert("systemerror"@.len() != "vibration_high"@.len());
            reveal_strlit("vibration_anomaly");
            assert("systemerror"@.len() != "vibration_anomaly"@.len());
            reveal_strlit("wind_speed_high");
            assert("systemerror"@.len() != "wind_speed_high"@.len());
            reveal_strlit("wind_gust_high");
            assert("systemerror"@.len() != "wind_gust_high"@.len());
            reveal_strlit("ice_thickness_high");
            assert("systemerror"@.len() != "ice_thickness_high"@.len());
            reveal_strlit("ice_accumulation_fast");
            assert("systemerror"@.len() != "ice_accumulation_fast"@.len());
            reveal_strlit("ice_load_critical");
            assert("systemerror"@.len() != "ice_load_critical"@.len());
            reveal_strlit("temperature_extreme");
            assert("systemerror"@.len() != "temperature_extreme"@.len());
            reveal_strlit("sensor_fault");
            assert("systemerror"@.len() != "sensor_fault"@.len());
            reveal_strlit("communication_error");
            assert("systemerror"@.len() != "communication_error"@.len());
            reveal_strlit("power_failure");
            assert("systemerror"@.len() != "power_failure"@.len());
            reveal_strlit("video_verification_required");
            assert("systemerror"@.len() != "video_verification_required"@.len());
            reveal_strlit("shutdown_recommended");
            assert("systemerror"@.len() != "shutdown_recommended"@.len());
            reveal_strlit("shutdown_required");
            assert("systemerror"@.len() != "shutdown_required"@.len());
        },
    }
}

} // verus!

verus! {

/// Names the text that chrono writes for a Unix time (whole seconds, UTC)
/// with `to_rfc3339`.
pub uninterp spec fn rfc3339_text(secs: i64) -> Seq<char>;

/// Times (Unix seconds) that chrono can hold: its years run from -262143 to
/// 262142, which covers every time within 8 * 10^12 seconds of the epoch.
pub open spec fn chrono_time_in_range(secs: int) -> bool {
    -8_000_000_000_000 <= secs <= 8_000_000_000_000
}

/// Calls `chrono::DateTime::<chrono::Utc>::from_timestamp(secs, 0)` and, when
/// it gives a time, its `to_rfc3339()`. The text is named, not spelled out.
/// The contract states that a time is given for every input within
/// 8 * 10^12 seconds of the epoch (chrono's range is some 262,000 years either
/// way); it does not say where between that bound and the end of chrono's
/// range the result turns to `None`.
#[verifier::external_body]
fn rfc3339(secs: i64) -> (r: Option<String>)
    ensures
        r matches Some(s) ==> s@ == rfc3339_text(secs),
        chrono_time_in_range(secs as int) ==> r is Some,
{
    match chrono::DateTime::<chrono::Utc>::from_timestamp(secs, 0) {
        Some(t) => Some(t.to_rfc3339()),
        None => None,
    }
}

/// The start of the query that lists alerts from a database.
pub open spec fn alerts_select(database: Seq<char>) -> Seq<char> {
    "SELECT id, tower_id, alert_type, severity, status, title, description,\n             threshold_value, actual_value, unit, created_at, updated_at,\n             acknowledged_at, acknowledged_by, resolved_at, resolved_by,\n             resolution_notes, video_verification_id\n             FROM "@
        + database + ".alerts\n             WHERE 1=1"@
}

/// The query that lists alerts, and its parameters, given the texts of the
/// time bounds: a condition for each filter given (tower, status, severity,
/// start, end; the kind is not filtered on), newest first, on the page asked
/// for (pages of 50 by default).
pub open spec fn alerts_query_text(database: Seq<char>, q: AlertQuery, start: Option<Seq<char>>, end: Option<Seq<char>>)
    -> (Seq<char>, Seq<Seq<char>>)
{
    let s0 = alerts_select(database);
    let p0: Seq<Seq<char>> = Seq::empty();
    let (s1, p1) = match q.tower_id { Some(t) => (s0 + " AND tower_id = ?"@, p0.push(uuid_text(t))), None => (s0, p0) };
    let (s2, p2) = match q.status { Some(x) => (s1 + " AND status = ?"@, p1.push(status_column(x))), None => (s1, p1) };
    let (s3, p3) = match q.severity { Some(x) => (s2 + " AND severity = ?"@, p2.push(severity_column(x))), None => (s2, p2) };
    let (s4, p4) = match start { Some(x) => (s3 + " AND created_at >= ?"@, p3.push(x)), None => (s3, p3) };
    let (s5, p5) = match end { Some(x) => (s4 + " AND created_at <= ?"@, p4.push(x)), None => (s4, p4) };
    let page: nat = match q.page { Some(p) => p as nat, None => 0 };
    let size: nat = match q.page_size { Some(p) => p as nat, None => 50 };
    (s5 + " ORDER BY created_at DESC"@ + " LIMIT "@ + decimal_text(size) + " OFFSET "@ + decimal_text(page * size), p5)
}

/// The characters of an optional text.
pub open spec fn text_of(s: Option<String>) -> Option<Seq<char>> {
    match s {
        Some(t) => Some(t@),
        None => None,
    }
}

fn push_param(params: &mut Vec<String>, p: String)
    ensures
        final(params)@.map_values(|s: String| s@) == old(params)@.map_values(|s: String| s@).push(p@),
{
    let ghost before = params@;
    params.push(p);
    assert(params@.map_values(|s: String| s@) =~= before.map_values(|s: String| s@).push(p@));
}

/// The server the platform keeps its records in: the address the connection
/// is made to and the database whose tables hold the records.
#[derive(Debug, Clone)]
pub struct ClickHouseClient {
    pub url: String,
    pub database: String,
}

impl ClickHouseClient {
    /// A client of the database `database` on the server at `url`.
    pub fn new(url: String, database: String) -> (r: Self)
        ensures
            r.url == url,
            r.database == database,
    {
        ClickHouseClient { url, database }
    }

    /// The statement that creates the database when it does not exist.
    pub fn init_database_query(&self) -> (r: String)
        ensures
            r@ == "CREATE DATABASE IF NOT EXISTS "@ + self.database@,
    {
        let mut sql = String::from_str("CREATE DATABASE IF NOT EXISTS ");
        sql.append(self.database.as_str());
        sql
    }

    /// Builds the query that lists alerts, given the texts of its time bounds.
    pub fn alerts_query_with(&self, q: &AlertQuery, start: Option<String>, end: Option<String>) -> (r: (String, Vec<String>))
        requires
            match q.page { Some(p) => p as int, None => 0 } * match q.page_size { Some(p) => p as int, None => 50 } <= u32::MAX,
        ensures
            ({
                let (text, params) = alerts_query_text(self.database@, *q, text_of(start), text_of(end));
                r.0@ == text && r.1@.map_values(|s: String| s@) == params
            }),
    {
        let ghost start_view = text_of(start);
        let ghost end_view = text_of(end);
        let mut sql = String::from_str(
            "SELECT id, tower_id, alert_type, severity, status, title, description,\n             threshold_value, actual_value, unit, created_at, updated_at,\n             acknowledged_at, acknowledged_by, resolved_at, resolved_by,\n             resolution_notes, video_verification_id\n             FROM ",
        );
        sql.append(self.database.as_str());
        sql.append(".alerts\n             WHERE 1=1");
        let mut params: Vec<String> = Vec::new();
        assert(params@.map_values(|s: String| s@) =~= Seq::<Seq<char>>::empty());
        match q.tower_id {
            Some(t) => {
                sql.append(" AND tower_id = ?");
                push_param(&mut params, uuid_string(t));
            }
            None => {}
        }
        match q.status {
            Some(x) => {
                sql.append(" AND status = ?");
                push_param(&mut params, String::from_str(status_text(x)));
            }
            None => {}
        }
        match q.severity {
            Some(x) => {
                sql.append(" AND severity = ?");
                push_param(&mut params, String::from_str(severity_text(x)));
            }
            None => {}
        }
        match start {
            Some(x) => {
                sql.append(" AND created_at >= ?");
                push_param(&mut params, x);
            }
            None => {}
        }
        match end {
            Some(x) => {
                sql.append(" AND created_at <= ?");
                push_param(&mut params, x);
            }
            None => {}
        }
        sql.append(" ORDER BY created_at DESC");
        let page: u32 = match q.page { Some(p) => p, None => 0 };
        let size: u32 = match q.page_size { Some(p) => p, None => 50 };
        sql.append(" LIMIT ");
        append_decimal(&mut sql, size as u64);
        sql.append(" OFFSET ");
        append_decimal(&mut sql, (page * size) as u64);
        proof {
            let (text, ps) = alerts_query_text(self.database@, *q, start_view, end_view);
            assert(sql@ =~= text);
        }
        (sql, params)
    }

    /// Builds the query that lists alerts from a database, writing its time bounds
    /// as RFC 3339 texts; `None` only when a bound is outside the range of times
    /// that chrono can write, so always a query for bounds within 8 * 10^12
    /// seconds of the epoch.
    pub fn alerts_query(&self, q: &AlertQuery) -> (r: Option<(String, Vec<String>)>)
        requires
            match q.page { Some(p) => p as int, None => 0 } * match q.page_size { Some(p) => p as int, None => 50 } <= u32::MAX,
        ensures
            r matches Some((text, params)) ==> ({
                let (t, p) = alerts_query_text(self.database@, *q,
                    match q.start_time { Some(s) => Some(rfc3339_text(s)), None => None },
                    match q.end_time { Some(s) => Some(rfc3339_text(s)), None => None });
                text@ == t && params@.map_values(|s: String| s@) == p
            }),
            (match q.start_time { Some(t) => chrono_time_in_range(t as int), None => true })
                && (match q.end_time { Some(t) => chrono_time_in_range(t as int), None => true })
                ==> r.is_some(),
    {
        let start = match q.start_time {
            Some(s) => match rfc3339(s) {
                Some(t) => Some(t),
                None => return None,
            },
            None => None,
        };
        let end = match q.end_time {
            Some(s) => match rfc3339(s) {
                Some(t) => Some(t),
                None => return None,
            },
            None => None,
        };
        Some(self.alerts_query_with(q, start, end))
    }

}

/// A stored alert row: kind, severity and status as stored texts.
#[derive(Debug, Clone)]
pub struct AlertRow {
    pub id: u128,
    pub tower_id: u128,
    pub alert_type: String,
    pub severity: String,
    pub status: String,
    pub title: String,
    pub description: String,
    pub threshold_value: Option<i64>,
    pub actual_value: Option<i64>,
    pub unit: Option<String>,
    pub created_at: i64,
    pub updated_at: i64,
    pub acknowledged_at: Option<i64>,
    pub acknowledged_by: Option<u128>,
    pub resolved_at: Option<i64>,
    pub resolved_by: Option<u128>,
    pub resolution_notes: Option<String>,
    pub video_verification_id: Option<u128>,
}

/// The row an alert is stored as.
pub fn alert_row(a: &Alert) -> (r: AlertRow)
    ensures
        r.id == a.id,
        r.tower_id == a.tower_id,
        r.alert_type@ == alert_type_column(a.alert_type),
        r.severity@ == severity_column(a.severity),
        r.status@ == status_column(a.status),
        r.title == a.title,
        r.description == a.description,
        r.threshold_value == a.threshold_value,
        r.actual_value == a.actual_value,
        r.unit == a.unit,
        r.created_at == a.created_at,
        r.updated_at == a.updated_at,
        r.acknowledged_at == a.acknowledged_at,
        r.acknowledged_by == a.acknowledged_by,
        r.resolved_at == a.resolved_at,
        r.resolved_by == a.resolved_by,
        r.resolution_notes == a.resolution_notes,
        r.video_verification_id == a.video_verification_id,
{
    AlertRow {
        id: a.id,
        tower_id: a.tower_id,
        alert_type: String::from_str(alert_type_text(a.alert_type)),
        severity: String::from_str(severity_text(a.severity)),
        status: String::from_str(status_text(a.status)),
        title: a.title.clone(),
        description: a.description.clone(),
        threshold_value: a.threshold_value,
        actual_value: a.actual_value,
        unit: match &a.unit { Some(u) => Some(u.clone()), None => None },
        created_at: a.created_at,
        updated_at: a.updated_at,
        acknowledged_at: a.acknowledged_at,
        acknowledged_by: a.acknowledged_by,
        resolved_at: a.resolved_at,
        resolved_by: a.resolved_by,
        resolution_notes: match &a.resolution_notes { Some(n) => Some(n.clone()), None => None },
        video_verification_id: a.video_verification_id,
    }
}

/// Reads an alert back from its row: raised by the system, linked to no data.
pub fn alert_from_row(r: AlertRow) -> (a: Alert)
    ensures
        a.id == r.id,
        a.tower_id == r.tower_id,
        a.alert_type == alert_type_from_column(r.alert_type@),
        a.severity == severity_from_column(r.severity@),
        a.status == status_from_column(r.status@),
        a.title == r.title,
        a.description == r.description,
        a.triggered_by matches AlertTrigger::System { component, error_code }
            && component@ == "system"@ && error_code@ == Seq::<char>::empty(),
        a.threshold_value == r.threshold_value,
        a.actual_value == r.actual_value,
        a.unit == r.unit,
        a.created_at == r.created_at,
        a.updated_at == r.updated_at,
        a.acknowledged_at == r.acknowledged_at,
        a.acknowledged_by == r.acknowledged_by,
        a.resolved_at == r.resolved_at,
        a.resolved_by == r.resolved_by,
        a.resolution_notes == r.resolution_notes,
        a.video_verification_id == r.video_verification_id,
        a.related_data_ids@.len() == 0,
{
    let alert_type = alert_type_from_text(r.alert_type.as_str());
    let severity = severity_from_text(r.severity.as_str());
    let status = status_from_text(r.status.as_str());
    Alert {
        id: r.id,
        tower_id: r.tower_id,
        alert_type,
        severity,
        status,
        title: r.title,
        description: r.description,
        triggered_by: AlertTrigger::System { component: String::from_str("system"), error_code: String::new() },
        threshold_value: r.threshold_value,
        actual_value: r.actual_value,
        unit: r.unit,
        created_at: r.created_at,
        updated_at: r.updated_at,
        acknowledged_at: r.acknowledged_at,
        acknowledged_by: r.acknowledged_by,
        resolved_at: r.resolved_at,
        resolved_by: r.resolved_by,
        resolution_notes: r.resolution_notes,
        video_verification_id: r.video_verification_id,
        related_data_ids: Vec::new(),
    }
}

} // verus!
