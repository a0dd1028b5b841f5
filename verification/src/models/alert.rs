use vstd::prelude::*;

verus! {

/// An alert raised against a tower. Identifiers are the 128-bit values of
/// UUIDs, times are Unix seconds, and measured values are in hundredths of `unit`.
#[derive(Debug, Clone)]
pub struct Alert {
    pub id: u128,
    pub tower_id: u128,
    pub alert_type: AlertType,
    pub severity: AlertSeverity,
    pub status: AlertStatus,
    pub title: String,
    pub description: String,
    pub triggered_by: AlertTrigger,
    pub threshold_value: Option<i64>,
    pub actual_value: Option<i64>,
    pub unit: Option<String>,
    pub created_at: i64,
    pub updated_at: i64,
    pub acknowledged_at: Option<i64>,
    pub acknowledged_by: Option<u128>,
    pub resolved_at: Option<i64>,
    pub resolved_by: Option<u128>,
    pub resolution_notes: Option<String>,
    pub video_verification_id: Option<u128>,
    pub related_data_ids: Vec<u128>,
}

/// The message form of an alert, as it is published and pushed to clients.
#[derive(Debug, Clone)]
pub struct AlertMessage {
    pub alert_id: u128,
    pub tower_id: u128,
    pub tower_name: String,
    pub alert_type: AlertType,
    pub severity: AlertSeverity,
    pub title: String,
    pub description: String,
    pub actual_value: Option<i64>,
    pub threshold_value: Option<i64>,
    pub unit: Option<String>,
    pub timestamp: i64,
    pub risk_level: super::tower::RiskLevel,
}

#[derive(Debug, Clone, Copy, PartialEq, Eq, Structural, Hash)]
pub enum AlertType {
    VibrationHigh,
    VibrationAnomaly,
    WindSpeedHigh,
    WindGustHigh,
    IceThicknessHigh,
    IceAccumulationFast,
    IceLoadCritical,
    TemperatureExtreme,
    SensorFault,
    CommunicationError,
    PowerFailure,
    VideoVerificationRequired,
    ShutdownRecommended,
    ShutdownRequired,
    SystemError,
}

#[derive(Debug, Clone, Copy, PartialEq, Eq, Structural, PartialOrd, Ord, Hash)]
pub enum AlertSeverity {
    Info,
    Warning,
    High,
    Critical,
    Emergency,
}

impl AlertSeverity {
    /// Position in declaration order, the order that the derived `Ord` follows.
    pub open spec fn spec_rank(self) -> int {
        match self {
            AlertSeverity::Info => 0,
            AlertSeverity::Warning => 1,
            AlertSeverity::High => 2,
            AlertSeverity::Critical => 3,
            AlertSeverity::Emergency => 4,
        }
    }

    /// Position in declaration order.
    pub fn rank(&self) -> (r: u8)
        ensures
            r == self.spec_rank(),
    {
        match self {
            AlertSeverity::Info => 0,
            AlertSeverity::Warning => 1,
            AlertSeverity::High => 2,
            AlertSeverity::Critical => 3,
            AlertSeverity::Emergency => 4,
        }
    }
}

impl Default for AlertSeverity {
    fn default() -> (r: Self)
        ensures
            r == AlertSeverity::Info,
    {
        AlertSeverity::Info
    }
}

#[derive(Debug, Clone, Copy, PartialEq, Eq, Structural)]
pub enum AlertStatus {
    Open,
    Acknowledged,
    InProgress,
    Resolved,
    Closed,
    FalseAlarm,
}

impl Default for AlertStatus {
    fn default() -> (r: Self)
        ensures
            r == AlertStatus::Open,
    {
        AlertStatus::Open
    }
}

/// What raised an alert. A confidence is in hundredths of a percent.
#[derive(Debug, Clone)]
pub enum AlertTrigger {
    SensorReading { sensor_id: u128, reading_id: u128 },
    AnalysisResult { analysis_id: u128, analysis_type: String },
    VideoVerification { verification_id: u128, confidence: i64 },
    Manual { user_id: u128, reason: String },
    System { component: String, error_code: String },
}

#[derive(Debug, Clone)]
pub struct CreateAlertRequest {
    pub tower_id: u128,
    pub alert_type: AlertType,
    pub severity: AlertSeverity,
    pub title: String,
    pub description: String,
    pub triggered_by: AlertTrigger,
    pub threshold_value: Option<i64>,
    pub actual_value: Option<i64>,
    pub unit: Option<String>,
}

#[derive(Debug, Clone)]
pub struct AcknowledgeAlertRequest {
    pub user_id: u128,
    pub notes: Option<String>,
}

#[derive(Debug, Clone)]
pub struct ResolveAlertRequest {
    pub user_id: u128,
    pub resolution_notes: String,
    pub new_status: AlertStatus,
}

#[derive(Debug, Clone)]
pub struct AlertQuery {
    pub tower_id: Option<u128>,
    pub alert_type: Option<AlertType>,
    pub severity: Option<AlertSeverity>,
    pub status: Option<AlertStatus>,
    pub start_time: Option<i64>,
    pub end_time: Option<i64>,
    pub page: Option<u32>,
    pub page_size: Option<u32>,
}

#[derive(Debug, Clone)]
pub struct AlertSummary {
    pub total_open: u32,
    pub total_acknowledged: u32,
    pub by_severity: std::collections::HashMap<AlertSeverity, u32>,
    pub by_type: std::collections::HashMap<AlertType, u32>,
    pub last_24h_count: u32,
    pub unresolved_critical: u32,
}

} // verus!
