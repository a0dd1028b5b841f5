use vstd::prelude::*;

verus! {

/// A shutdown strategy for a tower; times are Unix seconds. The type is that
/// of the shutdown decided, none for a conditional strategy or one without
/// any shutdown.
#[derive(Debug, Clone)]
pub struct ShutdownStrategy {
    pub id: u128,
    pub tower_id: u128,
    pub strategy_type: Option<ShutdownType>,
    pub status: StrategyStatus,
    pub severity: StrategySeverity,
    pub title: String,
    pub description: String,
    pub trigger_conditions: Vec<TriggerCondition>,
    pub action_steps: Vec<ActionStep>,
    pub estimated_duration_minutes: i64,
    pub affected_area: String,
    pub safety_measures: Vec<String>,
    pub created_at: i64,
    pub updated_at: i64,
    pub triggered_at: Option<i64>,
    pub executed_by: Option<u128>,
    pub approved_by: Option<u128>,
    pub related_alert_ids: Vec<u128>,
    pub auto_approve: bool,
}

#[derive(Debug, Clone, Copy, PartialEq, Eq, Structural)]
pub enum ShutdownType {
    Preemptive,
    Emergency,
    Scheduled,
    Manual,
    Recovery,
}

#[derive(Debug, Clone, Copy, PartialEq, Eq, Structural)]
pub enum StrategyStatus {
    Draft,
    PendingApproval,
    Approved,
    Triggered,
    Executing,
    Completed,
    Cancelled,
    Expired,
}

impl Default for StrategyStatus {
    fn default() -> (r: Self)
        ensures
            r == StrategyStatus::Draft,
    {
        StrategyStatus::Draft
    }
}

#[derive(Debug, Clone, Copy, PartialEq, Eq, Structural, PartialOrd, Ord)]
pub enum StrategySeverity {
    Advisory,
    Watch,
    Warning,
    Severe,
    Extreme,
}

impl StrategySeverity {
    /// Position in declaration order, the order that the derived `Ord` follows.
    pub open spec fn spec_rank(self) -> int {
        match self {
            StrategySeverity::Advisory => 0,
            StrategySeverity::Watch => 1,
            StrategySeverity::Warning => 2,
            StrategySeverity::Severe => 3,
            StrategySeverity::Extreme => 4,
        }
    }

    /// Position in declaration order.
    pub fn rank(&self) -> (r: u8)
        ensures
            r == self.spec_rank(),
    {
        match self {
            StrategySeverity::Advisory => 0,
            StrategySeverity::Watch => 1,
            StrategySeverity::Warning => 2,
            StrategySeverity::Severe => 3,
            StrategySeverity::Extreme => 4,
        }
    }
}

/// A condition of a strategy; the threshold is in hundredths of `unit`.
#[derive(Debug, Clone)]
pub struct TriggerCondition {
    pub id: u128,
    pub condition_type: ConditionType,
    pub metric: String,
    pub operator: ConditionOperator,
    pub threshold: i64,
    pub unit: String,
    pub duration_minutes: Option<i64>,
    pub description: String,
}

#[derive(Debug, Clone, Copy, PartialEq, Eq, Structural)]
pub enum ConditionType {
    VibrationVelocity,
    VibrationFrequency,
    WindSpeed,
    WindGust,
    IceThickness,
    IceAccumulationRate,
    Temperature,
    CombinedRisk,
    VideoConfirmation,
}

#[derive(Debug, Clone, Copy, PartialEq, Eq, Structural)]
pub enum ConditionOperator {
    GreaterThan,
    LessThan,
    GreaterThanOrEqual,
    LessThanOrEqual,
    Equal,
    NotEqual,
}

#[derive(Debug, Clone)]
pub struct ActionStep {
    pub id: u128,
    pub step_number: u32,
    pub action: String,
    pub responsible_role: String,
    pub estimated_duration_minutes: i64,
    pub is_critical: bool,
    pub prerequisites: Vec<u128>,
    pub completion_criteria: String,
}

#[derive(Debug, Clone)]
pub struct CreateStrategyRequest {
    pub tower_id: u128,
    pub strategy_type: ShutdownType,
    pub severity: StrategySeverity,
    pub title: String,
    pub description: String,
    pub trigger_conditions: Vec<TriggerCondition>,
    pub action_steps: Vec<ActionStep>,
    pub estimated_duration_minutes: i64,
    pub affected_area: String,
    pub safety_measures: Vec<String>,
    pub auto_approve: bool,
}

#[derive(Debug, Clone)]
pub struct ExecuteStrategyRequest {
    pub strategy_id: u128,
    pub executed_by: u128,
    pub notes: Option<String>,
}

/// The result of evaluating a strategy; the score is in hundredths of a point.
#[derive(Debug, Clone)]
pub struct StrategyEvaluationResult {
    pub strategy_id: u128,
    pub tower_id: u128,
    pub evaluation_time: i64,
    pub should_trigger: bool,
    pub trigger_reason: Option<String>,
    pub met_conditions: Vec<u128>,
    pub unmet_conditions: Vec<u128>,
    pub overall_risk_score: i64,
    pub recommendation: String,
}

/// A log of a shutdown; the economic impact is in hundredths of the currency unit.
#[derive(Debug, Clone)]
pub struct ShutdownLog {
    pub id: u128,
    pub strategy_id: u128,
    pub tower_id: u128,
    pub shutdown_type: ShutdownType,
    pub start_time: i64,
    pub end_time: Option<i64>,
    pub duration_minutes: Option<i64>,
    pub reason: String,
    pub executed_by: u128,
    pub passengers_affected: Option<u32>,
    pub economic_impact: Option<i64>,
    pub weather_conditions: WeatherConditions,
    pub safety_incidents: Vec<String>,
    pub created_at: i64,
}

/// Weather at an event: temperature in hundredths of a degree Celsius, wind in
/// hundredths of m/s, direction in hundredths of a degree, ice in hundredths
/// of a millimetre, visibility in hundredths of a metre.
#[derive(Debug, Clone)]
pub struct WeatherConditions {
    pub temperature_c: i64,
    pub wind_speed_ms: i64,
    pub wind_direction_deg: i64,
    pub ice_thickness_mm: Option<i64>,
    pub visibility_m: Option<i64>,
    pub precipitation_type: Option<super::ice_detection::PrecipitationType>,
}

#[derive(Debug, Clone)]
pub struct RestartPlan {
    pub id: u128,
    pub shutdown_log_id: u128,
    pub tower_id: u128,
    pub planned_restart_time: i64,
    pub required_checks: Vec<RestartCheck>,
    pub status: RestartStatus,
    pub approved_by: Option<u128>,
    pub actual_restart_time: Option<i64>,
    pub created_at: i64,
}

#[derive(Debug, Clone)]
pub struct RestartCheck {
    pub id: u128,
    pub check_name: String,
    pub description: String,
    pub is_completed: bool,
    pub completed_by: Option<u128>,
    pub completed_at: Option<i64>,
    pub notes: Option<String>,
}

#[derive(Debug, Clone, Copy, PartialEq, Eq, Structural)]
pub enum RestartStatus {
    Pending,
    InProgress,
    Ready,
    Approved,
    Completed,
    Cancelled,
}

impl Default for RestartStatus {
    fn default() -> (r: Self)
        ensures
            r == RestartStatus::Pending,
    {
        RestartStatus::Pending
    }
}

#[derive(Debug, Clone, Copy, PartialEq, Eq, Structural, PartialOrd, Ord)]
pub enum UrgencyLevel {
    NoUrgency,
    Low,
    Medium,
    High,
    Immediate,
}

impl UrgencyLevel {
    /// Position in declaration order, the order that the derived `Ord` follows.
    pub open spec fn spec_rank(self) -> int {
        match self {
            UrgencyLevel::NoUrgency => 0,
            UrgencyLevel::Low => 1,
            UrgencyLevel::Medium => 2,
            UrgencyLevel::High => 3,
            UrgencyLevel::Immediate => 4,
        }
    }

    /// Position in declaration order.
    pub fn rank(&self) -> (r: u8)
        ensures
            r == self.spec_rank(),
    {
        match self {
            UrgencyLevel::NoUrgency => 0,
            UrgencyLevel::Low => 1,
            UrgencyLevel::Medium => 2,
            UrgencyLevel::High => 3,
            UrgencyLevel::Immediate => 4,
        }
    }
}

#[derive(Debug, Clone, Copy, PartialEq, Eq, Structural)]
pub enum ShutdownStatus {
    Pending,
    InProgress,
    Completed,
    Cancelled,
    Failed,
}

#[derive(Debug, Clone, Copy, PartialEq, Eq, Structural, PartialOrd, Ord)]
pub enum RiskLevel {
    NoRisk,
    Low,
    Medium,
    High,
    Critical,
}

impl RiskLevel {
    /// Position in declaration order, the order that the derived `Ord` follows.
    pub open spec fn spec_rank(self) -> int {
        match self {
            RiskLevel::NoRisk => 0,
            RiskLevel::Low => 1,
            RiskLevel::Medium => 2,
            RiskLevel::High => 3,
            RiskLevel::Critical => 4,
        }
    }

    /// Position in declaration order.
    pub fn rank(&self) -> (r: u8)
        ensures
            r == self.spec_rank(),
    {
        match self {
            RiskLevel::NoRisk => 0,
            RiskLevel::Low => 1,
            RiskLevel::Medium => 2,
            RiskLevel::High => 3,
            RiskLevel::Critical => 4,
        }
    }
}

impl Default for RiskLevel {
    fn default() -> (r: Self)
        ensures
            r == RiskLevel::NoRisk,
    {
        RiskLevel::NoRisk
    }
}

} // verus!
