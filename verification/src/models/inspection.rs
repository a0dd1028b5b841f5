use vstd::prelude::*;
use crate::text::{equals_ignoring_case, same_word_ignoring_case};

verus! {

/// An inspection of a tower; times are Unix seconds.
#[derive(Debug, Clone)]
pub struct InspectionRecord {
    pub id: u128,
    pub tower_id: u128,
    pub inspection_type: InspectionType,
    pub status: InspectionStatus,
    pub inspector_id: u128,
    pub inspector_name: String,
    pub scheduled_date: i64,
    pub start_time: Option<i64>,
    pub end_time: Option<i64>,
    pub duration_minutes: Option<i64>,
    pub weather_conditions: super::shutdown_strategy::WeatherConditions,
    pub check_items: Vec<InspectionCheckItem>,
    pub overall_condition: OverallCondition,
    pub findings: Vec<InspectionFinding>,
    pub recommendations: Vec<String>,
    pub follow_up_required: bool,
    pub follow_up_date: Option<i64>,
    pub notes: Option<String>,
    pub attachments: Vec<Attachment>,
    pub created_at: i64,
    pub updated_at: i64,
}

#[derive(Debug, Clone, Copy, PartialEq, Eq, Structural, Hash)]
pub enum InspectionType {
    Routine,
    AfterStorm,
    AfterShutdown,
    Complaint,
    PreventiveMaintenance,
    Emergency,
    Annual,
    Seasonal,
}

#[derive(Debug, Clone, Copy, PartialEq, Eq, Structural, Hash)]
pub enum InspectionStatus {
    Scheduled,
    InProgress,
    Completed,
    Cancelled,
    Overdue,
}

impl Default for InspectionStatus {
    fn default() -> (r: Self)
        ensures
            r == InspectionStatus::Scheduled,
    {
        InspectionStatus::Scheduled
    }
}

#[derive(Debug, Clone, Copy, PartialEq, Eq, Structural, Hash)]
pub enum OverallCondition {
    Excellent,
    Good,
    Fair,
    Poor,
    Critical,
}

#[derive(Debug, Clone)]
pub struct InspectionCheckItem {
    pub id: u128,
    pub category: String,
    pub item_name: String,
    pub description: String,
    pub is_checked: bool,
    pub condition: ItemCondition,
    pub notes: Option<String>,
    pub photo_url: Option<String>,
}

#[derive(Debug, Clone, Copy, PartialEq, Eq, Structural)]
pub enum ItemCondition {
    NotApplicable,
    Good,
    MinorIssue,
    MajorIssue,
    Failed,
}

/// A finding of an inspection; the repair cost is in hundredths of the currency unit.
#[derive(Debug, Clone)]
pub struct InspectionFinding {
    pub id: u128,
    pub severity: FindingSeverity,
    pub category: String,
    pub description: String,
    pub location: String,
    pub estimated_repair_cost: Option<i64>,
    pub priority: Priority,
    pub requires_immediate_action: bool,
    pub status: FindingStatus,
    pub resolution_date: Option<i64>,
    pub resolution_notes: Option<String>,
}

#[derive(Debug, Clone, Copy, PartialEq, Eq, Structural, PartialOrd, Ord)]
pub enum FindingSeverity {
    Cosmetic,
    Minor,
    Moderate,
    Major,
    Critical,
    Safety,
}

impl FindingSeverity {
    /// Position in declaration order, the order that the derived `Ord` follows.
    pub open spec fn spec_rank(self) -> int {
        match self {
            FindingSeverity::Cosmetic => 0,
            FindingSeverity::Minor => 1,
            FindingSeverity::Moderate => 2,
            FindingSeverity::Major => 3,
            FindingSeverity::Critical => 4,
            FindingSeverity::Safety => 5,
        }
    }

    /// Position in declaration order.
    pub fn rank(&self) -> (r: u8)
        ensures
            r == self.spec_rank(),
    {
        match self {
            FindingSeverity::Cosmetic => 0,
            FindingSeverity::Minor => 1,
            FindingSeverity::Moderate => 2,
            FindingSeverity::Major => 3,
            FindingSeverity::Critical => 4,
            FindingSeverity::Safety => 5,
        }
    }
}

#[derive(Debug, Clone, Copy, PartialEq, Eq, Structural, PartialOrd, Ord)]
pub enum Priority {
    Low,
    Medium,
    High,
    Urgent,
    Immediate,
}

impl Priority {
    /// Position in declaration order, the order that the derived `Ord` follows.
    pub open spec fn spec_rank(self) -> int {
        match self {
            Priority::Low => 0,
            Priority::Medium => 1,
            Priority::High => 2,
            Priority::Urgent => 3,
            Priority::Immediate => 4,
        }
    }

    /// Position in declaration order.
    pub fn rank(&self) -> (r: u8)
        ensures
            r == self.spec_rank(),
    {
        match self {
            Priority::Low => 0,
            Priority::Medium => 1,
            Priority::High => 2,
            Priority::Urgent => 3,
            Priority::Immediate => 4,
        }
    }
}

#[derive(Debug, Clone, Copy, PartialEq, Eq, Structural, PartialOrd, Ord)]
pub enum MaintenancePriority {
    Low,
    Medium,
    High,
    Critical,
}

impl MaintenancePriority {
    /// Position in declaration order, the order that the derived `Ord` follows.
    pub open spec fn spec_rank(self) -> int {
        match self {
            MaintenancePriority::Low => 0,
            MaintenancePriority::Medium => 1,
            MaintenancePriority::High => 2,
            MaintenancePriority::Critical => 3,
        }
    }

    /// Position in declaration order.
    pub fn rank(&self) -> (r: u8)
        ensures
            r == self.spec_rank(),
    {
        match self {
            MaintenancePriority::Low => 0,
            MaintenancePriority::Medium => 1,
            MaintenancePriority::High => 2,
            MaintenancePriority::Critical => 3,
        }
    }
}

#[derive(Debug, Clone, Copy, PartialEq, Eq, Structural)]
pub enum FindingStatus {
    Open,
    InProgress,
    Resolved,
    Monitor,
    Closed,
}

impl Default for FindingStatus {
    fn default() -> (r: Self)
        ensures
            r == FindingStatus::Open,
    {
        FindingStatus::Open
    }
}

#[derive(Debug, Clone)]
pub struct Attachment {
    pub id: u128,
    pub file_name: String,
    pub file_type: String,
    pub file_size_bytes: i64,
    pub url: String,
    pub description: Option<String>,
    pub uploaded_at: i64,
}

#[derive(Debug, Clone)]
pub struct CreateInspectionRequest {
    pub tower_id: u128,
    pub inspection_type: InspectionType,
    pub inspector_id: u128,
    pub inspector_name: String,
    pub scheduled_date: i64,
    pub check_items: Vec<InspectionCheckItem>,
}

#[derive(Debug, Clone)]
pub struct UpdateInspectionRequest {
    pub status: Option<InspectionStatus>,
    pub start_time: Option<i64>,
    pub end_time: Option<i64>,
    pub overall_condition: Option<OverallCondition>,
    pub findings: Option<Vec<InspectionFinding>>,
    pub recommendations: Option<Vec<String>>,
    pub notes: Option<String>,
    pub weather_conditions: Option<super::shutdown_strategy::WeatherConditions>,
}

/// A maintenance task; costs are in hundredths of the currency unit and labour
/// in hundredths of an hour.
#[derive(Debug, Clone)]
pub struct MaintenanceTask {
    pub id: u128,
    pub tower_id: u128,
    pub source_inspection_id: Option<u128>,
    pub source_finding_id: Option<u128>,
    pub task_type: String,
    pub description: String,
    pub priority: Priority,
    pub status: MaintenanceStatus,
    pub assigned_to: Option<u128>,
    pub scheduled_date: Option<i64>,
    pub due_date: Option<i64>,
    pub completed_date: Option<i64>,
    pub estimated_cost: Option<i64>,
    pub actual_cost: Option<i64>,
    pub parts_used: Vec<String>,
    pub labor_hours: Option<i64>,
    pub notes: Option<String>,
    pub created_at: i64,
    pub updated_at: i64,
}

#[derive(Debug, Clone, Copy, PartialEq, Eq, Structural)]
pub enum MaintenanceStatus {
    Pending,
    Scheduled,
    InProgress,
    OnHold,
    Completed,
    Cancelled,
    Overdue,
}

impl Default for MaintenanceStatus {
    fn default() -> (r: Self)
        ensures
            r == MaintenanceStatus::Pending,
    {
        MaintenanceStatus::Pending
    }
}

#[derive(Debug, Clone)]
pub struct InspectionQuery {
    pub tower_id: Option<u128>,
    pub inspection_type: Option<InspectionType>,
    pub status: Option<InspectionStatus>,
    pub overall_condition: Option<OverallCondition>,
    pub inspector_id: Option<u128>,
    pub start_date: Option<i64>,
    pub end_date: Option<i64>,
    pub page: Option<u32>,
    pub page_size: Option<u32>,
}

#[derive(Debug, Clone, Copy, PartialEq, Eq, Structural)]
pub enum CheckCategory {
    Foundation,
    Structure,
    Cable,
    Sensor,
    Machinery,
    Electrical,
    Safety,
    General,
}

#[derive(Debug, Clone, Copy, PartialEq, Eq, Structural)]
pub enum CheckResult {
    Pass,
    Warning,
    Fail,
    NotApplicable,
    Deferred,
}

#[derive(Debug, Clone, Copy, PartialEq, Eq, Structural)]
pub enum FindingType {
    Corrosion,
    LooseConnection,
    StructuralDamage,
    Wear,
    Misalignment,
    ElectricalFault,
    SensorFault,
    SafetyHazard,
    Other,
}

#[derive(Debug, Clone, Copy, PartialEq, Eq, Structural)]
pub enum MaintenanceType {
    Repair,
    Replacement,
    Lubrication,
    Adjustment,
    Calibration,
    Cleaning,
    Inspection,
    Upgrade,
}

/// A report over a period; the average score is in hundredths of a point.
#[derive(Debug, Clone)]
pub struct InspectionReport {
    pub id: u128,
    pub tower_id: u128,
    pub report_period_start: i64,
    pub report_period_end: i64,
    pub generated_at: i64,
    pub total_inspections: u32,
    pub total_findings: u32,
    pub critical_findings: u32,
    pub resolved_findings: u32,
    pub maintenance_tasks_created: u32,
    pub maintenance_tasks_completed: u32,
    pub maintenance_tasks_pending: u32,
    pub high_priority_tasks: u32,
    pub average_inspection_score: i64,
    pub recommendations: Vec<String>,
    pub next_inspection_date: i64,
    pub prepared_by: Option<String>,
}

} // verus!

verus! {

impl MaintenancePriority {
    /// The priority a name stands for, whatever the case of its letters.
    pub open spec fn from_text_spec(s: Seq<char>) -> Option<MaintenancePriority> {
        if equals_ignoring_case(s, "low"@) {
            Some(MaintenancePriority::Low)
        } else if equals_ignoring_case(s, "medium"@) {
            Some(MaintenancePriority::Medium)
        } else if equals_ignoring_case(s, "high"@) {
            Some(MaintenancePriority::High)
        } else if equals_ignoring_case(s, "critical"@) {
            Some(MaintenancePriority::Critical)
        } else {
            None
        }
    }

    /// Reads a priority from its name, whatever the case of its letters.
    pub fn from_text(s: &str) -> (r: Result<MaintenancePriority, String>)
        ensures
            match MaintenancePriority::from_text_spec(s@) {
                Some(p) => r == Ok::<MaintenancePriority, String>(p),
                None => r matches Err(e) && e@ == "Invalid maintenance priority: "@ + s@,
            },
    {
        proof {
            reveal_strlit("low");
            reveal_strlit("medium");
            reveal_strlit("high");
            reveal_strlit("critical");
        }
        if same_word_ignoring_case(s, "low") {
            Ok(MaintenancePriority::Low)
        } else if same_word_ignoring_case(s, "medium") {
            Ok(MaintenancePriority::Medium)
        } else if same_word_ignoring_case(s, "high") {
            Ok(MaintenancePriority::High)
        } else if same_word_ignoring_case(s, "critical") {
            Ok(MaintenancePriority::Critical)
        } else {
            let mut e = String::from_str("Invalid maintenance priority: ");
            e.append(s);
            Err(e)
        }
    }
}

impl std::str::FromStr for MaintenancePriority {
    type Err = String;

    /// Reads a priority from its name, whatever the case of its letters.
    fn from_str(s: &str) -> (r: Result<MaintenancePriority, String>)
        ensures
            match MaintenancePriority::from_text_spec(s@) {
                Some(p) => r == Ok::<MaintenancePriority, String>(p),
                None => r matches Err(e) && e@ == "Invalid maintenance priority: "@ + s@,
            },
    {
        MaintenancePriority::from_text(s)
    }
}

} // verus!
