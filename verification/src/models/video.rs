use vstd::prelude::*;
use crate::text::{equals_ignoring_case, same_word_ignoring_case};

verus! {

#[derive(Debug, Clone)]
pub struct Camera {
    pub id: u128,
    pub tower_id: u128,
    pub device_id: String,
    pub name: String,
    pub location: String,
    pub mount_position: String,
    pub camera_type: CameraType,
    pub status: CameraStatus,
    pub rtsp_url: Option<String>,
    pub http_url: Option<String>,
    pub resolution: String,
    pub fps: u32,
    pub has_ai_analysis: bool,
    pub ai_model_version: Option<String>,
    pub last_online: Option<i64>,
    pub created_at: i64,
    pub updated_at: i64,
}

#[derive(Debug, Clone, Copy, PartialEq, Eq, Structural)]
pub enum CameraType {
    PTZ,
    Fixed,
    Thermal,
    Dome,
    Bullet,
    Fisheye,
}

#[derive(Debug, Clone, Copy, PartialEq, Eq, Structural)]
pub enum CameraStatus {
    Online,
    Offline,
    Recording,
    Maintenance,
    Faulty,
    Disabled,
}

impl Default for CameraStatus {
    fn default() -> (r: Self)
        ensures
            r == CameraStatus::Offline,
    {
        CameraStatus::Offline
    }
}

#[derive(Debug, Clone)]
pub struct VideoVerificationRequest {
    pub id: u128,
    pub tower_id: u128,
    pub camera_id: u128,
    pub alert_id: Option<u128>,
    pub request_type: VerificationType,
    pub status: VerificationStatus,
    pub priority: super::inspection::Priority,
    pub requested_by: u128,
    pub requested_at: i64,
    pub description: String,
    pub items_to_verify: Vec<String>,
    pub scheduled_time: Option<i64>,
    pub expires_at: Option<i64>,
}

#[derive(Debug, Clone, Copy, PartialEq, Eq, Structural)]
pub enum VerificationType {
    IcePresence,
    IceThickness,
    StructuralDamage,
    CableCondition,
    WindEffect,
    GeneralInspection,
    AlertConfirmation,
    IncidentReview,
}

#[derive(Debug, Clone, Copy, PartialEq, Eq, Structural)]
pub enum VerificationStatus {
    Pending,
    InProgress,
    Completed,
    Expired,
    Cancelled,
}

impl Default for VerificationStatus {
    fn default() -> (r: Self)
        ensures
            r == VerificationStatus::Pending,
    {
        VerificationStatus::Pending
    }
}

/// The result of a video verification; the confidence is in hundredths of a percent.
#[derive(Debug, Clone)]
pub struct VideoVerificationResult {
    pub id: u128,
    pub request_id: u128,
    pub tower_id: u128,
    pub camera_id: u128,
    pub verified_by: Option<u128>,
    pub verification_method: VerificationMethod,
    pub started_at: i64,
    pub completed_at: Option<i64>,
    pub overall_findings: Vec<String>,
    pub ice_verification: Option<IceVerification>,
    pub damage_verification: Option<DamageVerification>,
    pub status_verification: Option<StatusVerification>,
    pub ai_confidence: Option<i64>,
    pub human_review_required: bool,
    pub human_reviewed: bool,
    pub reviewed_by: Option<u128>,
    pub reviewed_at: Option<i64>,
    pub review_notes: Option<String>,
    pub attachments: Vec<VideoAttachment>,
    pub created_at: i64,
}

#[derive(Debug, Clone, Copy, PartialEq, Eq, Structural)]
pub enum VerificationMethod {
    AIOnly,
    HumanOnly,
    AIWithHumanReview,
    LiveStream,
    Snapshot,
    RecordedVideo,
}

/// Ice seen on video: thickness in hundredths of a millimetre, confidence in
/// hundredths of a percent.
#[derive(Debug, Clone)]
pub struct IceVerification {
    pub ice_present: bool,
    pub estimated_thickness_mm: i64,
    pub thickness_confidence: i64,
    pub ice_type: super::ice_detection::IceType,
    pub affected_areas: Vec<String>,
    pub sensor_correlation: SensorCorrelation,
}

#[derive(Debug, Clone)]
pub struct DamageVerification {
    pub damage_detected: bool,
    pub damage_type: String,
    pub damage_severity: super::inspection::FindingSeverity,
    pub damage_location: String,
    pub damage_description: String,
    pub requires_immediate_action: bool,
}

#[derive(Debug, Clone)]
pub struct StatusVerification {
    pub structural_status: StructuralStatus,
    pub cable_tension_status: TensionStatus,
    pub overall_status: super::tower::TowerStatus,
    pub notes: Option<String>,
}

#[derive(Debug, Clone, Copy, PartialEq, Eq, Structural)]
pub enum StructuralStatus {
    Normal,
    MinorConcern,
    MajorConcern,
    CriticalDamage,
}

#[derive(Debug, Clone, Copy, PartialEq, Eq, Structural)]
pub enum TensionStatus {
    Normal,
    SlightlyLoose,
    Loose,
    OverTensioned,
    Critical,
}

/// Sensor and video thickness (hundredths of a millimetre) and their
/// correlation (hundredths).
#[derive(Debug, Clone)]
pub struct SensorCorrelation {
    pub sensor_thickness_mm: i64,
    pub video_thickness_mm: i64,
    pub difference_mm: i64,
    pub correlation_coefficient: i64,
    pub sensor_status: String,
}

#[derive(Debug, Clone)]
pub struct VideoAttachment {
    pub id: u128,
    pub attachment_type: AttachmentType,
    pub file_name: String,
    pub file_size_bytes: i64,
    pub url: String,
    pub thumbnail_url: Option<String>,
    pub captured_at: i64,
    pub description: Option<String>,
    pub ai_annotations: Vec<AIAnnotation>,
}

#[derive(Debug, Clone, Copy, PartialEq, Eq, Structural)]
pub enum AttachmentType {
    Snapshot,
    VideoClip,
    ThermalImage,
    Panorama,
}

/// An annotation; the confidence is in hundredths of a percent.
#[derive(Debug, Clone)]
pub struct AIAnnotation {
    pub id: u128,
    pub annotation_type: String,
    pub label: String,
    pub confidence: i64,
    pub bounding_box: BoundingBox,
    pub mask_coordinates: Option<Vec<Coordinate>>,
}

/// A box in pixels; the confidence is in hundredths of a percent.
#[derive(Debug, Clone)]
pub struct BoundingBox {
    pub x: i32,
    pub y: i32,
    pub width: i32,
    pub height: i32,
    pub label: String,
    pub confidence: i64,
}

/// A point in hundredths of a pixel.
#[derive(Debug, Clone)]
pub struct Coordinate {
    pub x: i64,
    pub y: i64,
}

#[derive(Debug, Clone)]
pub struct CreateVerificationRequest {
    pub tower_id: u128,
    pub camera_id: Option<u128>,
    pub request_type: VerificationType,
    pub priority: super::inspection::Priority,
    pub requested_by: u128,
    pub description: String,
    pub items_to_verify: Vec<String>,
    pub alert_id: Option<u128>,
    pub scheduled_time: Option<i64>,
}

#[derive(Debug, Clone)]
pub struct LiveStreamSession {
    pub id: u128,
    pub camera_id: u128,
    pub tower_id: u128,
    pub user_id: u128,
    pub session_type: SessionType,
    pub started_at: i64,
    pub ended_at: Option<i64>,
    pub duration_seconds: Option<i64>,
    pub stream_url: String,
    pub recording_url: Option<String>,
    pub notes: Option<String>,
}

#[derive(Debug, Clone, Copy, PartialEq, Eq, Structural)]
pub enum SessionType {
    ManualReview,
    AlertResponse,
    ScheduledInspection,
    EmergencyResponse,
    Training,
}

/// The configuration of analysis on a camera; the threshold is in hundredths
/// of a millimetre, confidences in hundredths of a percent.
#[derive(Debug, Clone)]
pub struct AIAnalysisConfig {
    pub id: u128,
    pub camera_id: u128,
    pub ice_detection_enabled: bool,
    pub ice_detection_threshold_mm: i64,
    pub ice_detection_min_confidence: i64,
    pub damage_detection_enabled: bool,
    pub damage_detection_min_confidence: i64,
    pub human_detection_enabled: bool,
    pub auto_verification_trigger: bool,
    pub analysis_interval_seconds: i64,
    pub created_at: i64,
    pub updated_at: i64,
}

#[derive(Debug, Clone, Copy, PartialEq, Eq, Structural, PartialOrd, Ord)]
pub enum VerificationPriority {
    Low,
    Medium,
    High,
    Critical,
}

impl VerificationPriority {
    /// Position in declaration order, the order that the derived `Ord` follows.
    pub open spec fn spec_rank(self) -> int {
        match self {
            VerificationPriority::Low => 0,
            VerificationPriority::Medium => 1,
            VerificationPriority::High => 2,
            VerificationPriority::Critical => 3,
        }
    }

    /// Position in declaration order.
    pub fn rank(&self) -> (r: u8)
        ensures
            r == self.spec_rank(),
    {
        match self {
            VerificationPriority::Low => 0,
            VerificationPriority::Medium => 1,
            VerificationPriority::High => 2,
            VerificationPriority::Critical => 3,
        }
    }
}

#[derive(Debug, Clone, Copy, PartialEq, Eq, Structural)]
pub enum AIAnalysisType {
    IceDetection,
    StructureInspection,
    DamageDetection,
    PersonDetection,
    CableInspection,
    GeneralMonitoring,
}

#[derive(Debug, Clone, Copy, PartialEq, Eq, Structural)]
pub enum StreamType {
    RTSP,
    WebRTC,
    HLS,
    DASH,
    HTTP,
}

#[derive(Debug, Clone)]
pub struct VideoQuery {
    pub tower_id: Option<u128>,
    pub camera_id: Option<u128>,
    pub verification_type: Option<VerificationType>,
    pub status: Option<VerificationStatus>,
    pub start_time: Option<i64>,
    pub end_time: Option<i64>,
    pub human_reviewed: Option<bool>,
}

} // verus!

verus! {

impl VerificationPriority {
    /// The priority a name stands for, whatever the case of its letters.
    pub open spec fn from_text_spec(s: Seq<char>) -> Option<VerificationPriority> {
        if equals_ignoring_case(s, "low"@) {
            Some(VerificationPriority::Low)
        } else if equals_ignoring_case(s, "medium"@) {
            Some(VerificationPriority::Medium)
        } else if equals_ignoring_case(s, "high"@) {
            Some(VerificationPriority::High)
        } else if equals_ignoring_case(s, "critical"@) {
            Some(VerificationPriority::Critical)
        } else {
            None
        }
    }

    /// Reads a priority from its name, whatever the case of its letters.
    pub fn from_text(s: &str) -> (r: Result<VerificationPriority, String>)
        ensures
            match VerificationPriority::from_text_spec(s@) {
                Some(p) => r == Ok::<VerificationPriority, String>(p),
                None => r matches Err(e) && e@ == "Invalid priority: "@ + s@,
            },
    {
        proof {
            reveal_strlit("low");
            reveal_strlit("medium");
            reveal_strlit("high");
            reveal_strlit("critical");
        }
        if same_word_ignoring_case(s, "low") {
            Ok(VerificationPriority::Low)
        } else if same_word_ignoring_case(s, "medium") {
            Ok(VerificationPriority::Medium)
        } else if same_word_ignoring_case(s, "high") {
            Ok(VerificationPriority::High)
        } else if same_word_ignoring_case(s, "critical") {
            Ok(VerificationPriority::Critical)
        } else {
            let mut e = String::from_str("Invalid priority: ");
            e.append(s);
            Err(e)
        }
    }
}

impl std::str::FromStr for VerificationPriority {
    type Err = String;

    /// Reads a priority from its name, whatever the case of its letters.
    fn from_str(s: &str) -> (r: Result<VerificationPriority, String>)
        ensures
            match VerificationPriority::from_text_spec(s@) {
                Some(p) => r == Ok::<VerificationPriority, String>(p),
                None => r matches Err(e) && e@ == "Invalid priority: "@ + s@,
            },
    {
        VerificationPriority::from_text(s)
    }
}

} // verus!
