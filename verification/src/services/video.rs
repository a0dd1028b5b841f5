//! Video: verification requests for alerts, the AI analysis of a camera's
//! view, manual verification, live streams and the cameras of the towers.
//!
//! Confidences are in hundredths of a percent, thicknesses in hundredths of a
//! millimetre.
use vstd::prelude::*;
use crate::models::video::{
    Camera, CameraType, CameraStatus, VideoVerificationRequest, VerificationType, VerificationStatus,
    VerificationPriority, VideoVerificationResult, VerificationMethod, IceVerification, SensorCorrelation,
    StatusVerification, StructuralStatus, TensionStatus, VideoAttachment, AttachmentType, AIAnnotation, BoundingBox,
    LiveStreamSession, SessionType,
};
use crate::models::alert::{AlertMessage, AlertSeverity};
use crate::models::inspection::Priority;
use crate::models::ice_detection::IceType;
use crate::models::tower::{Tower, TowerStatus};
use crate::error::AppError;
use crate::text::{
    texts, push_text, fixed_text, append_fixed, uuid_text, uuid_string, decimal_text, append_decimal, width3_text,
    append_width3,
};
use crate::ids::{new_uuid, random_in_range};

verus! {

/// The priority of the verification an alert calls for: critical and high
/// alerts keep their level, warnings are of medium priority, the others low.
pub open spec fn priority_for_severity(severity: AlertSeverity) -> VerificationPriority {
    match severity {
        AlertSeverity::Critical => VerificationPriority::Critical,
        AlertSeverity::High => VerificationPriority::High,
        AlertSeverity::Warning => VerificationPriority::Medium,
        _ => VerificationPriority::Low,
    }
}

/// The task priority of a verification priority, rank for rank.
pub open spec fn task_priority_for(p: VerificationPriority) -> Priority {
    match p {
        VerificationPriority::Low => Priority::Low,
        VerificationPriority::Medium => Priority::Medium,
        VerificationPriority::High => Priority::High,
        VerificationPriority::Critical => Priority::Urgent,
    }
}

/// What a verification request made at `now` holds: it confirms the alert by
/// looking for ice and checking the structure, is pending, and expires after
/// half an hour.
pub open spec fn request_matches(
    r: VideoVerificationRequest, tower_id: u128, alert_id: u128, requested_by: u128, priority: VerificationPriority, now: int,
) -> bool {
    &&& r.tower_id == tower_id
    &&& r.camera_id == 0
    &&& r.alert_id == Some(alert_id)
    &&& r.request_type == VerificationType::AlertConfirmation
    &&& r.status == VerificationStatus::Pending
    &&& r.priority == task_priority_for(priority)
    &&& r.requested_by == requested_by
    &&& r.requested_at == now
    &&& r.description@ == Seq::<char>::empty()
    &&& texts(r.items_to_verify@) == seq!["ice_detection"@, "structure_inspection"@]
    &&& r.scheduled_time.is_none()
    &&& r.expires_at == Some((now + 1800) as i64)
}

/// Makes the request for a video verification of a tower about an alert.
pub fn video_verification_request(
    tower_id: u128, alert_id: u128, requested_by: u128, priority: VerificationPriority, now: i64,
) -> (r: VideoVerificationRequest)
    requires
        now <= i64::MAX - 1800,
    ensures
        request_matches(r, tower_id, alert_id, requested_by, priority, now as int),
{
    let mut items: Vec<String> = Vec::new();
    assert(texts(items@) =~= Seq::empty());
    push_text(&mut items, "ice_detection");
    push_text(&mut items, "structure_inspection");
    assert(texts(items@) =~= seq!["ice_detection"@, "structure_inspection"@]);
    VideoVerificationRequest {
        id: new_uuid(),
        tower_id,
        camera_id: 0,
        alert_id: Some(alert_id),
        request_type: VerificationType::AlertConfirmation,
        status: VerificationStatus::Pending,
        priority: match priority {
            VerificationPriority::Low => Priority::Low,
            VerificationPriority::Medium => Priority::Medium,
            VerificationPriority::High => Priority::High,
            VerificationPriority::Critical => Priority::Urgent,
        },
        requested_by,
        requested_at: now,
        description: String::new(),
        items_to_verify: items,
        scheduled_time: None,
        expires_at: Some(now + 1800),
    }
}

/// The verification an alert sets off by itself: requested by nobody (the
/// nil identifier), with the priority of the alert's severity.
pub fn request_auto_verification(alert: &AlertMessage, now: i64) -> (r: VideoVerificationRequest)
    requires
        now <= i64::MAX - 1800,
    ensures
        request_matches(r, alert.tower_id, alert.alert_id, 0, priority_for_severity(alert.severity), now as int),
{
    let priority = match alert.severity {
        AlertSeverity::Critical => VerificationPriority::Critical,
        AlertSeverity::High => VerificationPriority::High,
        AlertSeverity::Warning => VerificationPriority::Medium,
        _ => VerificationPriority::Low,
    };
    video_verification_request(alert.tower_id, alert.alert_id, 0, priority, now)
}

} // verus!

verus! {

/// The finding of the ice analysis: the thickness to one decimal place when
/// ice was seen, that none was seen otherwise.
pub open spec fn ice_finding_text(thickness: Option<i64>) -> Seq<char> {
    match thickness {
        Some(t) => "检测到覆冰，厚度约"@ + fixed_text(t as int, 1) + "mm"@,
        None => "未检测到明显覆冰"@,
    }
}

/// The address of a verification's video clip.
pub open spec fn clip_url(request_id: u128) -> Seq<char> {
    "/api/v1/video/clips/"@ + uuid_text(request_id) + ".mp4"@
}

/// The address of a verification's snapshot.
pub open spec fn snapshot_url(request_id: u128) -> Seq<char> {
    "/api/v1/video/snapshots/"@ + uuid_text(request_id) + ".jpg"@
}

/// What the AI analysis of a camera holds, completed at `now` (started two
/// seconds before), from the confidences of the ice and structure analyses
/// and the thickness of the ice seen (none when the ice confidence is at most
/// 75 %): the findings of both analyses, the ice seen (glaze above 8 mm, rime
/// otherwise), a normal structure, the average confidence (rounded down to
/// the hundredth of a percent; it is below 85 % exactly when the exact average
/// is), a check by a person when it is below 85 % or ice was seen, and the
/// clip and snapshot.
pub open spec fn ai_result_matches(
    r: VideoVerificationResult, tower_id: u128, request_id: u128,
    ice_confidence: int, structure_confidence: int, thickness: Option<i64>, now: int,
) -> bool {
    let detected = ice_confidence > 7500;
    let confidence = (ice_confidence + structure_confidence) / 2;
    let t: int = match thickness { Some(x) => x as int, None => 0 };
    &&& r.request_id == request_id
    &&& r.tower_id == tower_id
    &&& r.verified_by.is_none()
    &&& r.verification_method == VerificationMethod::AIOnly
    &&& r.started_at == now - 2
    &&& r.completed_at == Some(now as i64)
    &&& texts(r.overall_findings@) == seq![ice_finding_text(thickness), "塔架结构正常，未发现明显异常"@]
    &&& r.ice_verification matches Some(v) && {
        &&& v.ice_present == detected
        &&& v.estimated_thickness_mm == t
        &&& v.thickness_confidence == ice_confidence
        &&& v.ice_type == if t > 800 { IceType::Glaze } else { IceType::Rime }
        &&& texts(v.affected_areas@) == if detected { seq!["ice"@] } else { Seq::<Seq<char>>::empty() }
        &&& v.sensor_correlation.sensor_thickness_mm == 0
        &&& v.sensor_correlation.video_thickness_mm == t
        &&& v.sensor_correlation.difference_mm == t
        &&& v.sensor_correlation.correlation_coefficient == 0
        &&& v.sensor_correlation.sensor_status@ == "unavailable"@
    }
    &&& r.damage_verification.is_none()
    &&& r.status_verification matches Some(s) && {
        &&& s.structural_status == StructuralStatus::Normal
        &&& s.cable_tension_status == TensionStatus::Normal
        &&& s.overall_status == TowerStatus::Operational
        &&& s.notes matches Some(n) && n@ == "塔架结构正常，未发现明显异常"@
    }
    &&& r.ai_confidence == Some(confidence as i64)
    &&& r.human_review_required == (confidence < 8500 || detected)
    &&& !r.human_reviewed
    &&& r.reviewed_by.is_none()
    &&& r.reviewed_at.is_none()
    &&& r.review_notes.is_none()
    &&& r.attachments@.len() == 2
    &&& r.attachments@[0].attachment_type == AttachmentType::VideoClip
    &&& r.attachments@[0].url@ == clip_url(request_id)
    &&& r.attachments@[0].file_name@ == uuid_text(request_id) + ".mp4"@
    &&& r.attachments@[0].captured_at == now
    &&& r.attachments@[0].ai_annotations@.len() == (if detected { 1int } else { 0int })
    &&& (detected ==> {
        let a = r.attachments@[0].ai_annotations@[0];
        &&& a.annotation_type@ == "ice_detection"@
        &&& a.label@ == "ice"@
        &&& a.confidence == ice_confidence
        &&& a.bounding_box.x == 100 && a.bounding_box.y == 150
        &&& a.bounding_box.width == 200 && a.bounding_box.height == 150
        &&& a.bounding_box.label@ == "ice"@
        &&& a.bounding_box.confidence == ice_confidence
        &&& a.mask_coordinates.is_none()
    })
    &&& r.attachments@[1].attachment_type == AttachmentType::Snapshot
    &&& r.attachments@[1].url@ == snapshot_url(request_id)
    &&& r.attachments@[1].file_name@ == uuid_text(request_id) + ".jpg"@
    &&& r.attachments@[1].captured_at == now
    &&& r.attachments@[1].ai_annotations@.len() == 0
    &&& r.created_at == now
}

fn attachment(kind: AttachmentType, prefix: &str, request_id: u128, suffix: &str, now: i64, annotations: Vec<AIAnnotation>)
    -> (a: VideoAttachment)
    ensures
        a.attachment_type == kind,
        a.url@ == prefix@ + uuid_text(request_id) + suffix@,
        a.file_name@ == uuid_text(request_id) + suffix@,
        a.ai_annotations@ == annotations@,
        a.captured_at == now,
{
    let id = uuid_string(request_id);
    let mut file_name = String::new();
    file_name.append(id.as_str());
    file_name.append(suffix);
    let mut url = String::from_str(prefix);
    url.append(id.as_str());
    url.append(suffix);
    assert(url@ =~= prefix@ + uuid_text(request_id) + suffix@);
    VideoAttachment {
        id: new_uuid(),
        attachment_type: kind,
        file_name,
        file_size_bytes: 0,
        url,
        thumbnail_url: None,
        captured_at: now,
        description: None,
        ai_annotations: annotations,
    }
}

/// Builds the result of the AI analysis of a tower's camera from the
/// confidences of the two analyses and the thickness of the ice seen.
pub fn ai_verification_result(
    tower_id: u128, request_id: u128, ice_confidence: i64, structure_confidence: i64, thickness: Option<i64>, now: i64,
) -> (r: VideoVerificationResult)
    requires
        0 <= ice_confidence <= 10000,
        0 <= structure_confidence <= 10000,
        i64::MIN + 2 <= now,
        thickness is Some ==> ice_confidence > 7500,
    ensures
        ai_result_matches(r, tower_id, request_id, ice_confidence as int, structure_confidence as int, thickness, now as int),
{
    let detected = ice_confidence > 7500;
    let confidence = (ice_confidence + structure_confidence) / 2;
    let t: i64 = match thickness { Some(x) => x, None => 0 };

    let mut findings: Vec<String> = Vec::new();
    let ice_text = match thickness {
        Some(x) => {
            let mut s = String::from_str("检测到覆冰，厚度约");
            append_fixed(&mut s, x, 1);
            s.append("mm");
            s
        }
        None => String::from_str("未检测到明显覆冰"),
    };
    findings.push(ice_text);
    push_text(&mut findings, "塔架结构正常，未发现明显异常");
    assert(texts(findings@) =~= seq![ice_finding_text(thickness), "塔架结构正常，未发现明显异常"@]);

    let mut annotations: Vec<AIAnnotation> = Vec::new();
    if detected {
        annotations.push(AIAnnotation {
            id: new_uuid(),
            annotation_type: String::from_str("ice_detection"),
            label: String::from_str("ice"),
            confidence: ice_confidence,
            bounding_box: BoundingBox {
                x: 100,
                y: 150,
                width: 200,
                height: 150,
                label: String::from_str("ice"),
                confidence: ice_confidence,
            },
            mask_coordinates: None,
        });
    }
    let clip = attachment(AttachmentType::VideoClip, "/api/v1/video/clips/", request_id, ".mp4", now, annotations);
    let snapshot = attachment(AttachmentType::Snapshot, "/api/v1/video/snapshots/", request_id, ".jpg", now, Vec::new());
    let mut attachments: Vec<VideoAttachment> = Vec::new();
    attachments.push(clip);
    attachments.push(snapshot);

    let mut affected_areas: Vec<String> = Vec::new();
    assert(texts(affected_areas@) =~= Seq::<Seq<char>>::empty());
    if detected {
        push_text(&mut affected_areas, "ice");
        assert(texts(affected_areas@) =~= seq!["ice"@]);
    }

    VideoVerificationResult {
        id: new_uuid(),
        request_id,
        tower_id,
        camera_id: new_uuid(),
        verified_by: None,
        verification_method: VerificationMethod::AIOnly,
        started_at: now - 2,
        completed_at: Some(now),
        overall_findings: findings,
        ice_verification: Some(IceVerification {
            ice_present: detected,
            estimated_thickness_mm: t,
            thickness_confidence: ice_confidence,
            ice_type: if t > 800 { IceType::Glaze } else { IceType::Rime },
            affected_areas,
            sensor_correlation: SensorCorrelation {
                sensor_thickness_mm: 0,
                video_thickness_mm: t,
                difference_mm: t,
                correlation_coefficient: 0,
                sensor_status: String::from_str("unavailable"),
            },
        }),
        damage_verification: None,
        status_verification: Some(StatusVerification {
            structural_status: StructuralStatus::Normal,
            cable_tension_status: TensionStatus::Normal,
            overall_status: TowerStatus::Operational,
            notes: Some(String::from_str("塔架结构正常，未发现明显异常")),
        }),
        ai_confidence: Some(confidence),
        human_review_required: confidence < 8500 || detected,
        human_reviewed: false,
        reviewed_by: None,
        reviewed_at: None,
        review_notes: None,
        attachments,
        created_at: now,
    }
}

/// Runs the AI analysis of a tower's camera for a request at time `now`: the
/// confidence of the ice analysis is drawn between 70 % and 95 %, that of the
/// structure between 80 % and 98 %, and the thickness of ice seen between 3
/// and 12 mm.
pub fn simulate_ai_analysis(tower_id: u128, request_id: u128, now: i64) -> (r: VideoVerificationResult)
    requires
        i64::MIN + 2 <= now,
    ensures
        exists|ice: int, structure: int, thickness: Option<i64>| {
            &&& 7000 <= ice < 9500
            &&& 8000 <= structure < 9800
            &&& (ice > 7500 <==> thickness is Some)
            &&& (thickness matches Some(t) ==> 300 <= t < 1200)
            &&& ai_result_matches(r, tower_id, request_id, ice, structure, thickness, now as int)
        },
{
    let ice_confidence = random_in_range(7000, 9500);
    let structure_confidence = random_in_range(8000, 9800);
    let thickness = if ice_confidence > 7500 { Some(random_in_range(300, 1200)) } else { None };
    ai_verification_result(tower_id, request_id, ice_confidence, structure_confidence, thickness, now)
}

/// The result of a verification by hand by `user_id` at `now`: checked by a
/// person, with full confidence, and 10 mm of ice when that person confirmed ice.
pub fn manual_verify(result_id: u128, user_id: u128, ice_confirmed: bool, notes: String, now: i64) -> (r: VideoVerificationResult)
    requires
        i64::MIN + 300 <= now,
    ensures
        r.id == result_id,
        r.verified_by == Some(user_id),
        r.verification_method == VerificationMethod::HumanOnly,
        r.started_at == now - 300,
        r.completed_at == Some(now),
        r.overall_findings@.len() == 0,
        r.camera_id == 0,
        r.ice_verification matches Some(v)
            && v.ice_present == ice_confirmed
            && v.estimated_thickness_mm == (if ice_confirmed { 1000i64 } else { 0i64 })
            && v.thickness_confidence == 10000
            && v.ice_type == IceType::Unknown
            && v.affected_areas@.len() == 0
            && v.sensor_correlation.video_thickness_mm == v.estimated_thickness_mm,
        r.damage_verification.is_none(),
        r.status_verification.is_none(),
        r.ai_confidence == Some(10000i64),
        !r.human_review_required,
        r.human_reviewed,
        r.reviewed_by == Some(user_id),
        r.reviewed_at == Some(now),
        r.review_notes == Some(notes),
        r.attachments@.len() == 0,
        r.created_at == now,
{
    let thickness: i64 = if ice_confirmed { 1000 } else { 0 };
    VideoVerificationResult {
        id: result_id,
        request_id: new_uuid(),
        tower_id: new_uuid(),
        camera_id: 0,
        verified_by: Some(user_id),
        verification_method: VerificationMethod::HumanOnly,
        started_at: now - 300,
        completed_at: Some(now),
        overall_findings: Vec::new(),
        ice_verification: Some(IceVerification {
            ice_present: ice_confirmed,
            estimated_thickness_mm: thickness,
            thickness_confidence: 10000,
            ice_type: IceType::Unknown,
            affected_areas: Vec::new(),
            sensor_correlation: SensorCorrelation {
                sensor_thickness_mm: 0,
                video_thickness_mm: thickness,
                difference_mm: thickness,
                correlation_coefficient: 0,
                sensor_status: String::from_str("unavailable"),
            },
        }),
        damage_verification: None,
        status_verification: None,
        ai_confidence: Some(10000),
        human_review_required: false,
        human_reviewed: true,
        reviewed_by: Some(user_id),
        reviewed_at: Some(now),
        review_notes: Some(notes),
        attachments: Vec::new(),
        created_at: now,
    }
}

} // verus!

verus! {

/// The address of a tower's live stream.
pub open spec fn stream_url(code: Seq<char>) -> Seq<char> {
    "ws://192.168.1.100:8080/stream/"@ + code
}

/// Opens a live stream of a tower for a user at `now`, when the tower is among
/// those known; otherwise the tower is not found.
pub fn start_live_stream(towers: &Vec<Tower>, tower_id: u128, user_id: u128, now: i64) -> (r: Result<LiveStreamSession, AppError>)
    ensures
        (forall|i: int| 0 <= i < towers@.len() ==> #[trigger] towers@[i].id != tower_id)
            ==> (r matches Err(AppError::NotFound(m)) && m@ == "Tower "@ + uuid_text(tower_id) + " not found"@),
        (exists|i: int| 0 <= i < towers@.len() && #[trigger] towers@[i].id == tower_id) ==> (r matches Ok(s) && {
            &&& s.tower_id == tower_id
            &&& s.user_id == user_id
            &&& s.session_type == SessionType::ManualReview
            &&& s.started_at == now
            &&& s.ended_at.is_none()
            &&& s.duration_seconds.is_none()
            &&& exists|i: int| 0 <= i < towers@.len() && #[trigger] towers@[i].id == tower_id
                && s.stream_url@ == stream_url(towers@[i].code@)
            &&& s.recording_url.is_none()
        }),
{
    let mut i: usize = 0;
    while i < towers.len()
        invariant
            i <= towers.len(),
            forall|k: int| 0 <= k < i ==> #[trigger] towers@[k].id != tower_id,
        decreases towers.len() - i,
    {
        if towers[i].id == tower_id {
            let mut url = String::from_str("ws://192.168.1.100:8080/stream/");
            url.append(towers[i].code.as_str());
            return Ok(LiveStreamSession {
                id: new_uuid(),
                camera_id: new_uuid(),
                tower_id,
                user_id,
                session_type: SessionType::ManualReview,
                started_at: now,
                ended_at: None,
                duration_seconds: None,
                stream_url: url,
                recording_url: None,
                notes: None,
            });
        }
        i = i + 1;
    }
    let mut m = String::from_str("Tower ");
    let id = uuid_string(tower_id);
    m.append(id.as_str());
    m.append(" not found");
    Err(AppError::NotFound(m))
}

/// A camera as plain values, without its identifier.
pub open spec fn camera_view(c: Camera) -> (u128, Seq<char>, Seq<char>, Seq<char>, Seq<char>, CameraType, CameraStatus,
    Option<String>, Option<String>, Seq<char>, u32, bool, Option<String>, Option<i64>, i64, i64)
{
    (c.tower_id, c.device_id@, c.name@, c.location@, c.mount_position@, c.camera_type, c.status, c.rtsp_url, c.http_url,
        c.resolution@, c.fps, c.has_ai_analysis, c.ai_model_version, c.last_online, c.created_at, c.updated_at)
}

/// Whether a camera is the one on top of a tower, seen online at `now`.
pub open spec fn is_tower_camera(c: Camera, t: Tower, now: int) -> bool {
    let pos = t.position_in_line as nat;
    &&& c.tower_id == t.id
    &&& c.device_id@ == "CAM-"@ + width3_text(pos)
    &&& c.name@ == t.name@ + "监控摄像头"@
    &&& c.location@ == t.name@ + "顶部"@
    &&& c.mount_position@ == "塔顶"@
    &&& c.camera_type == CameraType::PTZ
    &&& c.status == CameraStatus::Online
    &&& c.rtsp_url matches Some(u) && u@ == "rtsp://192.168.1.100:554/stream"@ + decimal_text(pos)
    &&& c.http_url matches Some(u) && u@ == "http://192.168.1.100:8080/stream"@ + decimal_text(pos)
    &&& c.resolution@ == "1920x1080"@
    &&& c.fps == 25
    &&& c.has_ai_analysis
    &&& c.ai_model_version matches Some(v) && v@ == "v2.1.0"@
    &&& c.last_online == Some(now as i64)
    &&& c.created_at == now
    &&& c.updated_at == now
}

/// The camera on top of a tower, seen online at `now`.
pub fn tower_camera(t: &Tower, now: i64) -> (c: Camera)
    ensures
        is_tower_camera(c, *t, now as int),
{
    let pos = t.position_in_line as u64;
    let mut device_id = String::from_str("CAM-");
    append_width3(&mut device_id, pos);
    let mut name = t.name.clone();
    name.append("监控摄像头");
    let mut location = t.name.clone();
    location.append("顶部");
    let mut rtsp = String::from_str("rtsp://192.168.1.100:554/stream");
    append_decimal(&mut rtsp, pos);
    let mut http = String::from_str("http://192.168.1.100:8080/stream");
    append_decimal(&mut http, pos);
    Camera {
        id: new_uuid(),
        tower_id: t.id,
        device_id,
        name,
        location,
        mount_position: String::from_str("塔顶"),
        camera_type: CameraType::PTZ,
        status: CameraStatus::Online,
        rtsp_url: Some(rtsp),
        http_url: Some(http),
        resolution: String::from_str("1920x1080"),
        fps: 25,
        has_ai_analysis: true,
        ai_model_version: Some(String::from_str("v2.1.0")),
        last_online: Some(now),
        created_at: now,
        updated_at: now,
    }
}

/// The towers whose cameras are listed: all, or the one asked for.
pub open spec fn camera_towers(towers: Seq<Tower>, tower_id: Option<u128>) -> Seq<Tower> {
    towers.filter(|t: Tower| tower_id matches Some(id) ==> t.id == id)
}

/// Lists the cameras of the towers (of one tower when given), in the towers'
/// order, at time `now`.
pub fn get_camera_list(towers: &Vec<Tower>, tower_id: Option<u128>, now: i64) -> (r: Vec<Camera>)
    ensures
        r@.len() == camera_towers(towers@, tower_id).len(),
        forall|i: int| 0 <= i < r@.len() ==> is_tower_camera(#[trigger] r@[i], camera_towers(towers@, tower_id)[i], now as int),
{
    let ghost pred = |t: Tower| tower_id matches Some(id) ==> t.id == id;
    let mut cameras: Vec<Camera> = Vec::new();
    let mut i: usize = 0;
    assert(towers@.subrange(0, 0).filter(pred) =~= Seq::empty()) by {
        reveal(Seq::filter);
    }
    while i < towers.len()
        invariant
            i <= towers.len(),
            pred == (|t: Tower| tower_id matches Some(id) ==> t.id == id),
            cameras@.len() == towers@.subrange(0, i as int).filter(pred).len(),
            forall|k: int| 0 <= k < cameras@.len() ==> is_tower_camera(#[trigger] cameras@[k], towers@.subrange(0, i as int).filter(pred)[k], now as int),
        decreases towers.len() - i,
    {
        let t = &towers[i];
        let ghost prefix = towers@.subrange(0, i as int);
        assert(towers@.subrange(0, i + 1) =~= prefix.push(*t));
        proof {
            prefix.lemma_filter_push(*t, pred);
        }
        let wanted = match tower_id {
            Some(id) => id == t.id,
            None => true,
        };
        assert(wanted == pred(*t));
        if wanted {
            let c = tower_camera(t, now);
            cameras.push(c);
        }
        i = i + 1;
    }
    assert(towers@.subrange(0, i as int) =~= towers@);
    cameras
}

} // verus!
