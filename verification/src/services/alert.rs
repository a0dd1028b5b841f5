//! Alerts: raising one when a reading passes its threshold, storing an alert
//! message, acknowledging and resolving alerts, and summing them up.
//!
//! Readings and thresholds are in hundredths of their units.
use vstd::prelude::*;
use crate::models::alert::{Alert, AlertMessage, AlertType, AlertSeverity, AlertStatus, AlertTrigger, AlertSummary};
use crate::models::tower::RiskLevel;
use crate::config::SystemConfig;
use crate::error::AppError;
use crate::text::{fixed_text, append_fixed, same_text, uuid_text, uuid_string};
use crate::ids::new_uuid;

verus! {

/// The kind of alert, threshold and unit that a type of reading is checked
/// against, or none for types that are not checked.
pub open spec fn alert_rule(data_type: Seq<char>, config: SystemConfig) -> Option<(AlertType, i64, Seq<char>)> {
    if data_type == "vibration"@ {
        Some((AlertType::VibrationAnomaly, config.vibration_alert_threshold_mms, "mm/s"@))
    } else if data_type == "wind_speed"@ {
        Some((AlertType::WindSpeedHigh, config.wind_speed_threshold_ms, "m/s"@))
    } else if data_type == "ice_thickness"@ {
        Some((AlertType::IceThicknessHigh, config.ice_alert_threshold_mm, "mm"@))
    } else {
        None
    }
}

/// The severity of a reading at or above its threshold: critical above one and
/// a half times the threshold, high above 1.2 times, warning above 1.1 times,
/// information otherwise.
pub open spec fn reading_severity(value: int, threshold: int) -> AlertSeverity {
    if 2 * value > 3 * threshold {
        AlertSeverity::Critical
    } else if 5 * value > 6 * threshold {
        AlertSeverity::High
    } else if 10 * value > 11 * threshold {
        AlertSeverity::Warning
    } else {
        AlertSeverity::Info
    }
}

/// The risk that goes with a severity.
pub open spec fn risk_of_severity(severity: AlertSeverity) -> RiskLevel {
    match severity {
        AlertSeverity::Info => RiskLevel::Low,
        AlertSeverity::Warning => RiskLevel::Medium,
        AlertSeverity::High => RiskLevel::High,
        _ => RiskLevel::Critical,
    }
}

/// The name of a kind of alert, as `{:?}` prints it.
pub open spec fn alert_type_name(t: AlertType) -> Seq<char> {
    match t {
        AlertType::VibrationHigh => "VibrationHigh"@,
        AlertType::VibrationAnomaly => "VibrationAnomaly"@,
        AlertType::WindSpeedHigh => "WindSpeedHigh"@,
        AlertType::WindGustHigh => "WindGustHigh"@,
        AlertType::IceThicknessHigh => "IceThicknessHigh"@,
        AlertType::IceAccumulationFast => "IceAccumulationFast"@,
        AlertType::IceLoadCritical => "IceLoadCritical"@,
        AlertType::TemperatureExtreme => "TemperatureExtreme"@,
        AlertType::SensorFault => "SensorFault"@,
        AlertType::CommunicationError => "CommunicationError"@,
        AlertType::PowerFailure => "PowerFailure"@,
        AlertType::VideoVerificationRequired => "VideoVerificationRequired"@,
        AlertType::ShutdownRecommended => "ShutdownRecommended"@,
        AlertType::ShutdownRequired => "ShutdownRequired"@,
        AlertType::SystemError => "SystemError"@,
    }
}

fn append_alert_type_name(s: &mut String, t: AlertType)
    ensures
        final(s)@ == old(s)@ + alert_type_name(t),
{
    match t {
        AlertType::VibrationHigh => s.append("VibrationHigh"),
        AlertType::VibrationAnomaly => s.append("VibrationAnomaly"),
        AlertType::WindSpeedHigh => s.append("WindSpeedHigh"),
        AlertType::WindGustHigh => s.append("WindGustHigh"),
        AlertType::IceThicknessHigh => s.append("IceThicknessHigh"),
        AlertType::IceAccumulationFast => s.append("IceAccumulationFast"),
        AlertType::IceLoadCritical => s.append("IceLoadCritical"),
        AlertType::TemperatureExtreme => s.append("TemperatureExtreme"),
        AlertType::SensorFault => s.append("SensorFault"),
        AlertType::CommunicationError => s.append("CommunicationError"),
        AlertType::PowerFailure => s.append("PowerFailure"),
        AlertType::VideoVerificationRequired => s.append("VideoVerificationRequired"),
        AlertType::ShutdownRecommended => s.append("ShutdownRecommended"),
        AlertType::ShutdownRequired => s.append("ShutdownRequired"),
        AlertType::SystemError => s.append("SystemError"),
    }
}

/// The text of an alert on a reading: value and threshold to two places.
pub open spec fn reading_alert_text(t: AlertType, value: int, threshold: int, unit: Seq<char>) -> Seq<char> {
    alert_type_name(t) + "超过阈值，当前值"@ + fixed_text(value, 2) + unit + "，阈值"@ + fixed_text(threshold, 2) + unit
}

/// What the alert on a reading holds.
pub open spec fn reading_alert_matches(
    a: AlertMessage, tower_id: u128, t: AlertType, value: int, threshold: int, unit: Seq<char>, now: int,
) -> bool {
    let severity = reading_severity(value, threshold);
    &&& a.tower_id == tower_id
    &&& a.tower_name@ == Seq::<char>::empty()
    &&& a.alert_type == t
    &&& a.severity == severity
    &&& a.title@ == alert_type_name(t) + "告警"@
    &&& a.description@ == reading_alert_text(t, value, threshold, unit)
    &&& a.actual_value == Some(value as i64)
    &&& a.threshold_value == Some(threshold as i64)
    &&& a.unit matches Some(u) && u@ == unit
    &&& a.timestamp == now
    &&& a.risk_level == risk_of_severity(severity)
}

/// Checks a reading of a tower against the threshold of its type ("vibration",
/// "wind_speed" or "ice_thickness"), at time `now`: an alert when the value is
/// at or above the threshold, none below it or for other types.
pub fn check_alerts(config: &SystemConfig, tower_id: u128, data_type: &str, value: i64, now: i64) -> (r: Option<AlertMessage>)
    ensures
        match alert_rule(data_type@, *config) {
            None => r.is_none(),
            Some(rule) => if value < rule.1 {
                r.is_none()
            } else {
                r matches Some(a) && reading_alert_matches(a, tower_id, rule.0, value as int, rule.1 as int, rule.2, now as int)
            },
        },
{
    let (alert_type, threshold, unit): (AlertType, i64, &str) = if same_text(data_type, "vibration") {
        (AlertType::VibrationAnomaly, config.vibration_alert_threshold_mms, "mm/s")
    } else if same_text(data_type, "wind_speed") {
        (AlertType::WindSpeedHigh, config.wind_speed_threshold_ms, "m/s")
    } else if same_text(data_type, "ice_thickness") {
        (AlertType::IceThicknessHigh, config.ice_alert_threshold_mm, "mm")
    } else {
        return None;
    };
    if value < threshold {
        return None;
    }
    let v = value as i128;
    let t = threshold as i128;
    let severity = if 2 * v > 3 * t {
        AlertSeverity::Critical
    } else if 5 * v > 6 * t {
        AlertSeverity::High
    } else if 10 * v > 11 * t {
        AlertSeverity::Warning
    } else {
        AlertSeverity::Info
    };
    let risk_level = match severity {
        AlertSeverity::Info => RiskLevel::Low,
        AlertSeverity::Warning => RiskLevel::Medium,
        AlertSeverity::High => RiskLevel::High,
        _ => RiskLevel::Critical,
    };
    let mut title = String::new();
    append_alert_type_name(&mut title, alert_type);
    title.append("告警");
    let mut text = String::new();
    append_alert_type_name(&mut text, alert_type);
    text.append("超过阈值，当前值");
    append_fixed(&mut text, value, 2);
    text.append(unit);
    text.append("，阈值");
    append_fixed(&mut text, threshold, 2);
    text.append(unit);
    Some(AlertMessage {
        alert_id: new_uuid(),
        tower_id,
        tower_name: String::new(),
        alert_type,
        severity,
        title,
        description: text,
        actual_value: Some(value),
        threshold_value: Some(threshold),
        unit: Some(String::from_str(unit)),
        timestamp: now,
        risk_level,
    })
}

/// The severity of a reading goes by how far it passes its threshold, in
/// percent of the threshold: more than 150 % critical, more than 120 % up to
/// 150 % high, more than 110 % up to 120 % warning, up to 110 % information;
/// each severity goes with the risk of the same rank (critical and emergency
/// with critical risk). Thresholds are not negative.
pub proof fn lemma_reading_severity_bands(value: int, threshold: int)
    requires
        0 <= threshold,
    ensures
        reading_severity(value, threshold) == AlertSeverity::Critical <==> 100 * value > 150 * threshold,
        reading_severity(value, threshold) == AlertSeverity::High
            <==> 100 * value > 120 * threshold && 100 * value <= 150 * threshold,
        reading_severity(value, threshold) == AlertSeverity::Warning
            <==> 100 * value > 110 * threshold && 100 * value <= 120 * threshold,
        reading_severity(value, threshold) == AlertSeverity::Info <==> 100 * value <= 110 * threshold,
        risk_of_severity(AlertSeverity::Info) == RiskLevel::Low,
        risk_of_severity(AlertSeverity::Warning) == RiskLevel::Medium,
        risk_of_severity(AlertSeverity::High) == RiskLevel::High,
        risk_of_severity(AlertSeverity::Critical) == RiskLevel::Critical,
        risk_of_severity(AlertSeverity::Emergency) == RiskLevel::Critical,
{
}

/// A higher reading against the same threshold never gets a lower severity.
pub proof fn lemma_reading_severity_monotone(v1: int, v2: int, threshold: int)
    requires
        v1 <= v2,
        threshold >= 0,
    ensures
        reading_severity(v1, threshold).spec_rank() <= reading_severity(v2, threshold).spec_rank(),
{
}

/// Reading the threshold exactly raises an alert of information severity
/// (when the threshold is positive).
pub proof fn lemma_threshold_itself_is_info(threshold: int)
    requires
        threshold > 0,
    ensures
        reading_severity(threshold, threshold) == AlertSeverity::Info,
{
}

} // verus!

verus! {

/// The stored alert for an alert message received at `now`: open, raised by
/// the monitoring system, with nothing acknowledged or resolved yet.
pub open spec fn stored_alert_matches(a: Alert, m: AlertMessage, now: int) -> bool {
    &&& a.id == m.alert_id
    &&& a.tower_id == m.tower_id
    &&& a.alert_type == m.alert_type
    &&& a.severity == m.severity
    &&& a.status == AlertStatus::Open
    &&& a.title@ == m.title@
    &&& a.description@ == m.description@
    &&& a.triggered_by matches AlertTrigger::System { component, error_code }
        && component@ == "ICE-MONITOR"@ && error_code@ == Seq::<char>::empty()
    &&& a.threshold_value == m.threshold_value
    &&& a.actual_value == m.actual_value
    &&& a.unit == m.unit
    &&& a.created_at == now
    &&& a.updated_at == now
    &&& a.acknowledged_at.is_none()
    &&& a.acknowledged_by.is_none()
    &&& a.resolved_at.is_none()
    &&& a.resolved_by.is_none()
    &&& a.resolution_notes.is_none()
    &&& a.video_verification_id.is_none()
    &&& a.related_data_ids@.len() == 0
}

/// Makes the alert to store for an alert message received at `now`.
pub fn create_alert(message: &AlertMessage, now: i64) -> (r: Alert)
    ensures
        stored_alert_matches(r, *message, now as int),
{
    let related_data_ids: Vec<u128> = Vec::new();
    Alert {
        id: message.alert_id,
        tower_id: message.tower_id,
        alert_type: message.alert_type,
        severity: message.severity,
        status: AlertStatus::Open,
        title: message.title.clone(),
        description: message.description.clone(),
        triggered_by: AlertTrigger::System {
            component: String::from_str("ICE-MONITOR"),
            error_code: String::new(),
        },
        threshold_value: message.threshold_value,
        actual_value: message.actual_value,
        unit: match &message.unit {
            Some(u) => Some(u.clone()),
            None => None,
        },
        created_at: now,
        updated_at: now,
        acknowledged_at: None,
        acknowledged_by: None,
        resolved_at: None,
        resolved_by: None,
        resolution_notes: None,
        video_verification_id: None,
        related_data_ids,
    }
}

/// The text of the error for an alert that is not there.
pub open spec fn alert_not_found_text(alert_id: u128) -> Seq<char> {
    "Alert "@ + uuid_text(alert_id) + " not found"@
}

fn alert_not_found(alert_id: u128) -> (e: AppError)
    ensures
        e matches AppError::NotFound(m) && m@ == alert_not_found_text(alert_id),
{
    let mut m = String::from_str("Alert ");
    let id = uuid_string(alert_id);
    m.append(id.as_str());
    m.append(" not found");
    AppError::NotFound(m)
}

/// Whether `b` is `a` with only the fields listed changed: the identity, kind,
/// severity, texts, trigger, values, creation and links stay.
pub open spec fn same_alert_record(a: Alert, b: Alert) -> bool {
    &&& b.id == a.id
    &&& b.tower_id == a.tower_id
    &&& b.alert_type == a.alert_type
    &&& b.severity == a.severity
    &&& b.title == a.title
    &&& b.description == a.description
    &&& b.triggered_by == a.triggered_by
    &&& b.threshold_value == a.threshold_value
    &&& b.actual_value == a.actual_value
    &&& b.unit == a.unit
    &&& b.created_at == a.created_at
    &&& b.video_verification_id == a.video_verification_id
    &&& b.related_data_ids == a.related_data_ids
}

/// An alert acknowledged by `user_id` at `now`: the status and resolution stay.
pub open spec fn acknowledged(a: Alert, user_id: u128, now: int) -> Alert {
    Alert {
        acknowledged_by: Some(user_id),
        acknowledged_at: Some(now as i64),
        updated_at: now as i64,
        ..a
    }
}

/// An alert resolved by `user_id` at `now` with notes: resolved, and
/// acknowledged by the resolver at `now` unless it already was.
pub open spec fn resolved(a: Alert, user_id: u128, notes: String, now: int) -> Alert {
    Alert {
        status: AlertStatus::Resolved,
        resolved_by: Some(user_id),
        resolved_at: Some(now as i64),
        resolution_notes: Some(notes),
        updated_at: now as i64,
        acknowledged_by: match a.acknowledged_by { Some(u) => Some(u), None => Some(user_id) },
        acknowledged_at: match a.acknowledged_at { Some(t) => Some(t), None => Some(now as i64) },
        ..a
    }
}

/// Acknowledges the alert that a lookup by identifier found (the last of the
/// results), or reports it not found when the lookup found none.
pub fn acknowledge_alert(found: Vec<Alert>, alert_id: u128, user_id: u128, now: i64) -> (r: Result<Alert, AppError>)
    ensures
        found@.len() == 0 ==> (r matches Err(AppError::NotFound(m)) && m@ == alert_not_found_text(alert_id)),
        found@.len() > 0 ==> r == Ok::<Alert, AppError>(acknowledged(found@.last(), user_id, now as int)),
{
    let mut found = found;
    match found.pop() {
        None => Err(alert_not_found(alert_id)),
        Some(alert) => Ok(Alert {
            acknowledged_by: Some(user_id),
            acknowledged_at: Some(now),
            updated_at: now,
            ..alert
        }),
    }
}

/// Resolves the alert that a lookup by identifier found (the last of the
/// results), or reports it not found when the lookup found none.
pub fn resolve_alert(found: Vec<Alert>, alert_id: u128, user_id: u128, notes: String, now: i64) -> (r: Result<Alert, AppError>)
    ensures
        found@.len() == 0 ==> (r matches Err(AppError::NotFound(m)) && m@ == alert_not_found_text(alert_id)),
        found@.len() > 0 ==> r == Ok::<Alert, AppError>(resolved(found@.last(), user_id, notes, now as int)),
{
    let mut found = found;
    match found.pop() {
        None => Err(alert_not_found(alert_id)),
        Some(alert) => {
            let acknowledged_by = match alert.acknowledged_by { Some(u) => Some(u), None => Some(user_id) };
            let acknowledged_at = match alert.acknowledged_at { Some(t) => Some(t), None => Some(now) };
            Ok(Alert {
                status: AlertStatus::Resolved,
                resolved_by: Some(user_id),
                resolved_at: Some(now),
                resolution_notes: Some(notes),
                updated_at: now,
                acknowledged_by,
                acknowledged_at,
                ..alert
            })
        }
    }
}

/// Acknowledging and resolving keep the alert's record; acknowledging leaves
/// the status as it was; resolving always ends resolved, and keeps whoever
/// acknowledged first: after an acknowledgement by `u1`, a resolution by `u2`
/// still names `u1` as the acknowledger.
pub proof fn lemma_alert_transitions(a: Alert, u1: u128, u2: u128, notes: String, t1: int, t2: int)
    requires
        i64::MIN <= t1 <= i64::MAX,
        i64::MIN <= t2 <= i64::MAX,
    ensures
        same_alert_record(a, acknowledged(a, u1, t1)),
        same_alert_record(a, resolved(a, u2, notes, t2)),
        acknowledged(a, u1, t1).status == a.status,
        resolved(a, u2, notes, t2).status == AlertStatus::Resolved,
        resolved(acknowledged(a, u1, t1), u2, notes, t2).acknowledged_by == Some(u1),
        resolved(acknowledged(a, u1, t1), u2, notes, t2).acknowledged_at == Some(t1 as i64),
        resolved(resolved(a, u1, notes, t1), u2, notes, t2).acknowledged_by
            == resolved(a, u1, notes, t1).acknowledged_by,
{
}

} // verus!

verus! {

/// An alert still to deal with at the highest severities: critical or
/// emergency, and open, acknowledged or in progress.
pub open spec fn unresolved_critical(a: Alert) -> bool {
    (a.severity == AlertSeverity::Critical || a.severity == AlertSeverity::Emergency)
        && (a.status == AlertStatus::Open || a.status == AlertStatus::Acknowledged || a.status == AlertStatus::InProgress)
}

/// An open alert.
pub open spec fn alert_open() -> spec_fn(Alert) -> bool {
    |a: Alert| a.status == AlertStatus::Open
}

/// An acknowledged alert.
pub open spec fn alert_acknowledged() -> spec_fn(Alert) -> bool {
    |a: Alert| a.status == AlertStatus::Acknowledged
}

/// An alert of the last 24 hours before `now`.
pub open spec fn alert_recent(now: int) -> spec_fn(Alert) -> bool {
    |a: Alert| a.created_at >= now - 86400
}

/// An unresolved critical alert.
pub open spec fn alert_unresolved_critical() -> spec_fn(Alert) -> bool {
    |a: Alert| unresolved_critical(a)
}

/// The count of the last 24 hours goes by how long ago each alert was
/// raised: adding an alert raised at most 86 400 seconds (24 hours) before
/// `now` adds one to it, adding an older one adds nothing. The open and
/// acknowledged counts go by the status alone, in the same way.
pub proof fn lemma_alert_counts(alerts: Seq<Alert>, a: Alert, now: int)
    ensures
        alerts.push(a).filter(alert_recent(now)).len()
            == alerts.filter(alert_recent(now)).len() + (if now - a.created_at <= 86400 { 1int } else { 0int }),
        alerts.push(a).filter(alert_open()).len()
            == alerts.filter(alert_open()).len() + (if a.status == AlertStatus::Open { 1int } else { 0int }),
        alerts.push(a).filter(alert_acknowledged()).len()
            == alerts.filter(alert_acknowledged()).len() + (if a.status == AlertStatus::Acknowledged { 1int } else { 0int }),
        alerts.push(a).filter(alert_unresolved_critical()).len()
            == alerts.filter(alert_unresolved_critical()).len() + (if (a.severity == AlertSeverity::Critical
                || a.severity == AlertSeverity::Emergency) && (a.status == AlertStatus::Open
                || a.status == AlertStatus::Acknowledged || a.status == AlertStatus::InProgress) { 1int } else { 0int }),
{
    alerts.lemma_filter_push(a, alert_recent(now));
    alerts.lemma_filter_push(a, alert_open());
    alerts.lemma_filter_push(a, alert_acknowledged());
    alerts.lemma_filter_push(a, alert_unresolved_critical());
}

/// Sums up stored alerts at time `now`: the open ones, the acknowledged ones,
/// those of the last 24 hours and the unresolved critical ones. The counts by
/// severity and by kind are left empty.
pub fn summarize_alerts(alerts: &Vec<Alert>, now: i64) -> (r: AlertSummary)
    ensures
        r.total_open == alerts@.filter(alert_open()).len() as u32,
        r.total_acknowledged == alerts@.filter(alert_acknowledged()).len() as u32,
        r.last_24h_count == alerts@.filter(alert_recent(now as int)).len() as u32,
        r.unresolved_critical == alerts@.filter(alert_unresolved_critical()).len() as u32,
        r.by_severity@ == Map::<AlertSeverity, u32>::empty(),
        r.by_type@ == Map::<AlertType, u32>::empty(),
{
    let mut open: usize = 0;
    let mut acked: usize = 0;
    let mut recent: usize = 0;
    let mut critical: usize = 0;
    let mut i: usize = 0;
    proof {
        reveal(Seq::filter);
        assert(alerts@.subrange(0, 0).filter(alert_open()) =~= Seq::empty());
        assert(alerts@.subrange(0, 0).filter(alert_acknowledged()) =~= Seq::empty());
        assert(alerts@.subrange(0, 0).filter(alert_recent(now as int)) =~= Seq::empty());
        assert(alerts@.subrange(0, 0).filter(alert_unresolved_critical()) =~= Seq::empty());
    }
    while i < alerts.len()
        invariant
            i <= alerts.len(),
            open == alerts@.subrange(0, i as int).filter(alert_open()).len(),
            acked == alerts@.subrange(0, i as int).filter(alert_acknowledged()).len(),
            recent == alerts@.subrange(0, i as int).filter(alert_recent(now as int)).len(),
            critical == alerts@.subrange(0, i as int).filter(alert_unresolved_critical()).len(),
            open <= i,
            acked <= i,
            recent <= i,
            critical <= i,
        decreases alerts.len() - i,
    {
        let a = &alerts[i];
        let ghost prefix = alerts@.subrange(0, i as int);
        assert(alerts@.subrange(0, i + 1) =~= prefix.push(*a));
        proof {
            prefix.lemma_filter_push(*a, alert_open());
            prefix.lemma_filter_push(*a, alert_acknowledged());
            prefix.lemma_filter_push(*a, alert_recent(now as int));
            prefix.lemma_filter_push(*a, alert_unresolved_critical());
        }
        let is_open = match a.status { AlertStatus::Open => true, _ => false };
        let is_acked = match a.status { AlertStatus::Acknowledged => true, _ => false };
        let is_live = match a.status {
            AlertStatus::Open | AlertStatus::Acknowledged | AlertStatus::InProgress => true,
            _ => false,
        };
        let is_grave = match a.severity {
            AlertSeverity::Critical | AlertSeverity::Emergency => true,
            _ => false,
        };
        if is_open {
            open = open + 1;
        }
        if is_acked {
            acked = acked + 1;
        }
        if a.created_at as i128 >= now as i128 - 86400 {
            recent = recent + 1;
        }
        if is_grave && is_live {
            critical = critical + 1;
        }
        i = i + 1;
    }
    assert(alerts@.subrange(0, i as int) =~= alerts@);
    AlertSummary {
        total_open: #[verifier::truncate] (open as u32),
        total_acknowledged: #[verifier::truncate] (acked as u32),
        by_severity: std::collections::HashMap::new(),
        by_type: std::collections::HashMap::new(),
        last_24h_count: #[verifier::truncate] (recent as u32),
        unresolved_critical: #[verifier::truncate] (critical as u32),
    }
}

} // verus!
