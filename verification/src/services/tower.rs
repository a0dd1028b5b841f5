//! Towers: their risk from vibration, wind and ice, their creation and
//! update, and their current status.
//!
//! Readings are in hundredths: vibration in mm/s, wind in m/s, ice in mm.
use vstd::prelude::*;
use crate::models::tower::{Tower, TowerStatus, CreateTowerRequest, UpdateTowerRequest, TowerStatusResponse, RiskLevel};
use crate::models::ice_detection::IceDetectionData;
use crate::models::vibration::VibrationData;
use crate::models::wind_speed::WindSpeedData;
use crate::readings::{ceil_average, ice_thickness_series, velocity_series, wind_speed_series, ice_thicknesses, velocities, wind_speeds, ceil_average_of};
use crate::error::AppError;
use crate::text::{uuid_text, uuid_string};
use crate::ids::new_uuid;

verus! {

/// The risk score of a tower: vibration above 5, 3 and 1.5 mm/s gives 40, 20
/// and 10 points; wind above 25, 17 and 10 m/s 40, 25 and 10; ice above 10,
/// 5 and 2 mm 50, 30 and 15.
pub open spec fn tower_risk_score(vibration: int, wind: int, ice: int) -> int {
    (if vibration > 500 { 40int } else if vibration > 300 { 20int } else if vibration > 150 { 10int } else { 0int })
        + (if wind > 2500 { 40int } else if wind > 1700 { 25int } else if wind > 1000 { 10int } else { 0int })
        + (if ice > 1000 { 50int } else if ice > 500 { 30int } else if ice > 200 { 15int } else { 0int })
}

/// The risk of a score: from 80 critical, from 50 high, from 30 medium, from
/// 10 low, none below.
pub open spec fn tower_risk_for(score: int) -> RiskLevel {
    if score >= 80 {
        RiskLevel::Critical
    } else if score >= 50 {
        RiskLevel::High
    } else if score >= 30 {
        RiskLevel::Medium
    } else if score >= 10 {
        RiskLevel::Low
    } else {
        RiskLevel::NoRisk
    }
}

/// Rates the risk of a tower from its vibration, wind and ice.
pub fn calculate_risk_level(vibration: i64, wind_speed: i64, ice_thickness: i64) -> (r: RiskLevel)
    ensures
        r == tower_risk_for(tower_risk_score(vibration as int, wind_speed as int, ice_thickness as int)),
{
    let mut score: u32 = 0;

    if vibration > 500 { score += 40; }
    else if vibration > 300 { score += 20; }
    else if vibration > 150 { score += 10; }

    if wind_speed > 2500 { score += 40; }
    else if wind_speed > 1700 { score += 25; }
    else if wind_speed > 1000 { score += 10; }

    if ice_thickness > 1000 { score += 50; }
    else if ice_thickness > 500 { score += 30; }
    else if ice_thickness > 200 { score += 15; }

    if score >= 80 {
        RiskLevel::Critical
    } else if score >= 50 {
        RiskLevel::High
    } else if score >= 30 {
        RiskLevel::Medium
    } else if score >= 10 {
        RiskLevel::Low
    } else {
        RiskLevel::NoRisk
    }
}

/// Each reading adds its own points to the risk score of a tower: with no
/// other reading, vibration above 1.5, 3 and 5 mm/s scores 10, 20 and 40;
/// wind above 10, 17 and 25 m/s 10, 25 and 40; ice above 2, 5 and 10 mm 15,
/// 30 and 50; the score of all three is the sum. From 80 points the risk is
/// critical, from 50 below 80 high, from 30 below 50 medium, from 10 below 30
/// low, below 10 none.
pub proof fn lemma_tower_risk_table(vibration: int, wind: int, ice: int, score: int)
    ensures
        tower_risk_score(vibration, wind, ice)
            == tower_risk_score(vibration, 0, 0) + tower_risk_score(0, wind, 0) + tower_risk_score(0, 0, ice),
        tower_risk_score(0, 0, 0) == 0,
        vibration <= 150 ==> tower_risk_score(vibration, 0, 0) == 0,
        150 < vibration <= 300 ==> tower_risk_score(vibration, 0, 0) == 10,
        300 < vibration <= 500 ==> tower_risk_score(vibration, 0, 0) == 20,
        500 < vibration ==> tower_risk_score(vibration, 0, 0) == 40,
        wind <= 1000 ==> tower_risk_score(0, wind, 0) == 0,
        1000 < wind <= 1700 ==> tower_risk_score(0, wind, 0) == 10,
        1700 < wind <= 2500 ==> tower_risk_score(0, wind, 0) == 25,
        2500 < wind ==> tower_risk_score(0, wind, 0) == 40,
        ice <= 200 ==> tower_risk_score(0, 0, ice) == 0,
        200 < ice <= 500 ==> tower_risk_score(0, 0, ice) == 15,
        500 < ice <= 1000 ==> tower_risk_score(0, 0, ice) == 30,
        1000 < ice ==> tower_risk_score(0, 0, ice) == 50,
        tower_risk_for(score) == RiskLevel::Critical <==> score >= 80,
        tower_risk_for(score) == RiskLevel::High <==> 50 <= score < 80,
        tower_risk_for(score) == RiskLevel::Medium <==> 30 <= score < 50,
        tower_risk_for(score) == RiskLevel::Low <==> 10 <= score < 30,
        tower_risk_for(score) == RiskLevel::NoRisk <==> score < 10,
{
}

/// Worse readings never lower the risk of a tower; heavy ice (above 10 mm)
/// with strong wind (above 25 m/s) is critical whatever the vibration.
pub proof fn lemma_tower_risk_monotone(v1: int, w1: int, i1: int, v2: int, w2: int, i2: int)
    requires
        v1 <= v2,
        w1 <= w2,
        i1 <= i2,
    ensures
        tower_risk_for(tower_risk_score(v1, w1, i1)).spec_rank() <= tower_risk_for(tower_risk_score(v2, w2, i2)).spec_rank(),
        (i1 > 1000 && w1 > 2500) ==> tower_risk_for(tower_risk_score(v1, w1, i1)) == RiskLevel::Critical,
{
}

/// Makes a tower from a request at time `now`: in operation, not yet
/// inspected, with no sensors.
pub fn create_tower(req: CreateTowerRequest, now: i64) -> (r: Tower)
    ensures
        r.name == req.name,
        r.code == req.code,
        r.location == req.location,
        r.height_meters == req.height_meters,
        r.construction_date == req.construction_date,
        r.status == TowerStatus::Operational,
        r.cable_line_id == req.cable_line_id,
        r.position_in_line == req.position_in_line,
        r.max_load_kg == req.max_load_kg,
        r.last_inspection_date.is_none(),
        r.created_at == now,
        r.updated_at == now,
        r.sensors@.len() == 0,
{
    let sensors = Vec::new();
    Tower {
        id: new_uuid(),
        name: req.name,
        code: req.code,
        location: req.location,
        height_meters: req.height_meters,
        construction_date: req.construction_date,
        status: TowerStatus::Operational,
        cable_line_id: req.cable_line_id,
        position_in_line: req.position_in_line,
        max_load_kg: req.max_load_kg,
        last_inspection_date: None,
        created_at: now,
        updated_at: now,
        sensors,
    }
}

/// The text of the error for a tower that is not there.
pub open spec fn tower_not_found_text(id: u128) -> Seq<char> {
    "Tower "@ + uuid_text(id) + " not found"@
}

/// The tower a lookup found, or the error that it was not found.
pub fn get_tower(found: Option<Tower>, id: u128) -> (r: Result<Tower, AppError>)
    ensures
        found.is_none() ==> (r matches Err(AppError::NotFound(m)) && m@ == tower_not_found_text(id)),
        found matches Some(t) ==> r == Ok::<Tower, AppError>(t),
{
    match found {
        Some(t) => Ok(t),
        None => {
            let mut m = String::from_str("Tower ");
            let text = uuid_string(id);
            m.append(text.as_str());
            m.append(" not found");
            Err(AppError::NotFound(m))
        }
    }
}

/// A tower updated by a request at `now`: each field the request gives
/// replaces the tower's, the others stay.
pub open spec fn updated_tower(t: Tower, req: UpdateTowerRequest, now: int) -> Tower {
    Tower {
        name: match req.name { Some(n) => n, None => t.name },
        status: match req.status { Some(s) => s, None => t.status },
        last_inspection_date: match req.last_inspection_date { Some(d) => Some(d), None => t.last_inspection_date },
        updated_at: now as i64,
        ..t
    }
}

/// Applies an update request to a tower at time `now`.
pub fn update_tower(existing: Tower, req: UpdateTowerRequest, now: i64) -> (r: Tower)
    ensures
        r == updated_tower(existing, req, now as int),
{
    let name = match req.name { Some(n) => n, None => existing.name };
    let status = match req.status { Some(s) => s, None => existing.status };
    let last_inspection_date = match req.last_inspection_date { Some(d) => Some(d), None => existing.last_inspection_date };
    Tower { name, status, last_inspection_date, updated_at: now, ..existing }
}

/// An empty update changes nothing but the time of the update, and applying
/// the same update twice is applying it once.
pub proof fn lemma_update_tower_laws(t: Tower, req: UpdateTowerRequest, now: int, later: int)
    requires
        i64::MIN <= now <= i64::MAX,
        i64::MIN <= later <= i64::MAX,
    ensures
        (req.name.is_none() && req.status.is_none() && req.last_inspection_date.is_none())
            ==> updated_tower(t, req, now) == (Tower { updated_at: now as i64, ..t }),
        updated_tower(updated_tower(t, req, now), req, later) == updated_tower(t, req, later),
{
}

/// What the status of a tower at `now` holds: the averages of its readings
/// (rounded up to the hundredth, so that each is above a bound exactly when
/// the exact mean is; 0 without readings) and the risk they make.
pub open spec fn status_matches(
    s: TowerStatusResponse, t: Tower, now: int,
    ice: Seq<IceDetectionData>, vibration: Seq<VibrationData>, wind: Seq<WindSpeedData>,
) -> bool {
    let avg_ice = ceil_average(ice_thickness_series(ice));
    let avg_vib = ceil_average(velocity_series(vibration));
    let avg_wind = ceil_average(wind_speed_series(wind));
    &&& s.tower_id == t.id
    &&& s.tower_name == t.name
    &&& s.status == t.status
    &&& s.vibration_level == avg_vib
    &&& s.wind_speed == avg_wind
    &&& s.ice_thickness == avg_ice
    &&& s.risk_level == tower_risk_for(tower_risk_score(avg_vib, avg_wind, avg_ice))
    &&& s.last_update == now
}

/// The status of a tower at time `now` from its readings of the last minutes.
pub fn get_tower_status(
    tower: Tower, now: i64,
    ice_data: &Vec<IceDetectionData>, vibration_data: &Vec<VibrationData>, wind_data: &Vec<WindSpeedData>,
) -> (r: TowerStatusResponse)
    ensures
        status_matches(r, tower, now as int, ice_data@, vibration_data@, wind_data@),
{
    let avg_ice = ceil_average_of(&ice_thicknesses(ice_data));
    let avg_vibration = ceil_average_of(&velocities(vibration_data));
    let avg_wind = ceil_average_of(&wind_speeds(wind_data));
    let risk_level = calculate_risk_level(avg_vibration, avg_wind, avg_ice);
    TowerStatusResponse {
        tower_id: tower.id,
        tower_name: tower.name,
        status: tower.status,
        vibration_level: avg_vibration,
        wind_speed: avg_wind,
        ice_thickness: avg_ice,
        risk_level,
        last_update: now,
    }
}

} // verus!
