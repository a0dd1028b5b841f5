//! The sample data the platform starts with: the default administrator, and
//! five towers along one cable line, each with its five standard sensors and
//! a camera on top.
//!
//! Positions are in millionths of a degree, lengths in hundredths of a metre,
//! loads in hundredths of a kilogram.
use vstd::prelude::*;
use crate::models::tower::{Tower, Location, TowerStatus};
use crate::models::sensor::{Sensor, SensorType, SensorStatus};
use crate::models::video::Camera;
use crate::services::video::{tower_camera, is_tower_camera};
use crate::text::{decimal_text, append_decimal, width3_text, append_width3};
use crate::models::user::{User, UserRole};
use crate::error::AppError;
use crate::ids::{new_uuid, hash_password, cost_text, bcrypt_verifies};

verus! {

/// The names of the sample towers.
pub open spec fn sample_tower_names() -> Seq<Seq<char>> {
    seq!["一号塔架"@, "二号塔架"@, "三号塔架"@, "四号塔架"@, "五号塔架"@]
}

/// Whether a tower is the sample tower `i` (0 to 4) of a line, made at `now`:
/// coded `TW-00n`, a metre and a half further and 50 m higher at each step,
/// 2.5 m taller, built five years ago, inspected a month ago.
pub open spec fn is_sample_tower(t: Tower, i: int, name: Seq<char>, line: u128, now: int) -> bool {
    &&& t.name@ == name
    &&& t.code@ == "TW-"@ + width3_text((i + 1) as nat)
    &&& t.location.latitude == 30123450 + i * 1000
    &&& t.location.longitude == 103456780 + i * 1500
    &&& t.location.elevation_meters == 150000 + i * 5000
    &&& t.location.description matches Some(d) && d@ == name + "位置描述"@
    &&& t.height_meters == 3500 + i * 250
    &&& t.construction_date == Some((now - 5 * 365 * 86400) as i64)
    &&& t.status == TowerStatus::Operational
    &&& t.cable_line_id == line
    &&& t.position_in_line == i + 1
    &&& t.max_load_kg == 5000000
    &&& t.last_inspection_date == Some((now - 30 * 86400) as i64)
    &&& t.created_at == now
    &&& t.updated_at == now
    &&& t.sensors@.len() == 0
}

/// The sample tower `i` of a line.
pub fn sample_tower(i: u32, name: &str, line: u128, now: i64) -> (t: Tower)
    requires
        i < 5,
        i64::MIN + 5 * 365 * 86400 <= now,
    ensures
        is_sample_tower(t, i as int, name@, line, now as int),
{
    let k = i as i64;
    let mut code = String::from_str("TW-");
    append_width3(&mut code, (i + 1) as u64);
    let mut description = String::from_str(name);
    description.append("位置描述");
    let sensors = Vec::new();
    Tower {
        id: new_uuid(),
        name: String::from_str(name),
        code,
        location: Location {
            latitude: 30123450 + k * 1000,
            longitude: 103456780 + k * 1500,
            elevation_meters: 150000 + k * 5000,
            description: Some(description),
        },
        height_meters: 3500 + k * 250,
        construction_date: Some(now - 5 * 365 * 86400),
        status: TowerStatus::Operational,
        cable_line_id: line,
        position_in_line: i + 1,
        max_load_kg: 5000000,
        last_inspection_date: Some(now - 30 * 86400),
        created_at: now,
        updated_at: now,
        sensors,
    }
}

/// The specification of each standard sensor: type, device prefix, model,
/// sampling rate, range and accuracy (hundredths of their units).
pub open spec fn sample_sensor_spec(k: int) -> (SensorType, Seq<char>, Seq<char>, i64, i64, i64, i64) {
    if k == 0 {
        (SensorType::Vibration, "VIB-001"@, "振动传感器"@, 10000, 0, 10000, 10)
    } else if k == 1 {
        (SensorType::WindSpeed, "WIND-001"@, "风速传感器"@, 1000, 0, 6000, 10)
    } else if k == 2 {
        (SensorType::IceThickness, "ICE-001"@, "覆冰传感器"@, 100, 0, 10000, 10)
    } else if k == 3 {
        (SensorType::Temperature, "TEMP-001"@, "温度传感器"@, 100, -4000i64, 6000, 10)
    } else {
        (SensorType::Humidity, "HUM-001"@, "湿度传感器"@, 100, 0, 10000, 100)
    }
}

/// Whether a sensor is the standard sensor `k` of the sample tower `i`, made
/// at `now`: active, calibrated a month ago, every 90 days.
pub open spec fn is_sample_sensor(s: Sensor, i: int, k: int, now: int) -> bool {
    let spec = sample_sensor_spec(k);
    &&& s.device_id@ == spec.1 + "-"@ + decimal_text((i + 1) as nat)
    &&& s.sensor_type == spec.0
    &&& s.model@ == spec.2
    &&& s.manufacturer@ == "国产"@
    &&& s.status == SensorStatus::Active
    &&& s.calibration_date == Some((now - 30 * 86400) as i64)
    &&& s.last_calibration_date == Some((now - 30 * 86400) as i64)
    &&& s.calibration_interval_days == 90
    &&& s.sampling_rate_hz == spec.3
    &&& s.measurement_range_min == spec.4
    &&& s.measurement_range_max == spec.5
    &&& s.accuracy == spec.6
    &&& s.created_at == now
    &&& s.updated_at == now
}

/// The standard sensor `k` of the sample tower `i`.
pub fn sample_sensor(i: u32, k: u32, now: i64) -> (s: Sensor)
    requires
        i < 5,
        k < 5,
        i64::MIN + 30 * 86400 <= now,
    ensures
        is_sample_sensor(s, i as int, k as int, now as int),
{
    let (sensor_type, prefix, model, rate, min, max, accuracy): (SensorType, &str, &str, i64, i64, i64, i64) = if k == 0 {
        (SensorType::Vibration, "VIB-001", "振动传感器", 10000, 0, 10000, 10)
    } else if k == 1 {
        (SensorType::WindSpeed, "WIND-001", "风速传感器", 1000, 0, 6000, 10)
    } else if k == 2 {
        (SensorType::IceThickness, "ICE-001", "覆冰传感器", 100, 0, 10000, 10)
    } else if k == 3 {
        (SensorType::Temperature, "TEMP-001", "温度传感器", 100, -4000, 6000, 10)
    } else {
        (SensorType::Humidity, "HUM-001", "湿度传感器", 100, 0, 10000, 100)
    };
    let mut device_id = String::from_str(prefix);
    device_id.append("-");
    append_decimal(&mut device_id, (i + 1) as u64);
    Sensor {
        id: new_uuid(),
        device_id,
        sensor_type,
        model: String::from_str(model),
        manufacturer: String::from_str("国产"),
        status: SensorStatus::Active,
        calibration_date: Some(now - 30 * 86400),
        last_calibration_date: Some(now - 30 * 86400),
        calibration_interval_days: 90,
        sampling_rate_hz: rate,
        measurement_range_min: min,
        measurement_range_max: max,
        accuracy,
        created_at: now,
        updated_at: now,
    }
}

/// The sample line made at `now`: five towers along one line, their 25
/// sensors (five per tower, tower after tower) and their five cameras.
pub open spec fn sample_line_matches(towers: Seq<Tower>, sensors: Seq<Sensor>, cameras: Seq<Camera>, now: int) -> bool {
    &&& towers.len() == 5
    &&& sensors.len() == 25
    &&& cameras.len() == 5
    &&& forall|i: int| 0 <= i < 5 ==> is_sample_tower(#[trigger] towers[i], i, sample_tower_names()[i], towers[0].cable_line_id, now)
    &&& forall|i: int, k: int| 0 <= i < 5 && 0 <= k < 5 ==> is_sample_sensor(#[trigger] sensors[5 * i + k], i, k, now)
    &&& forall|i: int| 0 <= i < 5 ==> is_tower_camera(#[trigger] cameras[i], towers[i], now)
}

/// The default administrator made at `now`: user `admin`, active, of the
/// technical department, never logged in.
pub open spec fn is_default_admin(u: User, now: int) -> bool {
    &&& u.username@ == "admin"@
    &&& u.email@ == "admin@cableway.local"@
    &&& u.full_name@ == "系统管理员"@
    &&& u.role == UserRole::Admin
    &&& u.department@ == "技术部"@
    &&& u.phone matches Some(p) && p@ == "13800138000"@
    &&& u.is_active
    &&& u.last_login.is_none()
    &&& u.created_at == now
    &&& u.updated_at == now
}

/// The password of the default administrator.
pub open spec fn default_admin_password() -> Seq<char> {
    "admin123"@
}

/// The sample data: the default administrator with the bcrypt hash of its
/// password, and the sample line.
#[derive(Debug, Clone)]
pub struct SampleData {
    pub admin: User,
    pub admin_password_hash: String,
    pub towers: Vec<Tower>,
    pub sensors: Vec<Sensor>,
    pub cameras: Vec<Camera>,
}

/// Builds the sample data at `now`: the default administrator `admin`, whose
/// password `admin123` is hashed with bcrypt at the default cost of 12, and
/// the sample line. When bcrypt gives no hash (its random source failing),
/// nothing is built and the error is an internal one carrying bcrypt's text.
pub fn init_sample_data(now: i64) -> (r: Result<SampleData, AppError>)
    requires
        i64::MIN + 5 * 365 * 86400 <= now,
    ensures
        r matches Err(e) ==> e is Internal,
        r matches Ok(d) ==> {
            &&& is_default_admin(d.admin, now as int)
            &&& d.admin_password_hash@.len() == 60
            &&& d.admin_password_hash@.subrange(0, 7) == "$2b$"@ + cost_text(12) + "$"@
            &&& bcrypt_verifies(default_admin_password(), d.admin_password_hash@)
            &&& sample_line_matches(d.towers@, d.sensors@, d.cameras@, now as int)
        },
{
    proof { reveal_strlit("admin123"); }
    let password_hash = match hash_password("admin123", 12) {
        Ok(h) => h,
        Err(e) => return Err(AppError::Internal(e)),
    };
    let admin = User {
        id: new_uuid(),
        username: String::from_str("admin"),
        email: String::from_str("admin@cableway.local"),
        full_name: String::from_str("系统管理员"),
        role: UserRole::Admin,
        department: String::from_str("技术部"),
        phone: Some(String::from_str("13800138000")),
        is_active: true,
        last_login: None,
        created_at: now,
        updated_at: now,
    };
    let line = new_uuid();
    let mut towers: Vec<Tower> = Vec::new();
    let mut sensors: Vec<Sensor> = Vec::new();
    let mut cameras: Vec<Camera> = Vec::new();
    let mut i: u32 = 0;
    while i < 5
        invariant
            i <= 5,
            i64::MIN + 5 * 365 * 86400 <= now,
            towers@.len() == i,
            sensors@.len() == 5 * i,
            cameras@.len() == i,
            forall|j: int| 0 <= j < i ==> is_sample_tower(#[trigger] towers@[j], j, sample_tower_names()[j], line, now as int),
            forall|j: int, k: int| 0 <= j < i && 0 <= k < 5 ==> is_sample_sensor(#[trigger] sensors@[5 * j + k], j, k, now as int),
            forall|j: int| 0 <= j < i ==> is_tower_camera(#[trigger] cameras@[j], towers@[j], now as int),
        decreases 5 - i,
    {
        let name: &str = if i == 0 {
            "一号塔架"
        } else if i == 1 {
            "二号塔架"
        } else if i == 2 {
            "三号塔架"
        } else if i == 3 {
            "四号塔架"
        } else {
            "五号塔架"
        };
        assert(name@ == sample_tower_names()[i as int]);
        let tower = sample_tower(i, name, line, now);
        let mut k: u32 = 0;
        while k < 5
            invariant
                i < 5,
                k <= 5,
                i64::MIN + 5 * 365 * 86400 <= now,
                sensors@.len() == 5 * i + k,
                forall|j: int, m: int| 0 <= j < i && 0 <= m < 5 ==> is_sample_sensor(#[trigger] sensors@[5 * j + m], j, m, now as int),
                forall|m: int| 0 <= m < k ==> is_sample_sensor(#[trigger] sensors@[5 * i + m], i as int, m, now as int),
            decreases 5 - k,
        {
            let s = sample_sensor(i, k, now);
            sensors.push(s);
            k = k + 1;
        }
        let camera = tower_camera(&tower, now);
        cameras.push(camera);
        towers.push(tower);
        i = i + 1;
    }
    assert(towers@[0].cable_line_id == line);
    Ok(SampleData { admin, admin_password_hash: password_hash, towers, sensors, cameras })
}

} // verus!
