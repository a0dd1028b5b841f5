//! Sensors: their creation, the standard sensors of each tower the service
//! lists, and the kinds of sensor data that can be read and ingested.
use vstd::prelude::*;
use crate::models::sensor::{Sensor, SensorType, SensorStatus, CreateSensorRequest};
use crate::models::tower::Tower;
use crate::error::AppError;
use crate::text::{uuid_text, uuid_string, decimal_text, append_decimal, same_text};
use crate::paging::{page_of, paginate};
use crate::ids::new_uuid;

verus! {

/// Makes a sensor from a request at time `now`: active, not yet calibrated.
pub fn create_sensor(req: CreateSensorRequest, now: i64) -> (r: Sensor)
    ensures
        r.device_id == req.device_id,
        r.sensor_type == req.sensor_type,
        r.model == req.model,
        r.manufacturer == req.manufacturer,
        r.status == SensorStatus::Active,
        r.calibration_date.is_none(),
        r.last_calibration_date.is_none(),
        r.calibration_interval_days == req.calibration_interval_days,
        r.sampling_rate_hz == req.sampling_rate_hz,
        r.measurement_range_min == req.measurement_range_min,
        r.measurement_range_max == req.measurement_range_max,
        r.accuracy == req.accuracy,
        r.created_at == now,
        r.updated_at == now,
{
    Sensor {
        id: new_uuid(),
        device_id: req.device_id,
        sensor_type: req.sensor_type,
        model: req.model,
        manufacturer: req.manufacturer,
        status: SensorStatus::Active,
        calibration_date: None,
        last_calibration_date: None,
        calibration_interval_days: req.calibration_interval_days,
        sampling_rate_hz: req.sampling_rate_hz,
        measurement_range_min: req.measurement_range_min,
        measurement_range_max: req.measurement_range_max,
        accuracy: req.accuracy,
        created_at: now,
        updated_at: now,
    }
}

/// The text of the error for a sensor that is not there.
pub open spec fn sensor_not_found_text(id: u128) -> Seq<char> {
    "Sensor "@ + uuid_text(id) + " not found"@
}

/// Looks up a sensor. No sensor is stored apart from its tower, so none is
/// ever found.
pub fn get_sensor(id: u128) -> (r: Result<Sensor, AppError>)
    ensures
        r matches Err(AppError::NotFound(m)) && m@ == sensor_not_found_text(id),
{
    let mut m = String::from_str("Sensor ");
    let text = uuid_string(id);
    m.append(text.as_str());
    m.append(" not found");
    Err(AppError::NotFound(m))
}

/// The standard sensors of a tower, in order: type, device code prefix and
/// model.
pub open spec fn standard_sensor_kinds() -> Seq<(SensorType, Seq<char>, Seq<char>)> {
    seq![
        (SensorType::Vibration, "VIB-001"@, "振动传感器"@),
        (SensorType::WindSpeed, "WIND-001"@, "风速传感器"@),
        (SensorType::IceThickness, "ICE-001"@, "覆冰传感器"@),
        (SensorType::Temperature, "TEMP-001"@, "温度传感器"@),
        (SensorType::Humidity, "HUM-001"@, "湿度传感器"@),
    ]
}

/// The sampling rate of a standard sensor, in hundredths of a hertz.
pub open spec fn standard_sampling_rate(t: SensorType) -> int {
    match t {
        SensorType::Vibration => 10000,
        SensorType::WindSpeed => 1000,
        _ => 100,
    }
}

/// A listed sensor as plain values, without its identifier: device code,
/// type, model, maker, status, calibration dates and interval, rate, range,
/// accuracy and times.
pub open spec fn sensor_view(s: Sensor)
    -> (Seq<char>, SensorType, Seq<char>, Seq<char>, SensorStatus, Option<i64>, Option<i64>, u32, i64, i64, i64, i64, i64, i64)
{
    (s.device_id@, s.sensor_type, s.model@, s.manufacturer@, s.status, s.calibration_date, s.last_calibration_date,
        s.calibration_interval_days, s.sampling_rate_hz, s.measurement_range_min, s.measurement_range_max, s.accuracy,
        s.created_at, s.updated_at)
}

/// The standard sensor of a kind on the tower at `position`, listed at `now`
/// with the given status: made at home, calibrated 30 days ago every 90
/// days, measuring 0 to 100 to a tenth.
pub open spec fn standard_sensor(kind: (SensorType, Seq<char>, Seq<char>), position: u32, status: SensorStatus, now: int)
    -> (Seq<char>, SensorType, Seq<char>, Seq<char>, SensorStatus, Option<i64>, Option<i64>, u32, i64, i64, i64, i64, i64, i64)
{
    let calibrated = Some((now - 30 * 86400) as i64);
    (kind.1 + "-"@ + decimal_text(position as nat), kind.0, kind.2, "国产"@, status, calibrated, calibrated, 90u32,
        standard_sampling_rate(kind.0) as i64, 0i64, 10000i64, 10i64, now as i64, now as i64)
}

/// The standard sensors of one tower of the given type (all types when none
/// is given).
pub open spec fn tower_sensors(position: u32, sensor_type: Option<SensorType>, status: SensorStatus, now: int)
    -> Seq<(Seq<char>, SensorType, Seq<char>, Seq<char>, SensorStatus, Option<i64>, Option<i64>, u32, i64, i64, i64, i64, i64, i64)>
{
    standard_sensor_kinds().filter(|k: (SensorType, Seq<char>, Seq<char>)| sensor_type matches Some(t) ==> k.0 == t)
        .map_values(|k: (SensorType, Seq<char>, Seq<char>)| standard_sensor(k, position, status, now))
}

/// The standard sensors of the towers asked for, tower after tower.
pub open spec fn listed_sensors(towers: Seq<Tower>, tower_id: Option<u128>, sensor_type: Option<SensorType>, status: SensorStatus, now: int)
    -> Seq<(Seq<char>, SensorType, Seq<char>, Seq<char>, SensorStatus, Option<i64>, Option<i64>, u32, i64, i64, i64, i64, i64, i64)>
    decreases towers.len(),
{
    if towers.len() == 0 {
        Seq::empty()
    } else {
        let t = towers.last();
        let rest = listed_sensors(towers.drop_last(), tower_id, sensor_type, status, now);
        if tower_id matches Some(id) && id != t.id {
            rest
        } else {
            rest + tower_sensors(t.position_in_line, sensor_type, status, now)
        }
    }
}

fn push_standard_sensors(v: &mut Vec<Sensor>, position: u32, sensor_type: Option<SensorType>, status: SensorStatus, now: i64)
    requires
        now >= i64::MIN + 30 * 86400,
    ensures
        final(v)@.map_values(|s: Sensor| sensor_view(s))
            == old(v)@.map_values(|s: Sensor| sensor_view(s)) + tower_sensors(position, sensor_type, status, now as int),
{
    let ghost kinds = standard_sensor_kinds();
    let ghost pred = |k: (SensorType, Seq<char>, Seq<char>)| sensor_type matches Some(t) ==> k.0 == t;
    let ghost start = v@.map_values(|s: Sensor| sensor_view(s));
    let mut i: usize = 0;
    assert(kinds.subrange(0, 0).filter(pred) =~= Seq::empty()) by {
        reveal(Seq::filter);
    }
    assert(v@.map_values(|s: Sensor| sensor_view(s)) =~= start + kinds.subrange(0, 0).filter(pred).map_values(
        |k: (SensorType, Seq<char>, Seq<char>)| standard_sensor(k, position, status, now as int)));
    while i < 5
        invariant
            i <= 5,
            now >= i64::MIN + 30 * 86400,
            kinds == standard_sensor_kinds(),
            pred == (|k: (SensorType, Seq<char>, Seq<char>)| sensor_type matches Some(t) ==> k.0 == t),
            v@.map_values(|s: Sensor| sensor_view(s)) == start + kinds.subrange(0, i as int).filter(pred).map_values(
                |k: (SensorType, Seq<char>, Seq<char>)| standard_sensor(k, position, status, now as int)),
        decreases 5 - i,
    {
        let (stype, prefix, model): (SensorType, &str, &str) = if i == 0 {
            (SensorType::Vibration, "VIB-001", "振动传感器")
        } else if i == 1 {
            (SensorType::WindSpeed, "WIND-001", "风速传感器")
        } else if i == 2 {
            (SensorType::IceThickness, "ICE-001", "覆冰传感器")
        } else if i == 3 {
            (SensorType::Temperature, "TEMP-001", "温度传感器")
        } else {
            (SensorType::Humidity, "HUM-001", "湿度传感器")
        };
        let ghost kind = (stype, prefix@, model@);
        assert(kind == kinds[i as int]);
        assert(kinds.subrange(0, i + 1) =~= kinds.subrange(0, i as int).push(kind));
        proof {
            kinds.subrange(0, i as int).lemma_filter_push(kind, pred);
        }
        let wanted = match sensor_type {
            Some(t) => t == stype,
            None => true,
        };
        assert(wanted == pred(kind));
        let ghost before = v@.map_values(|s: Sensor| sensor_view(s));
        if wanted {
            let mut device_id = String::from_str(prefix);
            device_id.append("-");
            append_decimal(&mut device_id, position as u64);
            let rate: i64 = match stype {
                SensorType::Vibration => 10000,
                SensorType::WindSpeed => 1000,
                _ => 100,
            };
            let calibrated = now - 30 * 86400;
            let ghost prior = v@;
            v.push(Sensor {
                id: new_uuid(),
                device_id,
                sensor_type: stype,
                model: String::from_str(model),
                manufacturer: String::from_str("国产"),
                status,
                calibration_date: Some(calibrated),
                last_calibration_date: Some(calibrated),
                calibration_interval_days: 90,
                sampling_rate_hz: rate,
                measurement_range_min: 0,
                measurement_range_max: 10000,
                accuracy: 10,
                created_at: now,
                updated_at: now,
            });
            assert(v@.map_values(|s: Sensor| sensor_view(s)) =~= before.push(standard_sensor(kind, position, status, now as int)));
        }
        assert(v@.map_values(|s: Sensor| sensor_view(s)) =~= start + kinds.subrange(0, i + 1).filter(pred).map_values(
            |k: (SensorType, Seq<char>, Seq<char>)| standard_sensor(k, position, status, now as int)));
        i = i + 1;
    }
    assert(kinds.subrange(0, 5) =~= kinds);
}

/// Lists the standard sensors of the towers (of one tower, and of one type,
/// when given) at time `now`, all with the status asked for (active when none
/// is), on the page asked for.
pub fn list_sensors(
    towers: &Vec<Tower>, tower_id: Option<u128>, sensor_type: Option<SensorType>, status: Option<SensorStatus>,
    page: u32, page_size: u32, now: i64,
) -> (r: Vec<Sensor>)
    requires
        now >= i64::MIN + 30 * 86400,
        page as int * page_size as int <= u32::MAX,
    ensures
        r@.map_values(|s: Sensor| sensor_view(s)) == page_of(
            listed_sensors(towers@, tower_id, sensor_type, match status { Some(s) => s, None => SensorStatus::Active }, now as int),
            page as int, page_size as int),
{
    let st = match status { Some(s) => s, None => SensorStatus::Active };
    let mut sensors: Vec<Sensor> = Vec::new();
    let mut i: usize = 0;
    assert(sensors@.map_values(|s: Sensor| sensor_view(s)) =~= Seq::empty());
    while i < towers.len()
        invariant
            i <= towers.len(),
            now >= i64::MIN + 30 * 86400,
            sensors@.map_values(|s: Sensor| sensor_view(s)) == listed_sensors(towers@.subrange(0, i as int), tower_id, sensor_type, st, now as int),
        decreases towers.len() - i,
    {
        let t = &towers[i];
        assert(towers@.subrange(0, i + 1).drop_last() =~= towers@.subrange(0, i as int));
        let skip = match tower_id {
            Some(id) => id != t.id,
            None => false,
        };
        if !skip {
            push_standard_sensors(&mut sensors, t.position_in_line, sensor_type, st, now);
        }
        i = i + 1;
    }
    assert(towers@.subrange(0, i as int) =~= towers@);
    let ghost all = sensors@;
    let r = paginate(sensors, page, page_size);
    assert(r@.map_values(|s: Sensor| sensor_view(s)) =~= page_of(all.map_values(|s: Sensor| sensor_view(s)), page as int, page_size as int));
    r
}

/// The kinds of stored sensor data.
#[derive(Debug, Clone, Copy, PartialEq, Eq, Structural)]
pub enum SensorDataKind {
    Vibration,
    WindSpeed,
    IceDetection,
    Weather,
}

/// The kind a data type names, if any.
pub open spec fn data_kind_for(data_type: Seq<char>) -> Option<SensorDataKind> {
    if data_type == "vibration"@ {
        Some(SensorDataKind::Vibration)
    } else if data_type == "wind_speed"@ {
        Some(SensorDataKind::WindSpeed)
    } else if data_type == "ice_detection"@ {
        Some(SensorDataKind::IceDetection)
    } else if data_type == "weather"@ {
        Some(SensorDataKind::Weather)
    } else {
        None
    }
}

/// The text of the error for a data type that is not known.
pub open spec fn unknown_data_type_text(data_type: Seq<char>) -> Seq<char> {
    "Unknown data type: "@ + data_type
}

fn unknown_data_type(data_type: &str) -> (e: AppError)
    ensures
        e matches AppError::BadRequest(m) && m@ == unknown_data_type_text(data_type@),
{
    let mut m = String::from_str("Unknown data type: ");
    m.append(data_type);
    AppError::BadRequest(m)
}

/// The kind of sensor data a request reads: vibration, wind, ice or weather;
/// any other type is a bad request.
pub fn sensor_data_kind(data_type: &str) -> (r: Result<SensorDataKind, AppError>)
    ensures
        match data_kind_for(data_type@) {
            Some(k) => r == Ok::<SensorDataKind, AppError>(k),
            None => r matches Err(AppError::BadRequest(m)) && m@ == unknown_data_type_text(data_type@),
        },
{
    if same_text(data_type, "vibration") {
        Ok(SensorDataKind::Vibration)
    } else if same_text(data_type, "wind_speed") {
        Ok(SensorDataKind::WindSpeed)
    } else if same_text(data_type, "ice_detection") {
        Ok(SensorDataKind::IceDetection)
    } else if same_text(data_type, "weather") {
        Ok(SensorDataKind::Weather)
    } else {
        Err(unknown_data_type(data_type))
    }
}

/// The kind of reading an ingestion carries: vibration, wind or ice; weather
/// and any other type are bad requests.
pub fn ingestion_kind(data_type: &str) -> (r: Result<SensorDataKind, AppError>)
    ensures
        match data_kind_for(data_type@) {
            Some(k) => if k == SensorDataKind::Weather {
                r matches Err(AppError::BadRequest(m)) && m@ == unknown_data_type_text(data_type@)
            } else {
                r == Ok::<SensorDataKind, AppError>(k)
            },
            None => r matches Err(AppError::BadRequest(m)) && m@ == unknown_data_type_text(data_type@),
        },
{
    if same_text(data_type, "vibration") {
        Ok(SensorDataKind::Vibration)
    } else if same_text(data_type, "wind_speed") {
        Ok(SensorDataKind::WindSpeed)
    } else if same_text(data_type, "ice_detection") {
        Ok(SensorDataKind::IceDetection)
    } else {
        proof { reveal_strlit("weather"); reveal_strlit("vibration"); reveal_strlit("wind_speed"); reveal_strlit("ice_detection"); }
        Err(unknown_data_type(data_type))
    }
}

} // verus!
