//! How towers and readings are kept in the database: the text a tower status
//! and a reading quality are stored as, how they are read back, and the
//! queries that read towers and readings.
use vstd::prelude::*;
use crate::models::tower::{Tower, Location, TowerStatus, TowerListQuery};
use crate::models::sensor::ReadingQuality;
use crate::models::vibration::VibrationData;
use crate::models::wind_speed::WindSpeedData;
use crate::text::{uuid_text, uuid_string, decimal_text, append_decimal, same_text};
use crate::db::ClickHouseClient;

verus! {

/// The text a tower status is stored as: its name in lower case.
pub open spec fn tower_status_column(s: TowerStatus) -> Seq<char> {
    match s {
        TowerStatus::Operational => "operational"@,
        TowerStatus::Warning => "warning"@,
        TowerStatus::Shutdown => "shutdown"@,
        TowerStatus::Maintenance => "maintenance"@,
        TowerStatus::Decommissioned => "decommissioned"@,
    }
}

/// The status a stored text is read as, by names in snake case; any other
/// text is operational.
pub open spec fn tower_status_from_column(s: Seq<char>) -> TowerStatus {
    if s == "warning"@ { TowerStatus::Warning }
    else if s == "shutdown"@ { TowerStatus::Shutdown }
    else if s == "maintenance"@ { TowerStatus::Maintenance }
    else if s == "decommissioned"@ { TowerStatus::Decommissioned }
    else { TowerStatus::Operational }
}

/// The text a reading quality is stored as: its name in lower case.
pub open spec fn quality_column(q: ReadingQuality) -> Seq<char> {
    match q {
        ReadingQuality::Good => "good"@,
        ReadingQuality::Suspect => "suspect"@,
        ReadingQuality::Bad => "bad"@,
        ReadingQuality::Missing => "missing"@,
    }
}

/// The quality a stored text is read as, by names in snake case; any other
/// text is good.
pub open spec fn quality_from_column(s: Seq<char>) -> ReadingQuality {
    if s == "suspect"@ { ReadingQuality::Suspect }
    else if s == "bad"@ { ReadingQuality::Bad }
    else if s == "missing"@ { ReadingQuality::Missing }
    else { ReadingQuality::Good }
}

/// The text a tower status is stored as.
pub fn tower_status_text(s: TowerStatus) -> (r: &'static str)
    ensures
        r@ == tower_status_column(s),
{
    match s {
        TowerStatus::Operational => "operational",
        TowerStatus::Warning => "warning",
        TowerStatus::Shutdown => "shutdown",
        TowerStatus::Maintenance => "maintenance",
        TowerStatus::Decommissioned => "decommissioned",
    }
}

/// Reads a stored tower status.
pub fn tower_status_from_text(s: &str) -> (r: TowerStatus)
    ensures
        r == tower_status_from_column(s@),
{
    if same_text(s, "warning") { TowerStatus::Warning }
    else if same_text(s, "shutdown") { TowerStatus::Shutdown }
    else if same_text(s, "maintenance") { TowerStatus::Maintenance }
    else if same_text(s, "decommissioned") { TowerStatus::Decommissioned }
    else { TowerStatus::Operational }
}

/// The text a reading quality is stored as.
pub fn quality_text(q: ReadingQuality) -> (r: &'static str)
    ensures
        r@ == quality_column(q),
{
    match q {
        ReadingQuality::Good => "good",
        ReadingQuality::Suspect => "suspect",
        ReadingQuality::Bad => "bad",
        ReadingQuality::Missing => "missing",
    }
}

/// Reads a stored reading quality.
pub fn quality_from_text(s: &str) -> (r: ReadingQuality)
    ensures
        r == quality_from_column(s@),
{
    if same_text(s, "suspect") { ReadingQuality::Suspect }
    else if same_text(s, "bad") { ReadingQuality::Bad }
    else if same_text(s, "missing") { ReadingQuality::Missing }
    else { ReadingQuality::Good }
}

/// Tower statuses and reading qualities are read back as they were stored:
/// their names are single words, so lower case and snake case agree.
pub proof fn lemma_store_round_trips(s: TowerStatus, q: ReadingQuality)
    ensures
        tower_status_from_column(tower_status_column(s)) == s,
        quality_from_column(quality_column(q)) == q,
{
    reveal_strlit("operational");
    reveal_strlit("warning");
    reveal_strlit("shutdown");
    reveal_strlit("maintenance");
    reveal_strlit("decommissioned");
    assert("operational"@.len() != "warning"@.len());
    assert("operational"@.len() != "shutdown"@.len());
    assert("operational"@[0] != "maintenance"@[0]);
    assert("operational"@.len() != "decommissioned"@.len());
    assert("warning"@.len() != "shutdown"@.len());
    assert("warning"@.len() != "maintenance"@.len());
    assert("warning"@.len() != "decommissioned"@.len());
    assert("shutdown"@.len() != "maintenance"@.len());
    assert("shutdown"@.len() != "decommissioned"@.len());
    assert("maintenance"@.len() != "decommissioned"@.len());
    reveal_strlit("good");
    reveal_strlit("suspect");
    reveal_strlit("bad");
    reveal_strlit("missing");
    assert("good"@.len() != "suspect"@.len());
    assert("good"@.len() != "bad"@.len());
    assert("good"@.len() != "missing"@.len());
    assert("suspect"@.len() != "bad"@.len());
    assert("suspect"@[0] != "missing"@[0]);
    assert("bad"@.len() != "missing"@.len());
}

/// The start of the queries that read towers from a database.
pub open spec fn towers_select(database: Seq<char>) -> Seq<char> {
    "SELECT id, name, code, latitude, longitude, elevation_meters, location_description,\n             height_meters, construction_date, status, cable_line_id, position_in_line,\n             max_load_kg, last_inspection_date, created_at, updated_at\n             FROM "@
        + database + ".towers\n             WHERE "@
}

/// The query that reads one tower, whose identifier is its parameter.
pub open spec fn tower_by_id_text(database: Seq<char>) -> Seq<char> {
    towers_select(database) + "id = ?"@
}

/// The query that lists towers: on the cable line and with the status asked
/// for (the status condition is written all in lower case), in their order
/// along the line, on the page asked for (pages of 100 by default).
pub open spec fn towers_query_text(database: Seq<char>, q: TowerListQuery) -> Seq<char> {
    let s0 = towers_select(database) + "1=1"@;
    let s1 = match q.cable_line_id { Some(id) => s0 + " AND cable_line_id = '"@ + uuid_text(id) + "'"@, None => s0 };
    let s2 = match q.status { Some(st) => s1 + " and status = '"@ + tower_status_column(st) + "'"@, None => s1 };
    let page: nat = match q.page { Some(p) => p as nat, None => 0 };
    let size: nat = match q.page_size { Some(p) => p as nat, None => 100 };
    s2 + " ORDER BY position_in_line ASC"@ + " LIMIT "@ + decimal_text(size) + " OFFSET "@ + decimal_text(page * size)
}

impl ClickHouseClient {
    /// Builds the query that reads one tower of the database by its identifier.
    pub fn tower_by_id_query(&self) -> (r: String)
        ensures
            r@ == tower_by_id_text(self.database@),
    {
        let mut sql = String::from_str(
            "SELECT id, name, code, latitude, longitude, elevation_meters, location_description,\n             height_meters, construction_date, status, cable_line_id, position_in_line,\n             max_load_kg, last_inspection_date, created_at, updated_at\n             FROM ",
        );
        sql.append(self.database.as_str());
        sql.append(".towers\n             WHERE ");
        sql.append("id = ?");
        sql
    }

    /// Builds the query that lists the towers of the database.
    pub fn towers_query(&self, q: &TowerListQuery) -> (r: String)
        requires
            match q.page { Some(p) => p as int, None => 0 } * match q.page_size { Some(p) => p as int, None => 100 } <= u32::MAX,
        ensures
            r@ == towers_query_text(self.database@, *q),
    {
        let mut sql = String::from_str(
            "SELECT id, name, code, latitude, longitude, elevation_meters, location_description,\n             height_meters, construction_date, status, cable_line_id, position_in_line,\n             max_load_kg, last_inspection_date, created_at, updated_at\n             FROM ",
        );
        sql.append(self.database.as_str());
        sql.append(".towers\n             WHERE ");
        sql.append("1=1");
        match q.cable_line_id {
            Some(id) => {
                sql.append(" AND cable_line_id = '");
                let u = uuid_string(id);
                sql.append(u.as_str());
                sql.append("'");
            }
            None => {}
        }
        match q.status {
            Some(st) => {
                sql.append(" and status = '");
                sql.append(tower_status_text(st));
                sql.append("'");
            }
            None => {}
        }
        sql.append(" ORDER BY position_in_line ASC");
        let page: u32 = match q.page { Some(p) => p, None => 0 };
        let size: u32 = match q.page_size { Some(p) => p, None => 100 };
        sql.append(" LIMIT ");
        append_decimal(&mut sql, size as u64);
        sql.append(" OFFSET ");
        append_decimal(&mut sql, (page * size) as u64);
        assert(sql@ =~= towers_query_text(self.database@, *q));
        sql
    }
}

/// The query that reads the readings of one kind (`table`, with its columns
/// after the common ones) of a tower between two times, oldest first; the
/// tower and the two times are its parameters.
pub open spec fn readings_query_text(database: Seq<char>, columns: Seq<char>, table: Seq<char>) -> Seq<char> {
    "SELECT id, tower_id, sensor_id, timestamp, "@ + columns + "\n             FROM "@ + database + "."@ + table
        + "\n             WHERE tower_id = ? AND timestamp >= ? AND timestamp <= ?\n             ORDER BY timestamp ASC"@
}

/// The columns of a vibration reading after the common ones.
pub open spec fn vibration_columns() -> Seq<char> {
    "frequency_hz, amplitude_mm_s,\n             velocity_mm_s, acceleration_mm_s2, displacement_mm, direction, temperature, quality"@
}

/// The columns of a wind reading after the common ones.
pub open spec fn wind_speed_columns() -> Seq<char> {
    "wind_speed_ms, wind_direction_deg,\n             gust_speed_ms, temperature, quality"@
}

/// The columns of an ice reading after the common ones.
pub open spec fn ice_detection_columns() -> Seq<char> {
    "ice_thickness_mm, ice_density_kg_m3,\n             ice_weight_kg, ambient_temp_c, wind_speed_ms, humidity_percent, precipitation_type, quality"@
}

fn readings_query(database: &str, columns: &str, table: &str) -> (r: String)
    ensures
        r@ == readings_query_text(database@, columns@, table@),
{
    let mut sql = String::from_str("SELECT id, tower_id, sensor_id, timestamp, ");
    sql.append(columns);
    sql.append("\n             FROM ");
    sql.append(database);
    sql.append(".");
    sql.append(table);
    sql.append("\n             WHERE tower_id = ? AND timestamp >= ? AND timestamp <= ?\n             ORDER BY timestamp ASC");
    sql
}

impl ClickHouseClient {
    /// Builds the query that reads the vibration readings of a tower in a time window.
    pub fn vibration_query(&self) -> (r: String)
        ensures
            r@ == readings_query_text(self.database@, vibration_columns(), "vibration_data"@),
    {
        readings_query(self.database.as_str(),
            "frequency_hz, amplitude_mm_s,\n             velocity_mm_s, acceleration_mm_s2, displacement_mm, direction, temperature, quality",
            "vibration_data")
    }

    /// Builds the query that reads the wind readings of a tower in a time window.
    pub fn wind_speed_query(&self) -> (r: String)
        ensures
            r@ == readings_query_text(self.database@, wind_speed_columns(), "wind_speed_data"@),
    {
        readings_query(self.database.as_str(), "wind_speed_ms, wind_direction_deg,\n             gust_speed_ms, temperature, quality", "wind_speed_data")
    }

    /// Builds the query that reads the ice readings of a tower in a time window.
    pub fn ice_detection_query(&self) -> (r: String)
        ensures
            r@ == readings_query_text(self.database@, ice_detection_columns(), "ice_detection_data"@),
    {
        readings_query(self.database.as_str(),
            "ice_thickness_mm, ice_density_kg_m3,\n             ice_weight_kg, ambient_temp_c, wind_speed_ms, humidity_percent, precipitation_type, quality",
            "ice_detection_data")
    }
}

/// A stored tower row: the location's fields inline, the status as its text;
/// the mounted sensors are not part of the row.
#[derive(Debug, Clone)]
pub struct TowerRow {
    pub id: u128,
    pub name: String,
    pub code: String,
    pub latitude: i64,
    pub longitude: i64,
    pub elevation_meters: i64,
    pub location_description: Option<String>,
    pub height_meters: i64,
    pub construction_date: Option<i64>,
    pub status: String,
    pub cable_line_id: u128,
    pub position_in_line: u32,
    pub max_load_kg: i64,
    pub last_inspection_date: Option<i64>,
    pub created_at: i64,
    pub updated_at: i64,
}

/// `r` is the row of tower `t`.
pub open spec fn is_tower_row(r: TowerRow, t: Tower) -> bool {
    &&& r.id == t.id
    &&& r.name == t.name
    &&& r.code == t.code
    &&& r.latitude == t.location.latitude
    &&& r.longitude == t.location.longitude
    &&& r.elevation_meters == t.location.elevation_meters
    &&& r.location_description == t.location.description
    &&& r.height_meters == t.height_meters
    &&& r.construction_date == t.construction_date
    &&& r.status@ == tower_status_column(t.status)
    &&& r.cable_line_id == t.cable_line_id
    &&& r.position_in_line == t.position_in_line
    &&& r.max_load_kg == t.max_load_kg
    &&& r.last_inspection_date == t.last_inspection_date
    &&& r.created_at == t.created_at
    &&& r.updated_at == t.updated_at
}

/// `t` is tower read back from row `r`: the status read from its text, and no
/// mounted sensors.
pub open spec fn is_tower_of_row(t: Tower, r: TowerRow) -> bool {
    &&& t.id == r.id
    &&& t.name == r.name
    &&& t.code == r.code
    &&& t.location.latitude == r.latitude
    &&& t.location.longitude == r.longitude
    &&& t.location.elevation_meters == r.elevation_meters
    &&& t.location.description == r.location_description
    &&& t.height_meters == r.height_meters
    &&& t.construction_date == r.construction_date
    &&& t.status == tower_status_from_column(r.status@)
    &&& t.cable_line_id == r.cable_line_id
    &&& t.position_in_line == r.position_in_line
    &&& t.max_load_kg == r.max_load_kg
    &&& t.last_inspection_date == r.last_inspection_date
    &&& t.created_at == r.created_at
    &&& t.updated_at == r.updated_at
    &&& t.sensors@.len() == 0
}

fn clone_text(s: &Option<String>) -> (r: Option<String>)
    ensures
        r == *s,
{
    match s {
        Some(x) => Some(x.clone()),
        None => None,
    }
}

/// The row a tower is stored as.
pub fn tower_row(t: &Tower) -> (r: TowerRow)
    ensures
        is_tower_row(r, *t),
{
    TowerRow {
        id: t.id,
        name: t.name.clone(),
        code: t.code.clone(),
        latitude: t.location.latitude,
        longitude: t.location.longitude,
        elevation_meters: t.location.elevation_meters,
        location_description: clone_text(&t.location.description),
        height_meters: t.height_meters,
        construction_date: t.construction_date,
        status: String::from_str(tower_status_text(t.status)),
        cable_line_id: t.cable_line_id,
        position_in_line: t.position_in_line,
        max_load_kg: t.max_load_kg,
        last_inspection_date: t.last_inspection_date,
        created_at: t.created_at,
        updated_at: t.updated_at,
    }
}

/// Reads a tower back from its row.
pub fn tower_from_row(r: TowerRow) -> (t: Tower)
    ensures
        is_tower_of_row(t, r),
{
    let status = tower_status_from_text(r.status.as_str());
    Tower {
        id: r.id,
        name: r.name,
        code: r.code,
        location: Location {
            latitude: r.latitude,
            longitude: r.longitude,
            elevation_meters: r.elevation_meters,
            description: r.location_description,
        },
        height_meters: r.height_meters,
        construction_date: r.construction_date,
        status,
        cable_line_id: r.cable_line_id,
        position_in_line: r.position_in_line,
        max_load_kg: r.max_load_kg,
        last_inspection_date: r.last_inspection_date,
        created_at: r.created_at,
        updated_at: r.updated_at,
        sensors: Vec::new(),
    }
}

/// A stored vibration row: the quality as its text; the raw spectrum is not
/// stored.
#[derive(Debug, Clone)]
pub struct VibrationRow {
    pub id: u128,
    pub tower_id: u128,
    pub sensor_id: u128,
    pub timestamp: i64,
    pub frequency_hz: i64,
    pub amplitude_mm_s: i64,
    pub velocity_mm_s: i64,
    pub acceleration_mm_s2: i64,
    pub displacement_mm: i64,
    pub direction: Option<i64>,
    pub temperature: Option<i64>,
    pub quality: String,
}

/// `r` is the row of vibration reading `d`.
pub open spec fn is_vibration_row(r: VibrationRow, d: VibrationData) -> bool {
    &&& r.id == d.id
    &&& r.tower_id == d.tower_id
    &&& r.sensor_id == d.sensor_id
    &&& r.timestamp == d.timestamp
    &&& r.frequency_hz == d.frequency_hz
    &&& r.amplitude_mm_s == d.amplitude_mm_s
    &&& r.velocity_mm_s == d.velocity_mm_s
    &&& r.acceleration_mm_s2 == d.acceleration_mm_s2
    &&& r.displacement_mm == d.displacement_mm
    &&& r.direction == d.direction
    &&& r.temperature == d.temperature
    &&& r.quality@ == quality_column(d.quality)
}

/// `d` is the vibration reading read back from row `r`: the quality read from
/// its text, and no raw spectrum.
pub open spec fn is_vibration_of_row(d: VibrationData, r: VibrationRow) -> bool {
    &&& d.id == r.id
    &&& d.tower_id == r.tower_id
    &&& d.sensor_id == r.sensor_id
    &&& d.timestamp == r.timestamp
    &&& d.frequency_hz == r.frequency_hz
    &&& d.amplitude_mm_s == r.amplitude_mm_s
    &&& d.velocity_mm_s == r.velocity_mm_s
    &&& d.acceleration_mm_s2 == r.acceleration_mm_s2
    &&& d.displacement_mm == r.displacement_mm
    &&& d.direction == r.direction
    &&& d.temperature == r.temperature
    &&& d.quality == quality_from_column(r.quality@)
    &&& d.raw_spectrum.is_none()
}

/// The row a vibration reading is stored as.
pub fn vibration_row(d: &VibrationData) -> (r: VibrationRow)
    ensures
        is_vibration_row(r, *d),
{
    VibrationRow {
        id: d.id,
        tower_id: d.tower_id,
        sensor_id: d.sensor_id,
        timestamp: d.timestamp,
        frequency_hz: d.frequency_hz,
        amplitude_mm_s: d.amplitude_mm_s,
        velocity_mm_s: d.velocity_mm_s,
        acceleration_mm_s2: d.acceleration_mm_s2,
        displacement_mm: d.displacement_mm,
        direction: d.direction,
        temperature: d.temperature,
        quality: String::from_str(quality_text(d.quality)),
    }
}

/// Reads a vibration reading back from its row.
pub fn vibration_from_row(r: VibrationRow) -> (d: VibrationData)
    ensures
        is_vibration_of_row(d, r),
{
    let quality = quality_from_text(r.quality.as_str());
    VibrationData {
        id: r.id,
        tower_id: r.tower_id,
        sensor_id: r.sensor_id,
        timestamp: r.timestamp,
        frequency_hz: r.frequency_hz,
        amplitude_mm_s: r.amplitude_mm_s,
        velocity_mm_s: r.velocity_mm_s,
        acceleration_mm_s2: r.acceleration_mm_s2,
        displacement_mm: r.displacement_mm,
        direction: r.direction,
        temperature: r.temperature,
        quality,
        raw_spectrum: None,
    }
}

/// A stored wind row: the quality as its text.
#[derive(Debug, Clone)]
pub struct WindSpeedRow {
    pub id: u128,
    pub tower_id: u128,
    pub sensor_id: u128,
    pub timestamp: i64,
    pub wind_speed_ms: i64,
    pub wind_direction_deg: i64,
    pub gust_speed_ms: Option<i64>,
    pub temperature: Option<i64>,
    pub quality: String,
}

/// `r` is the row of wind reading `d`.
pub open spec fn is_wind_speed_row(r: WindSpeedRow, d: WindSpeedData) -> bool {
    &&& r.id == d.id
    &&& r.tower_id == d.tower_id
    &&& r.sensor_id == d.sensor_id
    &&& r.timestamp == d.timestamp
    &&& r.wind_speed_ms == d.wind_speed_ms
    &&& r.wind_direction_deg == d.wind_direction_deg
    &&& r.gust_speed_ms == d.gust_speed_ms
    &&& r.temperature == d.temperature
    &&& r.quality@ == quality_column(d.quality)
}

/// `d` is the wind reading read back from row `r`, its quality read from its
/// text.
pub open spec fn is_wind_speed_of_row(d: WindSpeedData, r: WindSpeedRow) -> bool {
    &&& d.id == r.id
    &&& d.tower_id == r.tower_id
    &&& d.sensor_id == r.sensor_id
    &&& d.timestamp == r.timestamp
    &&& d.wind_speed_ms == r.wind_speed_ms
    &&& d.wind_direction_deg == r.wind_direction_deg
    &&& d.gust_speed_ms == r.gust_speed_ms
    &&& d.temperature == r.temperature
    &&& d.quality == quality_from_column(r.quality@)
}

/// The row a wind reading is stored as.
pub fn wind_speed_row(d: &WindSpeedData) -> (r: WindSpeedRow)
    ensures
        is_wind_speed_row(r, *d),
{
    WindSpeedRow {
        id: d.id,
        tower_id: d.tower_id,
        sensor_id: d.sensor_id,
        timestamp: d.timestamp,
        wind_speed_ms: d.wind_speed_ms,
        wind_direction_deg: d.wind_direction_deg,
        gust_speed_ms: d.gust_speed_ms,
        temperature: d.temperature,
        quality: String::from_str(quality_text(d.quality)),
    }
}

/// Reads a wind reading back from its row.
pub fn wind_speed_from_row(r: WindSpeedRow) -> (d: WindSpeedData)
    ensures
        is_wind_speed_of_row(d, r),
{
    let quality = quality_from_text(r.quality.as_str());
    WindSpeedData {
        id: r.id,
        tower_id: r.tower_id,
        sensor_id: r.sensor_id,
        timestamp: r.timestamp,
        wind_speed_ms: r.wind_speed_ms,
        wind_direction_deg: r.wind_direction_deg,
        gust_speed_ms: r.gust_speed_ms,
        temperature: r.temperature,
        quality,
    }
}

/// What is written is what is read back: a tower read from its row is the
/// tower without its mounted sensors, a vibration reading is the reading
/// without its raw spectrum, and a wind reading is the reading itself.
pub proof fn lemma_rows_round_trip(
    t: Tower, tr: TowerRow, t2: Tower,
    v: VibrationData, vr: VibrationRow, v2: VibrationData,
    w: WindSpeedData, wr: WindSpeedRow, w2: WindSpeedData,
)
    requires
        is_tower_row(tr, t),
        is_tower_of_row(t2, tr),
        is_vibration_row(vr, v),
        is_vibration_of_row(v2, vr),
        is_wind_speed_row(wr, w),
        is_wind_speed_of_row(w2, wr),
    ensures
        t2 == (Tower { sensors: t2.sensors, ..t }),
        t2.sensors@.len() == 0,
        v2 == (VibrationData { raw_spectrum: None, ..v }),
        w2 == w,
{
    lemma_store_round_trips(t.status, v.quality);
    lemma_store_round_trips(t.status, w.quality);
}

} // verus!
