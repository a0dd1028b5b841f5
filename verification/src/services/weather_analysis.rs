//! Weather analysis: the days with risky weather, the alerts that weather
//! records raise, the overall risk, its impact and the measures against it.
//!
//! Records are in hundredths: temperature in degrees Celsius, humidity in
//! percent, wind in m/s, precipitation in mm. Days are UTC calendar days.
use vstd::prelude::*;
use crate::models::weather::{
    WeatherData, WeatherAlert, WeatherAlertType, AlertSeverity, ResponseType, Certainty, Urgency, RiskLevel,
    ImpactRating, WeatherRiskType, ImpactAssessment, MitigationRecommendation, RecommendationPriority,
    ForecastSummary, WeatherImpactAnalysis, WeatherSummary, PrecipitationType,
};
use crate::readings::{
    floor_div, clamp_i64, clamp_to_i64, floor_average, seq_min_from, seq_max_from, seq_max0, seq_sum, count_positive,
    average_of, min_from, max_from, max_of, sum_of, count_positive_of,
};
use crate::text::{fixed_text, append_fixed, decimal_text, append_decimal};
use crate::ids::new_uuid;

verus! {

/// The kinds of day that the analysis counts.
#[derive(Debug, Clone, Copy, PartialEq, Eq, Structural)]
pub enum DayCriterion {
    /// Below freezing with humidity above 80 %.
    IceRisk,
    /// Wind above 15 m/s.
    HighWind,
    /// Below -10 C or above 35 C.
    ExtremeTemperature,
}

/// The UTC day number of a Unix time (days since 1970-01-01).
pub open spec fn day_of(timestamp: int) -> int {
    timestamp / 86400
}

/// Whether a record shows the weather of a criterion.
pub open spec fn criterion_holds(c: DayCriterion, d: WeatherData) -> bool {
    match c {
        DayCriterion::IceRisk => d.temperature_c < 0 && d.humidity_percent > 8000,
        DayCriterion::HighWind => d.wind_speed_ms > 1500,
        DayCriterion::ExtremeTemperature => d.temperature_c < -1000 || d.temperature_c > 3500,
    }
}

/// What each criterion looks for in a record: ice risk below 0 C above 80 %
/// humidity, high wind above 15 m/s, extreme temperature below -10 C or above
/// 35 C.
pub proof fn lemma_day_criteria(d: WeatherData)
    ensures
        criterion_holds(DayCriterion::IceRisk, d) <==> d.temperature_c < 0 && d.humidity_percent > 8000,
        criterion_holds(DayCriterion::HighWind, d) <==> d.wind_speed_ms > 1500,
        criterion_holds(DayCriterion::ExtremeTemperature, d) <==> d.temperature_c < -1000 || d.temperature_c > 3500,
{
}

/// The days on which some record shows the weather of a criterion.
pub open spec fn days_where(data: Seq<WeatherData>, c: DayCriterion) -> Set<i64> {
    Set::new(|day: i64| exists|i: int| 0 <= i < data.len() && #[trigger] criterion_holds(c, data[i]) && day_of(data[i].timestamp as int) == day)
}

/// The UTC day number of a Unix time.
pub fn day_number(timestamp: i64) -> (r: i64)
    ensures
        r as int == day_of(timestamp as int),
{
    let d = floor_div(timestamp as i128, 86400);
    d as i64
}

fn criterion_holds_exec(c: DayCriterion, d: &WeatherData) -> (r: bool)
    ensures
        r == criterion_holds(c, *d),
{
    match c {
        DayCriterion::IceRisk => d.temperature_c < 0 && d.humidity_percent > 8000,
        DayCriterion::HighWind => d.wind_speed_ms > 1500,
        DayCriterion::ExtremeTemperature => d.temperature_c < -1000 || d.temperature_c > 3500,
    }
}

/// Counts the distinct days on which some record shows the weather of a
/// criterion (the count as `u32`, truncated when it does not fit).
pub fn count_days_where(data: &Vec<WeatherData>, c: DayCriterion) -> (r: u32)
    ensures
        days_where(data@, c).finite(),
        r == days_where(data@, c).len() as u32,
{
    let mut days: Vec<i64> = Vec::new();
    let mut i: usize = 0;
    while i < data.len()
        invariant
            i <= data.len(),
            days@.no_duplicates(),
            forall|day: i64| days@.contains(day) <==> exists|j: int|
                0 <= j < i && #[trigger] criterion_holds(c, data@[j]) && day_of(data@[j].timestamp as int) == day,
        decreases data.len() - i,
    {
        let ghost old_days = days@;
        if criterion_holds_exec(c, &data[i]) {
            let day = day_number(data[i].timestamp);
            let mut found = false;
            let mut k: usize = 0;
            while k < days.len()
                invariant
                    k <= days.len(),
                    found <==> exists|m: int| 0 <= m < k && days@[m] == day,
                decreases days.len() - k,
            {
                if days[k] == day {
                    found = true;
                }
                k = k + 1;
            }
            if !found {
                days.push(day);
                assert forall|a: int, b: int| 0 <= a < days@.len() && 0 <= b < days@.len() && a != b
                    implies days@[a] != days@[b] by {
                    if a < old_days.len() && b < old_days.len() {
                        assert(old_days[a] != old_days[b]);
                    }
                }
            }
            assert forall|x: i64| days@.contains(x) <==> exists|j: int|
                0 <= j < i + 1 && #[trigger] criterion_holds(c, data@[j]) && day_of(data@[j].timestamp as int) == x by {
                if x == day {
                    assert(criterion_holds(c, data@[i as int]));
                    if found {
                        let m = choose|m: int| 0 <= m < old_days.len() && old_days[m] == day;
                        assert(days@[m] == day);
                    } else {
                        assert(days@[days@.len() - 1] == day);
                    }
                } else {
                    if days@.contains(x) {
                        let m = choose|m: int| 0 <= m < days@.len() && days@[m] == x;
                        assert(old_days[m] == x);
                        assert(old_days.contains(x));
                    }
                    if exists|j: int| 0 <= j < i + 1 && #[trigger] criterion_holds(c, data@[j]) && day_of(data@[j].timestamp as int) == x {
                        let j = choose|j: int| 0 <= j < i + 1 && #[trigger] criterion_holds(c, data@[j]) && day_of(data@[j].timestamp as int) == x;
                        assert(j != i);
                        assert(old_days.contains(x));
                        let m = choose|m: int| 0 <= m < old_days.len() && old_days[m] == x;
                        assert(days@[m] == x);
                    }
                }
            }
        } else {
            assert forall|x: i64| days@.contains(x) <==> exists|j: int|
                0 <= j < i + 1 && #[trigger] criterion_holds(c, data@[j]) && day_of(data@[j].timestamp as int) == x by {
                if exists|j: int| 0 <= j < i + 1 && #[trigger] criterion_holds(c, data@[j]) && day_of(data@[j].timestamp as int) == x {
                    let j = choose|j: int| 0 <= j < i + 1 && #[trigger] criterion_holds(c, data@[j]) && day_of(data@[j].timestamp as int) == x;
                    assert(j != i);
                }
            }
        }
        i = i + 1;
    }
    proof {
        assert(days@.to_set() =~= days_where(data@, c));
        days@.unique_seq_to_set();
        vstd::seq_lib::seq_to_set_is_finite(days@);
    }
    #[verifier::truncate] (days.len() as u32)
}

/// Counts the days with a risk of ice: below freezing and above 80 % humidity.
pub fn count_days_with_ice_risk(data: &Vec<WeatherData>) -> (r: u32)
    ensures
        days_where(data@, DayCriterion::IceRisk).finite(),
        r == days_where(data@, DayCriterion::IceRisk).len() as u32,
{
    count_days_where(data, DayCriterion::IceRisk)
}

/// Counts the days with wind above 15 m/s.
pub fn count_days_with_high_wind(data: &Vec<WeatherData>) -> (r: u32)
    ensures
        days_where(data@, DayCriterion::HighWind).finite(),
        r == days_where(data@, DayCriterion::HighWind).len() as u32,
{
    count_days_where(data, DayCriterion::HighWind)
}

/// Counts the days with temperatures below -10 C or above 35 C.
pub fn count_days_with_extreme_temp(data: &Vec<WeatherData>) -> (r: u32)
    ensures
        days_where(data@, DayCriterion::ExtremeTemperature).finite(),
        r == days_where(data@, DayCriterion::ExtremeTemperature).len() as u32,
{
    count_days_where(data, DayCriterion::ExtremeTemperature)
}

/// Records of one day count once: a day's count is at most the number of
/// records that show its weather, and repeating a record changes nothing.
pub proof fn lemma_days_where_duplicate_record(data: Seq<WeatherData>, c: DayCriterion, k: int)
    requires
        0 <= k < data.len(),
    ensures
        days_where(data.push(data[k]), c) == days_where(data, c),
{
    assert forall|day: i64| days_where(data.push(data[k]), c).contains(day) implies days_where(data, c).contains(day) by {
        let j = choose|j: int| 0 <= j < data.push(data[k]).len() && #[trigger] criterion_holds(c, data.push(data[k])[j])
            && day_of(data.push(data[k])[j].timestamp as int) == day;
        if j == data.len() {
            assert(criterion_holds(c, data[k]));
        } else {
            assert(criterion_holds(c, data[j]));
        }
    }
    assert forall|day: i64| days_where(data, c).contains(day) implies days_where(data.push(data[k]), c).contains(day) by {
        let j = choose|j: int| 0 <= j < data.len() && #[trigger] criterion_holds(c, data[j]) && day_of(data[j].timestamp as int) == day;
        assert(data.push(data[k])[j] == data[j]);
        assert(criterion_holds(c, data.push(data[k])[j]));
    }
    assert(days_where(data.push(data[k]), c) =~= days_where(data, c));
}

} // verus!

verus! {

/// The data pairs of an alert as plain values.
pub open spec fn alert_data_view(data: Option<Vec<(String, i64)>>) -> Option<Seq<(Seq<char>, i64)>> {
    match data {
        Some(v) => Some(v@.map_values(|p: (String, i64)| (p.0@, p.1))),
        None => None,
    }
}

/// Whether a record calls for an ice warning: below -5 C above 80 % humidity.
pub open spec fn ice_warning_due(d: WeatherData) -> bool {
    d.temperature_c < -500 && d.humidity_percent > 8000
}

/// Whether a record calls for a wind warning: above 15 m/s.
pub open spec fn wind_warning_due(d: WeatherData) -> bool {
    d.wind_speed_ms > 1500
}

/// The severity of an ice warning: severe below -10 C, moderate otherwise.
pub open spec fn ice_warning_severity(temperature: int) -> AlertSeverity {
    if temperature < -1000 { AlertSeverity::Severe } else { AlertSeverity::Moderate }
}

/// The severity of a wind warning: severe above 20 m/s, moderate above
/// 17 m/s, low otherwise.
pub open spec fn wind_warning_severity(wind: int) -> AlertSeverity {
    if wind > 2000 {
        AlertSeverity::Severe
    } else if wind > 1700 {
        AlertSeverity::Moderate
    } else {
        AlertSeverity::Low
    }
}

/// The ice warning that a record raises, issued at `now`, in force for six hours.
pub open spec fn is_ice_warning(a: WeatherAlert, d: WeatherData, now: int) -> bool {
    let t = d.temperature_c as int;
    let h = d.humidity_percent as int;
    let severity = ice_warning_severity(t);
    &&& a.tower_id == Some(d.tower_id)
    &&& a.alert_type == WeatherAlertType::IceWarning
    &&& a.severity == severity
    &&& a.timestamp == d.timestamp
    &&& a.title@ == "覆冰预警"@
    &&& a.headline@ == "索道塔架覆冰风险预警"@
    &&& a.message@ == "温度"@ + fixed_text(t, 1) + "°C，湿度"@ + fixed_text(h, 0) + "%，存在覆冰风险"@
    &&& a.description@ == "当前温度"@ + fixed_text(t, 1) + "°C，相对湿度"@ + fixed_text(h, 0)
        + "%，气象条件有利于覆冰形成。请加强监测，必要时启动除冰程序。"@
    &&& alert_data_view(a.data) == Some(seq![("temperature"@, d.temperature_c), ("humidity"@, d.humidity_percent)])
    &&& a.effective_start == d.timestamp
    &&& a.effective_end == d.timestamp + 21600
    &&& a.expires_at == Some((d.timestamp + 21600) as i64)
    &&& a.affected_area@ == "索道塔架沿线"@
    &&& a.response_type == if severity == AlertSeverity::Severe { ResponseType::Prepare } else { ResponseType::Monitor }
    &&& a.certainty == Certainty::Likely
    &&& a.urgency == if severity == AlertSeverity::Severe { Urgency::Expected } else { Urgency::Future }
    &&& a.source@ == "自动监测系统"@
    &&& a.created_at == now
}

/// The wind warning that a record raises, issued at `now`, in force for two hours.
pub open spec fn is_wind_warning(a: WeatherAlert, d: WeatherData, now: int) -> bool {
    let w = d.wind_speed_ms as int;
    let severity = wind_warning_severity(w);
    &&& a.tower_id == Some(d.tower_id)
    &&& a.alert_type == WeatherAlertType::HighWindWarning
    &&& a.severity == severity
    &&& a.timestamp == d.timestamp
    &&& a.title@ == "大风预警"@
    &&& a.headline@ == "索道塔架大风风险预警"@
    &&& a.message@ == "风速"@ + fixed_text(w, 1) + "m/s，请注意安全"@
    &&& a.description@ == "当前风速"@ + fixed_text(w, 1) + "m/s，风向"@ + fixed_text(d.wind_direction_deg as int, 0)
        + "°。强风可能导致塔架振动加剧，影响索道运行安全。"@
    &&& alert_data_view(a.data) == Some(seq![("wind_speed"@, d.wind_speed_ms), ("wind_direction"@, d.wind_direction_deg)])
    &&& a.effective_start == d.timestamp
    &&& a.effective_end == d.timestamp + 7200
    &&& a.expires_at == Some((d.timestamp + 7200) as i64)
    &&& a.affected_area@ == "索道全线"@
    &&& a.response_type == if severity == AlertSeverity::Severe {
        ResponseType::ExecuteShutdown
    } else if severity == AlertSeverity::Moderate {
        ResponseType::Prepare
    } else {
        ResponseType::Monitor
    }
    &&& a.certainty == Certainty::Observed
    &&& a.urgency == if severity == AlertSeverity::Severe { Urgency::Immediate } else { Urgency::Expected }
    &&& a.source@ == "自动监测系统"@
    &&& a.created_at == now
}

/// The warnings that a series of records raises, in order: for each record an
/// ice warning when due, then a wind warning when due.
pub open spec fn expected_warnings(data: Seq<WeatherData>) -> Seq<(WeatherData, WeatherAlertType)>
    decreases data.len(),
{
    if data.len() == 0 {
        Seq::empty()
    } else {
        let d = data.last();
        let ice: Seq<(WeatherData, WeatherAlertType)> = if ice_warning_due(d) {
            seq![(d, WeatherAlertType::IceWarning)]
        } else {
            Seq::empty()
        };
        let wind: Seq<(WeatherData, WeatherAlertType)> = if wind_warning_due(d) {
            seq![(d, WeatherAlertType::HighWindWarning)]
        } else {
            Seq::empty()
        };
        expected_warnings(data.drop_last()) + ice + wind
    }
}

/// Whether alerts are the warnings that were expected, one for one.
pub open spec fn warnings_match(alerts: Seq<WeatherAlert>, expected: Seq<(WeatherData, WeatherAlertType)>, now: int) -> bool {
    &&& alerts.len() == expected.len()
    &&& forall|i: int| 0 <= i < alerts.len() ==> if #[trigger] expected[i].1 == WeatherAlertType::IceWarning {
        is_ice_warning(alerts[i], expected[i].0, now)
    } else {
        is_wind_warning(alerts[i], expected[i].0, now)
    }
}

/// Records late enough that a warning's end overflows the clock are not accepted.
pub open spec fn warnable(data: Seq<WeatherData>) -> bool {
    forall|i: int| 0 <= i < data.len() ==> #[trigger] data[i].timestamp <= i64::MAX - 21600
}

fn ice_weather_alert(d: &WeatherData, now: i64) -> (a: WeatherAlert)
    requires
        d.timestamp <= i64::MAX - 21600,
    ensures
        is_ice_warning(a, *d, now as int),
{
    let severity = if d.temperature_c < -1000 { AlertSeverity::Severe } else { AlertSeverity::Moderate };
    let severe = d.temperature_c < -1000;
    let mut message = String::from_str("温度");
    append_fixed(&mut message, d.temperature_c, 1);
    message.append("°C，湿度");
    append_fixed(&mut message, d.humidity_percent, 0);
    message.append("%，存在覆冰风险");
    let mut description = String::from_str("当前温度");
    append_fixed(&mut description, d.temperature_c, 1);
    description.append("°C，相对湿度");
    append_fixed(&mut description, d.humidity_percent, 0);
    description.append("%，气象条件有利于覆冰形成。请加强监测，必要时启动除冰程序。");
    let mut data: Vec<(String, i64)> = Vec::new();
    data.push((String::from_str("temperature"), d.temperature_c));
    data.push((String::from_str("humidity"), d.humidity_percent));
    assert(data@.map_values(|p: (String, i64)| (p.0@, p.1))
        =~= seq![("temperature"@, d.temperature_c), ("humidity"@, d.humidity_percent)]);
    WeatherAlert {
        id: new_uuid(),
        tower_id: Some(d.tower_id),
        alert_type: WeatherAlertType::IceWarning,
        severity,
        timestamp: d.timestamp,
        title: String::from_str("覆冰预警"),
        headline: String::from_str("索道塔架覆冰风险预警"),
        message,
        description,
        data: Some(data),
        effective_start: d.timestamp,
        effective_end: d.timestamp + 21600,
        expires_at: Some(d.timestamp + 21600),
        affected_area: String::from_str("索道塔架沿线"),
        response_type: if severe { ResponseType::Prepare } else { ResponseType::Monitor },
        certainty: Certainty::Likely,
        urgency: if severe { Urgency::Expected } else { Urgency::Future },
        source: String::from_str("自动监测系统"),
        created_at: now,
    }
}

fn wind_weather_alert(d: &WeatherData, now: i64) -> (a: WeatherAlert)
    requires
        d.timestamp <= i64::MAX - 7200,
    ensures
        is_wind_warning(a, *d, now as int),
{
    let severity = if d.wind_speed_ms > 2000 {
        AlertSeverity::Severe
    } else if d.wind_speed_ms > 1700 {
        AlertSeverity::Moderate
    } else {
        AlertSeverity::Low
    };
    let mut message = String::from_str("风速");
    append_fixed(&mut message, d.wind_speed_ms, 1);
    message.append("m/s，请注意安全");
    let mut description = String::from_str("当前风速");
    append_fixed(&mut description, d.wind_speed_ms, 1);
    description.append("m/s，风向");
    append_fixed(&mut description, d.wind_direction_deg, 0);
    description.append("°。强风可能导致塔架振动加剧，影响索道运行安全。");
    let mut data: Vec<(String, i64)> = Vec::new();
    data.push((String::from_str("wind_speed"), d.wind_speed_ms));
    data.push((String::from_str("wind_direction"), d.wind_direction_deg));
    assert(data@.map_values(|p: (String, i64)| (p.0@, p.1))
        =~= seq![("wind_speed"@, d.wind_speed_ms), ("wind_direction"@, d.wind_direction_deg)]);
    WeatherAlert {
        id: new_uuid(),
        tower_id: Some(d.tower_id),
        alert_type: WeatherAlertType::HighWindWarning,
        severity,
        timestamp: d.timestamp,
        title: String::from_str("大风预警"),
        headline: String::from_str("索道塔架大风风险预警"),
        message,
        description,
        data: Some(data),
        effective_start: d.timestamp,
        effective_end: d.timestamp + 7200,
        expires_at: Some(d.timestamp + 7200),
        affected_area: String::from_str("索道全线"),
        response_type: if d.wind_speed_ms > 2000 {
            ResponseType::ExecuteShutdown
        } else if d.wind_speed_ms > 1700 {
            ResponseType::Prepare
        } else {
            ResponseType::Monitor
        },
        certainty: Certainty::Observed,
        urgency: if d.wind_speed_ms > 2000 { Urgency::Immediate } else { Urgency::Expected },
        source: String::from_str("自动监测系统"),
        created_at: now,
    }
}

/// Raises the weather warnings of a series of records at time `now`: for each
/// record, in order, an ice warning below -5 C above 80 % humidity, then a
/// wind warning above 15 m/s.
pub fn generate_weather_alerts(data: &Vec<WeatherData>, now: i64) -> (r: Vec<WeatherAlert>)
    requires
        warnable(data@),
    ensures
        warnings_match(r@, expected_warnings(data@), now as int),
{
    let mut alerts: Vec<WeatherAlert> = Vec::new();
    let mut i: usize = 0;
    while i < data.len()
        invariant
            i <= data.len(),
            warnable(data@),
            warnings_match(alerts@, expected_warnings(data@.subrange(0, i as int)), now as int),
        decreases data.len() - i,
    {
        let d = &data[i];
        assert(data@[i as int].timestamp <= i64::MAX - 21600);
        let ghost before = alerts@;
        let ghost prefix = data@.subrange(0, i as int);
        let ghost next = data@.subrange(0, i + 1);
        assert(next.drop_last() =~= prefix);
        assert(next.last() == *d);
        if d.temperature_c < -500 && d.humidity_percent > 8000 {
            let a = ice_weather_alert(d, now);
            alerts.push(a);
        }
        let ghost mid = alerts@;
        if d.wind_speed_ms > 1500 {
            let a = wind_weather_alert(d, now);
            alerts.push(a);
        }
        proof {
            let e = expected_warnings(next);
            assert(e == expected_warnings(prefix)
                + (if ice_warning_due(*d) { seq![(*d, WeatherAlertType::IceWarning)] } else { Seq::empty() })
                + (if wind_warning_due(*d) { seq![(*d, WeatherAlertType::HighWindWarning)] } else { Seq::empty() }));
            assert forall|k: int| 0 <= k < alerts@.len() implies if #[trigger] e[k].1 == WeatherAlertType::IceWarning {
                is_ice_warning(alerts@[k], e[k].0, now as int)
            } else {
                is_wind_warning(alerts@[k], e[k].0, now as int)
            } by {
                if k < before.len() {
                    assert(alerts@[k] == before[k]);
                    assert(e[k] == expected_warnings(prefix)[k]);
                } else if k < mid.len() {
                    assert(alerts@[k] == mid[k]);
                }
            }
        }
        i = i + 1;
    }
    assert(data@.subrange(0, i as int) =~= data@);
    alerts
}

} // verus!

verus! {

/// The weather risk score, in hundredths of a point: 10 points per day with
/// ice risk, 8 per day of high wind, 5 per day of extreme temperature, and the
/// maximum wind speed in m/s (from 0).
pub open spec fn weather_risk_score(ice_days: int, wind_days: int, temp_days: int, max_wind: int) -> int {
    ice_days * 1000 + wind_days * 800 + temp_days * 500 + if max_wind > 0 { max_wind } else { 0 }
}

/// The risk of a score: from 80 points critical, from 50 high, from 30
/// medium, from 10 low, none below.
pub open spec fn weather_risk_for(score: int) -> RiskLevel {
    if score >= 8000 {
        RiskLevel::Critical
    } else if score >= 5000 {
        RiskLevel::High
    } else if score >= 3000 {
        RiskLevel::Medium
    } else if score >= 1000 {
        RiskLevel::Low
    } else {
        RiskLevel::NoRisk
    }
}

/// The impact of a score, on the same bands as the risk.
pub open spec fn impact_for(score: int) -> ImpactRating {
    if score >= 8000 {
        ImpactRating::Severe
    } else if score >= 5000 {
        ImpactRating::Major
    } else if score >= 3000 {
        ImpactRating::Moderate
    } else if score >= 1000 {
        ImpactRating::Minor
    } else {
        ImpactRating::Negligible
    }
}

/// Rates the overall weather risk and its impact from the day counts and the
/// maximum wind speed.
pub fn calculate_overall_risk(ice_days: u32, wind_days: u32, temp_days: u32, max_wind: i64)
    -> (r: (RiskLevel, ImpactRating))
    ensures
        r.0 == weather_risk_for(weather_risk_score(ice_days as int, wind_days as int, temp_days as int, max_wind as int)),
        r.1 == impact_for(weather_risk_score(ice_days as int, wind_days as int, temp_days as int, max_wind as int)),
{
    let score: i128 = ice_days as i128 * 1000 + wind_days as i128 * 800 + temp_days as i128 * 500
        + if max_wind > 0 { max_wind as i128 } else { 0 };
    if score >= 8000 {
        (RiskLevel::Critical, ImpactRating::Severe)
    } else if score >= 5000 {
        (RiskLevel::High, ImpactRating::Major)
    } else if score >= 3000 {
        (RiskLevel::Medium, ImpactRating::Moderate)
    } else if score >= 1000 {
        (RiskLevel::Low, ImpactRating::Minor)
    } else {
        (RiskLevel::NoRisk, ImpactRating::Negligible)
    }
}

/// The overall weather risk and impact by points: each day of ice risk counts
/// 10 points, each day of high wind 8, each day of extreme temperature 5, and
/// the highest wind one point per m/s (none when not above 0). From 80 points
/// the risk is critical and the impact severe, from 50 below 80 high and
/// major, from 30 below 50 medium and moderate, from 10 below 30 low and
/// minor, below 10 none and negligible.
pub proof fn lemma_weather_risk_bands(ice_days: int, wind_days: int, temp_days: int, max_wind: int)
    ensures
        ({
            let points = ice_days * 1000 + wind_days * 800 + temp_days * 500 + if max_wind > 0 { max_wind } else { 0 };
            let risk = weather_risk_for(weather_risk_score(ice_days, wind_days, temp_days, max_wind));
            let impact = impact_for(weather_risk_score(ice_days, wind_days, temp_days, max_wind));
            &&& (risk == RiskLevel::Critical <==> points >= 8000)
            &&& (impact == ImpactRating::Severe <==> points >= 8000)
            &&& (risk == RiskLevel::High <==> 5000 <= points < 8000)
            &&& (impact == ImpactRating::Major <==> 5000 <= points < 8000)
            &&& (risk == RiskLevel::Medium <==> 3000 <= points < 5000)
            &&& (impact == ImpactRating::Moderate <==> 3000 <= points < 5000)
            &&& (risk == RiskLevel::Low <==> 1000 <= points < 3000)
            &&& (impact == ImpactRating::Minor <==> 1000 <= points < 3000)
            &&& (risk == RiskLevel::NoRisk <==> points < 1000)
            &&& (impact == ImpactRating::Negligible <==> points < 1000)
        }),
{
}

/// More risky days or a stronger wind never lower the weather risk.
pub proof fn lemma_weather_risk_monotone(
    ice1: int, wind1: int, temp1: int, max1: int,
    ice2: int, wind2: int, temp2: int, max2: int,
)
    requires
        0 <= ice1 <= ice2,
        0 <= wind1 <= wind2,
        0 <= temp1 <= temp2,
        max1 <= max2,
    ensures
        weather_risk_for(weather_risk_score(ice1, wind1, temp1, max1)).spec_rank()
            <= weather_risk_for(weather_risk_score(ice2, wind2, temp2, max2)).spec_rank(),
{
}

/// The risk of each kind of weather with its measure (days, or hundredths of a
/// millimetre of precipitation): ice is high on any day with ice risk, wind
/// medium on any day of high wind, temperature low on any extreme day, and
/// precipitation medium above 50 mm.
pub open spec fn risk_by_type_for(ice_days: int, wind_days: int, temp_days: int, precipitation: int)
    -> Seq<(WeatherRiskType, RiskLevel, i64)>
{
    seq![
        (WeatherRiskType::Ice, if ice_days > 0 { RiskLevel::High } else { RiskLevel::Low }, (ice_days * 100) as i64),
        (WeatherRiskType::HighWind, if wind_days > 0 { RiskLevel::Medium } else { RiskLevel::Low }, (wind_days * 100) as i64),
        (WeatherRiskType::ExtremeTemperature, if temp_days > 0 { RiskLevel::Low } else { RiskLevel::NoRisk }, (temp_days * 100) as i64),
        (WeatherRiskType::HeavyPrecipitation, if precipitation > 5000 { RiskLevel::Medium } else { RiskLevel::Low }, precipitation as i64),
    ]
}

/// Lists the risk of each kind of weather.
pub fn risk_by_type(ice_days: u32, wind_days: u32, temp_days: u32, precipitation: i64)
    -> (r: Vec<(WeatherRiskType, RiskLevel, i64)>)
    ensures
        r@ == risk_by_type_for(ice_days as int, wind_days as int, temp_days as int, precipitation as int),
{
    let mut v: Vec<(WeatherRiskType, RiskLevel, i64)> = Vec::new();
    v.push((WeatherRiskType::Ice, if ice_days > 0 { RiskLevel::High } else { RiskLevel::Low }, ice_days as i64 * 100));
    v.push((WeatherRiskType::HighWind, if wind_days > 0 { RiskLevel::Medium } else { RiskLevel::Low }, wind_days as i64 * 100));
    v.push((WeatherRiskType::ExtremeTemperature, if temp_days > 0 { RiskLevel::Low } else { RiskLevel::NoRisk }, temp_days as i64 * 100));
    v.push((WeatherRiskType::HeavyPrecipitation, if precipitation > 5000 { RiskLevel::Medium } else { RiskLevel::Low }, precipitation));
    assert(v@ =~= risk_by_type_for(ice_days as int, wind_days as int, temp_days as int, precipitation as int));
    v
}

/// The operational impact of a risk.
pub open spec fn operational_impact_for(risk: RiskLevel) -> Seq<char> {
    if risk == RiskLevel::Critical || risk == RiskLevel::High {
        "严重影响，可能需要频繁停运"@
    } else if risk == RiskLevel::Medium {
        "中度影响，需加强监控"@
    } else {
        "影响较小，可正常运行"@
    }
}

/// The increase of cost (hundredths of a percent) a risk brings.
pub open spec fn cost_increase_for(risk: RiskLevel) -> int {
    match risk {
        RiskLevel::Critical => 3000,
        RiskLevel::High => 2000,
        RiskLevel::Medium => 1000,
        RiskLevel::Low => 500,
        _ => 0,
    }
}

/// What an impact assessment holds: the operational impact of the risk, a
/// structural load above three days of ice, at least one more inspection per
/// day of ice, the cost increase of the risk, 8 hours of downtime above
/// 20 m/s and 4 above 15 m/s, and passengers affected from a high risk on.
pub open spec fn impact_matches(a: ImpactAssessment, risk: RiskLevel, max_wind: int, ice_days: int) -> bool {
    &&& a.operational_impact@ == operational_impact_for(risk)
    &&& a.structural_impact@ == if ice_days > 3 { "高负荷运行，结构应力增加"@ } else { "结构应力在正常范围内"@ }
    &&& a.maintenance_impact@ == "预计需要增加"@ + decimal_text((if ice_days > 1 { ice_days } else { 1 }) as nat) + "次巡检"@
    &&& a.estimated_cost_increase_percent == cost_increase_for(risk)
    &&& a.estimated_downtime_hours == if max_wind > 2000 { 800i64 } else if max_wind > 1500 { 400i64 } else { 0i64 }
    &&& a.passenger_impact@ == if risk.spec_rank() >= RiskLevel::High.spec_rank() {
        "可能造成乘客滞留，需准备应急预案"@
    } else {
        "对乘客影响较小"@
    }
}

/// Assesses the impact of the weather on operation, structure, maintenance,
/// cost, downtime and passengers.
pub fn generate_impact_assessment(risk: RiskLevel, max_wind: i64, ice_days: u32) -> (r: ImpactAssessment)
    ensures
        impact_matches(r, risk, max_wind as int, ice_days as int),
{
    let operational = match risk {
        RiskLevel::Critical | RiskLevel::High => String::from_str("严重影响，可能需要频繁停运"),
        RiskLevel::Medium => String::from_str("中度影响，需加强监控"),
        _ => String::from_str("影响较小，可正常运行"),
    };
    let structural = if ice_days > 3 {
        String::from_str("高负荷运行，结构应力增加")
    } else {
        String::from_str("结构应力在正常范围内")
    };
    let mut maintenance = String::from_str("预计需要增加");
    append_decimal(&mut maintenance, if ice_days > 1 { ice_days as u64 } else { 1 });
    maintenance.append("次巡检");
    let cost: i64 = match risk {
        RiskLevel::Critical => 3000,
        RiskLevel::High => 2000,
        RiskLevel::Medium => 1000,
        RiskLevel::Low => 500,
        _ => 0,
    };
    let passenger = if risk.rank() >= 3 {
        String::from_str("可能造成乘客滞留，需准备应急预案")
    } else {
        String::from_str("对乘客影响较小")
    };
    ImpactAssessment {
        operational_impact: operational,
        structural_impact: structural,
        maintenance_impact: maintenance,
        estimated_cost_increase_percent: cost,
        estimated_downtime_hours: if max_wind > 2000 { 800 } else if max_wind > 1500 { 400 } else { 0 },
        passenger_impact: passenger,
    }
}

/// A recommendation as plain values.
pub open spec fn recommendation_view(r: MitigationRecommendation) -> (WeatherRiskType, RecommendationPriority, Seq<char>, int, int) {
    (r.risk_type, r.priority, r.action@, r.estimated_cost as int, r.effectiveness as int)
}

/// The measure against a kind of weather whose risk is medium or more: ice
/// calls for monitoring and de-icing gear (priority high), wind for a
/// threshold and a shutdown plan (high above 20 m/s, medium otherwise), other
/// kinds for routine monitoring (low). Costs in hundredths, effectiveness in
/// hundredths of a percent.
pub open spec fn recommendation_for(risk_type: WeatherRiskType, max_wind: int)
    -> (WeatherRiskType, RecommendationPriority, Seq<char>, int, int)
{
    match risk_type {
        WeatherRiskType::Ice => (risk_type, RecommendationPriority::High, "加强覆冰监测，准备除冰设备"@, 1000000, 8000),
        WeatherRiskType::HighWind => (
            risk_type,
            if max_wind > 2000 { RecommendationPriority::High } else { RecommendationPriority::Medium },
            "设置大风告警阈值，准备停运预案"@,
            500000,
            7500,
        ),
        _ => (risk_type, RecommendationPriority::Low, "加强监控，保持常规巡检"@, 100000, 6000),
    }
}

/// The general measure that always closes the list.
pub open spec fn general_recommendation() -> (WeatherRiskType, RecommendationPriority, Seq<char>, int, int) {
    (WeatherRiskType::General, RecommendationPriority::Medium, "建立恶劣天气应急预案，定期演练"@, 200000, 8500)
}

/// The measures for the kinds of weather of medium risk or more, in order.
pub open spec fn recommendations_for(risks: Seq<(WeatherRiskType, RiskLevel, i64)>, max_wind: int)
    -> Seq<(WeatherRiskType, RecommendationPriority, Seq<char>, int, int)>
    decreases risks.len(),
{
    if risks.len() == 0 {
        Seq::empty()
    } else {
        let last = risks.last();
        let rest = recommendations_for(risks.drop_last(), max_wind);
        if last.1.spec_rank() >= RiskLevel::Medium.spec_rank() {
            rest.push(recommendation_for(last.0, max_wind))
        } else {
            rest
        }
    }
}

fn push_recommendation(v: &mut Vec<MitigationRecommendation>, risk_type: WeatherRiskType, max_wind: i64)
    ensures
        final(v)@.map_values(|r: MitigationRecommendation| recommendation_view(r)) == old(v)@.map_values(
            |r: MitigationRecommendation| recommendation_view(r),
        ).push(recommendation_for(risk_type, max_wind as int)),
{
    let ghost before = v@;
    let rec = match risk_type {
        WeatherRiskType::Ice => MitigationRecommendation {
            risk_type,
            priority: RecommendationPriority::High,
            action: String::from_str("加强覆冰监测，准备除冰设备"),
            estimated_cost: 1000000,
            effectiveness: 8000,
        },
        WeatherRiskType::HighWind => MitigationRecommendation {
            risk_type,
            priority: if max_wind > 2000 { RecommendationPriority::High } else { RecommendationPriority::Medium },
            action: String::from_str("设置大风告警阈值，准备停运预案"),
            estimated_cost: 500000,
            effectiveness: 7500,
        },
        _ => MitigationRecommendation {
            risk_type,
            priority: RecommendationPriority::Low,
            action: String::from_str("加强监控，保持常规巡检"),
            estimated_cost: 100000,
            effectiveness: 6000,
        },
    };
    v.push(rec);
    assert(v@.map_values(|r: MitigationRecommendation| recommendation_view(r)) =~= before.map_values(
        |r: MitigationRecommendation| recommendation_view(r),
    ).push(recommendation_for(risk_type, max_wind as int)));
}

/// Recommends measures for each kind of weather of medium risk or more, in
/// order, and closes with the general emergency plan.
pub fn generate_mitigation_recommendations(risks: &Vec<(WeatherRiskType, RiskLevel, i64)>, max_wind: i64)
    -> (r: Vec<MitigationRecommendation>)
    ensures
        r@.map_values(|x: MitigationRecommendation| recommendation_view(x))
            == recommendations_for(risks@, max_wind as int).push(general_recommendation()),
{
    let mut recs: Vec<MitigationRecommendation> = Vec::new();
    let mut i: usize = 0;
    assert(recs@.map_values(|x: MitigationRecommendation| recommendation_view(x)) =~= Seq::empty());
    while i < risks.len()
        invariant
            i <= risks.len(),
            recs@.map_values(|x: MitigationRecommendation| recommendation_view(x))
                == recommendations_for(risks@.subrange(0, i as int), max_wind as int),
        decreases risks.len() - i,
    {
        assert(risks@.subrange(0, i + 1).drop_last() =~= risks@.subrange(0, i as int));
        let (risk_type, level, _) = risks[i];
        if level.rank() >= 2 {
            push_recommendation(&mut recs, risk_type, max_wind);
        }
        i = i + 1;
    }
    assert(risks@.subrange(0, i as int) =~= risks@);
    let ghost before = recs@;
    recs.push(MitigationRecommendation {
        risk_type: WeatherRiskType::General,
        priority: RecommendationPriority::Medium,
        action: String::from_str("建立恶劣天气应急预案，定期演练"),
        estimated_cost: 200000,
        effectiveness: 8500,
    });
    assert(recs@.map_values(|x: MitigationRecommendation| recommendation_view(x)) =~= before.map_values(
        |x: MitigationRecommendation| recommendation_view(x),
    ).push(general_recommendation()));
    recs
}

/// The outlook for the next seven days issued at `now`: cold and wet, three
/// days of possible ice, two of high wind, one of storm, a medium risk.
pub open spec fn forecast_matches(r: ForecastSummary, now: int) -> bool {
    &&& r.forecast_period_days == 7
    &&& r.forecast_time == now
    &&& r.avg_temperature_c == -200
    &&& r.min_temperature_c == -800
    &&& r.max_temperature_c == 300
    &&& r.avg_wind_speed_ms == 1000
    &&& r.max_wind_speed_ms == 1800
    &&& r.precipitation_probability == 6000
    &&& r.expected_ice_days == 3
    &&& r.expected_high_wind_days == 2
    &&& r.expected_storm_days == 1
    &&& r.overall_forecast_risk == RiskLevel::Medium
    &&& r.summary_text@ == "未来7天以低温阴雨天气为主，有3天可能出现覆冰，需加强监控"@
}

/// The outlook for the next seven days, issued at `now`.
pub fn generate_forecast_summary(now: i64) -> (r: ForecastSummary)
    ensures
        forecast_matches(r, now as int),
{
    ForecastSummary {
        forecast_period_days: 7,
        forecast_time: now,
        avg_temperature_c: -200,
        min_temperature_c: -800,
        max_temperature_c: 300,
        avg_wind_speed_ms: 1000,
        max_wind_speed_ms: 1800,
        precipitation_probability: 6000,
        expected_ice_days: 3,
        expected_high_wind_days: 2,
        expected_storm_days: 1,
        overall_forecast_risk: RiskLevel::Medium,
        summary_text: String::from_str("未来7天以低温阴雨天气为主，有3天可能出现覆冰，需加强监控"),
    }
}

} // verus!

verus! {

/// The temperatures of a series of records.
pub open spec fn temperature_series(data: Seq<WeatherData>) -> Seq<i64> {
    data.map_values(|d: WeatherData| d.temperature_c)
}

/// The humidities of a series of records.
pub open spec fn humidity_series(data: Seq<WeatherData>) -> Seq<i64> {
    data.map_values(|d: WeatherData| d.humidity_percent)
}

/// The wind speeds of a series of records.
pub open spec fn weather_wind_series(data: Seq<WeatherData>) -> Seq<i64> {
    data.map_values(|d: WeatherData| d.wind_speed_ms)
}

/// The precipitation of a series of records, 0 where none was measured.
pub open spec fn precipitation_series(data: Seq<WeatherData>) -> Seq<i64> {
    data.map_values(|d: WeatherData| match d.precipitation_mm { Some(p) => p, None => 0i64 })
}

/// Reads the temperature, humidity, wind and precipitation series out of records.
pub fn weather_series(data: &Vec<WeatherData>) -> (r: (Vec<i64>, Vec<i64>, Vec<i64>, Vec<i64>))
    ensures
        r.0@ == temperature_series(data@),
        r.1@ == humidity_series(data@),
        r.2@ == weather_wind_series(data@),
        r.3@ == precipitation_series(data@),
{
    let mut temps: Vec<i64> = Vec::new();
    let mut hums: Vec<i64> = Vec::new();
    let mut winds: Vec<i64> = Vec::new();
    let mut precs: Vec<i64> = Vec::new();
    let mut i: usize = 0;
    while i < data.len()
        invariant
            i <= data.len(),
            temps@ == temperature_series(data@.subrange(0, i as int)),
            hums@ == humidity_series(data@.subrange(0, i as int)),
            winds@ == weather_wind_series(data@.subrange(0, i as int)),
            precs@ == precipitation_series(data@.subrange(0, i as int)),
        decreases data.len() - i,
    {
        let d = &data[i];
        temps.push(d.temperature_c);
        hums.push(d.humidity_percent);
        winds.push(d.wind_speed_ms);
        precs.push(match d.precipitation_mm { Some(p) => p, None => 0 });
        i = i + 1;
        assert(temps@ =~= temperature_series(data@.subrange(0, i as int)));
        assert(hums@ =~= humidity_series(data@.subrange(0, i as int)));
        assert(winds@ =~= weather_wind_series(data@.subrange(0, i as int)));
        assert(precs@ =~= precipitation_series(data@.subrange(0, i as int)));
    }
    assert(data@.subrange(0, i as int) =~= data@);
    (temps, hums, winds, precs)
}

/// What the summary of a series of records holds: averages rounded down to
/// the hundredth (the exact mean lies less than a hundredth above; 0
/// without records), the lowest and highest temperature (`i64::MAX` and
/// `i64::MIN` without records), the highest wind from 0, the total
/// precipitation (limited to `i64`), the day counts, the records with
/// precipitation, and the given dominant direction.
pub open spec fn summary_matches(s: WeatherSummary, data: Seq<WeatherData>, dominant_direction: int) -> bool {
    &&& s.avg_temperature_c == floor_average(temperature_series(data))
    &&& s.min_temperature_c == seq_min_from(temperature_series(data), i64::MAX as int)
    &&& s.max_temperature_c == seq_max_from(temperature_series(data), i64::MIN as int)
    &&& s.avg_humidity_percent == floor_average(humidity_series(data))
    &&& s.avg_wind_speed_ms == floor_average(weather_wind_series(data))
    &&& s.max_wind_speed_ms == seq_max0(weather_wind_series(data))
    &&& s.avg_wind_gust_ms == None::<i64>
    &&& s.dominant_wind_direction == dominant_direction
    &&& s.total_precipitation_mm == clamp_i64(seq_sum(precipitation_series(data)))
    &&& s.precipitation_type == PrecipitationType::NoPrecipitation
    &&& s.min_visibility_m == None::<i64>
    &&& s.days_with_ice_risk == days_where(data, DayCriterion::IceRisk).len() as u32
    &&& s.days_with_high_wind == days_where(data, DayCriterion::HighWind).len() as u32
    &&& s.days_with_extreme_temp == days_where(data, DayCriterion::ExtremeTemperature).len() as u32
    &&& s.days_with_precipitation == count_positive(precipitation_series(data)) as u32
}

/// What an analysis of the weather over `days` days up to `now` holds.
pub open spec fn weather_analysis_matches(
    a: WeatherImpactAnalysis,
    tower_id: Option<u128>,
    days: int,
    now: int,
    data: Seq<WeatherData>,
    dominant_direction: int,
) -> bool {
    let ice_days = days_where(data, DayCriterion::IceRisk).len() as u32;
    let wind_days = days_where(data, DayCriterion::HighWind).len() as u32;
    let temp_days = days_where(data, DayCriterion::ExtremeTemperature).len() as u32;
    let max_wind = seq_max0(weather_wind_series(data));
    let precipitation = clamp_i64(seq_sum(precipitation_series(data)));
    let score = weather_risk_score(ice_days as int, wind_days as int, temp_days as int, max_wind);
    let risk = weather_risk_for(score);
    let risks = risk_by_type_for(ice_days as int, wind_days as int, temp_days as int, precipitation);
    &&& a.tower_id == tower_id
    &&& a.analysis_time == now
    &&& a.analysis_period_start == now - days * 86400
    &&& a.analysis_period_end == now
    &&& a.data_points_count == data.len() as u32
    &&& summary_matches(a.weather_summary, data, dominant_direction)
    &&& warnings_match(a.alerts@, expected_warnings(data), now)
    &&& a.overall_risk == risk
    &&& a.impact_rating == impact_for(score)
    &&& a.risk_by_type@ == risks
    &&& impact_matches(a.impact_assessment, risk, max_wind, ice_days as int)
    &&& a.mitigation_recommendations@.map_values(|x: MitigationRecommendation| recommendation_view(x))
        == recommendations_for(risks, max_wind).push(general_recommendation())
    &&& a.forecast matches Some(f) && forecast_matches(f, now)
    &&& a.confidence == if data.len() >= 100 { 9500i64 } else { 7500i64 }
}

/// Analyses the impact of the weather on a tower (or the whole line) over the
/// last `days` days up to `now`, from the weather records of that period. The
/// dominant wind direction, an average of angles, is computed by the caller.
pub fn analyze_weather_impact(
    tower_id: Option<u128>,
    days: u32,
    now: i64,
    weather_data: &Vec<WeatherData>,
    dominant_wind_direction: i64,
) -> (r: WeatherImpactAnalysis)
    requires
        warnable(weather_data@),
        i64::MIN + 86400 * 0x1_0000_0000 <= now,
    ensures
        weather_analysis_matches(r, tower_id, days as int, now as int, weather_data@, dominant_wind_direction as int),
{
    let alerts = generate_weather_alerts(weather_data, now);
    let (temps, hums, winds, precs) = weather_series(weather_data);
    let avg_temp = average_of(&temps);
    let min_temp = min_from(&temps, i64::MAX);
    let max_temp = max_from(&temps, i64::MIN);
    let avg_wind = average_of(&winds);
    let max_wind = max_of(&winds);
    let avg_humidity = average_of(&hums);
    let total_precipitation = clamp_to_i64(sum_of(&precs));

    let days_with_ice = count_days_with_ice_risk(weather_data);
    let days_with_high_wind = count_days_with_high_wind(weather_data);
    let days_with_extreme_temp = count_days_with_extreme_temp(weather_data);

    let (overall_risk, impact_rating) = calculate_overall_risk(days_with_ice, days_with_high_wind, days_with_extreme_temp, max_wind);
    let risks = risk_by_type(days_with_ice, days_with_high_wind, days_with_extreme_temp, total_precipitation);
    let impact_assessment = generate_impact_assessment(overall_risk, max_wind, days_with_ice);
    let mitigation_recommendations = generate_mitigation_recommendations(&risks, max_wind);
    let days_with_precipitation = count_positive_of(&precs);

    WeatherImpactAnalysis {
        id: new_uuid(),
        tower_id,
        analysis_time: now,
        analysis_period_start: now - days as i64 * 86400,
        analysis_period_end: now,
        data_points_count: #[verifier::truncate] (weather_data.len() as u32),
        weather_summary: WeatherSummary {
            avg_temperature_c: avg_temp,
            min_temperature_c: min_temp,
            max_temperature_c: max_temp,
            avg_humidity_percent: avg_humidity,
            avg_wind_speed_ms: avg_wind,
            max_wind_speed_ms: max_wind,
            avg_wind_gust_ms: None,
            dominant_wind_direction: dominant_wind_direction,
            total_precipitation_mm: total_precipitation,
            precipitation_type: PrecipitationType::NoPrecipitation,
            min_visibility_m: None,
            days_with_ice_risk: days_with_ice,
            days_with_high_wind: days_with_high_wind,
            days_with_extreme_temp: days_with_extreme_temp,
            days_with_precipitation: #[verifier::truncate] (days_with_precipitation as u32),
        },
        alerts,
        overall_risk,
        impact_rating,
        risk_by_type: risks,
        impact_assessment,
        mitigation_recommendations,
        forecast: Some(generate_forecast_summary(now)),
        confidence: if weather_data.len() >= 100 { 9500 } else { 7500 },
    }
}

} // verus!
