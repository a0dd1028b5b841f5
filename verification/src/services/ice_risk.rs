//! Ice risk: the weighted score of the README (ice 40, vibration 25, wind 20,
//! temperature 10, humidity 5 points), its levels, the type of ice, the
//! measures against it, and the analysis of a window of readings.
//!
//! Readings are in hundredths: ice in mm, vibration in mm/s, wind in m/s,
//! temperature in degrees Celsius, humidity in percent.
use vstd::prelude::*;
use crate::models::ice_detection::{IceRiskLevel, IceType, IceMitigationStrategy, RiskFactor, IceDetectionData, IcePrediction};
use crate::models::ice_detection::IceAnalysisResult;
use crate::models::vibration::VibrationData;
use crate::models::wind_speed::WindSpeedData;
use crate::models::alert::{AlertMessage, AlertType, AlertSeverity};
use crate::models::tower::RiskLevel;
use crate::readings::{
    clamp_i64, clamp_to_i64, floor_div, ceil_average, seq_max0, ice_thickness_series, velocity_series,
    wind_speed_series, ice_thicknesses, velocities, wind_speeds, ceil_average_of, max_of,
    lemma_ceil_average_monotone, lemma_ceil_average_above, mean_above,
};
use crate::text::{fixed_text, append_fixed};
use crate::ids::new_uuid;
use crate::text::{texts, push_text};

verus! {

/// Points for the ice thickness: above 15 mm 40, above 10 mm 30, above 5 mm
/// 20, above 2 mm 10.
pub open spec fn ice_thickness_points(ice: int) -> int {
    if ice > 1500 { 40 } else if ice > 1000 { 30 } else if ice > 500 { 20 } else if ice > 200 { 10 } else { 0 }
}

/// Points for the vibration velocity: above 5 mm/s 25, above 3 mm/s 15,
/// above 1.5 mm/s 8.
pub open spec fn vibration_points(v: int) -> int {
    if v > 500 { 25 } else if v > 300 { 15 } else if v > 150 { 8 } else { 0 }
}

/// Points for the wind speed: above 20 m/s 20, above 15 m/s 12, above 10 m/s 6.
pub open spec fn wind_points(w: int) -> int {
    if w > 2000 { 20 } else if w > 1500 { 12 } else if w > 1000 { 6 } else { 0 }
}

/// Points for the temperature: below -5 C 10, below 0 C 5.
pub open spec fn temperature_points(t: int) -> int {
    if t < -500 { 10 } else if t < 0 { 5 } else { 0 }
}

/// Points for the humidity: above 90 % 5.
pub open spec fn humidity_points(h: int) -> int {
    if h > 9000 { 5 } else { 0 }
}

/// The ice risk score, from 0 to 100 points.
pub open spec fn ice_risk_score(ice: int, vibration: int, wind: int, temperature: int, humidity: int) -> int {
    ice_thickness_points(ice) + vibration_points(vibration) + wind_points(wind)
        + temperature_points(temperature) + humidity_points(humidity)
}

/// The level of a score as the README sets it: below 60 low (normal
/// operation), 60 to 85 medium (closer monitoring), 85 and above high
/// (shutdown to be considered).
pub open spec fn ice_risk_level_for(score: int) -> IceRiskLevel {
    if score >= 85 {
        IceRiskLevel::High
    } else if score >= 60 {
        IceRiskLevel::Medium
    } else {
        IceRiskLevel::Low
    }
}

/// Scores the risk of ice on a tower from thickness, vibration, wind,
/// temperature and humidity, and gives the level of the score.
pub fn calculate_ice_risk_score(
    ice_thickness: i64,
    vibration: i64,
    wind_speed: i64,
    temperature: i64,
    humidity: i64,
) -> (r: (IceRiskLevel, u32))
    ensures
        r.1 as int == ice_risk_score(ice_thickness as int, vibration as int, wind_speed as int, temperature as int, humidity as int),
        r.1 <= 100,
        r.0 == ice_risk_level_for(r.1 as int),
{
    let mut score: u32 = 0;

    if ice_thickness > 1500 { score += 40; }
    else if ice_thickness > 1000 { score += 30; }
    else if ice_thickness > 500 { score += 20; }
    else if ice_thickness > 200 { score += 10; }

    if vibration > 500 { score += 25; }
    else if vibration > 300 { score += 15; }
    else if vibration > 150 { score += 8; }

    if wind_speed > 2000 { score += 20; }
    else if wind_speed > 1500 { score += 12; }
    else if wind_speed > 1000 { score += 6; }

    if temperature < -500 { score += 10; }
    else if temperature < 0 { score += 5; }

    if humidity > 9000 { score += 5; }

    let level = if score >= 85 {
        IceRiskLevel::High
    } else if score >= 60 {
        IceRiskLevel::Medium
    } else {
        IceRiskLevel::Low
    };
    (level, score)
}

/// Worse conditions never lower the ice risk: more ice, vibration, wind or
/// humidity, or a lower temperature, give a score and a level at least as high.
pub proof fn lemma_ice_risk_monotone(
    ice1: int, vib1: int, wind1: int, temp1: int, hum1: int,
    ice2: int, vib2: int, wind2: int, temp2: int, hum2: int,
)
    requires
        ice1 <= ice2,
        vib1 <= vib2,
        wind1 <= wind2,
        temp2 <= temp1,
        hum1 <= hum2,
    ensures
        ice_risk_score(ice1, vib1, wind1, temp1, hum1) <= ice_risk_score(ice2, vib2, wind2, temp2, hum2),
        ice_risk_level_for(ice_risk_score(ice1, vib1, wind1, temp1, hum1)).spec_rank()
            <= ice_risk_level_for(ice_risk_score(ice2, vib2, wind2, temp2, hum2)).spec_rank(),
{
}

/// The weights of the README: each factor gives at most its weight in points
/// (ice 40, vibration 25, wind 20, temperature 10, humidity 5), so the score
/// lies between 0 and 100.
pub proof fn lemma_ice_risk_weights(ice: int, vibration: int, wind: int, temperature: int, humidity: int)
    ensures
        0 <= ice_thickness_points(ice) <= 40,
        0 <= vibration_points(vibration) <= 25,
        0 <= wind_points(wind) <= 20,
        0 <= temperature_points(temperature) <= 10,
        0 <= humidity_points(humidity) <= 5,
        0 <= ice_risk_score(ice, vibration, wind, temperature, humidity) <= 100,
        ice_risk_score(ice, vibration, wind, temperature, humidity) == 100
            <==> (ice > 1500 && vibration > 500 && wind > 2000 && temperature < -500 && humidity > 9000),
{
}

/// Each reading adds its own points to the ice risk score, by the table of
/// the README: with no other reading, ice above 2, 5, 10 and 15 mm scores 10,
/// 20, 30 and 40 points; vibration above 1.5, 3 and 5 mm/s 8, 15 and 25;
/// wind above 10, 15 and 20 m/s 6, 12 and 20; a temperature below 0 C 5 and
/// below -5 C 10; a humidity above 90 % 5; nothing scores 0, and the score of
/// all the readings is the sum of the scores of each.
pub proof fn lemma_ice_risk_score_table(ice: int, vibration: int, wind: int, temperature: int, humidity: int)
    ensures
        ice_risk_score(0, 0, 0, 0, 0) == 0,
        ice_risk_score(ice, vibration, wind, temperature, humidity)
            == ice_risk_score(ice, 0, 0, 0, 0) + ice_risk_score(0, vibration, 0, 0, 0)
                + ice_risk_score(0, 0, wind, 0, 0) + ice_risk_score(0, 0, 0, temperature, 0)
                + ice_risk_score(0, 0, 0, 0, humidity),
        ice <= 200 ==> ice_risk_score(ice, 0, 0, 0, 0) == 0,
        200 < ice <= 500 ==> ice_risk_score(ice, 0, 0, 0, 0) == 10,
        500 < ice <= 1000 ==> ice_risk_score(ice, 0, 0, 0, 0) == 20,
        1000 < ice <= 1500 ==> ice_risk_score(ice, 0, 0, 0, 0) == 30,
        1500 < ice ==> ice_risk_score(ice, 0, 0, 0, 0) == 40,
        vibration <= 150 ==> ice_risk_score(0, vibration, 0, 0, 0) == 0,
        150 < vibration <= 300 ==> ice_risk_score(0, vibration, 0, 0, 0) == 8,
        300 < vibration <= 500 ==> ice_risk_score(0, vibration, 0, 0, 0) == 15,
        500 < vibration ==> ice_risk_score(0, vibration, 0, 0, 0) == 25,
        wind <= 1000 ==> ice_risk_score(0, 0, wind, 0, 0) == 0,
        1000 < wind <= 1500 ==> ice_risk_score(0, 0, wind, 0, 0) == 6,
        1500 < wind <= 2000 ==> ice_risk_score(0, 0, wind, 0, 0) == 12,
        2000 < wind ==> ice_risk_score(0, 0, wind, 0, 0) == 20,
        0 <= temperature ==> ice_risk_score(0, 0, 0, temperature, 0) == 0,
        -500 <= temperature < 0 ==> ice_risk_score(0, 0, 0, temperature, 0) == 5,
        temperature < -500 ==> ice_risk_score(0, 0, 0, temperature, 0) == 10,
        humidity <= 9000 ==> ice_risk_score(0, 0, 0, 0, humidity) == 0,
        9000 < humidity ==> ice_risk_score(0, 0, 0, 0, humidity) == 5,
{
}

/// The levels of the README: a score of 85 or more is high, from 60 below 85
/// medium, below 60 low; no other level is given.
pub proof fn lemma_ice_risk_level_bands(score: int)
    ensures
        ice_risk_level_for(score) == IceRiskLevel::High <==> score >= 85,
        ice_risk_level_for(score) == IceRiskLevel::Medium <==> 60 <= score < 85,
        ice_risk_level_for(score) == IceRiskLevel::Low <==> score < 60,
{
}

/// The type of ice: rime below -10 C above 80 % humidity and 15 m/s wind;
/// otherwise glaze between -5 C and 0 C (both excluded) above 90 %
/// humidity; otherwise accumulated snow below -15 C; otherwise wet snow in
/// wind above 20 m/s; mixed ice in every other case.
pub proof fn lemma_ice_type_table(temperature: int, humidity: int, wind: int)
    ensures
        temperature < -1000 && humidity > 8000 && wind > 1500 ==> ice_type_for(temperature, humidity, wind) == IceType::Rime,
        !(temperature < -1000 && humidity > 8000 && wind > 1500) && -500 < temperature < 0 && humidity > 9000
            ==> ice_type_for(temperature, humidity, wind) == IceType::Glaze,
        !(temperature < -1000 && humidity > 8000 && wind > 1500) && !(-500 < temperature < 0 && humidity > 9000)
            && temperature < -1500 ==> ice_type_for(temperature, humidity, wind) == IceType::SnowAccumulation,
        !(temperature < -1000 && humidity > 8000 && wind > 1500) && !(-500 < temperature < 0 && humidity > 9000)
            && temperature >= -1500 && wind > 2000 ==> ice_type_for(temperature, humidity, wind) == IceType::WetSnow,
        !(temperature < -1000 && humidity > 8000 && wind > 1500) && !(-500 < temperature < 0 && humidity > 9000)
            && temperature >= -1500 && wind <= 2000 ==> ice_type_for(temperature, humidity, wind) == IceType::Mixed,
{
}

/// The level never falls as the score rises.
pub proof fn lemma_ice_risk_level_monotone(s1: int, s2: int)
    requires
        s1 <= s2,
    ensures
        ice_risk_level_for(s1).spec_rank() <= ice_risk_level_for(s2).spec_rank(),
{
}

/// The type of ice that temperature, humidity and wind speed make likely.
pub open spec fn ice_type_for(temperature: int, humidity: int, wind_speed: int) -> IceType {
    if temperature < -1000 && humidity > 8000 && wind_speed > 1500 {
        IceType::Rime
    } else if temperature < 0 && temperature > -500 && humidity > 9000 {
        IceType::Glaze
    } else if temperature < -1500 {
        IceType::SnowAccumulation
    } else if wind_speed > 2000 {
        IceType::WetSnow
    } else {
        IceType::Mixed
    }
}

/// Classifies the ice: rime in hard frost with humid wind, glaze just below
/// freezing at high humidity, snow accumulation in deep cold, wet snow in
/// strong wind, mixed otherwise.
pub fn classify_ice_type(temperature: i64, humidity: i64, wind_speed: i64) -> (r: IceType)
    ensures
        r == ice_type_for(temperature as int, humidity as int, wind_speed as int),
{
    if temperature < -1000 && humidity > 8000 && wind_speed > 1500 {
        IceType::Rime
    } else if temperature < 0 && temperature > -500 && humidity > 9000 {
        IceType::Glaze
    } else if temperature < -1500 {
        IceType::SnowAccumulation
    } else if wind_speed > 2000 {
        IceType::WetSnow
    } else {
        IceType::Mixed
    }
}

} // verus!

verus! {

/// The immediate measures for a level of ice risk.
pub open spec fn immediate_actions_for(level: IceRiskLevel) -> Seq<Seq<char>> {
    match level {
        IceRiskLevel::Critical => seq![
            "立即启动停运程序，疏散索道乘客"@,
            "通知所有运维人员进入紧急状态"@,
            "启动加热除冰装置（如配备）"@,
        ],
        IceRiskLevel::High => seq![
            "准备停运预案，密切关注覆冰发展"@,
            "通知值班人员加强监控"@,
            "启动加热除冰装置（如配备）"@,
        ],
        IceRiskLevel::Medium => seq!["加强监控，提高告警敏感度"@],
        IceRiskLevel::Low => seq!["正常监控"@],
        _ => Seq::empty(),
    }
}

/// The short-term measures for a level of ice risk.
pub open spec fn short_term_actions_for(level: IceRiskLevel) -> Seq<Seq<char>> {
    match level {
        IceRiskLevel::Critical => seq!["安排紧急巡检，评估塔架结构完整性"@, "增加传感器采样频率"@],
        IceRiskLevel::High => seq!["安排预防性巡检"@, "准备除冰设备"@],
        IceRiskLevel::Medium => seq!["安排常规巡检"@],
        _ => Seq::empty(),
    }
}

/// The long-term measures for a level of ice risk.
pub open spec fn long_term_actions_for(level: IceRiskLevel) -> Seq<Seq<char>> {
    match level {
        IceRiskLevel::Critical => seq!["考虑安装主动除冰系统"@],
        IceRiskLevel::High => seq!["评估塔架抗冰载能力"@],
        IceRiskLevel::Medium => seq!["优化除冰策略"@],
        _ => Seq::empty(),
    }
}

/// The measures against ice for a level and a maximum thickness: the lists of
/// actions of the level; from the medium level on, a speed of 5 m/s; from the
/// high level on, a shutdown; above 10 mm of ice, half an hour of de-icing per
/// millimetre (in thousandths of an hour, so exactly; limited to `i64`); a safe
/// thickness of 10 mm.
pub open spec fn mitigation_matches(r: IceMitigationStrategy, risk_level: IceRiskLevel, ice_thickness: int) -> bool {
    &&& texts(r.immediate_actions@) == immediate_actions_for(risk_level)
    &&& texts(r.short_term_actions@) == short_term_actions_for(risk_level)
    &&& texts(r.long_term_actions@) == long_term_actions_for(risk_level)
    &&& r.recommended_speed_ms == if risk_level.spec_rank() >= IceRiskLevel::Medium.spec_rank() {
        Some(500i64)
    } else {
        None
    }
    &&& r.shutdown_recommended == (risk_level.spec_rank() >= IceRiskLevel::High.spec_rank())
    &&& r.estimated_deicing_time_hours == if ice_thickness > 1000 {
        Some(clamp_i64(ice_thickness * 5) as i64)
    } else {
        None
    }
    &&& r.safe_ice_threshold_mm == Some(1000i64)
}

/// Measures against ice for a risk level, the maximum thickness (hundredths of
/// a millimetre) and the wind speed. From the medium level on, a speed of
/// 5 m/s is recommended; from the high level on, a shutdown; above 10 mm of
/// ice, de-icing is expected to take half an hour per millimetre.
pub fn generate_mitigation_strategy(
    risk_level: IceRiskLevel,
    ice_thickness: i64,
    wind_speed: i64,
) -> (r: IceMitigationStrategy)
    ensures
        mitigation_matches(r, risk_level, ice_thickness as int),
{
    let mut immediate_actions: Vec<String> = Vec::new();
    let mut short_term_actions: Vec<String> = Vec::new();
    let mut long_term_actions: Vec<String> = Vec::new();
    proof {
        assert(texts(immediate_actions@) =~= Seq::empty());
        assert(texts(short_term_actions@) =~= Seq::empty());
        assert(texts(long_term_actions@) =~= Seq::empty());
    }

    match risk_level {
        IceRiskLevel::Critical => {
            push_text(&mut immediate_actions, "立即启动停运程序，疏散索道乘客");
            push_text(&mut immediate_actions, "通知所有运维人员进入紧急状态");
            push_text(&mut immediate_actions, "启动加热除冰装置（如配备）");
            push_text(&mut short_term_actions, "安排紧急巡检，评估塔架结构完整性");
            push_text(&mut short_term_actions, "增加传感器采样频率");
            push_text(&mut long_term_actions, "考虑安装主动除冰系统");
        }
        IceRiskLevel::High => {
            push_text(&mut immediate_actions, "准备停运预案，密切关注覆冰发展");
            push_text(&mut immediate_actions, "通知值班人员加强监控");
            push_text(&mut immediate_actions, "启动加热除冰装置（如配备）");
            push_text(&mut short_term_actions, "安排预防性巡检");
            push_text(&mut short_term_actions, "准备除冰设备");
            push_text(&mut long_term_actions, "评估塔架抗冰载能力");
        }
        IceRiskLevel::Medium => {
            push_text(&mut immediate_actions, "加强监控，提高告警敏感度");
            push_text(&mut short_term_actions, "安排常规巡检");
            push_text(&mut long_term_actions, "优化除冰策略");
        }
        IceRiskLevel::Low => {
            push_text(&mut immediate_actions, "正常监控");
        }
        _ => {}
    }
    proof {
        assert(texts(immediate_actions@) =~= immediate_actions_for(risk_level));
        assert(texts(short_term_actions@) =~= short_term_actions_for(risk_level));
        assert(texts(long_term_actions@) =~= long_term_actions_for(risk_level));
    }

    let rank = risk_level.rank();
    IceMitigationStrategy {
        immediate_actions,
        short_term_actions,
        long_term_actions,
        recommended_speed_ms: if rank >= 3 { Some(500) } else { None },
        shutdown_recommended: rank >= 5,
        estimated_deicing_time_hours: if ice_thickness > 1000 {
            Some(clamp_to_i64(ice_thickness as i128 * 5))
        } else {
            None
        },
        safe_ice_threshold_mm: Some(1000),
    }
}

} // verus!

verus! {

/// A risk factor as plain values: name, weight, value, unit, contribution.
pub open spec fn factor_view(f: RiskFactor) -> (Seq<char>, int, int, Seq<char>, Seq<char>) {
    (f.name@, f.weight as int, f.value as int, f.unit@, f.contribution@)
}

/// The factors that contribute to the risk, in this order: ice above 5 mm
/// (weight 0.40, severe above 10 mm), vibration above 3 mm/s (0.30, severe
/// above 5 mm/s), wind above 15 m/s (0.20, severe above 20 m/s), temperature
/// below 0 C (0.05) and humidity above 85 % (0.05).
pub open spec fn contributing_factors_for(ice: int, vibration: int, wind: int, temperature: int, humidity: int)
    -> Seq<(Seq<char>, int, int, Seq<char>, Seq<char>)>
{
    let s0: Seq<(Seq<char>, int, int, Seq<char>, Seq<char>)> = Seq::empty();
    let s1 = if ice > 500 {
        s0.push(("覆冰厚度"@, 40, ice, "mm"@, if ice > 1000 { "严重"@ } else { "中等"@ }))
    } else { s0 };
    let s2 = if vibration > 300 {
        s1.push(("振动水平"@, 30, vibration, "mm/s"@, if vibration > 500 { "严重"@ } else { "中等"@ }))
    } else { s1 };
    let s3 = if wind > 1500 {
        s2.push(("风速"@, 20, wind, "m/s"@, if wind > 2000 { "严重"@ } else { "中等"@ }))
    } else { s2 };
    let s4 = if temperature < 0 {
        s3.push(("环境温度"@, 5, temperature, "°C"@, "低"@))
    } else { s3 };
    if humidity > 8500 {
        s4.push(("空气湿度"@, 5, humidity, "%"@, "高"@))
    } else { s4 }
}

fn push_factor(v: &mut Vec<RiskFactor>, name: &str, weight: i64, value: i64, unit: &str, contribution: &str)
    ensures
        final(v)@.map_values(|f: RiskFactor| factor_view(f))
            == old(v)@.map_values(|f: RiskFactor| factor_view(f)).push((name@, weight as int, value as int, unit@, contribution@)),
{
    let ghost before = v@;
    v.push(RiskFactor {
        name: String::from_str(name),
        weight,
        value,
        unit: String::from_str(unit),
        contribution: String::from_str(contribution),
    });
    assert(v@.map_values(|f: RiskFactor| factor_view(f))
        =~= before.map_values(|f: RiskFactor| factor_view(f)).push((name@, weight as int, value as int, unit@, contribution@)));
}

/// Lists the factors that contribute to the ice risk, with their weights (in
/// hundredths) and values.
pub fn generate_contributing_factors(
    ice_thickness: i64,
    vibration: i64,
    wind_speed: i64,
    temperature: i64,
    humidity: i64,
) -> (r: Vec<RiskFactor>)
    ensures
        r@.map_values(|f: RiskFactor| factor_view(f))
            == contributing_factors_for(ice_thickness as int, vibration as int, wind_speed as int, temperature as int, humidity as int),
{
    let mut factors: Vec<RiskFactor> = Vec::new();
    assert(factors@.map_values(|f: RiskFactor| factor_view(f)) =~= Seq::empty());
    if ice_thickness > 500 {
        push_factor(&mut factors, "覆冰厚度", 40, ice_thickness, "mm", if ice_thickness > 1000 { "严重" } else { "中等" });
    }
    if vibration > 300 {
        push_factor(&mut factors, "振动水平", 30, vibration, "mm/s", if vibration > 500 { "严重" } else { "中等" });
    }
    if wind_speed > 1500 {
        push_factor(&mut factors, "风速", 20, wind_speed, "m/s", if wind_speed > 2000 { "严重" } else { "中等" });
    }
    if temperature < 0 {
        push_factor(&mut factors, "环境温度", 5, temperature, "°C", "低");
    }
    if humidity > 8500 {
        push_factor(&mut factors, "空气湿度", 5, humidity, "%", "高");
    }
    factors
}

/// The confidence of an analysis, in hundredths of a percent, from the
/// numbers of ice, vibration and wind readings: each source that has
/// readings counts with its weight (0.4, 0.3, 0.3) times its share of a full
/// set of 100 readings, relative to the weights of the sources present.
pub open spec fn confidence_for(n_ice: int, n_vibration: int, n_wind: int) -> int {
    let ci: int = if n_ice > 100 { 100 } else { n_ice };
    let cv: int = if n_vibration > 100 { 100 } else { n_vibration };
    let cw: int = if n_wind > 100 { 100 } else { n_wind };
    let points: int = 40 * ci + 30 * cv + 30 * cw;
    let weight: int = (if n_ice > 0 { 40int } else { 0int }) + (if n_vibration > 0 { 30int } else { 0int })
        + (if n_wind > 0 { 30int } else { 0int });
    if weight == 0 { 0 } else { points * 100 / weight }
}

/// The confidence of an analysis: 100 % when every source has a full set of
/// 100 readings or more, none without readings, and, with readings of one
/// source only, one percent per reading up to 100.
pub proof fn lemma_confidence_table(n_ice: int, n_vibration: int, n_wind: int)
    requires
        0 <= n_ice,
        0 <= n_vibration,
        0 <= n_wind,
    ensures
        n_ice >= 100 && n_vibration >= 100 && n_wind >= 100 ==> confidence_for(n_ice, n_vibration, n_wind) == 10000,
        confidence_for(0, 0, 0) == 0,
        0 < n_ice <= 100 ==> confidence_for(n_ice, 0, 0) == 100 * n_ice,
        0 < n_vibration <= 100 ==> confidence_for(0, n_vibration, 0) == 100 * n_vibration,
        0 < n_wind <= 100 ==> confidence_for(0, 0, n_wind) == 100 * n_wind,
{
    assert(0 < n_ice <= 100 ==> 40 * n_ice * 100 / 40 == 100 * n_ice) by (nonlinear_arith);
    assert(0 < n_vibration <= 100 ==> 30 * n_vibration * 100 / 30 == 100 * n_vibration) by (nonlinear_arith);
    assert(0 < n_wind <= 100 ==> 30 * n_wind * 100 / 30 == 100 * n_wind) by (nonlinear_arith);
}

/// Against ice, a shutdown is recommended exactly from the high level on and
/// a speed of 5 m/s from the medium level on; above 10 mm of ice, de-icing
/// takes half an hour per millimetre, and the safe thickness is 10 mm.
pub proof fn lemma_mitigation_table(r: IceMitigationStrategy, level: IceRiskLevel, ice: int)
    requires
        mitigation_matches(r, level, ice),
        ice <= i64::MAX / 5,
    ensures
        r.shutdown_recommended <==> (level == IceRiskLevel::High || level == IceRiskLevel::Severe || level == IceRiskLevel::Critical),
        r.recommended_speed_ms is Some <==> (level == IceRiskLevel::Medium || level == IceRiskLevel::Moderate
            || level == IceRiskLevel::High || level == IceRiskLevel::Severe || level == IceRiskLevel::Critical),
        r.recommended_speed_ms is Some ==> r.recommended_speed_ms == Some(500i64),
        ice > 1000 ==> r.estimated_deicing_time_hours == Some((ice * 5) as i64),
        ice <= 1000 ==> r.estimated_deicing_time_hours.is_none(),
        r.safe_ice_threshold_mm == Some(1000i64),
{
}

/// Computes the confidence of an analysis from the numbers of readings.
pub fn calculate_confidence(n_ice: usize, n_vibration: usize, n_wind: usize) -> (r: i64)
    ensures
        r as int == confidence_for(n_ice as int, n_vibration as int, n_wind as int),
        0 <= r <= 10000,
{
    let ci: i64 = if n_ice > 100 { 100 } else { n_ice as i64 };
    let cv: i64 = if n_vibration > 100 { 100 } else { n_vibration as i64 };
    let cw: i64 = if n_wind > 100 { 100 } else { n_wind as i64 };
    let points: i64 = 40 * ci + 30 * cv + 30 * cw;
    let weight: i64 = (if n_ice > 0 { 40 } else { 0 }) + (if n_vibration > 0 { 30 } else { 0 })
        + (if n_wind > 0 { 30 } else { 0 });
    if weight == 0 {
        0
    } else {
        assert(points <= 100 * weight) by (nonlinear_arith)
            requires
                ci <= 100, cv <= 100, cw <= 100, 0 <= ci, 0 <= cv, 0 <= cw,
                points == 40 * ci + 30 * cv + 30 * cw,
                ci > 0 ==> n_ice > 0, cv > 0 ==> n_vibration > 0, cw > 0 ==> n_wind > 0,
                weight == (if n_ice > 0 { 40int } else { 0int }) + (if n_vibration > 0 { 30int } else { 0int })
                    + (if n_wind > 0 { 30int } else { 0int }),
                n_ice == 0 ==> ci == 0, n_vibration == 0 ==> cv == 0, n_wind == 0 ==> cw == 0;
        let scaled: i64 = points * 100;
        assert(scaled / weight <= 10000) by (nonlinear_arith)
            requires points <= 100 * weight, weight > 0, points >= 0, scaled == points * 100;
        assert(scaled / weight >= 0) by (nonlinear_arith)
            requires weight > 0, scaled >= 0;
        scaled / weight
    }
}

} // verus!

verus! {

/// The growth of the ice in hundredths of a millimetre per hour, from the
/// first to the last reading of a series: 0 with fewer than two readings or
/// when the last is not later than the first.
pub open spec fn growth_rate_for(data: Seq<IceDetectionData>) -> int {
    if data.len() < 2 {
        0
    } else {
        let secs = data.last().timestamp - data[0].timestamp;
        if secs <= 0 {
            0
        } else {
            clamp_i64((data.last().ice_thickness_mm - data[0].ice_thickness_mm) * 3600 / secs)
        }
    }
}

/// Computes how fast the ice grows over a series of readings, oldest first.
pub fn calculate_ice_growth_rate(ice_data: &Vec<IceDetectionData>) -> (r: i64)
    ensures
        r as int == growth_rate_for(ice_data@),
{
    if ice_data.len() < 2 {
        return 0;
    }
    let first = &ice_data[0];
    let last = &ice_data[ice_data.len() - 1];
    let secs: i128 = last.timestamp as i128 - first.timestamp as i128;
    if secs <= 0 {
        return 0;
    }
    let diff: i128 = last.ice_thickness_mm as i128 - first.ice_thickness_mm as i128;
    let rate = floor_div(diff * 3600, secs);
    clamp_to_i64(rate)
}

/// The rate at which the ice is expected to keep growing: half as fast again
/// in humid, windy frost (below -5 C, above 80 %, above 10 m/s), a fifth
/// faster below freezing, half as fast otherwise.
pub open spec fn future_growth_rate(rate: int, temperature: int, humidity: int, wind_speed: int) -> int {
    if temperature < -500 && humidity > 8000 && wind_speed > 1000 {
        rate * 3 / 2
    } else if temperature < 0 {
        rate * 6 / 5
    } else {
        rate / 2
    }
}

/// The hours ahead for which the thickness is predicted.
pub open spec fn prediction_hours() -> Seq<int> {
    seq![1int, 3int, 6int, 12int, 24int]
}

/// The thickness predicted `hours` ahead: never below 0.
pub open spec fn predicted_thickness(current: int, future_rate: int, hours: int) -> int {
    let t = current + future_rate * hours;
    if t < 0 { 0 } else { clamp_i64(t) }
}

/// A prediction as plain values: time, thickness, level, confidence.
pub open spec fn prediction_view(p: IcePrediction) -> (int, int, IceRiskLevel, int) {
    (p.prediction_time as int, p.predicted_thickness_mm as int, p.risk_level, p.confidence as int)
}

/// The prediction `hours` ahead: the level is that of the predicted thickness
/// with no vibration, and the confidence falls by 2 % per hour.
pub open spec fn prediction_for(
    now: int, current: int, future_rate: int, temperature: int, humidity: int, wind_speed: int, hours: int,
) -> (int, int, IceRiskLevel, int) {
    let t = predicted_thickness(current, future_rate, hours);
    (now + hours * 3600, t, ice_risk_level_for(ice_risk_score(t, 0, wind_speed, temperature, humidity)),
        10000 - 200 * hours)
}

/// The predictions for 1, 3, 6, 12 and 24 hours ahead.
pub open spec fn predictions_for(
    now: int, current: int, rate: int, temperature: int, humidity: int, wind_speed: int,
) -> Seq<(int, int, IceRiskLevel, int)> {
    let f = future_growth_rate(rate, temperature, humidity, wind_speed);
    prediction_hours().map_values(|h: int| prediction_for(now, current, f, temperature, humidity, wind_speed, h))
}

fn push_prediction(
    v: &mut Vec<IcePrediction>, now: i64, current: i64, future_rate: i128,
    temperature: i64, humidity: i64, wind_speed: i64, hours: i64,
)
    requires
        1 <= hours <= 24,
        now + 24 * 3600 <= i64::MAX,
        -0x1_0000_0000_0000_0000_0000 <= future_rate <= 0x1_0000_0000_0000_0000_0000,
    ensures
        final(v)@.map_values(|p: IcePrediction| prediction_view(p)) == old(v)@.map_values(
            |p: IcePrediction| prediction_view(p),
        ).push(prediction_for(now as int, current as int, future_rate as int, temperature as int, humidity as int, wind_speed as int, hours as int)),
{
    assert(-24 * 0x1_0000_0000_0000_0000_0000 <= future_rate * hours <= 24 * 0x1_0000_0000_0000_0000_0000)
        by (nonlinear_arith)
        requires
            1 <= hours <= 24,
            -0x1_0000_0000_0000_0000_0000 <= future_rate <= 0x1_0000_0000_0000_0000_0000;
    let t: i128 = current as i128 + future_rate * hours as i128;
    let thickness: i64 = if t < 0 { 0 } else { clamp_to_i64(t) };
    let (level, _) = calculate_ice_risk_score(thickness, 0, wind_speed, temperature, humidity);
    let ghost before = v@;
    v.push(IcePrediction {
        prediction_time: now + hours * 3600,
        predicted_thickness_mm: thickness,
        risk_level: level,
        confidence: 10000 - 200 * hours,
    });
    assert(v@.map_values(|p: IcePrediction| prediction_view(p)) =~= before.map_values(
        |p: IcePrediction| prediction_view(p),
    ).push(prediction_for(now as int, current as int, future_rate as int, temperature as int, humidity as int, wind_speed as int, hours as int)));
}

/// Predicts the thickness and its level for 1, 3, 6, 12 and 24 hours after
/// `now`, from the current thickness and growth rate and the weather.
pub fn generate_ice_predictions(
    current_thickness: i64,
    growth_rate: i64,
    temperature: i64,
    humidity: i64,
    wind_speed: i64,
    now: i64,
) -> (r: Vec<IcePrediction>)
    requires
        now + 24 * 3600 <= i64::MAX,
    ensures
        r@.map_values(|p: IcePrediction| prediction_view(p))
            == predictions_for(now as int, current_thickness as int, growth_rate as int, temperature as int, humidity as int, wind_speed as int),
{
    let rate = growth_rate as i128;
    let future: i128 = if temperature < -500 && humidity > 8000 && wind_speed > 1000 {
        floor_div(rate * 3, 2)
    } else if temperature < 0 {
        floor_div(rate * 6, 5)
    } else {
        floor_div(rate, 2)
    };
    assert(future == future_growth_rate(growth_rate as int, temperature as int, humidity as int, wind_speed as int));
    let mut predictions: Vec<IcePrediction> = Vec::new();
    assert(predictions@.map_values(|p: IcePrediction| prediction_view(p)) =~= Seq::empty());
    push_prediction(&mut predictions, now, current_thickness, future, temperature, humidity, wind_speed, 1);
    push_prediction(&mut predictions, now, current_thickness, future, temperature, humidity, wind_speed, 3);
    push_prediction(&mut predictions, now, current_thickness, future, temperature, humidity, wind_speed, 6);
    push_prediction(&mut predictions, now, current_thickness, future, temperature, humidity, wind_speed, 12);
    push_prediction(&mut predictions, now, current_thickness, future, temperature, humidity, wind_speed, 24);
    assert(predictions@.map_values(|p: IcePrediction| prediction_view(p))
        =~= predictions_for(now as int, current_thickness as int, growth_rate as int, temperature as int, humidity as int, wind_speed as int));
    predictions
}

} // verus!

verus! {

/// The temperature of an analysis: that of the first ice reading, 0 without one.
pub open spec fn first_temperature(ice: Seq<IceDetectionData>) -> int {
    if ice.len() == 0 { 0 } else { ice[0].ambient_temp_c as int }
}

/// The humidity of an analysis: that of the first ice reading, 0 without one
/// or when it has none.
pub open spec fn first_humidity(ice: Seq<IceDetectionData>) -> int {
    if ice.len() == 0 {
        0
    } else {
        match ice[0].humidity_percent {
            Some(h) => h as int,
            None => 0,
        }
    }
}

/// What an analysis of ice, vibration and wind readings over the half hour up
/// to `now` holds: averages (rounded up to the hundredth, so that each average
/// is above a bound exactly when the exact mean is) and maxima (from 0) of the
/// series,
/// the temperature and humidity of the first ice reading, the score and level
/// of the averages, the type of ice, the growth over the ice series, the
/// contributing factors, the predictions from the average thickness, the
/// measures for the level and the maximum thickness, the confidence from the
/// numbers of readings, and a density of 900 kg/m3.
pub open spec fn analysis_matches(
    r: IceAnalysisResult,
    tower_id: u128,
    now: int,
    ice: Seq<IceDetectionData>,
    vibration: Seq<VibrationData>,
    wind: Seq<WindSpeedData>,
    load_increase: int,
) -> bool {
    let avg_ice = ceil_average(ice_thickness_series(ice));
    let max_ice = seq_max0(ice_thickness_series(ice));
    let avg_vib = ceil_average(velocity_series(vibration));
    let max_vib = seq_max0(velocity_series(vibration));
    let avg_wind = ceil_average(wind_speed_series(wind));
    let temp = first_temperature(ice);
    let hum = first_humidity(ice);
    let score = ice_risk_score(avg_ice, avg_vib, avg_wind, temp, hum);
    let growth = growth_rate_for(ice);
    &&& r.tower_id == tower_id
    &&& r.analysis_time == now
    &&& r.time_window_start == now - 1800
    &&& r.time_window_end == now
    &&& r.avg_ice_thickness_mm == avg_ice
    &&& r.max_ice_thickness_mm == max_ice
    &&& r.ice_type == Some(ice_type_for(temp, hum, avg_wind))
    &&& r.ice_density_kg_m3 == Some(90000i64)
    &&& r.temperature_c == temp
    &&& r.wind_speed_ms == avg_wind
    &&& r.humidity_percent == hum
    &&& r.vibration_level_mm_s == avg_vib
    &&& r.vibration_max_mm_s == max_vib
    &&& r.load_increase_percent == load_increase
    &&& r.growth_rate_mm_h == growth
    &&& r.risk_score == score
    &&& r.risk_level == ice_risk_level_for(score)
    &&& r.contributing_factors@.map_values(|f: RiskFactor| factor_view(f))
        == contributing_factors_for(avg_ice, avg_vib, avg_wind, temp, hum)
    &&& r.predictions@.map_values(|p: IcePrediction| prediction_view(p))
        == predictions_for(now, avg_ice, growth, temp, hum, avg_wind)
    &&& mitigation_matches(r.mitigation_strategy, ice_risk_level_for(score), max_ice)
    &&& r.confidence == confidence_for(ice.len() as int, vibration.len() as int, wind.len() as int)
    &&& r.raw_data_points == ice.len() as u32
}

/// The ice risk score of the exact means of the series (each 0 when empty)
/// and the temperature and humidity: every bound is compared with the mean
/// by comparing the sum with the bound times the number of readings.
pub open spec fn exact_mean_score(
    ice: Seq<i64>, vibration: Seq<i64>, wind: Seq<i64>, temperature: int, humidity: int,
) -> int {
    (if mean_above(ice, 1500) { 40int } else if mean_above(ice, 1000) { 30int }
        else if mean_above(ice, 500) { 20int } else if mean_above(ice, 200) { 10int } else { 0int })
    + (if mean_above(vibration, 500) { 25int } else if mean_above(vibration, 300) { 15int }
        else if mean_above(vibration, 150) { 8int } else { 0int })
    + (if mean_above(wind, 2000) { 20int } else if mean_above(wind, 1500) { 12int }
        else if mean_above(wind, 1000) { 6int } else { 0int })
    + temperature_points(temperature) + humidity_points(humidity)
}

/// Scoring the averages rounded up is scoring the exact means.
pub proof fn lemma_score_of_exact_means(ice: Seq<i64>, vibration: Seq<i64>, wind: Seq<i64>, temperature: int, humidity: int)
    ensures
        ice_risk_score(ceil_average(ice), ceil_average(vibration), ceil_average(wind), temperature, humidity)
            == exact_mean_score(ice, vibration, wind, temperature, humidity),
{
    lemma_ceil_average_above(ice, 1500);
    lemma_ceil_average_above(ice, 1000);
    lemma_ceil_average_above(ice, 500);
    lemma_ceil_average_above(ice, 200);
    lemma_ceil_average_above(vibration, 500);
    lemma_ceil_average_above(vibration, 300);
    lemma_ceil_average_above(vibration, 150);
    lemma_ceil_average_above(wind, 2000);
    lemma_ceil_average_above(wind, 1500);
    lemma_ceil_average_above(wind, 1000);
}

/// Higher readings never lower the assessed ice risk: of two analyses over
/// readings of the same number, where every ice thickness, vibration velocity
/// and wind speed of the second is at least that of the first, the first ice
/// reading of the second is no warmer and no drier, the second has a score
/// and a level at least as high.
pub proof fn lemma_analysis_monotone_in_readings(
    r1: IceAnalysisResult, r2: IceAnalysisResult, tower1: u128, tower2: u128, now1: int, now2: int,
    ice1: Seq<IceDetectionData>, ice2: Seq<IceDetectionData>,
    vib1: Seq<VibrationData>, vib2: Seq<VibrationData>,
    wind1: Seq<WindSpeedData>, wind2: Seq<WindSpeedData>,
    load1: int, load2: int,
)
    requires
        analysis_matches(r1, tower1, now1, ice1, vib1, wind1, load1),
        analysis_matches(r2, tower2, now2, ice2, vib2, wind2, load2),
        ice1.len() == ice2.len(),
        vib1.len() == vib2.len(),
        wind1.len() == wind2.len(),
        forall|i: int| 0 <= i < ice1.len() ==> ice1[i].ice_thickness_mm <= ice2[i].ice_thickness_mm,
        forall|i: int| 0 <= i < vib1.len() ==> vib1[i].velocity_mm_s <= vib2[i].velocity_mm_s,
        forall|i: int| 0 <= i < wind1.len() ==> wind1[i].wind_speed_ms <= wind2[i].wind_speed_ms,
        first_temperature(ice2) <= first_temperature(ice1),
        first_humidity(ice1) <= first_humidity(ice2),
    ensures
        r1.risk_score <= r2.risk_score,
        r1.risk_level.spec_rank() <= r2.risk_level.spec_rank(),
{
    let (i1, i2) = (ice_thickness_series(ice1), ice_thickness_series(ice2));
    let (v1, v2) = (velocity_series(vib1), velocity_series(vib2));
    let (w1, w2) = (wind_speed_series(wind1), wind_speed_series(wind2));
    assert forall|i: int| 0 <= i < i1.len() implies i1[i] <= i2[i] by {
        assert(i1[i] == ice1[i].ice_thickness_mm && i2[i] == ice2[i].ice_thickness_mm);
    }
    assert forall|i: int| 0 <= i < v1.len() implies v1[i] <= v2[i] by {
        assert(v1[i] == vib1[i].velocity_mm_s && v2[i] == vib2[i].velocity_mm_s);
    }
    assert forall|i: int| 0 <= i < w1.len() implies w1[i] <= w2[i] by {
        assert(w1[i] == wind1[i].wind_speed_ms && w2[i] == wind2[i].wind_speed_ms);
    }
    lemma_ceil_average_monotone(i1, i2);
    lemma_ceil_average_monotone(v1, v2);
    lemma_ceil_average_monotone(w1, w2);
    lemma_ice_risk_monotone(
        ceil_average(i1), ceil_average(v1), ceil_average(w1), first_temperature(ice1), first_humidity(ice1),
        ceil_average(i2), ceil_average(v2), ceil_average(w2), first_temperature(ice2), first_humidity(ice2),
    );
}

/// Analyses the ice risk of a tower from its ice, vibration and wind readings
/// of the last half hour, oldest first, at time `now`. The load increase that
/// the maximum thickness puts on the cable is computed by the caller.
pub fn analyze_ice_risk(
    tower_id: u128,
    now: i64,
    ice_data: &Vec<IceDetectionData>,
    vibration_data: &Vec<VibrationData>,
    wind_data: &Vec<WindSpeedData>,
    load_increase: i64,
) -> (r: IceAnalysisResult)
    requires
        i64::MIN + 1800 <= now,
        now + 24 * 3600 <= i64::MAX,
    ensures
        analysis_matches(r, tower_id, now as int, ice_data@, vibration_data@, wind_data@, load_increase as int),
        r.risk_score == exact_mean_score(ice_thickness_series(ice_data@), velocity_series(vibration_data@),
            wind_speed_series(wind_data@), first_temperature(ice_data@), first_humidity(ice_data@)),
{
    let thicknesses = ice_thicknesses(ice_data);
    let speeds = velocities(vibration_data);
    let winds = wind_speeds(wind_data);
    let avg_ice = ceil_average_of(&thicknesses);
    let max_ice = max_of(&thicknesses);
    let avg_vibration = ceil_average_of(&speeds);
    let max_vibration = max_of(&speeds);
    let avg_wind = ceil_average_of(&winds);

    let temperature: i64 = if ice_data.len() > 0 { ice_data[0].ambient_temp_c } else { 0 };
    let humidity: i64 = if ice_data.len() > 0 {
        match ice_data[0].humidity_percent {
            Some(h) => h,
            None => 0,
        }
    } else {
        0
    };

    let (risk_level, risk_score) = calculate_ice_risk_score(avg_ice, avg_vibration, avg_wind, temperature, humidity);
    let ice_type = classify_ice_type(temperature, humidity, avg_wind);
    let growth_rate = calculate_ice_growth_rate(ice_data);
    let predictions = generate_ice_predictions(avg_ice, growth_rate, temperature, humidity, avg_wind, now);
    let mitigation = generate_mitigation_strategy(risk_level, max_ice, avg_wind);
    let contributing_factors = generate_contributing_factors(avg_ice, avg_vibration, avg_wind, temperature, humidity);
    let confidence = calculate_confidence(ice_data.len(), vibration_data.len(), wind_data.len());
    proof {
        lemma_score_of_exact_means(thicknesses@, speeds@, winds@, temperature as int, humidity as int);
    }

    IceAnalysisResult {
        id: new_uuid(),
        tower_id,
        analysis_time: now,
        time_window_start: now - 1800,
        time_window_end: now,
        avg_ice_thickness_mm: avg_ice,
        max_ice_thickness_mm: max_ice,
        ice_type: Some(ice_type),
        ice_density_kg_m3: Some(90000),
        temperature_c: temperature,
        wind_speed_ms: avg_wind,
        humidity_percent: humidity,
        vibration_level_mm_s: avg_vibration,
        vibration_max_mm_s: max_vibration,
        load_increase_percent: load_increase,
        growth_rate_mm_h: growth_rate,
        risk_level,
        risk_score,
        contributing_factors,
        predictions,
        mitigation_strategy: mitigation,
        confidence,
        raw_data_points: ice_data.len() as u32,
    }
}

/// The name of an ice risk level, as `{:?}` prints it.
pub open spec fn ice_risk_level_name(level: IceRiskLevel) -> Seq<char> {
    match level {
        IceRiskLevel::NoRisk => "NoRisk"@,
        IceRiskLevel::Minimal => "Minimal"@,
        IceRiskLevel::Low => "Low"@,
        IceRiskLevel::Medium => "Medium"@,
        IceRiskLevel::Moderate => "Moderate"@,
        IceRiskLevel::High => "High"@,
        IceRiskLevel::Severe => "Severe"@,
        IceRiskLevel::Critical => "Critical"@,
    }
}

fn append_ice_risk_level_name(s: &mut String, level: IceRiskLevel)
    ensures
        final(s)@ == old(s)@ + ice_risk_level_name(level),
{
    match level {
        IceRiskLevel::NoRisk => s.append("NoRisk"),
        IceRiskLevel::Minimal => s.append("Minimal"),
        IceRiskLevel::Low => s.append("Low"),
        IceRiskLevel::Medium => s.append("Medium"),
        IceRiskLevel::Moderate => s.append("Moderate"),
        IceRiskLevel::High => s.append("High"),
        IceRiskLevel::Severe => s.append("Severe"),
        IceRiskLevel::Critical => s.append("Critical"),
    }
}

/// The title of an ice alert: the maximum thickness to one decimal place.
pub open spec fn ice_alert_title(max_ice: int) -> Seq<char> {
    "覆冰风险告警 - "@ + fixed_text(max_ice, 1) + "mm"@
}

/// The text of an ice alert: thickness, level and score (to two places).
pub open spec fn ice_alert_text(max_ice: int, level: IceRiskLevel, score: int) -> Seq<char> {
    "检测到塔架覆冰厚度"@ + fixed_text(max_ice, 1) + "mm，风险等级"@ + ice_risk_level_name(level)
        + "，风险评分"@ + fixed_text(score * 100, 2)
}

/// The alert that an analysis raises: one exactly when the level is high or
/// critical, with the severity of the level, about the maximum thickness.
pub fn ice_risk_alert(result: &IceAnalysisResult) -> (r: Option<AlertMessage>)
    ensures
        r.is_some() <==> (result.risk_level == IceRiskLevel::High || result.risk_level == IceRiskLevel::Critical),
        r matches Some(a) ==> {
            &&& a.tower_id == result.tower_id
            &&& a.alert_type == AlertType::IceThicknessHigh
            &&& a.severity == if result.risk_level == IceRiskLevel::Critical {
                AlertSeverity::Critical
            } else {
                AlertSeverity::High
            }
            &&& a.risk_level == if result.risk_level == IceRiskLevel::Critical {
                RiskLevel::Critical
            } else {
                RiskLevel::High
            }
            &&& a.tower_name@ == Seq::<char>::empty()
            &&& a.title@ == ice_alert_title(result.max_ice_thickness_mm as int)
            &&& a.description@ == ice_alert_text(result.max_ice_thickness_mm as int, result.risk_level, result.risk_score as int)
            &&& a.actual_value == Some(result.max_ice_thickness_mm)
            &&& a.threshold_value == None::<i64>
            &&& a.unit matches Some(u) && u@ == "mm"@
            &&& a.timestamp == result.analysis_time
        },
{
    let critical = match result.risk_level {
        IceRiskLevel::Critical => true,
        _ => false,
    };
    let high = match result.risk_level {
        IceRiskLevel::High => true,
        _ => false,
    };
    if !critical && !high {
        return None;
    }
    let mut title = String::from_str("覆冰风险告警 - ");
    append_fixed(&mut title, result.max_ice_thickness_mm, 1);
    title.append("mm");
    let mut text = String::from_str("检测到塔架覆冰厚度");
    append_fixed(&mut text, result.max_ice_thickness_mm, 1);
    text.append("mm，风险等级");
    append_ice_risk_level_name(&mut text, result.risk_level);
    text.append("，风险评分");
    append_fixed(&mut text, result.risk_score as i64 * 100, 2);
    Some(AlertMessage {
        alert_id: new_uuid(),
        tower_id: result.tower_id,
        tower_name: String::new(),
        alert_type: AlertType::IceThicknessHigh,
        severity: if critical { AlertSeverity::Critical } else { AlertSeverity::High },
        title,
        description: text,
        actual_value: Some(result.max_ice_thickness_mm),
        threshold_value: None,
        unit: Some(String::from_str("mm")),
        timestamp: result.analysis_time,
        risk_level: if critical { RiskLevel::Critical } else { RiskLevel::High },
    })
}

} // verus!
