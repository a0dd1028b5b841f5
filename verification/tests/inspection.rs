use cableway_monitor::error::AppError;
use cableway_monitor::models::inspection::{
    FindingSeverity, InspectionStatus, InspectionType, ItemCondition, MaintenancePriority, MaintenanceStatus,
    OverallCondition, Priority,
};
use cableway_monitor::services::inspection::{
    build_inspection_report, filter_inspections, filter_tasks, generate_check_items, generate_findings,
    generate_inspection_report, generate_recommendations, generate_sample_inspections,
    generate_sample_maintenance_tasks, get_inspection_by_id, get_inspection_records, get_maintenance_tasks,
};

const WEEK: i64 = 7 * 86400;
const NOW: i64 = 1_700_000_000;

#[test]
fn recommendations_with_and_without_urgent_work() {
    let r = generate_recommendations(2, 1);
    assert_eq!(r, vec![
        "立即处理2项严重缺陷".to_string(),
        "优先处理1项高优先级维护任务".to_string(),
        "加强冬季覆冰季节的巡检频率".to_string(),
        "定期校准传感器，确保数据准确性".to_string(),
        "制定应急预案，演练应急响应流程".to_string(),
    ]);
    assert_eq!(generate_recommendations(0, 0).len(), 3);
    assert_eq!(generate_recommendations(0, 12)[0], "优先处理12项高优先级维护任务");
}

#[test]
fn check_items_all_pass() {
    let items = generate_check_items();
    assert_eq!(items.len(), 4);
    assert_eq!(items[0].item_name, "基础检查");
    assert_eq!(items[0].description, "FOUNDATION-001");
    assert_eq!(items[0].category, "foundation");
    assert_eq!(items[2].notes.as_deref(), Some("钢索张力正常，无断丝"));
    assert!(items.iter().all(|i| i.is_checked && i.condition == ItemCondition::Good));
}

#[test]
fn findings_of_sample_seeds() {
    let f0 = generate_findings(0, NOW);
    assert_eq!(f0.len(), 2);
    assert_eq!(f0[0].category, "corrosion");
    assert_eq!(f0[0].severity, FindingSeverity::Minor);
    assert_eq!(f0[1].category, "loose_connection");
    assert_eq!(generate_findings(1, NOW).len(), 0);
    let f3 = generate_findings(3, NOW);
    assert_eq!(f3.len(), 1);
    assert_eq!(f3[0].resolution_date, Some(NOW));
    assert_eq!(generate_findings(4, NOW).len(), 1);
    assert_eq!(generate_findings(4, NOW)[0].category, "loose_connection");
}

#[test]
fn sample_inspections_are_weekly() {
    let r = generate_sample_inspections(NOW);
    assert_eq!(r.len(), 5);
    assert_eq!(r[0].scheduled_date, NOW);
    assert_eq!(r[2].scheduled_date, NOW - 2 * WEEK);
    assert_eq!(r[1].inspection_type, InspectionType::AfterStorm);
    assert_eq!(r[2].inspection_type, InspectionType::Routine);
    assert_eq!(r[3].notes.as_deref(), Some("第4次常规巡检记录"));
    assert_eq!(r[4].weather_conditions.temperature_c, 900);
    assert_eq!(r[0].status, InspectionStatus::Completed);
    assert_eq!(r[0].overall_condition, OverallCondition::Good);
    assert_eq!(r[0].follow_up_date, Some(NOW + 30 * 86400));
}

#[test]
fn inspection_filters_and_pages() {
    let all = generate_sample_inspections(NOW);
    let routine = filter_inspections(all, None, Some(InspectionType::Routine), None, None);
    assert_eq!(routine.len(), 3);
    let all = generate_sample_inspections(NOW);
    let recent = filter_inspections(all, None, None, Some(NOW - WEEK), None);
    assert_eq!(recent.len(), 2);
    let all = generate_sample_inspections(NOW);
    let old = filter_inspections(all, None, None, None, Some(NOW - 3 * WEEK));
    assert_eq!(old.len(), 2);
    let page = get_inspection_records(NOW, None, None, None, None, 1, 2);
    assert_eq!(page.len(), 2);
    assert_eq!(page[0].scheduled_date, NOW - 2 * WEEK);
    let last = get_inspection_records(NOW, None, None, None, None, 2, 2);
    assert_eq!(last.len(), 1);
    assert_eq!(get_inspection_records(NOW, None, None, None, None, 3, 2).len(), 0);
    // Each sample is on a tower of its own, so a tower filter keeps one.
    let all = generate_sample_inspections(NOW);
    let tower = all[3].tower_id;
    let mine = filter_inspections(all, Some(tower), None, None, None);
    assert_eq!(mine.len(), 1);
}

#[test]
fn inspection_lookup_by_id() {
    let all = generate_sample_inspections(NOW);
    let id = all[2].id;
    let found = get_inspection_by_id(all, id).expect("present");
    assert_eq!(found.id, id);
    let all = generate_sample_inspections(NOW);
    match get_inspection_by_id(all, 0) {
        Err(AppError::NotFound(m)) => assert_eq!(m, "Inspection record 00000000-0000-0000-0000-000000000000 not found"),
        _ => panic!("a missing record is not found"),
    }
}

#[test]
fn sample_tasks_and_filters() {
    let t = generate_sample_maintenance_tasks(NOW);
    assert_eq!(t.len(), 3);
    assert_eq!(t[0].priority, Priority::Urgent);
    assert_eq!(t[1].status, MaintenanceStatus::InProgress);
    assert_eq!(t[2].actual_cost, Some(70000));
    assert_eq!(t[2].due_date, Some(NOW + 3 * WEEK));
    assert_eq!(t[0].notes.as_deref(), Some("维护任务 #1"));
    let done = filter_tasks(t, None, Some(MaintenanceStatus::Completed), None);
    assert_eq!(done.len(), 1);
    let high = get_maintenance_tasks(NOW, None, None, Some(Priority::High));
    assert_eq!(high.len(), 1);
    assert_eq!(get_maintenance_tasks(NOW, Some(5), None, None).len(), 0);
}

#[test]
fn report_over_samples() {
    let inspections = generate_sample_inspections(NOW);
    let tasks = generate_sample_maintenance_tasks(NOW);
    let r = build_inspection_report(9, NOW - 10 * WEEK, NOW, NOW, &inspections, &tasks);
    // Seeds 0, 3 and 4 give 2, 1 and 1 findings; none is critical.
    assert_eq!(r.total_inspections, 5);
    assert_eq!(r.total_findings, 4);
    assert_eq!(r.critical_findings, 0);
    assert_eq!(r.resolved_findings, 4);
    assert_eq!(r.maintenance_tasks_created, 3);
    assert_eq!(r.maintenance_tasks_completed, 1);
    assert_eq!(r.maintenance_tasks_pending, 2);
    assert_eq!(r.high_priority_tasks, 2);
    assert_eq!(r.average_inspection_score, 8000);
    assert_eq!(r.recommendations[0], "优先处理2项高优先级维护任务");
    assert_eq!(r.next_inspection_date, NOW + 30 * 86400);
    assert_eq!(r.prepared_by.as_deref(), Some("系统自动生成"));
}

#[test]
fn report_for_a_tower_without_records() {
    let r = generate_inspection_report(9, NOW - WEEK, NOW, NOW);
    assert_eq!(r.total_inspections, 0);
    assert_eq!(r.average_inspection_score, 0);
    assert_eq!(r.maintenance_tasks_created, 0);
    assert_eq!(r.recommendations.len(), 3);
}

#[test]
fn maintenance_priority_parsing() {
    assert_eq!("HIGH".parse::<MaintenancePriority>(), Ok(MaintenancePriority::High));
    assert_eq!(MaintenancePriority::from_text("Critical"), Ok(MaintenancePriority::Critical));
    assert_eq!(MaintenancePriority::from_text("lOw"), Ok(MaintenancePriority::Low));
    assert_eq!(MaintenancePriority::from_text("urgent"), Err("Invalid maintenance priority: urgent".to_string()));
}
