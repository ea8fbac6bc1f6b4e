use btc_toolkit::health::{
    count_dead_boards, count_dead_fans, HealthIssue, HealthReport, HealthStatus, IssueCategory,
    MinerVitals,
};

fn healthy() -> MinerVitals {
    MinerVitals {
        is_mining: true,
        total_chips: Some(100),
        expected_chips: Some(100),
        hashrate_percent: Some(100),
        temperature_tenths: Some(650),
        fan_rpm: vec![Some(4000), Some(4100)],
        board_chips: vec![Some(50), Some(50)],
        efficiency_tenths: Some(250),
        messages: Vec::new(),
    }
}

#[test]
fn status_labels_icons_and_priorities() {
    assert_eq!(HealthStatus::Healthy.label(), "Healthy");
    assert_eq!(HealthStatus::Warning.label(), "Warning");
    assert_eq!(HealthStatus::Critical.label(), "Critical");
    assert_eq!(HealthStatus::Unknown.label(), "Unknown");
    assert_eq!(HealthStatus::Healthy.icon(), "OK");
    assert_eq!(HealthStatus::Warning.icon(), "!");
    assert_eq!(HealthStatus::Critical.icon(), "X");
    assert_eq!(HealthStatus::Unknown.icon(), "?");
    assert_eq!(HealthStatus::Critical.sort_priority(), 0);
    assert_eq!(HealthStatus::Warning.sort_priority(), 1);
    assert_eq!(HealthStatus::Healthy.sort_priority(), 2);
    assert_eq!(HealthStatus::Unknown.sort_priority(), 3);
}

#[test]
fn miner_with_good_readings_is_healthy() {
    let vitals = healthy();
    assert_eq!(HealthStatus::from_miner_data(&vitals), HealthStatus::Healthy);
    let report = HealthReport::from_miner_data(&vitals);
    assert_eq!(report.status, HealthStatus::Healthy);
    assert!(report.issues.is_empty());
    assert!(report.critical_issues().is_empty());
    assert!(report.warning_issues().is_empty());
}

#[test]
fn miner_that_does_not_mine_is_critical() {
    let mut vitals = healthy();
    vitals.is_mining = false;
    assert_eq!(HealthStatus::from_miner_data(&vitals), HealthStatus::Critical);
    let report = HealthReport::from_miner_data(&vitals);
    assert_eq!(
        report.issues,
        vec![HealthIssue {
            severity: HealthStatus::Critical,
            category: IssueCategory::Other,
            description: "Miner is not actively mining".to_string(),
        }]
    );
}

#[test]
fn chip_thresholds() {
    let mut vitals = healthy();
    vitals.total_chips = Some(95);
    assert_eq!(HealthStatus::from_miner_data(&vitals), HealthStatus::Healthy);
    let report = HealthReport::from_miner_data(&vitals);
    assert_eq!(report.issues.len(), 1);
    assert_eq!(report.issues[0].severity, HealthStatus::Warning);
    assert_eq!(report.issues[0].category, IssueCategory::Chips);
    assert_eq!(report.issues[0].description, "Missing 5 chips (95/100)");

    vitals.total_chips = Some(94);
    assert_eq!(HealthStatus::from_miner_data(&vitals), HealthStatus::Warning);
    vitals.total_chips = Some(90);
    assert_eq!(HealthStatus::from_miner_data(&vitals), HealthStatus::Warning);
    vitals.total_chips = Some(89);
    assert_eq!(HealthStatus::from_miner_data(&vitals), HealthStatus::Critical);
    let report = HealthReport::from_miner_data(&vitals);
    assert_eq!(report.issues[0].severity, HealthStatus::Critical);
    assert_eq!(report.issues[0].description, "Missing 11 chips (89/100)");

    vitals.total_chips = Some(120);
    assert_eq!(HealthStatus::from_miner_data(&vitals), HealthStatus::Healthy);
    assert!(HealthReport::from_miner_data(&vitals).issues.is_empty());
    vitals.total_chips = None;
    assert_eq!(HealthStatus::from_miner_data(&vitals), HealthStatus::Healthy);
    vitals.total_chips = Some(0);
    vitals.expected_chips = Some(0);
    assert_eq!(HealthStatus::from_miner_data(&vitals), HealthStatus::Healthy);
}

#[test]
fn hashrate_thresholds() {
    let mut vitals = healthy();
    vitals.hashrate_percent = Some(80);
    assert_eq!(HealthStatus::from_miner_data(&vitals), HealthStatus::Healthy);
    vitals.hashrate_percent = Some(79);
    assert_eq!(HealthStatus::from_miner_data(&vitals), HealthStatus::Warning);
    let report = HealthReport::from_miner_data(&vitals);
    assert_eq!(report.issues[0].category, IssueCategory::Hashrate);
    assert_eq!(report.issues[0].severity, HealthStatus::Warning);
    assert_eq!(report.issues[0].description, "Low hashrate (79% of expected)");
    vitals.hashrate_percent = Some(50);
    assert_eq!(HealthStatus::from_miner_data(&vitals), HealthStatus::Warning);
    vitals.hashrate_percent = Some(49);
    assert_eq!(HealthStatus::from_miner_data(&vitals), HealthStatus::Critical);
    let report = HealthReport::from_miner_data(&vitals);
    assert_eq!(report.issues[0].severity, HealthStatus::Critical);
    assert_eq!(report.issues[0].description, "Low hashrate (49% of expected)");
}

#[test]
fn temperature_thresholds() {
    let mut vitals = healthy();
    vitals.temperature_tenths = Some(750);
    assert_eq!(HealthStatus::from_miner_data(&vitals), HealthStatus::Healthy);
    vitals.temperature_tenths = Some(751);
    assert_eq!(HealthStatus::from_miner_data(&vitals), HealthStatus::Warning);
    let report = HealthReport::from_miner_data(&vitals);
    assert_eq!(report.issues[0].category, IssueCategory::Temperature);
    assert_eq!(report.issues[0].description, "High temperature (75.1°C)");
    vitals.temperature_tenths = Some(850);
    assert_eq!(HealthStatus::from_miner_data(&vitals), HealthStatus::Warning);
    vitals.temperature_tenths = Some(903);
    assert_eq!(HealthStatus::from_miner_data(&vitals), HealthStatus::Critical);
    let report = HealthReport::from_miner_data(&vitals);
    assert_eq!(report.issues[0].severity, HealthStatus::Critical);
    assert_eq!(report.issues[0].description, "High temperature (90.3°C)");
    vitals.temperature_tenths = Some(-55);
    assert_eq!(HealthStatus::from_miner_data(&vitals), HealthStatus::Healthy);
}

#[test]
fn fans_and_boards() {
    let mut vitals = healthy();
    vitals.fan_rpm = vec![Some(0), None, Some(3000), Some(0)];
    assert_eq!(count_dead_fans(&vitals.fan_rpm), 2);
    assert_eq!(HealthStatus::from_miner_data(&vitals), HealthStatus::Critical);
    let report = HealthReport::from_miner_data(&vitals);
    assert_eq!(report.issues[0].category, IssueCategory::Fans);
    assert_eq!(report.issues[0].description, "2 fan(s) not spinning");

    let mut vitals = healthy();
    vitals.board_chips = vec![Some(0), None, Some(12)];
    assert_eq!(count_dead_boards(&vitals.board_chips), 2);
    assert_eq!(HealthStatus::from_miner_data(&vitals), HealthStatus::Critical);
    let report = HealthReport::from_miner_data(&vitals);
    assert_eq!(report.issues[0].category, IssueCategory::Boards);
    assert_eq!(report.issues[0].description, "2 board(s) with no working chips");
    assert_eq!(count_dead_fans(&Vec::new()), 0);
    assert_eq!(count_dead_boards(&Vec::new()), 0);
}

#[test]
fn efficiency_and_messages() {
    let mut vitals = healthy();
    vitals.efficiency_tenths = Some(500);
    assert!(HealthReport::from_miner_data(&vitals).issues.is_empty());
    vitals.efficiency_tenths = Some(507);
    let report = HealthReport::from_miner_data(&vitals);
    assert_eq!(report.status, HealthStatus::Healthy);
    assert_eq!(report.issues.len(), 1);
    assert_eq!(report.issues[0].severity, HealthStatus::Warning);
    assert_eq!(report.issues[0].category, IssueCategory::Power);
    assert_eq!(report.issues[0].description, "Poor efficiency (50.7 W/TH)");

    let mut vitals = healthy();
    vitals.messages = vec!["fan slow".to_string(), String::new(), "psu".to_string()];
    let report = HealthReport::from_miner_data(&vitals);
    assert_eq!(report.status, HealthStatus::Warning);
    assert_eq!(report.issues.len(), 2);
    assert_eq!(report.issues[0].description, "fan slow");
    assert_eq!(report.issues[1].description, "psu");
    assert_eq!(report.issues[1].category, IssueCategory::Other);
}

#[test]
fn report_lists_findings_in_order_and_by_severity() {
    let vitals = MinerVitals {
        is_mining: false,
        total_chips: Some(50),
        expected_chips: Some(100),
        hashrate_percent: Some(60),
        temperature_tenths: Some(800),
        fan_rpm: vec![Some(0)],
        board_chips: vec![None],
        efficiency_tenths: Some(600),
        messages: vec!["hot".to_string()],
    };
    let report = HealthReport::from_miner_data(&vitals);
    assert_eq!(report.status, HealthStatus::Critical);
    let categories: Vec<IssueCategory> = report.issues.iter().map(|i| i.category).collect();
    assert_eq!(
        categories,
        vec![
            IssueCategory::Other,
            IssueCategory::Chips,
            IssueCategory::Hashrate,
            IssueCategory::Temperature,
            IssueCategory::Fans,
            IssueCategory::Boards,
            IssueCategory::Power,
            IssueCategory::Other,
        ]
    );
    let critical: Vec<IssueCategory> =
        report.critical_issues().iter().map(|i| i.category).collect();
    assert_eq!(
        critical,
        vec![IssueCategory::Other, IssueCategory::Chips, IssueCategory::Fans, IssueCategory::Boards]
    );
    let warnings: Vec<IssueCategory> =
        report.warning_issues().iter().map(|i| i.category).collect();
    assert_eq!(
        warnings,
        vec![
            IssueCategory::Hashrate,
            IssueCategory::Temperature,
            IssueCategory::Power,
            IssueCategory::Other,
        ]
    );
}
