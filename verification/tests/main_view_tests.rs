use btc_toolkit::config::{clone_miners, AppConfig, ScanGroup};
use btc_toolkit::main_view::{
    estimate_enabled_hosts, find_text, format_miner_url, GroupScanStatus, MainView,
    MainViewAction, MainViewMessage,
};
use btc_toolkit::named::{find_named, Named};
use btc_toolkit::network::scanner::{HostAddress, MinerRecord};
use btc_toolkit::sorting::{SortColumn, SortDirection};

fn miner(ip: u32) -> MinerRecord {
    MinerRecord {
        ip: HostAddress::V4(ip),
        make: "AntMiner".to_string(),
        model: "S19".to_string(),
        firmware: "Stock".to_string(),
        firmware_version: None,
    }
}

fn status_of<'a>(view: &'a MainView, name: &str) -> Option<&'a GroupScanStatus> {
    find_named(&view.group_status, name).map(|i| &view.group_status[i].value)
}

fn miners_of<'a>(view: &'a MainView, name: &str) -> Option<&'a Vec<MinerRecord>> {
    find_named(&view.discovered_miners_by_group, name)
        .map(|i| &view.discovered_miners_by_group[i].value)
}

fn view() -> MainView {
    let mut config = AppConfig::default();
    config.add_scan_group(ScanGroup::new("Farm A".to_string(), "10.0.1.1-10".to_string()));
    let mut off = ScanGroup::new("Off".to_string(), "10.0.2.0/24".to_string());
    off.enabled = false;
    config.add_scan_group(off);
    MainView::new(config)
}

#[test]
fn new_view_is_idle_and_sorted_by_address() {
    let view = view();
    assert!(!view.is_scanning);
    assert!(view.discovered_miners_by_group.is_empty());
    assert!(view.group_status.is_empty());
    assert_eq!(view.total_groups, 0);
    assert_eq!(view.completed_groups, 0);
    assert_eq!(view.start_time, None);
    assert_eq!(view.total_ips_to_scan, 0);
    assert!(view.error_messages.is_empty());
    assert_eq!(view.sort_column, Some(SortColumn::IpAddress));
    assert_eq!(view.sort_direction, SortDirection::Ascending);
    assert!(view.collapsed_groups.is_empty());
    assert_eq!(view.get_app_config().scan_groups.len(), 3);
}

#[test]
fn start_scan_resets_the_state() {
    let mut view = view();
    view.error_messages.push("old".to_string());
    view.app_config.store_scan_results("Default", vec![miner(1)]);
    let action = view.update(MainViewMessage::StartScan, 1234);
    assert_eq!(action, MainViewAction::Nothing);
    assert!(view.is_scanning);
    assert_eq!(view.start_time, Some(1234));
    assert_eq!(view.total_groups, 2);
    assert_eq!(view.completed_groups, 0);
    assert_eq!(view.total_ips_to_scan, 266);
    assert!(view.error_messages.is_empty());
    assert!(view.app_config.get_all_scan_results().is_empty());

    view.update(MainViewMessage::MinerFound { group_name: "Default".to_string(), miner: miner(1) }, 0);
    let again = view.update(MainViewMessage::StartScan, 9999);
    assert_eq!(again, MainViewAction::Nothing);
    assert_eq!(view.start_time, Some(1234));
    assert_eq!(miners_of(&view, "Default").unwrap().len(), 1);
}

#[test]
fn enabled_hosts_are_added_up() {
    let view = view();
    assert_eq!(estimate_enabled_hosts(&view.app_config.scan_groups), 266);
    assert_eq!(estimate_enabled_hosts(&Vec::new()), 0);
    assert_eq!(view.enabled_group_names(), vec!["Default".to_string(), "Farm A".to_string()]);
}

#[test]
fn stop_and_all_completed_end_the_scan() {
    let mut view = view();
    view.update(MainViewMessage::StartScan, 0);
    assert_eq!(view.update(MainViewMessage::StopScan, 1), MainViewAction::Nothing);
    assert!(!view.is_scanning);
    view.update(MainViewMessage::StartScan, 2);
    assert!(view.is_scanning);
    assert_eq!(view.update(MainViewMessage::AllScansCompleted, 3), MainViewAction::Nothing);
    assert!(!view.is_scanning);
}

#[test]
fn found_miner_joins_its_group() {
    let mut view = view();
    view.update(MainViewMessage::MinerFound { group_name: "A".to_string(), miner: miner(1) }, 0);
    assert_eq!(miners_of(&view, "A").unwrap(), &vec![miner(1)]);
    assert_eq!(
        status_of(&view, "A").unwrap(),
        &GroupScanStatus {
            completed: false,
            error: None,
            miner_count: 1,
            total_ips: 0,
            scanned_ips: 0,
        }
    );
    view.update(MainViewMessage::MinerFound { group_name: "A".to_string(), miner: miner(2) }, 0);
    view.update(MainViewMessage::MinerFound { group_name: "B".to_string(), miner: miner(3) }, 0);
    assert_eq!(miners_of(&view, "A").unwrap(), &vec![miner(1), miner(2)]);
    assert_eq!(miners_of(&view, "B").unwrap(), &vec![miner(3)]);
    assert_eq!(status_of(&view, "A").unwrap().miner_count, 2);
    assert_eq!(status_of(&view, "B").unwrap().miner_count, 1);
    assert!(status_of(&view, "C").is_none());
}

#[test]
fn progress_updates_the_status() {
    let mut view = view();
    let action = view.update(
        MainViewMessage::IpScanned { group_name: "A".to_string(), total_ips: 10, scanned_count: 3 },
        0,
    );
    assert_eq!(action, MainViewAction::Nothing);
    assert_eq!(
        status_of(&view, "A").unwrap(),
        &GroupScanStatus {
            completed: false,
            error: None,
            miner_count: 0,
            total_ips: 10,
            scanned_ips: 3,
        }
    );
    assert!(miners_of(&view, "A").is_none());
    view.update(MainViewMessage::MinerFound { group_name: "A".to_string(), miner: miner(1) }, 0);
    view.update(
        MainViewMessage::IpScanned { group_name: "A".to_string(), total_ips: 10, scanned_count: 7 },
        0,
    );
    assert_eq!(
        status_of(&view, "A").unwrap(),
        &GroupScanStatus {
            completed: false,
            error: None,
            miner_count: 1,
            total_ips: 10,
            scanned_ips: 7,
        }
    );
}

#[test]
fn completed_group_is_closed_and_stored() {
    let mut view = view();
    view.update(MainViewMessage::StartScan, 0);
    view.update(
        MainViewMessage::IpScanned { group_name: "Default".to_string(), total_ips: 256, scanned_count: 200 },
        0,
    );
    view.update(
        MainViewMessage::MinerFound { group_name: "Default".to_string(), miner: miner(7) },
        0,
    );
    let action = view.update(MainViewMessage::GroupCompleted("Default".to_string()), 0);
    assert_eq!(action, MainViewAction::SaveConfig);
    assert_eq!(
        status_of(&view, "Default").unwrap(),
        &GroupScanStatus {
            completed: true,
            error: None,
            miner_count: 1,
            total_ips: 256,
            scanned_ips: 200,
        }
    );
    assert_eq!(view.completed_groups, 1);
    assert_eq!(
        view.app_config.get_all_scan_results(),
        &vec![Named { name: "Default".to_string(), value: vec![miner(7)] }]
    );

    let action = view.update(MainViewMessage::GroupCompleted("Farm A".to_string()), 0);
    assert_eq!(action, MainViewAction::SaveConfig);
    assert_eq!(
        status_of(&view, "Farm A").unwrap(),
        &GroupScanStatus {
            completed: true,
            error: None,
            miner_count: 0,
            total_ips: 0,
            scanned_ips: 0,
        }
    );
    assert_eq!(view.completed_groups, 2);
    assert_eq!(view.app_config.get_all_scan_results().len(), 2);
    assert!(view.app_config.get_all_scan_results()[1].value.is_empty());
}

#[test]
fn failed_group_is_closed_with_its_error() {
    let mut view = view();
    view.update(MainViewMessage::MinerFound { group_name: "A".to_string(), miner: miner(1) }, 0);
    let action = view.update(
        MainViewMessage::GroupError { group_name: "A".to_string(), error: "no route".to_string() },
        0,
    );
    assert_eq!(action, MainViewAction::Nothing);
    assert_eq!(
        status_of(&view, "A").unwrap(),
        &GroupScanStatus {
            completed: true,
            error: Some("no route".to_string()),
            miner_count: 1,
            total_ips: 0,
            scanned_ips: 0,
        }
    );
    assert_eq!(view.error_messages, vec!["A: no route".to_string()]);
    assert_eq!(view.completed_groups, 1);
    assert!(view.app_config.get_all_scan_results().is_empty());
}

#[test]
fn sort_column_toggles_or_changes() {
    let mut view = view();
    view.update(MainViewMessage::SortColumn(SortColumn::IpAddress), 0);
    assert_eq!(view.sort_column, Some(SortColumn::IpAddress));
    assert_eq!(view.sort_direction, SortDirection::Descending);
    view.update(MainViewMessage::SortColumn(SortColumn::IpAddress), 0);
    assert_eq!(view.sort_direction, SortDirection::Ascending);
    view.update(MainViewMessage::SortColumn(SortColumn::IpAddress), 0);
    view.update(MainViewMessage::SortColumn(SortColumn::Model), 0);
    assert_eq!(view.sort_column, Some(SortColumn::Model));
    assert_eq!(view.sort_direction, SortDirection::Ascending);
}

#[test]
fn group_collapse_toggles() {
    let mut view = view();
    view.update(MainViewMessage::ToggleGroupCollapse("A".to_string()), 0);
    view.update(MainViewMessage::ToggleGroupCollapse("B".to_string()), 0);
    assert_eq!(view.collapsed_groups, vec!["A".to_string(), "B".to_string()]);
    assert_eq!(find_text(&view.collapsed_groups, "B"), Some(1));
    view.update(MainViewMessage::ToggleGroupCollapse("A".to_string()), 0);
    assert_eq!(view.collapsed_groups, vec!["B".to_string()]);
    assert_eq!(find_text(&view.collapsed_groups, "A"), None);
    view.update(MainViewMessage::ToggleGroupCollapse("A".to_string()), 0);
    assert_eq!(view.collapsed_groups, vec!["B".to_string(), "A".to_string()]);
}

#[test]
fn browser_request_gives_the_address() {
    let mut view = view();
    let before = view.clone();
    let action = view.update(MainViewMessage::OpenIpInBrowser(0xC0A8_0164), 0);
    assert_eq!(action, MainViewAction::OpenUrl("http://192.168.1.100".to_string()));
    assert_eq!(view, before);
    assert_eq!(format_miner_url(0), "http://0.0.0.0");
    assert_eq!(format_miner_url(u32::MAX), "http://255.255.255.255");
    assert_eq!(format_miner_url(0x0A00_0001), "http://10.0.0.1");
}

#[test]
fn messages_for_other_pages_leave_the_view_alone() {
    let mut view = view();
    let before = view.clone();
    assert_eq!(view.update(MainViewMessage::OpenNetworkConfig, 0), MainViewAction::Nothing);
    assert_eq!(view.update(MainViewMessage::AddGroup, 0), MainViewAction::Nothing);
    assert_eq!(view.update(MainViewMessage::OpenDeviceDetail(5), 0), MainViewAction::Nothing);
    assert_eq!(view, before);
}

#[test]
fn configuration_is_replaced() {
    let mut view = view();
    view.set_app_config(AppConfig::default());
    assert_eq!(view.get_app_config().scan_groups.len(), 1);
}

#[test]
fn miners_are_copied() {
    let miners = vec![miner(1), miner(2)];
    assert_eq!(clone_miners(&miners), miners);
    assert!(clone_miners(&Vec::new()).is_empty());
}
