use btc_toolkit::config::{read_failure, write_failure, AppConfig, ScanGroup};
use btc_toolkit::dashboard::{Dashboard, DashboardAction, DashboardMessage};
use btc_toolkit::device_detail_view::{DeviceDetailMessage, DeviceDetailState, DeviceDetailView};
use btc_toolkit::errors::{ConfigError, FetchError};
use btc_toolkit::main_view::{group_status_text, GroupScanStatus, MainViewMessage};
use btc_toolkit::named::{find_named, put_named, Named};
use btc_toolkit::network::full_fetch::{command_outcome, lookup_outcome, next_fault_light};
use btc_toolkit::network::scanner::{
    HostAddress, MinerFirmware, MinerMake, MinerRecord, ScanConfig, ScannerMessage,
};
use btc_toolkit::network::{HostRange, RangeForm, ScanPlan};
use btc_toolkit::network_config::NetworkConfigMessage;
use btc_toolkit::scanning::message::ScanningMessage as TabMessage;
use btc_toolkit::scanning::table::ScanningTable;
use btc_toolkit::scanning::tabs::ScanningTabs;
use btc_toolkit::scanning_view::{
    GroupScanStatus as PageStatus, ScanningAction, ScanningMessage, ScanningView,
    SortColumn as PageColumn, SortDirection as PageDirection,
};
use btc_toolkit::sorting::{SortColumn, SortDirection};
use btc_toolkit::toolkit::{relay_scan_event, scans_for, BtcToolkit, BtcToolkitMessage, Page, ToolkitAction};

type Toolkit = BtcToolkit<String>;

fn miner(ip: u32) -> MinerRecord {
    MinerRecord {
        ip: HostAddress::V4(ip),
        make: "AntMiner".to_string(),
        model: "S19".to_string(),
        firmware: "Stock".to_string(),
        firmware_version: None,
    }
}

fn config() -> AppConfig {
    let mut config = AppConfig::default();
    let mut farm = ScanGroup::new("Farm A".to_string(), "10.0.1.1-10".to_string());
    farm.scan_config = ScanConfig { search_makes: Some(vec![MinerMake::BitAxe]), search_firmwares: None };
    config.add_scan_group(farm);
    config
}

fn plan(makes: Option<Vec<MinerMake>>, firmwares: Option<Vec<MinerFirmware>>) -> ScanPlan {
    ScanPlan {
        hosts: HostRange { form: RangeForm::Cidr, host_count: 4 },
        search_makes: makes,
        search_firmwares: firmwares,
    }
}

#[test]
fn application_boots_on_the_main_page() {
    let state: Toolkit = BtcToolkit::boot(config());
    assert_eq!(state.current_page, Page::Main);
    assert!(state.device_detail_view.is_none());
    assert!(state.active_scan.is_none());
    assert!(state.subscription().is_none());
    assert_eq!(state.app_config, config());
    assert_eq!(state.main_view.app_config, config());
    assert_eq!(state.network_config.app_config, config());
}

#[test]
fn start_and_stop_set_the_active_scan() {
    let mut state: Toolkit = BtcToolkit::boot(config());
    let action = state.update(BtcToolkitMessage::MainView(MainViewMessage::StartScan), 50);
    assert_eq!(action, ToolkitAction::Nothing);
    let scans = state.subscription().unwrap();
    assert_eq!(scans.len(), 2);
    assert_eq!(scans[0].name, "Default");
    assert_eq!(scans[0].network_range, "192.168.1.0/24");
    assert_eq!(scans[1].name, "Farm A");
    assert_eq!(scans[1].config.search_makes, Some(vec![MinerMake::BitAxe]));
    assert!(state.main_view.is_scanning);
    assert_eq!(state.main_view.start_time, Some(50));
    assert_eq!(scans_for(&state.app_config).len(), 2);

    let action = state.update(BtcToolkitMessage::MainView(MainViewMessage::StopScan), 60);
    assert_eq!(action, ToolkitAction::Nothing);
    assert!(state.active_scan.is_none());
    assert!(!state.main_view.is_scanning);

    let mut empty: Toolkit = BtcToolkit::boot(AppConfig::default());
    empty.app_config.set_group_enabled("Default", false);
    empty.update(BtcToolkitMessage::MainView(MainViewMessage::StartScan), 0);
    assert!(empty.active_scan.is_none());
}

#[test]
fn pages_are_opened_and_closed() {
    let mut state: Toolkit = BtcToolkit::boot(config());
    state.update(BtcToolkitMessage::MainView(MainViewMessage::OpenNetworkConfig), 0);
    assert_eq!(state.current_page, Page::NetworkConfig);
    state.update(BtcToolkitMessage::NetworkConfig(NetworkConfigMessage::Close), 0);
    assert_eq!(state.current_page, Page::Main);
    state.update(BtcToolkitMessage::MainView(MainViewMessage::AddGroup), 0);
    assert_eq!(state.current_page, Page::NetworkConfig);

    let action = state.update(BtcToolkitMessage::MainView(MainViewMessage::OpenDeviceDetail(0x0A00_0005)), 0);
    assert_eq!(action, ToolkitAction::FetchMinerData(0x0A00_0005));
    assert_eq!(state.current_page, Page::DeviceDetail(0x0A00_0005));
    assert!(matches!(
        state.device_detail_view.as_ref().unwrap().state,
        DeviceDetailState::Loading(HostAddress::V4(0x0A00_0005))
    ));
    let action = state.update(BtcToolkitMessage::DeviceDetail(DeviceDetailMessage::OpenInBrowser), 0);
    assert_eq!(action, ToolkitAction::OpenUrl("http://10.0.0.5".to_string()));
    state.update(
        BtcToolkitMessage::DeviceDetail(DeviceDetailMessage::DataFetched(Ok("data".to_string()))),
        0,
    );
    assert!(matches!(
        &state.device_detail_view.as_ref().unwrap().state,
        DeviceDetailState::Loaded { miner } if miner == "data"
    ));
    assert_eq!(
        state.update(BtcToolkitMessage::DeviceDetail(DeviceDetailMessage::Restart), 0),
        ToolkitAction::Nothing
    );
    assert_eq!(
        state.update(BtcToolkitMessage::DeviceDetail(DeviceDetailMessage::SetPowerLimit), 0),
        ToolkitAction::Nothing
    );
    assert_eq!(
        state.update(BtcToolkitMessage::DeviceDetail(DeviceDetailMessage::ToggleFaultLight), 0),
        ToolkitAction::Nothing
    );
    state.update(BtcToolkitMessage::DeviceDetail(DeviceDetailMessage::Back), 0);
    assert_eq!(state.current_page, Page::Main);
    assert!(state.device_detail_view.is_none());
    let action = state.update(BtcToolkitMessage::DeviceDetail(DeviceDetailMessage::OpenInBrowser), 0);
    assert_eq!(action, ToolkitAction::Nothing);
    state.update(
        BtcToolkitMessage::DeviceDetail(DeviceDetailMessage::DataFetched(Ok("late".to_string()))),
        0,
    );
    assert!(state.device_detail_view.is_none());
}

#[test]
fn saved_configuration_reaches_every_page() {
    let mut state: Toolkit = BtcToolkit::boot(config());
    state.update(BtcToolkitMessage::MainView(MainViewMessage::OpenNetworkConfig), 0);
    state.update(
        BtcToolkitMessage::NetworkConfig(NetworkConfigMessage::DeleteGroup("Default".to_string())),
        0,
    );
    assert_eq!(state.app_config.scan_groups.len(), 2);
    assert_eq!(state.current_page, Page::NetworkConfig);
    let action = state.update(BtcToolkitMessage::NetworkConfig(NetworkConfigMessage::Save), 0);
    assert_eq!(action, ToolkitAction::SaveConfig);
    assert_eq!(state.current_page, Page::Main);
    assert_eq!(state.app_config.scan_groups.len(), 1);
    assert_eq!(state.app_config.scan_groups[0].name, "Farm A");
    assert_eq!(state.main_view.app_config, state.app_config);
    assert_eq!(state.network_config.app_config, state.app_config);
}

#[test]
fn scan_events_reach_the_main_view() {
    let mut state: Toolkit = BtcToolkit::boot(config());
    state.update(BtcToolkitMessage::MainView(MainViewMessage::StartScan), 0);
    let action = state.update(
        BtcToolkitMessage::Scanner(ScannerMessage::IpScanned {
            group_name: "Default".to_string(),
            total_ips: 256,
            scanned_count: 1,
        }),
        1,
    );
    assert_eq!(action, ToolkitAction::Nothing);
    let action = state.update(
        BtcToolkitMessage::Scanner(ScannerMessage::MinerDiscovered {
            group_name: "Default".to_string(),
            miner: miner(7),
        }),
        2,
    );
    assert_eq!(action, ToolkitAction::Nothing);
    let action = state.update(
        BtcToolkitMessage::Scanner(ScannerMessage::GroupScanCompleted {
            group_name: "Default".to_string(),
            result: Ok(()),
        }),
        3,
    );
    assert_eq!(action, ToolkitAction::SaveMainViewConfig);
    assert!(state.app_config.last_scan_results.is_empty());
    assert_eq!(state.main_view.app_config.last_scan_results.len(), 1);
    let action = state.update(
        BtcToolkitMessage::Scanner(ScannerMessage::GroupScanCompleted {
            group_name: "Farm A".to_string(),
            result: Err("Invalid network range: x".to_string()),
        }),
        4,
    );
    assert_eq!(action, ToolkitAction::Nothing);
    assert_eq!(state.main_view.error_messages, vec!["Farm A: Invalid network range: x".to_string()]);
    assert_eq!(state.main_view.completed_groups, 2);
    let action = state.update(BtcToolkitMessage::Scanner(ScannerMessage::AllScansCompleted), 5);
    assert_eq!(action, ToolkitAction::SaveConfig);
    assert!(!state.main_view.is_scanning);
    assert_eq!(state.app_config, state.main_view.app_config);
    assert_eq!(state.app_config.last_scan_results[0].value, vec![miner(7)]);
    let action = state.update(
        BtcToolkitMessage::MainView(MainViewMessage::OpenIpInBrowser(0x0A00_0007)),
        6,
    );
    assert_eq!(action, ToolkitAction::OpenUrl("http://10.0.0.7".to_string()));
}

#[test]
fn scan_events_turn_into_view_messages() {
    assert_eq!(
        relay_scan_event(ScannerMessage::MinerDiscovered { group_name: "A".to_string(), miner: miner(1) }),
        MainViewMessage::MinerFound { group_name: "A".to_string(), miner: miner(1) }
    );
    assert_eq!(
        relay_scan_event(ScannerMessage::IpScanned { group_name: "A".to_string(), total_ips: 4, scanned_count: 2 }),
        MainViewMessage::IpScanned { group_name: "A".to_string(), total_ips: 4, scanned_count: 2 }
    );
    assert_eq!(
        relay_scan_event(ScannerMessage::GroupScanCompleted { group_name: "A".to_string(), result: Ok(()) }),
        MainViewMessage::GroupCompleted("A".to_string())
    );
    assert_eq!(
        relay_scan_event(ScannerMessage::GroupScanCompleted {
            group_name: "A".to_string(),
            result: Err("bad".to_string()),
        }),
        MainViewMessage::GroupError { group_name: "A".to_string(), error: "bad".to_string() }
    );
    assert_eq!(relay_scan_event(ScannerMessage::AllScansCompleted), MainViewMessage::AllScansCompleted);
}

#[test]
fn detail_page_shows_what_was_fetched() {
    let mut page: DeviceDetailView<u8> = DeviceDetailView::new_loading(HostAddress::V4(9));
    assert!(matches!(page.state, DeviceDetailState::Loading(HostAddress::V4(9))));
    page.update_with_data(Err(FetchError::MinerNotFound("10.0.0.9".to_string())));
    assert!(matches!(&page.state, DeviceDetailState::Error(reason) if reason == "No miner found at 10.0.0.9"));
    page.update_with_data(Ok(5));
    assert!(matches!(page.state, DeviceDetailState::Loaded { miner: 5 }));
    let loaded = DeviceDetailView::new_loaded(3u8);
    assert!(matches!(loaded.state, DeviceDetailState::Loaded { miner: 3 }));
}

#[test]
fn answers_of_a_miner_become_results() {
    assert_eq!(lookup_outcome(Ok(Some(5)), "10.0.0.1"), Ok(5));
    assert_eq!(
        lookup_outcome::<u8>(Ok(None), "10.0.0.1"),
        Err(FetchError::MinerNotFound("10.0.0.1".to_string()))
    );
    assert_eq!(
        lookup_outcome::<u8>(Err("timeout".to_string()), "10.0.0.1"),
        Err(FetchError::MinerDataError("timeout".to_string()))
    );
    assert_eq!(command_outcome(Ok(true)), Ok(true));
    assert_eq!(command_outcome(Ok(false)), Ok(false));
    assert_eq!(
        command_outcome(Err("refused".to_string())),
        Err(FetchError::MinerDataError("refused".to_string()))
    );
    assert!(next_fault_light(None));
    assert!(next_fault_light(Some(false)));
    assert!(!next_fault_light(Some(true)));
}

#[test]
fn plan_admits_entries_by_its_filters() {
    let open = plan(None, None);
    for name in ["AntMiner Stock", "Braiins", "LuxOS", "Goldshell", ""] {
        assert!(open.admits(name));
    }
    let makes = plan(Some(vec![MinerMake::AntMiner, MinerMake::BitAxe]), None);
    assert!(makes.admits("AntMiner Stock"));
    assert!(makes.admits("Bitaxe Stock"));
    assert!(!makes.admits("WhatsMiner Stock"));
    assert!(!makes.admits("AvalonMiner Stock"));
    assert!(!makes.admits("Goldshell"));
    assert!(makes.admits("VNish"));
    assert!(makes.admits("UMC OS"));
    let firmwares = plan(None, Some(vec![MinerFirmware::VNish, MinerFirmware::EPic]));
    assert!(firmwares.admits("VNish"));
    assert!(firmwares.admits("UMC OS"));
    assert!(!firmwares.admits("Braiins"));
    assert!(!firmwares.admits("LuxOS"));
    assert!(!firmwares.admits("Marathon"));
    assert!(firmwares.admits("AntMiner Stock"));
    let both = plan(Some(vec![MinerMake::WhatsMiner]), Some(vec![MinerFirmware::LuxOS]));
    assert!(both.admits("WhatsMiner Stock"));
    assert!(both.admits("LuxOS"));
    assert!(!both.admits("AntMiner Stock"));
    assert!(!both.admits("Braiins"));
    let none = plan(Some(Vec::new()), Some(Vec::new()));
    assert!(!none.admits("AntMiner Stock"));
    assert!(!none.admits("Marathon"));
    let all_makes = plan(
        Some(vec![MinerMake::AvalonMiner, MinerMake::EPic, MinerMake::Braiins]),
        Some(vec![MinerFirmware::BraiinsOS, MinerFirmware::Marathon]),
    );
    assert!(all_makes.admits("AvalonMiner Stock"));
    assert!(all_makes.admits("Braiins"));
    assert!(all_makes.admits("Marathon"));
    assert!(!all_makes.admits("UMC OS"));
}

#[test]
fn failures_to_read_and_write_the_configuration() {
    assert_eq!(read_failure(true, "a.json", "gone"), ConfigError::FileNotFound("a.json".to_string()));
    assert_eq!(read_failure(false, "a.json", "denied"), ConfigError::Io("a.json: denied".to_string()));
    assert_eq!(read_failure(false, "a.json", "denied").message(), "IO error: a.json: denied");
    assert_eq!(write_failure("b.json", "full"), ConfigError::Io("b.json: full".to_string()));
}

#[test]
fn values_are_kept_under_names() {
    let mut list: Vec<Named<u8>> = Vec::new();
    put_named(&mut list, "a", 1);
    put_named(&mut list, "b", 2);
    put_named(&mut list, "a", 3);
    assert_eq!(
        list,
        vec![Named { name: "a".to_string(), value: 3 }, Named { name: "b".to_string(), value: 2 }]
    );
    assert_eq!(find_named(&list, "b"), Some(1));
    assert_eq!(find_named(&list, "c"), None);
}

#[test]
fn words_for_the_state_of_a_group() {
    let status = |completed: bool, error: Option<&str>, miners: usize, total: usize, scanned: usize| {
        GroupScanStatus {
            completed,
            error: error.map(|e| e.to_string()),
            miner_count: miners,
            total_ips: total,
            scanned_ips: scanned,
        }
    };
    assert_eq!(group_status_text(Some(&status(true, Some("x"), 3, 10, 10)), 3, true), "error");
    assert_eq!(group_status_text(Some(&status(true, None, 3, 10, 10)), 0, true), "3 miners");
    assert_eq!(group_status_text(Some(&status(false, None, 1, 256, 17)), 1, true), "scanning 17/256");
    assert_eq!(group_status_text(Some(&status(false, None, 1, 0, 0)), 1, true), "scanning...");
    assert_eq!(group_status_text(None, 12, false), "12 miners");
    assert_eq!(group_status_text(None, 0, true), "ready");
    assert_eq!(group_status_text(None, 0, false), "disabled");
}

#[test]
fn main_view_marks_and_totals() {
    let mut state: Toolkit = BtcToolkit::boot(config());
    let view = &mut state.main_view;
    assert_eq!(view.sort_arrow(SortColumn::IpAddress), " ▲");
    assert_eq!(view.sort_arrow(SortColumn::Model), "");
    view.update(MainViewMessage::SortColumn(SortColumn::IpAddress), 0);
    assert_eq!(view.sort_arrow(SortColumn::IpAddress), " ▼");
    assert_eq!(view.sort_direction, SortDirection::Descending);
    assert_eq!(view.scan_totals(), (0, 0));
    view.update(MainViewMessage::IpScanned { group_name: "A".to_string(), total_ips: 10, scanned_count: 4 }, 0);
    view.update(MainViewMessage::IpScanned { group_name: "B".to_string(), total_ips: 256, scanned_count: 100 }, 0);
    assert_eq!(view.scan_totals(), (266, 104));
    view.update(
        MainViewMessage::IpScanned { group_name: "C".to_string(), total_ips: usize::MAX, scanned_count: 1 },
        0,
    );
    assert_eq!(view.scan_totals(), (usize::MAX, 105));
    let mut miners = vec![miner(1), miner(3), miner(2)];
    view.sort_miners(&mut miners);
    assert_eq!(miners, vec![miner(3), miner(2), miner(1)]);
    view.sort_column = None;
    let mut untouched = vec![miner(2), miner(1)];
    view.sort_miners(&mut untouched);
    assert_eq!(untouched, vec![miner(2), miner(1)]);
}

#[test]
fn scanning_page_follows_the_scan() {
    let mut page = ScanningView::new(256, 10);
    assert_eq!(page.total_groups, 1);
    assert_eq!(page.total_ips_to_scan, 256);
    assert_eq!(page.start_time, Some(10));
    assert!(page.is_scanning);
    let mut page = ScanningView::new_multi_group(2, 300, 20);
    assert_eq!(page.total_groups, 2);
    assert_eq!(page.sort_column, Some(PageColumn::IpAddress));

    let found = |name: &str, ip: u32| ScanningMessage::MinerFound { group_name: name.to_string(), miner: miner(ip) };
    assert_eq!(page.update(found("A", 1)), ScanningAction::Nothing);
    assert_eq!(page.discovered_miners_by_group.len(), 1);
    assert!(page.group_status.is_empty());
    page.update(ScanningMessage::GroupCompleted("A".to_string()));
    assert_eq!(
        page.group_status[0].value,
        PageStatus { completed: true, error: None, miner_count: 1 }
    );
    assert_eq!(page.completed_groups, 1);
    page.update(found("A", 2));
    assert_eq!(page.group_status[0].value.miner_count, 2);
    page.update(ScanningMessage::GroupError { group_name: "B".to_string(), error: "down".to_string() });
    assert_eq!(
        page.group_status[1].value,
        PageStatus { completed: true, error: Some("down".to_string()), miner_count: 0 }
    );
    assert_eq!(page.error_messages, vec!["B: down".to_string()]);
    assert_eq!(page.completed_groups, 2);
    let copy = page.get_discovered_miners_by_group();
    assert_eq!(copy, page.discovered_miners_by_group);

    page.update(ScanningMessage::AllScansCompleted);
    assert!(!page.is_scanning);
    page.is_scanning = true;
    page.update(ScanningMessage::StopScan);
    assert!(!page.is_scanning);
    let before = page.clone();
    assert_eq!(page.update(ScanningMessage::BackToDashboard), ScanningAction::Nothing);
    assert_eq!(
        page.update(ScanningMessage::OpenIpInBrowser(0x0102_0304)),
        ScanningAction::OpenUrl("http://1.2.3.4".to_string())
    );
    assert_eq!(page, before);

    assert_eq!(page.get_sort_indicator(PageColumn::IpAddress), "▲");
    assert_eq!(page.get_sort_indicator(PageColumn::Make), "");
    page.update(ScanningMessage::SortColumn(PageColumn::IpAddress));
    assert_eq!(page.sort_direction, PageDirection::Descending);
    assert_eq!(page.get_sort_indicator(PageColumn::IpAddress), "▼");
    let mut miners = vec![miner(1), miner(3), miner(2)];
    page.sort_miners(&mut miners);
    assert_eq!(miners, vec![miner(3), miner(2), miner(1)]);
    page.update(ScanningMessage::SortColumn(PageColumn::Model));
    assert_eq!(page.sort_column, Some(PageColumn::Model));
    assert_eq!(page.sort_direction, PageDirection::Ascending);
    page.sort_column = None;
    page.sort_miners(&mut miners);
    assert_eq!(miners, vec![miner(1), miner(2), miner(3)]);
    assert_eq!(PageColumn::Firmware.to_general(), SortColumn::Firmware);
    assert_eq!(PageDirection::Descending.to_general(), SortDirection::Descending);
}

#[test]
fn dashboard_messages() {
    let mut page = Dashboard::new();
    assert!(!page.scanning);
    assert_eq!(page.update(DashboardMessage::OpenNetworkConfig), DashboardAction::Nothing);
    assert_eq!(
        page.update(DashboardMessage::StartScan),
        DashboardAction::Send(DashboardMessage::NavigateToScanning)
    );
    assert_eq!(page.update(DashboardMessage::NavigateToScanning), DashboardAction::Nothing);
    page.scanning = true;
    assert_eq!(page.update(DashboardMessage::StartScan), DashboardAction::Nothing);
    assert_eq!(page.update(DashboardMessage::StopScan), DashboardAction::Nothing);
    assert!(!page.scanning);
    assert_eq!(
        page.update(DashboardMessage::OpenIpInBrowser(0xC0A8_0001)),
        DashboardAction::OpenUrl("http://192.168.0.1".to_string())
    );
    page.set_app_config(config());
    assert_eq!(page.app_config.scan_groups.len(), 2);
}

#[test]
fn tabs_and_tables_take_the_miners_found() {
    let tabs = vec![Named { name: "A".to_string(), value: vec![miner(1)] }];
    let mut page = ScanningTabs::new("A".to_string(), tabs);
    assert!(page.is_scanning);
    assert_eq!(page.tab_tables.len(), 1);
    assert_eq!(page.tab_tables[0].value, ScanningTable::new("A".to_string(), vec![miner(1)]));
    page.update(TabMessage::MinerFound { group_name: "A".to_string(), miner: miner(2) });
    page.update(TabMessage::MinerFound { group_name: "B".to_string(), miner: miner(3) });
    assert_eq!(page.tabs[0].value, vec![miner(1), miner(2)]);
    assert_eq!(page.tab_tables[0].value.miners, vec![miner(1), miner(2)]);
    assert_eq!(page.tabs[1].name, "B");
    assert_eq!(page.tab_tables[1].value, ScanningTable::new("B".to_string(), vec![miner(3)]));
    page.update(TabMessage::GroupTabSelected("B".to_string()));
    assert_eq!(page.active_tab, "B");
    let before = page.clone();
    page.update(TabMessage::GroupCompleted("A".to_string()));
    page.update(TabMessage::GroupError { group_name: "A".to_string(), error: "x".to_string() });
    page.update(TabMessage::BackToDashboard);
    page.update(TabMessage::OpenIpInBrowser(1));
    assert_eq!(page, before);
    page.update(TabMessage::AllScansCompleted);
    assert!(!page.is_scanning);
    page.is_scanning = true;
    page.update(TabMessage::StopScan);
    assert!(!page.is_scanning);
    let mut table = ScanningTable::new("T".to_string(), Vec::new());
    table.push(miner(9));
    assert_eq!(table.miners, vec![miner(9)]);
}
