use btc_toolkit::config::{AppConfig, ScanGroup, CONFIG_VERSION};
use btc_toolkit::network::scanner::{HostAddress, MinerRecord, ScanConfig};

#[test]
fn test_scan_group_management() {
    let mut config = AppConfig::default();

    // Add a new group
    let new_group = ScanGroup::new("Farm A".to_string(), "10.0.1.0/24".to_string());
    config.add_scan_group(new_group);
    assert_eq!(config.scan_groups.len(), 2);

    // Remove a group
    assert!(config.remove_scan_group("Farm A"));
    assert_eq!(config.scan_groups.len(), 1);
    assert!(!config.remove_scan_group("Non-existent"));
}

#[test]
fn default_configuration_has_one_enabled_group() {
    let config = AppConfig::default();
    assert_eq!(config.version, CONFIG_VERSION);
    assert_eq!(config.scan_groups.len(), 1);
    assert_eq!(config.scan_groups[0].name, "Default");
    assert_eq!(config.scan_groups[0].network_range, "192.168.1.0/24");
    assert!(config.scan_groups[0].enabled);
    assert_eq!(config.scan_groups[0].scan_config, ScanConfig::default());
    assert!(config.last_scan_results.is_empty());
}

#[test]
fn remove_takes_every_group_of_the_name() {
    let mut config = AppConfig::default();
    config.add_scan_group(ScanGroup::new("X".to_string(), "a".to_string()));
    config.add_scan_group(ScanGroup::new("Y".to_string(), "b".to_string()));
    config.add_scan_group(ScanGroup::new("X".to_string(), "c".to_string()));
    assert!(config.remove_scan_group("X"));
    let names: Vec<&str> = config.scan_groups.iter().map(|g| g.name.as_str()).collect();
    assert_eq!(names, vec!["Default", "Y"]);
    assert!(!config.remove_scan_group("X"));
}

#[test]
fn update_replaces_the_first_group_of_the_name() {
    let mut config = AppConfig::default();
    config.add_scan_group(ScanGroup::new("X".to_string(), "a".to_string()));
    config.add_scan_group(ScanGroup::new("X".to_string(), "b".to_string()));
    assert!(config.update_scan_group("X", ScanGroup::new("Z".to_string(), "c".to_string())));
    let names: Vec<&str> = config.scan_groups.iter().map(|g| g.name.as_str()).collect();
    assert_eq!(names, vec!["Default", "Z", "X"]);
    assert_eq!(config.scan_groups[1].network_range, "c");
    assert!(!config.update_scan_group("Nowhere", ScanGroup::new("Q".to_string(), "d".to_string())));
    assert_eq!(config.scan_groups.len(), 3);
}

#[test]
fn groups_are_found_by_name() {
    let mut config = AppConfig::default();
    config.add_scan_group(ScanGroup::new("X".to_string(), "a".to_string()));
    assert_eq!(config.find_group("Default"), Some(0));
    assert_eq!(config.find_group("X"), Some(1));
    assert_eq!(config.find_group("x"), None);
    assert_eq!(config.get_group("X").unwrap().network_range, "a");
    assert!(config.get_group("Nowhere").is_none());
    config.get_group_mut("X").unwrap().enabled = false;
    assert!(!config.scan_groups[1].enabled);
    assert!(config.get_group_mut("Nowhere").is_none());
    assert!(config.set_group_enabled("X", true));
    assert!(config.scan_groups[1].enabled);
    assert!(!config.set_group_enabled("Nowhere", true));
}

#[test]
fn enabled_groups_keep_their_order() {
    let mut config = AppConfig::default();
    config.add_scan_group(ScanGroup::new("X".to_string(), "a".to_string()));
    config.add_scan_group(ScanGroup::new("Y".to_string(), "b".to_string()));
    config.set_group_enabled("X", false);
    let names: Vec<&str> = config.get_enabled_groups().iter().map(|g| g.name.as_str()).collect();
    assert_eq!(names, vec!["Default", "Y"]);
    config.set_group_enabled("Default", false);
    config.set_group_enabled("Y", false);
    assert!(config.get_enabled_groups().is_empty());
}

#[test]
fn results_are_stored_under_the_group_name() {
    let miner = |ip: u32| MinerRecord {
        ip: HostAddress::V4(ip),
        make: "m".to_string(),
        model: "n".to_string(),
        firmware: "f".to_string(),
        firmware_version: None,
    };
    let mut config = AppConfig::default();
    config.store_scan_results("A", vec![miner(1)]);
    config.store_scan_results("B", vec![miner(2), miner(3)]);
    config.store_scan_results("A", vec![miner(4), miner(5)]);
    let results = config.get_all_scan_results();
    assert_eq!(results.len(), 2);
    assert_eq!(results[0].name, "A");
    assert_eq!(results[0].value, vec![miner(4), miner(5)]);
    assert_eq!(results[1].name, "B");
    assert_eq!(results[1].value.len(), 2);
    config.clear_scan_results();
    assert!(config.get_all_scan_results().is_empty());
}
