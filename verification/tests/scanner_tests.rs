use btc_toolkit::errors::ScannerError;
use btc_toolkit::network::scanner::{
    estimate_total_ips, GroupPhase, GroupWorker, HostAddress, MinerRecord, ScanConfig, ScanGroup,
    Scanner, ScannerMessage,
};
use btc_toolkit::network::RangeForm;

fn group(name: &str, range: &str) -> ScanGroup {
    ScanGroup::new(name.to_string(), range.to_string(), ScanConfig::default())
}

fn miner(last_octet: u32) -> MinerRecord {
    MinerRecord {
        ip: HostAddress::V4(0x0A00_0000 + last_octet),
        make: "AntMiner".to_string(),
        model: "S19".to_string(),
        firmware: "Stock".to_string(),
        firmware_version: Some("1.0".to_string()),
    }
}

fn progress(name: &str, total: usize, scanned: usize) -> ScannerMessage {
    ScannerMessage::IpScanned { group_name: name.to_string(), total_ips: total, scanned_count: scanned }
}

fn completed(name: &str) -> ScannerMessage {
    ScannerMessage::GroupScanCompleted { group_name: name.to_string(), result: Ok(()) }
}

fn count_completions(events: &[ScannerMessage]) -> usize {
    events.iter().filter(|e| matches!(e, ScannerMessage::GroupScanCompleted { .. })).count()
}

fn count_all_completed(events: &[ScannerMessage]) -> usize {
    events.iter().filter(|e| matches!(e, ScannerMessage::AllScansCompleted)).count()
}

#[test]
fn scan_group_keeps_what_it_is_given() {
    let config = ScanConfig { search_makes: None, search_firmwares: None };
    let g = ScanGroup::new("Rack1".to_string(), "10.0.0.0/30".to_string(), config.clone());
    assert_eq!(g.name, "Rack1");
    assert_eq!(g.network_range, "10.0.0.0/30");
    assert_eq!(g.config, config);
    assert_eq!(ScanConfig::default(), config);
}

#[test]
fn empty_scan_is_done_at_once() {
    let (mut scanner, events) = Scanner::scan_multiple_groups(Vec::new());
    assert_eq!(events, vec![ScannerMessage::AllScansCompleted]);
    assert!(scanner.finished);
    assert_eq!(scanner.completed_groups, 0);
    assert_eq!(scanner.buffer_size, 50);
    assert!(scanner.group_finished(0, Ok(())).is_empty());
    assert!(scanner.host_probed(0, None, 0).is_empty());
    assert!(!scanner.begin_group(0, 10));
    let (plan, more) = scanner.open_group(0);
    assert!(plan.is_none());
    assert!(more.is_empty());
}

#[test]
fn scan_is_sized_by_the_hosts_of_its_ranges() {
    let groups = vec![group("A", "192.168.1.0/24"), group("B", "10.0.0.1-100"), group("C", "bad")];
    assert_eq!(estimate_total_ips(&groups), 356);
    let (scanner, events) = Scanner::scan_multiple_groups(groups);
    assert!(events.is_empty());
    assert_eq!(scanner.buffer_size, 85);
    assert!(!scanner.finished);
    assert_eq!(scanner.workers.len(), 3);
    for worker in &scanner.workers {
        assert_eq!(worker.phase, GroupPhase::Pending);
    }
    let (sized, _) = Scanner::start(vec![group("A", "x")], 20000);
    assert_eq!(sized.buffer_size, 1000);
}

#[test]
fn every_group_completes_once_and_the_scan_after_the_last() {
    let names = ["A", "B", "C", "D"];
    let groups: Vec<ScanGroup> = names.iter().map(|n| group(n, "10.0.0.0/30")).collect();
    let (mut scanner, mut events) = Scanner::start(groups, 16);
    for index in [2usize, 0, 3, 1] {
        assert!(scanner.begin_group(index, 4));
    }
    for index in [1usize, 3, 0] {
        let step = scanner.group_finished(index, Ok(()));
        assert_eq!(step, vec![completed(names[index])]);
        events.extend(step);
        assert!(!scanner.finished);
    }
    let last = scanner.group_finished(2, Ok(()));
    assert_eq!(last, vec![completed("C"), ScannerMessage::AllScansCompleted]);
    events.extend(last);
    assert!(scanner.finished);
    assert_eq!(scanner.completed_groups, 4);
    assert_eq!(count_completions(&events), 4);
    assert_eq!(count_all_completed(&events), 1);
    assert_eq!(events.last(), Some(&ScannerMessage::AllScansCompleted));
    for name in names {
        let of_group = events
            .iter()
            .filter(|e| matches!(e, ScannerMessage::GroupScanCompleted { group_name, .. } if group_name == name))
            .count();
        assert_eq!(of_group, 1);
    }
}

#[test]
fn second_end_of_a_group_changes_nothing() {
    let (mut scanner, _) = Scanner::start(vec![group("A", "r"), group("B", "r")], 0);
    assert_eq!(scanner.group_finished(0, Ok(())).len(), 1);
    assert!(scanner.group_finished(0, Ok(())).is_empty());
    assert!(scanner.group_finished(0, Err(ScannerError::ChannelClosed)).is_empty());
    assert!(scanner.group_finished(7, Ok(())).is_empty());
    assert_eq!(scanner.completed_groups, 1);
    assert!(!scanner.finished);
    assert!(scanner.host_probed(0, Some(miner(1)), 10).is_empty());
    assert!(!scanner.begin_group(0, 5));
}

#[test]
fn one_invalid_range_does_not_stop_the_other_group() {
    let groups = vec![group("A", "10.0.0.0/30"), group("B", "not-a-range")];
    let (mut scanner, first) = Scanner::scan_multiple_groups(groups);
    assert!(first.is_empty());

    let (plan_b, events_b) = scanner.open_group(1);
    assert!(plan_b.is_none());
    assert_eq!(events_b.len(), 1);
    match &events_b[0] {
        ScannerMessage::GroupScanCompleted { group_name, result } => {
            assert_eq!(group_name, "B");
            let reason = result.clone().unwrap_err();
            assert!(reason.starts_with("Invalid network range: Invalid range 'not-a-range': "));
        }
        other => panic!("unexpected event {:?}", other),
    }
    assert_eq!(scanner.workers[1].phase, GroupPhase::Completed);
    assert!(!scanner.workers[1].validated);
    assert!(scanner.host_probed(1, Some(miner(9)), 0).is_empty());

    let (plan_a, events_a) = scanner.open_group(0);
    let plan_a = plan_a.unwrap();
    assert!(events_a.is_empty());
    assert_eq!(plan_a.hosts.form, RangeForm::Cidr);
    assert_eq!(plan_a.hosts.host_count, 4);
    assert_eq!(scanner.workers[0].phase, GroupPhase::Scanning);
    assert_eq!(scanner.workers[0].total_ips, 4);

    let found = scanner.host_probed(0, Some(miner(1)), 0);
    assert_eq!(
        found,
        vec![
            progress("A", 4, 1),
            ScannerMessage::MinerDiscovered { group_name: "A".to_string(), miner: miner(1) },
        ]
    );
    let done = scanner.group_finished(0, Ok(()));
    assert_eq!(done, vec![completed("A"), ScannerMessage::AllScansCompleted]);
    assert!(scanner.finished);
}

#[test]
fn open_group_is_taken_once() {
    let (mut scanner, _) = Scanner::scan_multiple_groups(vec![group("A", "10.0.0.1-3")]);
    let (plan, events) = scanner.open_group(0);
    assert_eq!(plan.unwrap().hosts.host_count, 3);
    assert!(events.is_empty());
    let (again, events) = scanner.open_group(0);
    assert!(again.is_none());
    assert!(events.is_empty());
    assert_eq!(scanner.workers[0].total_ips, 3);
    let (missing, events) = scanner.open_group(4);
    assert!(missing.is_none());
    assert!(events.is_empty());
}

#[test]
fn progress_is_throttled_and_discoveries_are_not() {
    let (mut scanner, _) = Scanner::start(vec![group("G", "r")], 10);
    assert!(scanner.begin_group(0, 10));
    assert_eq!(scanner.host_probed(0, None, 1000), vec![progress("G", 10, 1)]);
    assert!(scanner.host_probed(0, None, 1010).is_empty());
    assert_eq!(
        scanner.host_probed(0, Some(miner(3)), 1020),
        vec![ScannerMessage::MinerDiscovered { group_name: "G".to_string(), miner: miner(3) }]
    );
    assert!(scanner.host_probed(0, None, 1099).is_empty());
    assert_eq!(
        scanner.host_probed(0, Some(miner(5)), 1100),
        vec![
            progress("G", 10, 5),
            ScannerMessage::MinerDiscovered { group_name: "G".to_string(), miner: miner(5) },
        ]
    );
    assert_eq!(scanner.workers[0].scanned_count, 5);
    assert_eq!(scanner.workers[0].reported_count, 5);
}

#[test]
fn progress_counts_never_fall_and_stay_within_the_total() {
    let (mut scanner, _) = Scanner::start(vec![group("G", "r")], 5);
    assert!(scanner.begin_group(0, 5));
    let mut reported: Vec<usize> = Vec::new();
    let mut now: u64 = 0;
    for _ in 0..9 {
        for event in scanner.host_probed(0, None, now) {
            match event {
                ScannerMessage::IpScanned { group_name, total_ips, scanned_count } => {
                    assert_eq!(group_name, "G");
                    assert_eq!(total_ips, 5);
                    assert!(scanned_count <= total_ips);
                    reported.push(scanned_count);
                }
                other => panic!("unexpected event {:?}", other),
            }
        }
        now += 60;
    }
    assert_eq!(reported, vec![1, 3, 5, 5, 5]);
    for pair in reported.windows(2) {
        assert!(pair[0] <= pair[1]);
    }
    assert_eq!(scanner.workers[0].scanned_count, 5);
}

#[test]
fn last_count_is_reported_when_the_group_ends() {
    let (mut scanner, _) = Scanner::start(vec![group("G", "r")], 3);
    assert!(scanner.begin_group(0, 3));
    assert_eq!(scanner.host_probed(0, None, 0), vec![progress("G", 3, 1)]);
    assert!(scanner.host_probed(0, None, 1).is_empty());
    assert!(scanner.host_probed(0, None, 2).is_empty());
    let end = scanner.group_finished(0, Ok(()));
    assert_eq!(end, vec![progress("G", 3, 3), completed("G"), ScannerMessage::AllScansCompleted]);
}

#[test]
fn failed_group_carries_the_text_of_its_error() {
    let (mut scanner, _) = Scanner::start(vec![group("A", "r"), group("B", "r")], 0);
    assert!(scanner.begin_group(0, 2));
    let closed = scanner.group_finished(0, Err(ScannerError::ChannelClosed));
    assert_eq!(
        closed,
        vec![ScannerMessage::GroupScanCompleted {
            group_name: "A".to_string(),
            result: Err("Communication channel closed".to_string()),
        }]
    );
    let failed = scanner.group_finished(
        1,
        Err(ScannerError::ThreadError("Background scan task failed: panic".to_string())),
    );
    assert_eq!(
        failed,
        vec![
            ScannerMessage::GroupScanCompleted {
                group_name: "B".to_string(),
                result: Err(
                    "Thread execution error: Background scan task failed: panic".to_string()
                ),
            },
            ScannerMessage::AllScansCompleted,
        ]
    );
}

#[test]
fn events_carry_the_name_of_their_group() {
    let (mut scanner, _) = Scanner::start(vec![group("North", "r"), group("South", "r")], 0);
    assert!(scanner.begin_group(0, 1));
    assert!(scanner.begin_group(1, 1));
    let mut events = scanner.host_probed(1, Some(miner(2)), 0);
    events.extend(scanner.host_probed(0, Some(miner(1)), 0));
    let names: Vec<String> = events
        .iter()
        .filter_map(|e| match e {
            ScannerMessage::MinerDiscovered { group_name, .. } => Some(group_name.clone()),
            _ => None,
        })
        .collect();
    assert_eq!(names, vec!["South".to_string(), "North".to_string()]);
    assert!(scanner.host_probed(2, Some(miner(3)), 0).is_empty());
}

#[test]
fn end_to_end_scan_of_one_rack() {
    let (mut scanner, first) =
        Scanner::scan_multiple_groups(vec![group("Rack1", "10.0.0.0/30")]);
    assert!(first.is_empty());
    assert!(scanner.begin_group(0, 2));
    let mut events = Vec::new();
    events.extend(scanner.host_probed(0, Some(miner(1)), 0));
    events.extend(scanner.host_probed(0, None, 40));
    events.extend(scanner.group_finished(0, Ok(())));
    assert_eq!(
        events,
        vec![
            progress("Rack1", 2, 1),
            ScannerMessage::MinerDiscovered { group_name: "Rack1".to_string(), miner: miner(1) },
            progress("Rack1", 2, 2),
            completed("Rack1"),
            ScannerMessage::AllScansCompleted,
        ]
    );
    assert!(scanner.host_probed(0, None, 500).is_empty());
}

#[test]
fn worker_counts_hosts_up_to_its_total() {
    let mut worker = GroupWorker::new();
    assert_eq!(worker.phase, GroupPhase::Pending);
    worker.begin(2);
    assert_eq!(worker.phase, GroupPhase::Scanning);
    assert_eq!(worker.total_ips, 2);
    assert_eq!(worker.record_host(0), Some(1));
    assert_eq!(worker.record_host(10), None);
    assert_eq!(worker.scanned_count, 2);
    assert_eq!(worker.record_host(20), None);
    assert_eq!(worker.scanned_count, 2);
    assert_eq!(worker.flush(), Some(2));
    assert_eq!(worker.flush(), None);
    worker.begin(9);
    assert_eq!(worker.total_ips, 2);
}

#[test]
fn message_clone_is_equal() {
    let messages = vec![
        ScannerMessage::MinerDiscovered { group_name: "A".to_string(), miner: miner(1) },
        progress("A", 3, 2),
        completed("A"),
        ScannerMessage::GroupScanCompleted { group_name: "B".to_string(), result: Err("x".to_string()) },
        ScannerMessage::AllScansCompleted,
    ];
    for message in &messages {
        assert_eq!(&message.clone(), message);
    }
}

#[test]
fn device_reported_apart_from_its_host_is_not_counted() {
    let (mut scanner, _) = Scanner::start(vec![group("G", "r"), group("H", "r")], 0);
    assert!(scanner.miner_found(0, miner(1)).is_empty());
    assert!(scanner.begin_group(0, 4));
    assert_eq!(scanner.host_probed(0, None, 0), vec![progress("G", 4, 1)]);
    assert_eq!(
        scanner.miner_found(0, miner(1)),
        vec![ScannerMessage::MinerDiscovered { group_name: "G".to_string(), miner: miner(1) }]
    );
    assert_eq!(scanner.workers[0].scanned_count, 1);
    assert!(scanner.miner_found(1, miner(2)).is_empty());
    assert!(scanner.miner_found(5, miner(2)).is_empty());
    scanner.group_finished(0, Ok(()));
    assert!(scanner.miner_found(0, miner(3)).is_empty());
}
