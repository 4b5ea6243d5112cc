use service_supervisor::port::{
    AllPortsExhausted, PortRange, PortScan, ScanStep, DEFAULT_FIRST_PORT, DEFAULT_LAST_PORT,
};

/// Drives a scan to its end in a world where `occupied` says which ports are
/// taken, and returns the result together with the ports that were tried.
fn drive(range: PortRange, occupied: &dyn Fn(u16) -> bool) -> (Result<u16, AllPortsExhausted>, Vec<u16>) {
    let mut scan = PortScan::new(range);
    let mut tried = Vec::new();
    loop {
        match scan.next_step() {
            ScanStep::TryBind(port) => {
                tried.push(port);
                scan.observe(!occupied(port));
            }
            ScanStep::Finished(result) => return (result, tried),
        }
    }
}

#[test]
fn two_lowest_ports_bound_gives_the_third() {
    let range = PortRange::new(5555, 5557);
    let (result, tried) = drive(range, &|p| p == 5555 || p == 5556);
    assert_eq!(result, Ok(5557));
    assert_eq!(tried, vec![5555, 5556, 5557]);
}

#[test]
fn lowest_port_is_taken_when_free() {
    let (result, tried) = drive(PortRange::standard(), &|_| false);
    assert_eq!(result, Ok(5555));
    assert_eq!(tried, vec![5555]);
}

#[test]
fn occupied_prefix_is_skipped() {
    for k in 0u16..100 {
        let (result, tried) = drive(PortRange::standard(), &|p| p <= 5555 + k);
        assert_eq!(result, Ok(5556 + k));
        assert_eq!(tried.len(), usize::from(k) + 2);
    }
}

#[test]
fn holes_below_the_first_free_port_do_not_exist() {
    // 5556 is free although 5557 and 5558 are not: the scan stops at 5556.
    let (result, _) = drive(PortRange::new(5555, 5560), &|p| p != 5556 && p != 5560);
    assert_eq!(result, Ok(5556));
}

#[test]
fn every_port_occupied_is_exhaustion() {
    let range = PortRange::new(5555, 5557);
    let (result, tried) = drive(range, &|_| true);
    assert_eq!(result, Err(AllPortsExhausted { range }));
    assert_eq!(tried, vec![5555, 5556, 5557]);
}

#[test]
fn standard_range_exhausts_after_all_its_ports() {
    let (result, tried) = drive(PortRange::standard(), &|_| true);
    assert_eq!(result, Err(AllPortsExhausted { range: PortRange::standard() }));
    assert_eq!(tried.len(), 101);
    assert_eq!(tried[0], 5555);
    assert_eq!(tried[100], 5655);
}

#[test]
fn empty_range_is_exhausted_without_a_try() {
    let range = PortRange::new(6000, 5999);
    let (result, tried) = drive(range, &|_| false);
    assert_eq!(result, Err(AllPortsExhausted { range }));
    assert!(tried.is_empty());
}

#[test]
fn single_port_range() {
    let range = PortRange::new(8080, 8080);
    assert_eq!(drive(range, &|_| false).0, Ok(8080));
    assert_eq!(drive(range, &|_| true).0, Err(AllPortsExhausted { range }));
}

#[test]
fn scan_reaches_the_highest_port_there_is() {
    let range = PortRange::new(65534, 65535);
    assert_eq!(drive(range, &|p| p == 65534).0, Ok(65535));
    let (result, tried) = drive(range, &|_| true);
    assert_eq!(result, Err(AllPortsExhausted { range }));
    assert_eq!(tried, vec![65534, 65535]);
}

#[test]
fn whole_port_space_can_be_scanned() {
    let range = PortRange::new(0, 65535);
    let (result, tried) = drive(range, &|p| p != 65535);
    assert_eq!(result, Ok(65535));
    assert_eq!(tried.len(), 65536);
}

#[test]
fn finished_scan_ignores_further_reports() {
    let mut scan = PortScan::new(PortRange::new(5555, 5557));
    scan.observe(false);
    scan.observe(true);
    assert_eq!(scan.next_step(), ScanStep::Finished(Ok(5556)));
    scan.observe(false);
    scan.observe(true);
    assert_eq!(scan.next_step(), ScanStep::Finished(Ok(5556)));

    let range = PortRange::new(1, 1);
    let mut scan = PortScan::new(range);
    scan.observe(false);
    assert_eq!(scan.next_step(), ScanStep::Finished(Err(AllPortsExhausted { range })));
    scan.observe(true);
    assert_eq!(scan.next_step(), ScanStep::Finished(Err(AllPortsExhausted { range })));
}

#[test]
fn next_step_does_not_advance_the_scan() {
    let scan = PortScan::new(PortRange::new(5555, 5557));
    assert_eq!(scan.next_step(), ScanStep::TryBind(5555));
    assert_eq!(scan.next_step(), ScanStep::TryBind(5555));
}

#[test]
fn standard_range_is_5555_to_5655() {
    let range = PortRange::standard();
    assert_eq!(range.start, 5555);
    assert_eq!(range.end, 5655);
    assert_eq!(DEFAULT_FIRST_PORT, 5555);
    assert_eq!(DEFAULT_LAST_PORT, 5655);
    assert_eq!(range.len(), 101);
}

#[test]
fn range_membership_and_length() {
    let range = PortRange::new(5555, 5557);
    assert!(!range.includes(5554));
    assert!(range.includes(5555));
    assert!(range.includes(5556));
    assert!(range.includes(5557));
    assert!(!range.includes(5558));
    assert_eq!(range.len(), 3);
    assert_eq!(PortRange::new(0, 65535).len(), 65536);
    assert_eq!(PortRange::new(10, 9).len(), 0);
    assert!(!PortRange::new(10, 9).includes(9));
    assert!(!PortRange::new(10, 9).includes(10));
}
