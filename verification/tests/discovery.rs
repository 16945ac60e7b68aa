use openbio::discovery::{
    address_text, advertisement, advertisement_at, first_of_each_address, scan_continues, scan_for_hubs,
    shown_name, sorts_before, DiscoveredHub, HubScan, PeerAddress, ResolvedService, ScanEvent,
    POLL_INTERVAL_MS, SCAN_TIMEOUT_MS, SERVICE_TYPE,
};

fn resolved(name: &str, addresses: Vec<PeerAddress>, port: u16) -> ScanEvent {
    ScanEvent::ServiceResolved(ResolvedService {
        fullname: format!("{}.{}", name, SERVICE_TYPE),
        addresses,
        port,
    })
}

fn pairs(hubs: &[DiscoveredHub]) -> Vec<(String, String)> {
    hubs.iter().map(|h| (h.name.clone(), h.address.clone())).collect()
}

fn pair(name: &str, address: &str) -> (String, String) {
    (name.to_string(), address.to_string())
}

#[test]
fn scan_sorts_zeta_and_alpha_by_name() {
    let events = vec![
        resolved("Zeta", vec![PeerAddress::V4(10, 0, 0, 2)], 3000),
        resolved("Alpha", vec![PeerAddress::V4(10, 0, 0, 1)], 3000),
    ];
    let hubs = scan_for_hubs(&events);
    let names: Vec<&str> = hubs.iter().map(|h| h.name.as_str()).collect();
    assert_eq!(names, vec!["Alpha", "Zeta"]);
}

#[test]
fn scan_keeps_one_hub_for_one_address() {
    let events = vec![
        resolved("Lab B", vec![PeerAddress::V4(192, 168, 1, 20)], 4321),
        resolved("Lab A", vec![PeerAddress::V4(192, 168, 1, 20)], 4321),
    ];
    let hubs = scan_for_hubs(&events);
    assert_eq!(pairs(&hubs), vec![pair("Lab A", "192.168.1.20:4321")]);
}

#[test]
fn scan_drops_a_repeated_address_that_is_not_adjacent() {
    let events = vec![
        resolved("C", vec![PeerAddress::V4(10, 0, 0, 1)], 80),
        resolved("B", vec![PeerAddress::V4(10, 0, 0, 2)], 80),
        resolved("A", vec![PeerAddress::V4(10, 0, 0, 1)], 80),
    ];
    let hubs = scan_for_hubs(&events);
    assert_eq!(
        pairs(&hubs),
        vec![pair("A", "10.0.0.1:80"), pair("B", "10.0.0.2:80")]
    );
}

#[test]
fn scan_tells_addresses_apart_by_port() {
    let events = vec![
        resolved("A", vec![PeerAddress::V4(10, 0, 0, 1)], 80),
        resolved("B", vec![PeerAddress::V4(10, 0, 0, 1)], 81),
    ];
    assert_eq!(scan_for_hubs(&events).len(), 2);
}

#[test]
fn scan_skips_services_without_ipv4() {
    let events = vec![
        resolved("Only six", vec![PeerAddress::V6], 3000),
        resolved("None", vec![], 3000),
        resolved("Mixed", vec![PeerAddress::V6, PeerAddress::V4(172, 16, 0, 9)], 65535),
    ];
    let hubs = scan_for_hubs(&events);
    assert_eq!(pairs(&hubs), vec![pair("Mixed", "172.16.0.9:65535")]);
}

#[test]
fn scan_takes_the_first_ipv4_address() {
    let events = vec![resolved(
        "Two",
        vec![PeerAddress::V4(10, 0, 0, 7), PeerAddress::V4(10, 0, 0, 8)],
        1,
    )];
    assert_eq!(scan_for_hubs(&events)[0].address, "10.0.0.7:1");
}

#[test]
fn scan_ignores_other_events() {
    let events = vec![
        ScanEvent::SearchStarted,
        ScanEvent::ServiceFound,
        ScanEvent::Other,
    ];
    assert!(scan_for_hubs(&events).is_empty());
    assert!(scan_for_hubs(&Vec::new()).is_empty());
}

#[test]
fn scan_keeps_arrival_order_among_equal_names() {
    let events = vec![
        resolved("Same", vec![PeerAddress::V4(10, 0, 0, 3)], 80),
        resolved("Same", vec![PeerAddress::V4(10, 0, 0, 1)], 80),
        resolved("Same", vec![PeerAddress::V4(10, 0, 0, 2)], 80),
    ];
    let addresses: Vec<String> = scan_for_hubs(&events).into_iter().map(|h| h.address).collect();
    assert_eq!(
        addresses,
        vec!["10.0.0.3:80", "10.0.0.1:80", "10.0.0.2:80"]
    );
}

#[test]
fn scan_result_is_sorted_and_free_of_repeated_addresses() {
    let mut events = Vec::new();
    let names = ["m", "b", "zz", "a", "b", "Q", "", "ab", "aa", "é"];
    for (i, name) in names.iter().enumerate() {
        events.push(resolved(name, vec![PeerAddress::V4(10, 0, 0, (i % 4) as u8)], 80));
    }
    let hubs = scan_for_hubs(&events);
    assert_eq!(hubs.len(), 4);
    for w in hubs.windows(2) {
        assert!(w[0].name <= w[1].name);
    }
    for i in 0..hubs.len() {
        for j in 0..i {
            assert_ne!(hubs[i].address, hubs[j].address);
        }
    }
}

#[test]
fn hub_scan_records_events_one_by_one() {
    let mut scan = HubScan::new();
    scan.record(&ScanEvent::SearchStarted);
    scan.record(&resolved("Zeta", vec![PeerAddress::V4(10, 0, 0, 2)], 3000));
    scan.record(&ScanEvent::ServiceFound);
    scan.record(&resolved("Alpha", vec![PeerAddress::V4(10, 0, 0, 1)], 3000));
    scan.record(&resolved("Beta", vec![PeerAddress::V4(10, 0, 0, 2)], 3000));
    let hubs = scan.finish();
    assert_eq!(
        pairs(&hubs),
        vec![pair("Alpha", "10.0.0.1:3000"), pair("Beta", "10.0.0.2:3000")]
    );
}

#[test]
fn first_of_each_address_keeps_the_earlier_hub() {
    let hubs = vec![
        DiscoveredHub { name: "x".to_string(), address: "u".to_string() },
        DiscoveredHub { name: "y".to_string(), address: "v".to_string() },
        DiscoveredHub { name: "z".to_string(), address: "u".to_string() },
        DiscoveredHub { name: "w".to_string(), address: "v".to_string() },
    ];
    assert_eq!(pairs(&first_of_each_address(hubs)), vec![pair("x", "u"), pair("y", "v")]);
}

#[test]
fn display_name_drops_the_service_suffix() {
    assert_eq!(shown_name("My Lab._openbio._tcp.local."), "My Lab");
    assert_eq!(shown_name("._openbio._tcp.local."), "");
    assert_eq!(shown_name("My Lab"), "My Lab");
    assert_eq!(shown_name("My Lab._http._tcp.local."), "My Lab._http._tcp.local.");
    assert_eq!(shown_name("_openbio._tcp.local."), "_openbio._tcp.local.");
    assert_eq!(shown_name(""), "");
    assert_eq!(
        shown_name("a._openbio._tcp.local.b._openbio._tcp.local."),
        "a._openbio._tcp.local.b"
    );
}

#[test]
fn address_text_is_exact() {
    assert_eq!(address_text(192, 168, 1, 20, 4321), "192.168.1.20:4321");
    assert_eq!(address_text(0, 0, 0, 0, 0), "0.0.0.0:0");
    assert_eq!(address_text(255, 255, 255, 255, 65535), "255.255.255.255:65535");
    assert_eq!(address_text(10, 100, 9, 101, 1000), "10.100.9.101:1000");
}

#[test]
fn names_sort_as_strings_do() {
    let samples = ["", "a", "A", "ab", "b", "Alpha", "Zeta", "alpha", "é", "e", "日本", "z", "aa"];
    for a in samples {
        for b in samples {
            assert_eq!(sorts_before(a, b), a < b, "{:?} {:?}", a, b);
        }
    }
}

#[test]
fn advertisement_derives_name_and_host() {
    let ad = advertisement("My Lab", 3000);
    assert_eq!(ad.service_type, "_openbio._tcp.local.");
    assert_eq!(ad.instance_name, "my-lab");
    assert_eq!(ad.host_name, "my-lab.local.");
    assert_eq!(ad.port, 3000);
    let ad = advertisement("Two  Spaces X", 1);
    assert_eq!(ad.instance_name, "two--spaces-x");
    assert_eq!(ad.host_name, "two--spaces-x.local.");
    let ad = advertisement("", 0);
    assert_eq!(ad.instance_name, "");
    assert_eq!(ad.host_name, ".local.");
    let ad = advertisement("ÄB c", 0);
    assert_eq!(ad.instance_name, "äb-c");
    assert_eq!(ad.host_name, "äb-c.local.");
}

#[test]
fn scan_window() {
    assert_eq!(SCAN_TIMEOUT_MS, 5000);
    assert_eq!(POLL_INTERVAL_MS, 100);
    assert!(scan_continues(0));
    assert!(scan_continues(4999));
    assert!(!scan_continues(5000));
    assert!(!scan_continues(u64::MAX));
}

#[test]
fn advertisement_puts_the_name_in_the_local_domain() {
    let ad = advertisement_at("my-lab".to_string(), 9);
    assert_eq!(ad.service_type, "_openbio._tcp.local.");
    assert_eq!(ad.instance_name, "my-lab");
    assert_eq!(ad.host_name, "my-lab.local.");
    assert_eq!(ad.port, 9);
}

#[test]
fn scan_gives_name_and_host_with_port() {
    let events = vec![ScanEvent::ServiceResolved(ResolvedService {
        fullname: "Lab A._openbio._tcp.local.".to_string(),
        addresses: vec![
            PeerAddress::V6,
            PeerAddress::V4(10, 0, 0, 5),
            PeerAddress::V4(10, 0, 0, 6),
        ],
        port: 3000,
    })];
    assert_eq!(pairs(&scan_for_hubs(&events)), vec![pair("Lab A", "10.0.0.5:3000")]);
}
