use openbio::ports::{find_available_port, PORT_RANGE};
use std::cell::Cell;

#[test]
fn free_preferred_port_is_taken() {
    assert_eq!(find_available_port(3000, |_| true), 3000);
}

#[test]
fn occupied_preferred_port_gives_the_next_free_one() {
    let port = find_available_port(3000, |p| p != 3000);
    assert_eq!(port, 3001);
    let port = find_available_port(3000, |p| p >= 3042);
    assert_eq!(port, 3042);
    let port = find_available_port(3000, |p| p == 3099);
    assert_eq!(port, 3099);
}

#[test]
fn all_hundred_occupied_gives_the_preferred_port() {
    let probes = Cell::new(0u32);
    let port = find_available_port(3000, |_| {
        probes.set(probes.get() + 1);
        false
    });
    assert_eq!(port, 3000);
    assert_eq!(probes.get(), 100);
    assert_eq!(PORT_RANGE, 100);
}

#[test]
fn a_free_port_behind_the_range_is_not_found() {
    assert_eq!(find_available_port(3000, |p| p == 3100), 3000);
}

#[test]
fn probing_goes_in_rising_order_and_stops_at_the_first_free_port() {
    let seen = std::cell::RefCell::new(Vec::new());
    let port = find_available_port(8000, |p| {
        seen.borrow_mut().push(p);
        p == 8003
    });
    assert_eq!(port, 8003);
    assert_eq!(*seen.borrow(), vec![8000, 8001, 8002, 8003]);
}

#[test]
fn probing_ends_with_the_last_port_there_is() {
    let probes = Cell::new(0u32);
    let port = find_available_port(65500, |_| {
        probes.set(probes.get() + 1);
        false
    });
    assert_eq!(port, 65500);
    assert_eq!(probes.get(), 36);
    assert_eq!(find_available_port(65535, |_| true), 65535);
    assert_eq!(find_available_port(65535, |_| false), 65535);
    assert_eq!(find_available_port(65436, |p| p == 65535), 65535);
    assert_eq!(find_available_port(0, |p| p == 99), 99);
}
