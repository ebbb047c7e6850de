use ureq_core::buffers::Buffers;
use ureq_core::error::Error;
use ureq_core::resolver::{IpFamily, SocketAddr};

fn v4(n: u8) -> SocketAddr {
    SocketAddr::V4 {
        octets: [10, 0, 0, n],
        port: 80,
    }
}

fn v6(n: u16) -> SocketAddr {
    SocketAddr::V6 {
        segments: [0xfe80, 0, 0, 0, 0, 0, 0, n],
        port: 80,
    }
}

#[test]
fn any_family_keeps_the_order_of_the_lookup() {
    let addrs = vec![v6(1), v4(1), v6(2), v4(2)];
    assert_eq!(IpFamily::Any.keep_wanted(addrs.clone()), addrs);
}

#[test]
fn ipv4_only_keeps_ipv4() {
    let addrs = vec![v6(1), v4(1), v6(2), v4(2)];
    assert_eq!(IpFamily::Ipv4Only.keep_wanted(addrs), vec![v4(1), v4(2)]);
}

#[test]
fn ipv6_only_keeps_ipv6() {
    let addrs = vec![v6(1), v4(1), v6(2), v4(2)];
    assert_eq!(IpFamily::Ipv6Only.keep_wanted(addrs), vec![v6(1), v6(2)]);
}

#[test]
fn ipv6_then_ipv4_puts_ipv6_first() {
    let addrs = vec![v4(1), v6(1), v4(2), v6(2)];
    assert_eq!(
        IpFamily::Ipv6ThenIpv4.keep_wanted(addrs),
        vec![v6(1), v6(2), v4(1), v4(2)]
    );
}

#[test]
fn ipv4_then_ipv6_puts_ipv4_first() {
    let addrs = vec![v6(1), v4(1), v6(2), v4(2)];
    assert_eq!(
        IpFamily::Ipv4ThenIpv6.keep_wanted(addrs),
        vec![v4(1), v4(2), v6(1), v6(2)]
    );
}

#[test]
fn lookup_without_a_wanted_address_is_a_dns_error() {
    assert!(matches!(
        IpFamily::Any.resolved(Vec::new()),
        Err(Error::Dns)
    ));
    assert!(matches!(
        IpFamily::Ipv6Only.resolved(vec![v4(1), v4(2)]),
        Err(Error::Dns)
    ));
    assert_eq!(
        IpFamily::Ipv4Only.resolved(vec![v6(1), v4(7)]).unwrap(),
        vec![v4(7)]
    );
}

#[test]
fn input_is_consumed_from_the_front() {
    let mut b = Buffers::new(8, 8);
    assert_eq!(b.input(), b"");
    assert_eq!(b.fill_input(b"hello"), 5);
    assert_eq!(b.input(), b"hello");
    b.consume_input(2);
    assert_eq!(b.input(), b"llo");
    b.consume_input(0);
    assert_eq!(b.input(), b"llo");
    b.consume_input(3);
    assert_eq!(b.input(), b"");
}

#[test]
fn input_takes_no_more_than_its_size() {
    let mut b = Buffers::new(8, 8);
    assert_eq!(b.fill_input(b"0123456789"), 8);
    assert_eq!(b.input(), b"01234567");
    assert_eq!(b.fill_input(b"x"), 0);
    b.consume_input(3);
    assert_eq!(b.fill_input(b"abcdef"), 3);
    assert_eq!(b.input(), b"34567abc");
}

#[test]
fn output_is_held_until_it_is_flushed() {
    let mut b = Buffers::new(4, 6);
    assert_eq!(b.write(b"GET "), 4);
    assert_eq!(b.write(b"/ HTTP"), 2);
    assert_eq!(b.flush(), b"GET / ".to_vec());
    assert_eq!(b.flush(), Vec::<u8>::new());
    assert_eq!(b.write(b"HTTP"), 4);
    assert_eq!(b.flush(), b"HTTP".to_vec());
}

#[test]
fn buffers_of_size_zero_take_nothing() {
    let mut b = Buffers::new(0, 0);
    assert_eq!(b.fill_input(b"a"), 0);
    assert_eq!(b.write(b"a"), 0);
    assert_eq!(b.input(), b"");
    assert!(b.flush().is_empty());
}
