use kudo::external_api::instance::service::InstanceService;
use kudo::internal_etcd::interface::{
    all_values, first_value, key_found, paginate, KeyValue, LookupError, PaginateRequest,
    PaginateResult,
};
use kudo::net::{decimal_string, ipv4_to_string, next_ip, socket_addr_to_string, Ipv4Addr, SocketAddrV4};

fn kv(key: &str, value: &str) -> KeyValue {
    KeyValue { key: key.as_bytes().to_vec(), value: value.as_bytes().to_vec() }
}

#[test]
fn decimal_text_of_numbers() {
    assert_eq!(decimal_string(0), "0");
    assert_eq!(decimal_string(7), "7");
    assert_eq!(decimal_string(10), "10");
    assert_eq!(decimal_string(665), "665");
    assert_eq!(decimal_string(u64::MAX), u64::MAX.to_string());
}

#[test]
fn socket_address_text() {
    let addr = SocketAddrV4::new(Ipv4Addr::new(10, 0, 0, 1), 0);
    assert_eq!(socket_addr_to_string(&addr), "10.0.0.1:0");
    let addr = SocketAddrV4::new(Ipv4Addr::new(192, 168, 255, 7), 8080);
    assert_eq!(socket_addr_to_string(&addr), "192.168.255.7:8080");
    assert_eq!(ipv4_to_string(&Ipv4Addr::new(0, 0, 0, 0)), "0.0.0.0");
}

#[test]
fn next_ip_carries_over_octets() {
    assert_eq!(next_ip(&Ipv4Addr::new(10, 0, 0, 1)), Ipv4Addr::new(10, 0, 0, 2));
    assert_eq!(next_ip(&Ipv4Addr::new(10, 0, 0, 255)), Ipv4Addr::new(10, 0, 1, 0));
    assert_eq!(next_ip(&Ipv4Addr::new(10, 0, 255, 255)), Ipv4Addr::new(10, 1, 0, 0));
    assert_eq!(next_ip(&Ipv4Addr::new(10, 255, 255, 255)), Ipv4Addr::new(10, 0, 0, 0));
}

#[test]
fn generate_ip_starts_at_default_and_keeps_port() {
    let service = InstanceService::new();
    let first = service.generate_ip(None);
    assert_eq!(first, SocketAddrV4::new(Ipv4Addr::new(10, 0, 0, 1), 0));
    let second = service.generate_ip(Some(first));
    assert_eq!(second, SocketAddrV4::new(Ipv4Addr::new(10, 0, 0, 2), 0));
    let other = service.generate_ip(Some(SocketAddrV4::new(Ipv4Addr::new(10, 0, 0, 255), 80)));
    assert_eq!(other, SocketAddrV4::new(Ipv4Addr::new(10, 0, 1, 0), 80));
}

#[test]
fn allocated_addresses_do_not_repeat() {
    let service = InstanceService::new();
    let mut seen = std::collections::HashSet::new();
    let mut last = None;
    for _ in 0..70000 {
        let addr = service.generate_ip(last);
        assert!(seen.insert(addr));
        last = Some(addr);
    }
}

#[test]
fn read_gives_back_the_stored_value() {
    assert_eq!(first_value(&vec![kv("foo", "bar")]).unwrap(), "bar");
    assert_eq!(first_value(&vec![kv("foo", "baz")]).unwrap(), "baz");
    assert_eq!(first_value(&vec![]).unwrap_err(), LookupError::KeyNotFound);
    let bad = KeyValue { key: b"k".to_vec(), value: vec![0xff, 0xfe] };
    assert_eq!(first_value(&vec![bad]).unwrap_err(), LookupError::InvalidUtf8);
}

#[test]
fn delete_of_missing_key_fails() {
    assert_eq!(key_found(&vec![]), Err(LookupError::KeyNotFound));
    assert_eq!(key_found(&vec![kv("foo", "bar")]), Ok(()));
}

#[test]
fn listing_reads_values_in_order() {
    let values = all_values(&vec![kv("bar", "foo"), kv("hello", "world")]).unwrap();
    assert_eq!(values[0], "foo");
    assert_eq!(values[1], "world");
    let bad = KeyValue { key: b"k".to_vec(), value: vec![0xc0] };
    assert_eq!(all_values(&vec![kv("a", "b"), bad]).unwrap_err(), LookupError::InvalidUtf8);
}

#[test]
fn paginate_whole_listing_on_one_page() {
    let kvs = vec![kv("bar", "foo"), kv("foo", "bar"), kv("hello", "world")];
    let paginate_result = paginate(&kvs, &PaginateRequest::new(5, 1)).unwrap();
    assert_eq!(paginate_result.count, 3);
    assert_eq!(paginate_result.values[0], "foo");
    assert_eq!(paginate_result.values[1], "bar");
    assert_eq!(paginate_result.values[2], "world");
}

#[test]
fn paginate_pages() {
    let kvs = vec![kv("a", "1"), kv("b", "2"), kv("c", "3"), kv("d", "4"), kv("e", "5")];
    let page1 = paginate(&kvs, &PaginateRequest::new(2, 1)).unwrap();
    assert_eq!(page1.get_values(), &vec!["1".to_string(), "2".to_string()]);
    assert_eq!(page1.get_count(), 5);
    let page0 = paginate(&kvs, &PaginateRequest::new(2, 0)).unwrap();
    assert_eq!(page0.get_values(), page1.get_values());
    let page3 = paginate(&kvs, &PaginateRequest::new(2, 3)).unwrap();
    assert_eq!(page3.get_values(), &vec!["5".to_string()]);
    let page9 = paginate(&kvs, &PaginateRequest::new(2, 9)).unwrap();
    assert!(page9.get_values().is_empty());
    assert_eq!(page9.get_count(), 5);
    let zero = paginate(&kvs, &PaginateRequest::new(0, 4)).unwrap();
    assert!(zero.get_values().is_empty());
}

#[test]
fn paginate_fails_only_on_bad_values_of_the_page() {
    let bad = KeyValue { key: b"b".to_vec(), value: vec![0xff] };
    let kvs = vec![kv("a", "1"), bad, kv("c", "3")];
    assert!(paginate(&kvs, &PaginateRequest::new(1, 1)).is_ok());
    assert_eq!(paginate(&kvs, &PaginateRequest::new(1, 2)).err(), Some(LookupError::InvalidUtf8));
    assert!(paginate(&kvs, &PaginateRequest::new(1, 3)).is_ok());
}

#[test]
fn paginate_result_accumulates() {
    let mut result = PaginateResult::new(7);
    assert_eq!(result.get_count(), 7);
    assert!(result.get_values().is_empty());
    result.push("a".to_string());
    result.push("b".to_string());
    assert_eq!(result.get_values(), &vec!["a".to_string(), "b".to_string()]);
    assert_eq!(result.get_count(), 7);
}
