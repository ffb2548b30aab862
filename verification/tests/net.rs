use hpcd::net::{lookup_first_addr, Endpoint, IpAddress, NetError, Resolution};

fn v4(a: u8, b: u8, c: u8, d: u8, port: u16) -> Endpoint {
    Endpoint { ip: IpAddress::V4([a, b, c, d]), port }
}

#[test]
fn first_resolved_endpoint_is_taken() {
    let v6 = Endpoint { ip: IpAddress::V6([0, 0, 0, 0, 0, 0, 0, 0, 0, 0, 0, 0, 0, 0, 0, 1]), port: 22 };
    let r = lookup_first_addr("login", Resolution::Resolved(vec![v4(10, 0, 0, 7, 22), v6]));
    assert_eq!(r, Ok(v4(10, 0, 0, 7, 22)));
    let r = lookup_first_addr("login", Resolution::Resolved(vec![v6, v4(10, 0, 0, 7, 22)]));
    assert_eq!(r, Ok(v6));
}

#[test]
fn missing_name_is_dns_not_found() {
    let r = lookup_first_addr(
        "nowhere.invalid",
        Resolution::Failed { not_found: true, cause: "no such host".to_string() },
    );
    assert_eq!(r, Err(NetError::DnsNotFound("nowhere.invalid".to_string())));
}

#[test]
fn resolver_failure_keeps_its_cause() {
    let r = lookup_first_addr(
        "login",
        Resolution::Failed { not_found: false, cause: "Kind(TimedOut)".to_string() },
    );
    assert_eq!(r, Err(NetError::Resolve("Kind(TimedOut)".to_string())));
}

#[test]
fn empty_result_is_no_addrs() {
    let r = lookup_first_addr("login", Resolution::Resolved(Vec::new()));
    assert_eq!(r, Err(NetError::NoAddrs("login".to_string())));
}

#[test]
fn net_error_messages() {
    assert_eq!(
        NetError::DnsNotFound("h.example".to_string()).message(),
        "DNS name not found for h.example"
    );
    assert_eq!(
        NetError::Resolve("Kind(TimedOut)".to_string()).message(),
        "couldn't resolve host: Kind(TimedOut)"
    );
    assert_eq!(NetError::NoAddrs("h".to_string()).message(), "no addreses resolved from h");
}
