use libp2p::multiaddr::Protocol;
use libp2p::{identity::Keypair, Multiaddr};
use whoami::{address_from_url, extract_peer_id, from_url, FromUrlErr, UrlParts};

fn peer_text() -> String {
    Keypair::generate_ed25519().public().to_peer_id().to_base58()
}

fn addr(text: &str) -> Multiaddr {
    text.parse().unwrap()
}

#[test]
fn ip_port_and_peer() {
    let p = peer_text();
    let r = from_url("whoami", &format!("whoami://127.0.0.1:5000/p2p/{p}"), false, 4040);
    assert_eq!(r.unwrap(), addr(&format!("/ip4/127.0.0.1/tcp/5000/p2p/{p}")));
}

#[test]
fn default_port_when_none_given() {
    let p = peer_text();
    let r = from_url("whoami", &format!("whoami://10.0.0.7/p2p/{p}"), false, 4040);
    assert_eq!(r.unwrap(), addr(&format!("/ip4/10.0.0.7/tcp/4040/p2p/{p}")));
}

#[test]
fn host_name_becomes_dns() {
    let r = from_url("whoami", "whoami://example.com:1234", false, 4040);
    assert_eq!(r.unwrap(), addr("/dns/example.com/tcp/1234"));
    let r = from_url("whoami", "whoami://example.com/", false, 9);
    assert_eq!(r.unwrap(), addr("/dns/example.com/tcp/9"));
}

#[test]
fn bracketed_ipv6_host_is_a_dns_name() {
    let r = from_url("whoami", "whoami://[::1]:4040", false, 1).unwrap();
    let mut expected = Multiaddr::empty();
    expected.push(Protocol::Dns("[::1]".into()));
    expected.push(Protocol::Tcp(4040));
    assert_eq!(r, expected);
}

#[test]
fn wrong_scheme() {
    assert_eq!(from_url("whoami", "http://127.0.0.1:80", false, 4040).unwrap_err(), FromUrlErr::UnsupportedScheme);
    assert_eq!(from_url("whoami", "WHOAMI2://1.2.3.4", true, 4040).unwrap_err(), FromUrlErr::UnsupportedScheme);
}

#[test]
fn not_a_url() {
    assert_eq!(from_url("whoami", "127.0.0.1:4040", false, 4040).unwrap_err(), FromUrlErr::BadUrl);
    assert_eq!(from_url("whoami", "no url at all", false, 4040).unwrap_err(), FromUrlErr::BadUrl);
    assert_eq!(from_url("whoami", "", true, 4040).unwrap_err(), FromUrlErr::BadUrl);
}

#[test]
fn no_host_is_bad_url() {
    assert_eq!(from_url("whoami", "whoami:/p2p/x", true, 4040).unwrap_err(), FromUrlErr::BadUrl);
}

#[test]
fn extras_lose_information_unless_lossy() {
    let u = "whoami://user:pw@1.2.3.4:7?q=1#f";
    assert_eq!(from_url("whoami", u, false, 4040).unwrap_err(), FromUrlErr::InformationLoss);
    assert_eq!(from_url("whoami", u, true, 4040).unwrap(), addr("/ip4/1.2.3.4/tcp/7"));
    assert_eq!(from_url("whoami", "whoami://1.2.3.4?x", false, 4040).unwrap_err(), FromUrlErr::InformationLoss);
    assert_eq!(from_url("whoami", "whoami://1.2.3.4#x", false, 4040).unwrap_err(), FromUrlErr::InformationLoss);
    assert_eq!(from_url("whoami", "whoami://u@1.2.3.4", false, 4040).unwrap_err(), FromUrlErr::InformationLoss);
}

#[test]
fn other_path_loses_information_unless_lossy() {
    assert_eq!(from_url("whoami", "whoami://1.2.3.4/other", false, 4040).unwrap_err(), FromUrlErr::InformationLoss);
    assert_eq!(from_url("whoami", "whoami://1.2.3.4/other", true, 4040).unwrap(), addr("/ip4/1.2.3.4/tcp/4040"));
    assert_eq!(from_url("whoami", "whoami://1.2.3.4/p2p/notapeer", false, 4040).unwrap_err(), FromUrlErr::InformationLoss);
    assert_eq!(from_url("whoami", "whoami://1.2.3.4/p2p/notapeer", true, 4040).unwrap(), addr("/ip4/1.2.3.4/tcp/4040"));
}

#[test]
fn lossy_gives_what_strict_gives() {
    let p = peer_text();
    let u = format!("whoami://8.8.8.8:53/p2p/{p}");
    assert_eq!(from_url("whoami", &u, false, 1).unwrap(), from_url("whoami", &u, true, 1).unwrap());
}

#[test]
fn extract_peer_id_forms() {
    let p = peer_text();
    assert_eq!(extract_peer_id(&format!("/p2p/{p}")), Some(p.as_str()));
    assert_eq!(extract_peer_id(&format!("p2p/{p}/")), Some(p.as_str()));
    assert_eq!(extract_peer_id(&format!("//p2p//{p}")), Some(p.as_str()));
    assert_eq!(extract_peer_id("/p2p"), None);
    assert_eq!(extract_peer_id(&format!("/p2p/{p}/x")), None);
    assert_eq!(extract_peer_id(&format!("/ip4/{p}")), None);
    assert_eq!(extract_peer_id("/p2p/nope"), None);
    assert_eq!(extract_peer_id(""), None);
}

#[test]
fn parts_to_address() {
    let parts = UrlParts {
        scheme: "whoami".to_string(),
        username: String::new(),
        password: None,
        host: Some("192.168.1.2".to_string()),
        port: None,
        path: "/".to_string(),
        query: None,
        fragment: None,
    };
    assert_eq!(address_from_url("whoami", &parts, false, 80).unwrap(), addr("/ip4/192.168.1.2/tcp/80"));
    let mut no_host = parts.clone();
    no_host.host = None;
    assert_eq!(address_from_url("whoami", &no_host, true, 80).unwrap_err(), FromUrlErr::BadUrl);
    let mut v6 = parts.clone();
    v6.host = Some("::1".to_string());
    assert_eq!(address_from_url("whoami", &v6, false, 80).unwrap(), addr("/ip6/::1/tcp/80"));
    assert_eq!(address_from_url("other", &parts, false, 80).unwrap_err(), FromUrlErr::UnsupportedScheme);
}

#[test]
fn p2p_path_of_any_peer_id_gives_it_back() {
    for _ in 0..8 {
        let p = peer_text();
        assert_eq!(extract_peer_id(&format!("/p2p/{p}")), Some(p.as_str()));
    }
}
