use fileshare::network::LanAddress;
use fileshare::server::{
    bind_error_message, primary_lan_ip, qr_svg, server_info, share_addresses, AppError,
};

fn lan(name: Option<&str>, ip: &str) -> LanAddress {
    LanAddress { name: name.map(str::to_string), ip: ip.to_string() }
}

#[test]
fn announces_every_lan_address() {
    let info = server_info(5421, &vec![lan(Some("Wi-Fi"), "192.168.1.2"), lan(None, "10.0.0.3")]).unwrap();
    assert_eq!(info.port, 5421);
    assert_eq!(info.ip, "192.168.1.2");
    assert_eq!(info.url, "http://192.168.1.2:5421");
    assert_eq!(info.addresses.len(), 2);
    assert_eq!(info.addresses[0].name.as_deref(), Some("Wi-Fi"));
    assert_eq!(info.addresses[1].name, None);
    assert_eq!(info.addresses[1].url, "http://10.0.0.3:5421");
    assert_eq!(info.qr, info.addresses[0].qr);
    assert_ne!(info.addresses[0].qr, info.addresses[1].qr);
}

#[test]
fn localhost_when_no_lan_address() {
    let info = server_info(80, &Vec::new()).unwrap();
    assert_eq!(info.addresses.len(), 1);
    assert_eq!(info.addresses[0].name.as_deref(), Some("Localhost"));
    assert_eq!(info.ip, "127.0.0.1");
    assert_eq!(info.url, "http://127.0.0.1:80");
}

#[test]
fn qr_codes_are_svg_documents() {
    let svg = qr_svg("http://192.168.1.2:5421").unwrap();
    assert!(svg.starts_with("<?xml"));
    assert!(svg.contains("<svg"));
    assert!(svg.contains("fill=\"#303133\""));
    assert!(svg.contains("fill=\"#ffffff\""));
    assert_ne!(svg, "http://192.168.1.2:5421");
}

#[test]
fn too_long_url_has_no_qr_code() {
    let huge = "x".repeat(4000);
    assert!(qr_svg(&huge).is_err());
    assert!(server_info(1, &vec![lan(None, &huge)]).is_err());
}

#[test]
fn listed_addresses_fall_back_to_the_started_address() {
    let listed = share_addresses(Vec::new(), "192.168.0.9");
    assert_eq!(listed.len(), 1);
    assert_eq!(listed[0].name, None);
    assert_eq!(listed[0].ip, "192.168.0.9");
    let found = share_addresses(vec![lan(Some("en0"), "10.1.1.1")], "192.168.0.9");
    assert_eq!(found.len(), 1);
    assert_eq!(found[0].ip, "10.1.1.1");
}

#[test]
fn primary_address() {
    assert_eq!(primary_lan_ip(&Vec::new()), "127.0.0.1");
    assert_eq!(primary_lan_ip(&vec![lan(None, "10.0.0.1"), lan(None, "10.0.0.2")]), "10.0.0.1");
}

#[test]
fn bind_errors() {
    assert_eq!(bind_error_message(false, 80, true, "in use"), "Port 80 is in use.");
    assert_eq!(bind_error_message(false, 81, false, "denied"), "Port 81 failed: denied");
    assert_eq!(bind_error_message(true, 82, false, "x"), "端口 82 启动失败：x");
}

#[test]
fn error_kinds() {
    let e = AppError::bad_request("bad".to_string());
    assert_eq!((e.status, e.message.as_str(), e.content_range), (400, "bad", None));
    let e = AppError::not_found("gone".to_string());
    assert_eq!(e.status, 404);
    let e = AppError::internal("boom".to_string());
    assert_eq!(e.status, 500);
    let e = AppError::range_not_satisfiable(false, 5);
    assert_eq!(e.status, 416);
    assert_eq!(e.message, "Invalid range. Size: 5 bytes");
    assert_eq!(e.content_range.as_deref(), Some("bytes */5"));
}
