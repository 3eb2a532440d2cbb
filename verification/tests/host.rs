use moonshine::config::{ApplicationScannerConfig, Config};
use moonshine::discovery::{advertise_mode, auto_service_interfaces, hostname, Advertise, ServiceInterface};
use moonshine::webserver::addresses::{Interface, Ip};

#[test]
fn unspecified_ipv6_advertises_all() {
    // "::"
    assert_eq!(advertise_mode(Some(Ip::V6(0))), Advertise::All);
}

#[test]
fn unspecified_ipv4_advertises_ipv4_only() {
    // "0.0.0.0"
    assert_eq!(advertise_mode(Some(Ip::V4(0))), Advertise::Ipv4Only);
}

#[test]
fn specific_ipv4_is_fixed() {
    // "192.168.1.5"
    let ip = Ip::V4(192 << 24 | 168 << 16 | 1 << 8 | 5);
    assert_eq!(advertise_mode(Some(ip)), Advertise::Fixed(ip));
}

#[test]
fn specific_ipv6_is_fixed() {
    // "fd12:3456::1"
    let ip = Ip::V6(0xfd12_3456 << 96 | 1);
    assert_eq!(advertise_mode(Some(ip)), Advertise::Fixed(ip));
}

#[test]
fn hostname_falls_back_to_all() {
    // "localhost" is no address.
    assert_eq!(advertise_mode(None), Advertise::All);
}

#[test]
fn the_host_is_advertised_under_a_name_of_its_own() {
    assert_eq!(hostname("box.example.org"), "box-moonshine.local.");
    assert_eq!(hostname("box"), "box-moonshine.local.");
    assert_eq!(hostname(""), "-moonshine.local.");
}

fn interface(index: u32, internal: bool, addresses: Vec<Ip>) -> Interface {
    Interface { addresses, mac: None, index, internal }
}

#[test]
fn only_interfaces_that_lead_out_are_used() {
    let interfaces = vec![
        interface(1, true, vec![Ip::V4(0x7f00_0001)]),
        interface(2, false, vec![Ip::V6(5), Ip::V4(0x0a00_0001), Ip::V4(0x0a00_0002)]),
        interface(3, false, vec![Ip::V4(0x7f00_0001), Ip::V6(1)]),
        interface(4, false, vec![Ip::V4(0x0a00_0003)]),
        interface(2, false, vec![Ip::V4(0x0a00_0004)]),
    ];
    assert_eq!(
        auto_service_interfaces(Some(&interfaces), true),
        vec![ServiceInterface::IndexV4(2), ServiceInterface::IndexV4(4), ServiceInterface::IndexV6(2)]
    );
    assert_eq!(
        auto_service_interfaces(Some(&interfaces), false),
        vec![ServiceInterface::IndexV4(2), ServiceInterface::IndexV4(4)]
    );
    assert_eq!(auto_service_interfaces(None, true), vec![ServiceInterface::All]);
    assert_eq!(auto_service_interfaces(Some(&vec![]), false), vec![ServiceInterface::Ipv4]);
}

#[test]
fn the_first_configuration_offers_steam() {
    let config = Config::initial("/c.pem".to_string(), "/k.pem".to_string());
    assert_eq!(config.name, "Moonshine");
    assert_eq!(config.address, "0.0.0.0");
    assert_eq!(config.certificate, "/c.pem");
    assert_eq!(config.private_key, "/k.pem");
    assert_eq!(config.applications.len(), 1);
    assert_eq!(config.applications[0].title, "Steam");
    assert_eq!(config.applications[0].command, vec!["/usr/bin/steam", "steam://open/bigpicture"]);
    assert_eq!(config.applications[0].launch_timeout_secs, 2);
    assert_eq!(config.application_scanners.len(), 1);
    match &config.application_scanners[0] {
        ApplicationScannerConfig::Steam(steam) => {
            assert_eq!(steam.library, "$HOME/.local/share/Steam");
            assert_eq!(steam.command, vec!["/usr/bin/steam", "-bigpicture", "steam://rungameid/{game_id}"]);
        }
        other => panic!("{other:?}"),
    }
}

#[test]
fn both_paths_have_to_be_expanded() {
    let fresh = || Config::initial("~/c".to_string(), "~/k".to_string());
    let mut config = fresh();
    assert!(config.resolve_paths(Some("/h/c".to_string()), Some("/h/k".to_string())).is_ok());
    assert_eq!((config.certificate.as_str(), config.private_key.as_str()), ("/h/c", "/h/k"));
    let mut config = fresh();
    assert!(config.resolve_paths(Some("/h/c".to_string()), None).is_err());
    assert_eq!((config.certificate.as_str(), config.private_key.as_str()), ("/h/c", "~/k"));
    let mut config = fresh();
    assert!(config.resolve_paths(None, Some("/h/k".to_string())).is_err());
    assert_eq!((config.certificate.as_str(), config.private_key.as_str()), ("~/c", "~/k"));
}
