use ddns_sandbox::config::{
    ClientConfig, GeneralConfig, HttpConfig, MiscConfig, RefreshConfig, Zone, ZoneError,
};
use ddns_sandbox::entity::{OneOrLen, PatchResponse, StrOrBytes, UpdateError};
use ddns_sandbox::time::{Time, TimeError};

#[test]
fn zone_keeps_ascii_names() {
    let zone = Zone::new(String::from("zone-id"), "example.com", true).unwrap();
    assert_eq!(zone.id(), "zone-id");
    assert_eq!(zone.record(), "example.com");
    assert!(zone.proxied());
}

#[test]
fn zone_brings_names_into_ascii() {
    let zone = Zone::new(String::from("z"), "B\u{fc}cher.Example", false).unwrap();
    assert_eq!(zone.record(), "xn--bcher-kva.example");
    assert!(!zone.proxied());
}

#[test]
fn zone_refuses_what_is_no_domain() {
    assert_eq!(Zone::new(String::from("z"), "xn--a.example", false), Err(ZoneError::InvalidDomain));
    assert_eq!(Zone::from_ascii(String::from("z"), None, false), Err(ZoneError::InvalidDomain));
    let zone = Zone::from_ascii(String::from("z"), Some(String::from("a.example")), true).unwrap();
    assert_eq!(zone.record(), "a.example");
}

#[test]
fn client_defaults() {
    let cfg = ClientConfig::default();
    assert_eq!(cfg.max_retries(), 5);
    assert_eq!(cfg.retry_interval(), Time::from_secs(30));
    assert_eq!(cfg.timeout(), Time::from_secs(30));
    assert_eq!(cfg.max_idle_per_host(), usize::MAX);
    assert_eq!(cfg, ClientConfig::new(None, None, None, None));
    assert_eq!(ClientConfig::default_max_retries(), 5);
    assert_eq!(ClientConfig::default_timeout().as_secs(), 30);
    assert_eq!(ClientConfig::default_max_idle_per_host(), usize::MAX);
}

#[test]
fn client_settings_override_defaults() {
    let cfg = ClientConfig::new(Some(0), Some(Time::from_secs(1)), Some(Time::from_secs(2)), Some(3));
    assert_eq!(cfg.max_retries(), 0);
    assert_eq!(cfg.retry_interval().as_secs(), 1);
    assert_eq!(cfg.timeout().as_secs(), 2);
    assert_eq!(cfg.max_idle_per_host(), 3);
    let http = HttpConfig::new(cfg);
    assert_eq!(http.client().max_idle_per_host(), 3);
}

#[test]
fn refresh_and_general_settings() {
    let refresh = RefreshConfig::new(None, None);
    assert_eq!(refresh.interval().as_secs(), 3600);
    assert!(refresh.network_detection());
    assert_eq!(RefreshConfig::default_interval(), Time::from_secs(3600));
    assert!(RefreshConfig::default_network_detection());
    let refresh = RefreshConfig::new(Some(Time::from_secs(5)), Some(false));
    assert_eq!(refresh.interval().as_secs(), 5);
    assert!(!refresh.network_detection());
    assert_eq!(GeneralConfig::new(Some(0)), None);
    assert_eq!(GeneralConfig::new(None).unwrap().max_errors(), 5);
    assert_eq!(GeneralConfig::default_max_errors(), 5);
    let general = GeneralConfig::new(Some(9)).unwrap();
    assert_eq!(general.max_errors(), 9);
    let misc = MiscConfig::new(refresh, general);
    assert_eq!(misc.refresh().interval().as_secs(), 5);
    assert_eq!(misc.general().max_errors(), 9);
}

#[test]
fn time_of_day_is_a_span() {
    let t = Time::from_hms(1, 2, 3, 4);
    assert_eq!(t.as_secs(), 3723);
    assert_eq!(t.subsec_nanos(), 4);
    let t = Time::from_hms(255, 255, 255, 4_000_000_001);
    assert_eq!(t.as_secs(), 255 * 3600 + 255 * 60 + 255 + 4);
    assert_eq!(t.subsec_nanos(), 1);
    assert_eq!(Time::from_datetime(false, Some((0, 0, 30, 500)), false), Ok(Time::from_hms(0, 0, 30, 500)));
    let t = Time::from_datetime(false, Some((0, 0, 10, 0)), false).unwrap();
    assert_eq!((t.as_secs(), t.subsec_nanos()), (10, 0));
    let t = Time::from_datetime(false, Some((23, 59, 59, 999_999_999)), false).unwrap();
    assert_eq!((t.as_secs(), t.subsec_nanos()), (86_399, 999_999_999));
    assert_eq!(Time::from_datetime(true, Some((0, 0, 30, 0)), false), Err(TimeError::NotATime));
    assert_eq!(Time::from_datetime(false, Some((0, 0, 30, 0)), true), Err(TimeError::NotATime));
    assert_eq!(Time::from_datetime(false, None, false), Err(TimeError::NotATime));
    assert!(Time::from_secs(1) < Time::from_hms(0, 0, 1, 1));
}

#[test]
fn one_or_len_counts() {
    assert_eq!(OneOrLen::from_items(vec!["only"]), OneOrLen::One("only"));
    assert_eq!(OneOrLen::from_items(Vec::<u8>::new()), OneOrLen::Len(0));
    assert_eq!(OneOrLen::from_items(vec![1, 2, 3]), OneOrLen::Len(3));
}

#[test]
fn small_entities() {
    assert!(PatchResponse { success: true }.success);
    assert_eq!(StrOrBytes::from_text("h\u{e9}").as_bytes(), &[b'h', 0xc3, 0xa9]);
    assert_eq!(StrOrBytes(vec![1, 2]).as_bytes(), &[1, 2]);
    assert_eq!(UpdateError.message(), "updater disconnected from update manager");
}
