use download_gate::config::ObjectStoreConfig;
use download_gate::settings::AccessRecord;
use download_gate::settings::DEFAULT_PRESIGNED_TTL_SECS;
use download_gate::settings::Settings;
use download_gate::settings::robots_txt;
use download_gate::settings::ttl_or_default;

#[test]
fn ttl_defaults_to_sixty_seconds() {
    assert_eq!(DEFAULT_PRESIGNED_TTL_SECS, 60);
    assert_eq!(ttl_or_default(None), 60);
    assert_eq!(ttl_or_default(Some(300)), 300);
    assert_eq!(ttl_or_default(Some(0)), 0);
}

#[test]
fn robots_disallows_everything() {
    assert_eq!(robots_txt(), " User-agent: * \n Disallow: / \n");
}

#[test]
fn settings_keep_their_fields() {
    let s = Settings::new(
        90,
        "https://home.example".to_string(),
        ObjectStoreConfig { endpoint: None, region: None, force_path_style: true },
    );
    assert_eq!(s.presigned_ttl_secs, 90);
    assert_eq!(s.redirect_homepage, "https://home.example");
    assert!(s.base_config.force_path_style);
}

#[test]
fn access_record_carries_the_client_ip() {
    let r = AccessRecord::for_client(42, "203.0.113.9".to_string());
    assert_eq!(r.record_id, 42);
    assert_eq!(r.data.len(), 1);
    assert_eq!(r.data[0].0, "client_ip");
    assert_eq!(r.data[0].1, "203.0.113.9");
}
