use download_gate::config::DownloadCoordinates;
use download_gate::config::ObjectStoreConfig;
use download_gate::config::derive_config;
use download_gate::config::parse_path_style_flag;

fn base() -> ObjectStoreConfig {
    ObjectStoreConfig {
        endpoint: Some("https://s3.default.example".to_string()),
        region: Some("us-east-1".to_string()),
        force_path_style: false,
    }
}

fn coords(
    endpoint: Option<&str>,
    region: Option<&str>,
    path_style: Option<bool>,
) -> DownloadCoordinates {
    DownloadCoordinates {
        record_id: 7,
        bucket: "files".to_string(),
        object_key: "report.pdf".to_string(),
        download_filename: "Q1 Report.pdf".to_string(),
        endpoint_override: endpoint.map(|s| s.to_string()),
        region_override: region.map(|s| s.to_string()),
        path_style_override: path_style,
    }
}

#[test]
fn derive_with_all_overrides() {
    let c = coords(Some("https://tenant.example"), Some("eu-west-1"), Some(true));
    let derived = derive_config(&base(), &c);
    assert_eq!(derived.endpoint.as_deref(), Some("https://tenant.example"));
    assert_eq!(derived.region.as_deref(), Some("eu-west-1"));
    assert!(derived.force_path_style);
}

#[test]
fn derive_with_no_overrides_inherits_base() {
    let c = coords(None, None, None);
    let derived = derive_config(&base(), &c);
    assert_eq!(derived.endpoint.as_deref(), Some("https://s3.default.example"));
    assert_eq!(derived.region.as_deref(), Some("us-east-1"));
    assert!(!derived.force_path_style);
}

#[test]
fn derive_endpoint_override_alone() {
    let c = coords(Some("https://tenant.example"), None, None);
    let derived = derive_config(&base(), &c);
    assert_eq!(derived.endpoint.as_deref(), Some("https://tenant.example"));
    assert_eq!(derived.region.as_deref(), Some("us-east-1"));
    assert!(!derived.force_path_style);
}

#[test]
fn derive_region_override_alone() {
    let c = coords(None, Some("ap-south-1"), None);
    let derived = derive_config(&base(), &c);
    assert_eq!(derived.endpoint.as_deref(), Some("https://s3.default.example"));
    assert_eq!(derived.region.as_deref(), Some("ap-south-1"));
    assert!(!derived.force_path_style);
}

#[test]
fn derive_path_style_override_alone() {
    let c = coords(None, None, Some(true));
    let derived = derive_config(&base(), &c);
    assert_eq!(derived.endpoint.as_deref(), Some("https://s3.default.example"));
    assert_eq!(derived.region.as_deref(), Some("us-east-1"));
    assert!(derived.force_path_style);
}

#[test]
fn derive_is_repeatable() {
    let c = coords(Some("https://tenant.example"), None, Some(true));
    let b = base();
    let first = derive_config(&b, &c);
    let second = derive_config(&b, &c);
    assert_eq!(first.endpoint, second.endpoint);
    assert_eq!(first.region, second.region);
    assert_eq!(first.force_path_style, second.force_path_style);
    // the shared base is untouched
    assert_eq!(b.endpoint.as_deref(), Some("https://s3.default.example"));
}

#[test]
fn path_style_flag_accepted_spellings() {
    assert!(parse_path_style_flag("true"));
    assert!(parse_path_style_flag("TRUE"));
    assert!(parse_path_style_flag("1"));
}

#[test]
fn path_style_flag_rejected_spellings() {
    assert!(!parse_path_style_flag("false"));
    assert!(!parse_path_style_flag("True"));
    assert!(!parse_path_style_flag("0"));
    assert!(!parse_path_style_flag(""));
    assert!(!parse_path_style_flag("true "));
}
