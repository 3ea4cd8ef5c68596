use shadowguessr::api::{metadata_url, ApiError, ApiResponse, ApiStatus, Location};
use shadowguessr::info::{InfoPage, SemVersion};
use shadowguessr::settings::{Config, LogLevel, RuntimeSettings, SettingsPage, Theme};

fn config() -> Config {
    Config {
        map_api_key: "SECRET-REDACTED".to_string(),
        interface: "wlan0".to_string(),
        keylog_path: "/tmp/shadow_keys.log".to_string(),
        log_level: LogLevel::Info,
        theme: Theme::Dark,
    }
}

#[test]
fn settings_from_config_and_back() {
    let c = config();
    let settings = RuntimeSettings::from(&c);
    assert_eq!(settings.map_api_key, "SECRET-REDACTED");
    assert_eq!(settings.interface, "wlan0");
    assert_eq!(settings.keylog_path, "/tmp/shadow_keys.log");
    assert_eq!(settings.log_level, LogLevel::Info);
    assert_eq!(settings.theme, Theme::Dark);
    assert_eq!(Config::from(&settings), c);
}

#[test]
fn settings_page_starts_synchronized() {
    let settings = RuntimeSettings::from(&config());
    let page = SettingsPage::new(&settings);
    assert!(page.is_map_api_key_synchronized(&settings));
    assert!(page.is_interface_synchronized(&settings));
    assert!(page.is_keylog_path_synchronized(&settings));
    assert!(page.is_log_level_synchronized(&settings));
    assert!(page.is_theme_synchronized(&settings));
    assert!(!page.api_key_shown);
}

#[test]
fn settings_page_edit_revert_save() {
    let mut settings = RuntimeSettings::from(&config());
    let mut page = SettingsPage::new(&settings);
    page.interface = "eth0".to_string();
    page.log_level = LogLevel::Trace;
    page.theme = Theme::Light;
    assert!(!page.is_interface_synchronized(&settings));
    assert!(!page.is_log_level_synchronized(&settings));
    assert!(!page.is_theme_synchronized(&settings));
    page.revert_theme(&settings);
    assert!(page.is_theme_synchronized(&settings));
    assert_eq!(page.interface, "eth0");
    page.save(&mut settings);
    assert_eq!(settings.interface, "eth0");
    assert_eq!(settings.log_level, LogLevel::Trace);
    assert_eq!(settings.theme, Theme::Dark);
    assert!(page.is_interface_synchronized(&settings));
}

#[test]
fn settings_page_revert_each_field() {
    let settings = RuntimeSettings::from(&config());
    let mut page = SettingsPage::new(&settings);
    page.map_api_key = "other".to_string();
    page.keylog_path = "/other".to_string();
    page.revert_map_api_key(&settings);
    assert_eq!(page.map_api_key, "SECRET-REDACTED");
    assert_eq!(page.keylog_path, "/other");
    page.revert_keylog_path(&settings);
    page.interface = "x".to_string();
    page.revert_interface(&settings);
    page.log_level = LogLevel::Off;
    page.revert_log_level(&settings);
    assert_eq!(page, SettingsPage::new(&settings));
}

#[test]
fn settings_page_toggle_key() {
    let settings = RuntimeSettings::from(&config());
    let mut page = SettingsPage::new(&settings);
    page.toggle_api_key_shown();
    assert!(page.api_key_shown);
    page.toggle_api_key_shown();
    assert_eq!(page, SettingsPage::new(&settings));
}

#[test]
fn api_status_text() {
    assert_eq!(ApiStatus::Okay.to_string(), "OK");
    assert_eq!(ApiStatus::ZeroResults.to_string(), "ZERO_RESULTS");
}

#[test]
fn api_metadata_url() {
    assert_eq!(
        metadata_url("KEY", "N2Jh72auA8JLpjP0oJPN6w"),
        "https://maps.googleapis.com/maps/api/streetview/metadata?pano=N2Jh72auA8JLpjP0oJPN6w&key=KEY"
    );
}

fn response(status: &str, location: Option<Location>) -> ApiResponse {
    ApiResponse {
        status: status.to_string(),
        copyright: Some("© Google".to_string()),
        date: None,
        pano_id: None,
        location,
    }
}

#[test]
fn api_response_statuses() {
    let l = Location { latitude: 37.826655f64.to_bits(), longitude: (-122.42289f64).to_bits() };
    assert_eq!(response("OK", Some(l)).into_location(), Ok(Some(l)));
    assert_eq!(response("OK", None).into_location(), Ok(None));
    assert_eq!(response("ZERO_RESULTS", Some(l)).into_location(), Ok(None));
    assert_eq!(
        response("REQUEST_DENIED", Some(l)).into_location(),
        Err(ApiError::BadStatus("REQUEST_DENIED".to_string()))
    );
    assert_eq!(
        response("ok", None).into_location(),
        Err(ApiError::BadStatus("ok".to_string()))
    );
}

#[test]
fn info_page_version() {
    let page = InfoPage::with_version_text("1.2.3-beta.1+build5");
    assert_eq!(
        page.version,
        SemVersion {
            major: 1,
            minor: 2,
            patch: 3,
            pre: "beta.1".to_string(),
            build: "build5".to_string(),
        }
    );
}

#[test]
fn info_page_fallback_version() {
    let fallback = SemVersion { major: 0, minor: 0, patch: 1, pre: String::new(), build: String::new() };
    assert_eq!(InfoPage::with_version_text("not a version").version, fallback);
    assert_eq!(InfoPage::with_version_text("1.2").version, fallback);
    assert_eq!(InfoPage::from_parsed(None).version, fallback);
}
