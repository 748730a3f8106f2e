use yt_dlp_cli::provision::{
    cache_namespace, download_url, executable_name, os_kind, supported_exec, Action, OsKind, Phase,
    ProvisionError, ProvisionEvent, Provisioner,
};

const WINDOWS_URL: &str = "https://github.com/yt-dlp/yt-dlp/releases/latest/download/yt-dlp.exe";
const LINUX_URL: &str = "https://github.com/yt-dlp/yt-dlp/releases/latest/download/yt-dlp";
const MACOS_URL: &str = "https://github.com/yt-dlp/yt-dlp/releases/latest/download/yt-dlp_macos";

fn fetch_url_of(os: OsKind) -> String {
    let mut m = Provisioner::new(os, false);
    m.step(ProvisionEvent::CacheDirReady);
    m.step(ProvisionEvent::NothingCached);
    match m.action() {
        Action::FetchBinary(url) => url,
        other => panic!("expected a fetch action, got {:?}", other),
    }
}

#[test]
fn windows_acquisition_requests_fixed_url() {
    assert_eq!(fetch_url_of(OsKind::Windows), WINDOWS_URL);
}

#[test]
fn linux_acquisition_requests_fixed_url() {
    assert_eq!(fetch_url_of(OsKind::Linux), LINUX_URL);
}

#[test]
fn macos_acquisition_requests_fixed_url() {
    assert_eq!(fetch_url_of(OsKind::Macos), MACOS_URL);
}

#[test]
fn download_url_matches_machine() {
    assert_eq!(download_url(OsKind::Windows).unwrap(), WINDOWS_URL);
    assert_eq!(download_url(OsKind::Linux).unwrap(), LINUX_URL);
    assert_eq!(download_url(OsKind::Macos).unwrap(), MACOS_URL);
    assert!(download_url(OsKind::Unrecognized).is_none());
}

#[test]
fn unrecognized_platform_fails_without_fetch() {
    let mut m = Provisioner::new(OsKind::Unrecognized, true);
    m.step(ProvisionEvent::CacheDirReady);
    m.step(ProvisionEvent::NothingCached);
    assert!(m.done());
    assert_eq!(m.failure(), Some(ProvisionError::UnsupportedPlatform));
    assert!(matches!(m.action(), Action::Fail(ProvisionError::UnsupportedPlatform)));
}

#[test]
fn update_is_attempted_before_any_download() {
    let mut m = Provisioner::new(OsKind::Linux, true);
    m.step(ProvisionEvent::CacheDirReady);
    m.step(ProvisionEvent::FoundExisting);
    assert!(matches!(m.action(), Action::RunUpdate));
    m.step(ProvisionEvent::UpdateSucceeded);
    assert!(m.done());
    assert_eq!(m.failure(), None);
    assert_eq!(m.phase, Phase::Complete { refreshed: false });
}

#[test]
fn failed_update_deletes_then_redownloads() {
    let mut m = Provisioner::new(OsKind::Linux, true);
    m.step(ProvisionEvent::CacheDirReady);
    m.step(ProvisionEvent::FoundExisting);
    m.step(ProvisionEvent::UpdateFailed);
    assert!(matches!(m.action(), Action::DeleteStale));
    m.step(ProvisionEvent::StaleRemoved);
    assert!(!m.cached_present);
    match m.action() {
        Action::FetchBinary(url) => assert_eq!(url, LINUX_URL),
        other => panic!("expected a fetch action, got {:?}", other),
    }
    m.step(ProvisionEvent::FetchSucceeded);
    assert!(matches!(m.action(), Action::SaveBinary));
    m.step(ProvisionEvent::SaveSucceeded);
    assert!(m.cached_present);
    assert!(matches!(m.action(), Action::MarkExecutable));
    m.step(ProvisionEvent::ModeSet);
    assert!(m.done());
    assert_eq!(m.phase, Phase::Complete { refreshed: true });
    assert!(m.cached_present);
}

#[test]
fn posix_acquisition_sets_execute_bit() {
    let mut m = Provisioner::new(OsKind::Macos, true);
    m.step(ProvisionEvent::CacheDirReady);
    m.step(ProvisionEvent::NothingCached);
    m.step(ProvisionEvent::FetchSucceeded);
    m.step(ProvisionEvent::SaveSucceeded);
    assert!(!m.exec_bit);
    m.step(ProvisionEvent::ModeSet);
    assert!(m.done());
    assert!(m.exec_bit);
    assert!(m.cached_present);
}

#[test]
fn non_posix_acquisition_skips_mode_step() {
    let mut m = Provisioner::new(OsKind::Windows, false);
    m.step(ProvisionEvent::CacheDirReady);
    m.step(ProvisionEvent::NothingCached);
    m.step(ProvisionEvent::FetchSucceeded);
    m.step(ProvisionEvent::SaveSucceeded);
    assert!(m.done());
    assert_eq!(m.phase, Phase::Complete { refreshed: true });
    assert!(m.cached_present);
}

#[test]
fn cache_dir_denial_is_fatal() {
    let mut m = Provisioner::new(OsKind::Linux, true);
    m.step(ProvisionEvent::CacheDirDenied);
    assert_eq!(m.failure(), Some(ProvisionError::CacheDirUnavailable));
}

#[test]
fn fetch_failure_is_fatal() {
    let mut m = Provisioner::new(OsKind::Linux, true);
    m.step(ProvisionEvent::CacheDirReady);
    m.step(ProvisionEvent::NothingCached);
    m.step(ProvisionEvent::FetchFailed);
    assert_eq!(m.failure(), Some(ProvisionError::NetworkFailure));
}

#[test]
fn save_failure_is_fatal() {
    let mut m = Provisioner::new(OsKind::Linux, true);
    m.step(ProvisionEvent::CacheDirReady);
    m.step(ProvisionEvent::NothingCached);
    m.step(ProvisionEvent::FetchSucceeded);
    m.step(ProvisionEvent::SaveFailed);
    assert_eq!(m.failure(), Some(ProvisionError::SaveFailure));
}

#[test]
fn mode_denial_is_fatal() {
    let mut m = Provisioner::new(OsKind::Linux, true);
    m.step(ProvisionEvent::CacheDirReady);
    m.step(ProvisionEvent::NothingCached);
    m.step(ProvisionEvent::FetchSucceeded);
    m.step(ProvisionEvent::SaveSucceeded);
    m.step(ProvisionEvent::ModeDenied);
    assert_eq!(m.failure(), Some(ProvisionError::SaveFailure));
}

#[test]
fn os_identifiers_classify_as_expected() {
    assert_eq!(os_kind(&String::from("windows")), OsKind::Windows);
    assert_eq!(os_kind(&String::from("linux")), OsKind::Linux);
    assert_eq!(os_kind(&String::from("macos")), OsKind::Macos);
    assert_eq!(os_kind(&String::from("freebsd")), OsKind::Unrecognized);
    assert_eq!(os_kind(&String::from("")), OsKind::Unrecognized);
    assert!(supported_exec(OsKind::Linux));
    assert!(!supported_exec(OsKind::Unrecognized));
}

#[test]
fn cache_layout_names_are_fixed() {
    assert_eq!(executable_name(OsKind::Windows), "yt-dlp.exe");
    assert_eq!(executable_name(OsKind::Linux), "yt-dlp");
    assert_eq!(executable_name(OsKind::Macos), "yt-dlp");
    assert_eq!(executable_name(OsKind::Unrecognized), "yt-dlp");
    assert_eq!(cache_namespace(), "yt-dlp-cli");
}
