use repakstrap::remote::{
    classify_status, forbidden, prefer_tag, status_error, StatusClass, ACCEPT, API_VERSION,
    RELEASES_URL, USER_AGENT,
};
use repakstrap::{
    find_download, get_remote_version, latest_release_request, Platform, Release, ReleaseAsset,
    RemoteError, SemanticVersion,
};

fn asset(name: &str) -> ReleaseAsset {
    ReleaseAsset {
        name: String::from(name),
        browser_download_url: format!("https://example.invalid/{name}"),
    }
}

fn release(name: &str, tag: &str) -> Release {
    Release { name: String::from(name), tag_name: String::from(tag), assets: Vec::new() }
}

#[test]
fn a_tag_with_its_prefix_gives_the_version() {
    let v = get_remote_version(&release("whatever", "v1.4.0")).unwrap();
    assert_eq!(v, SemanticVersion::new(1, 4, 0));
}

#[test]
fn a_tag_without_prefix_falls_back_to_the_name() {
    let v = get_remote_version(&release("2.5.1", "1.4.0")).unwrap();
    assert_eq!(v, SemanticVersion::new(2, 5, 1));
    let v = get_remote_version(&release("0.9.0", "latest")).unwrap();
    assert_eq!(v, SemanticVersion::new(0, 9, 0));
}

#[test]
fn the_tag_is_preferred_over_the_name() {
    let v = get_remote_version(&release("9.9.9", "v1.0.0")).unwrap();
    assert_eq!(v, SemanticVersion::new(1, 0, 0));
}

#[test]
fn an_empty_tag_falls_back_to_the_name() {
    let v = get_remote_version(&release("3.0.0", "")).unwrap();
    assert_eq!(v, SemanticVersion::new(3, 0, 0));
}

#[test]
fn neither_tag_nor_name_is_an_error() {
    assert!(get_remote_version(&release("nightly", "latest")).is_err());
    assert!(get_remote_version(&release("", "")).is_err());
}

#[test]
fn prefer_tag_takes_the_first_success() {
    let bad = || SemanticVersion::parse("x");
    let tag = || SemanticVersion::parse("1.0.0");
    let name = || SemanticVersion::parse("2.0.0");
    assert_eq!(prefer_tag(tag(), name()).unwrap(), SemanticVersion::new(1, 0, 0));
    assert_eq!(prefer_tag(tag(), bad()).unwrap(), SemanticVersion::new(1, 0, 0));
    assert_eq!(prefer_tag(bad(), name()).unwrap(), SemanticVersion::new(2, 0, 0));
    assert!(prefer_tag(bad(), bad()).is_err());
}

#[test]
fn the_first_matching_asset_is_selected() {
    let assets = vec![
        asset("repak-x86_64-pc-windows-msvc.zip"),
        asset("notes.txt"),
        asset("repak-x86_64-unknown-linux-gnu.tar.xz"),
        asset("repak-aarch64-unknown-linux-gnu.tar.xz"),
    ];
    let found = find_download(assets, Platform::Linux).unwrap();
    assert_eq!(found.name, "repak-x86_64-unknown-linux-gnu.tar.xz");
    assert_eq!(
        found.browser_download_url,
        "https://example.invalid/repak-x86_64-unknown-linux-gnu.tar.xz"
    );
}

#[test]
fn each_platform_has_its_own_asset() {
    let assets = || {
        vec![
            asset("repak-x86_64-unknown-linux-gnu.tar.xz"),
            asset("repak-x86_64-pc-windows-msvc.zip"),
        ]
    };
    assert_eq!(
        find_download(assets(), Platform::Windows).unwrap().name,
        "repak-x86_64-pc-windows-msvc.zip"
    );
    assert_eq!(
        find_download(assets(), Platform::Linux).unwrap().name,
        "repak-x86_64-unknown-linux-gnu.tar.xz"
    );
}

#[test]
fn no_matching_asset_is_none() {
    let assets = vec![asset("repak-x86_64-pc-windows-msvc.zip"), asset("linux-gnu.tar.xz.sig")];
    assert!(find_download(assets, Platform::Linux).is_none());
    assert!(find_download(Vec::new(), Platform::Windows).is_none());
}

#[test]
fn platform_names() {
    assert_eq!(Platform::Windows.archive_suffix(), "windows-msvc.zip");
    assert_eq!(Platform::Linux.archive_suffix(), "linux-gnu.tar.xz");
    assert_eq!(Platform::Windows.binary_name(), "repak.exe");
    assert_eq!(Platform::Linux.binary_name(), "repak");
}

#[test]
fn the_request_without_a_key() {
    let request = latest_release_request(None);
    assert_eq!(request.method, "GET");
    assert_eq!(request.url, RELEASES_URL);
    assert_eq!(
        request.url,
        "https://api.github.com/repos/natimerry/repak-rivals/releases/latest"
    );
    let headers: Vec<(&str, &str)> =
        request.headers.iter().map(|h| (h.name.as_str(), h.value.as_str())).collect();
    assert_eq!(
        headers,
        vec![
            ("Accept", ACCEPT),
            ("X-GitHub-Api-Version", API_VERSION),
            ("User-Agent", USER_AGENT),
        ]
    );
    assert_eq!(ACCEPT, "application/vnd.github+json");
    assert_eq!(request.bearer, None);
}

#[test]
fn the_request_with_a_key() {
    let request = latest_release_request(Some(String::from("SECRET-REDACTED")));
    assert_eq!(request.bearer, Some(String::from("SECRET-REDACTED")));
    assert_eq!(request.headers.len(), 3);
}

#[test]
fn statuses() {
    assert_eq!(classify_status(200), StatusClass::Release);
    assert_eq!(classify_status(403), StatusClass::Forbidden);
    assert_eq!(classify_status(404), StatusClass::Unhandled);
    assert_eq!(classify_status(500), StatusClass::Unhandled);
    assert_eq!(classify_status(0), StatusClass::Unhandled);
    assert!(status_error(200).is_none());
    assert!(status_error(403).is_none());
    assert!(matches!(status_error(404), Some(RemoteError::UnhandledStatus { status: 404 })));
}

#[test]
fn a_refusal_carries_the_trimmed_body() {
    match forbidden(Some("  API rate limit exceeded\n")) {
        RemoteError::Forbidden { text } => assert_eq!(text, "API rate limit exceeded"),
        other => panic!("unexpected {other:?}"),
    }
    match forbidden(None) {
        RemoteError::Forbidden { text } => assert_eq!(text, "no text could be parsed"),
        other => panic!("unexpected {other:?}"),
    }
}
