use proton_downloader::error::ErrorKind;
use proton_downloader::release::{get_proton_urls, proton_status, AssetLink, Proton, ReleaseInfo};
use proton_downloader::widget::{proton_widget, ProtonWidget};

fn asset(host: Option<&str>, path: &str) -> AssetLink {
    AssetLink { host: host.map(|h| h.to_string()), path: path.to_string() }
}

fn release(assets: Vec<AssetLink>) -> ReleaseInfo {
    ReleaseInfo { tag_name: "GE-Proton8-25".to_string(), assets }
}

#[test]
fn both_assets_found() {
    let r = release(vec![
        asset(Some("github.com"), "/dl/GE-Proton8-25.sha512sum"),
        asset(Some("github.com"), "/dl/GE-Proton8-25.tar.gz"),
    ]);
    assert_eq!(
        get_proton_urls(&r),
        Ok((
            "http://github.com/dl/GE-Proton8-25.tar.gz".to_string(),
            "http://github.com/dl/GE-Proton8-25.sha512sum".to_string()
        ))
    );
}

#[test]
fn missing_checksum_is_a_configuration_error() {
    let r = release(vec![asset(Some("h"), "/x.tar.gz"), asset(Some("h"), "/notes.txt")]);
    assert_eq!(get_proton_urls(&r), Err(ErrorKind::ConfigurationError));
}

#[test]
fn missing_tarball_is_a_configuration_error() {
    let r = release(vec![asset(Some("h"), "/x.sha512sum")]);
    assert_eq!(get_proton_urls(&r), Err(ErrorKind::ConfigurationError));
    assert_eq!(get_proton_urls(&release(vec![])), Err(ErrorKind::ConfigurationError));
}

#[test]
fn last_matching_asset_wins_and_missing_host_is_empty() {
    let r = release(vec![
        asset(Some("h"), "/old.tar.gz"),
        asset(None, "/y.sha512sum"),
        asset(Some("h"), "/new.tar.gz"),
        asset(Some("h"), "/new.tar.gz.asc"),
    ]);
    assert_eq!(
        get_proton_urls(&r),
        Ok(("http://h/new.tar.gz".to_string(), "http:///y.sha512sum".to_string()))
    );
}

#[test]
fn proton_keeps_name_urls_and_status() {
    let r = release(vec![asset(Some("h"), "/a.tar.gz"), asset(Some("h"), "/a.sha512sum")]);
    let p = Proton::new(r, true).unwrap();
    assert_eq!(p.get_name(), "GE-Proton8-25");
    assert_eq!(p.get_tarball_url(), "http://h/a.tar.gz");
    assert_eq!(p.get_checksum_url(), "http://h/a.sha512sum");
    assert_eq!(*p.get_status(), proton_status::Installed);
    let r = release(vec![asset(Some("h"), "/a.tar.gz"), asset(Some("h"), "/a.sha512sum")]);
    assert_eq!(*Proton::new(r, false).unwrap().get_status(), proton_status::Uninstalled);
}

#[test]
fn proton_without_assets_is_refused() {
    assert!(matches!(Proton::new(release(vec![]), false), Err(ErrorKind::ConfigurationError)));
}

#[test]
fn widget_keeps_its_fields() {
    let w: ProtonWidget = proton_widget("GE".to_string(), true);
    assert_eq!(w.name, "GE");
    assert!(w.installed);
    let w = ProtonWidget::new("x".to_string(), false);
    assert!(!w.installed);
}
