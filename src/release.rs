//! Releases and the two assets an installation needs from each.
use crate::error::ErrorKind;
use vstd::prelude::*;

verus! {

/// Whether a release is on disk or on its way.
#[allow(non_camel_case_types)]
#[derive(Clone, Copy, Debug, PartialEq, Eq, Structural)]
pub enum proton_status {
    Installed,
    Uninstalled,
    Downloaded,
    Installing,
    Downloading,
}

/// A downloadable asset of a release, by the host and path of its URL.
pub struct AssetLink {
    pub host: Option<String>,
    pub path: String,
}

/// A published release: its tag and its assets.
pub struct ReleaseInfo {
    pub tag_name: String,
    pub assets: Vec<AssetLink>,
}

/// A release that has both a checksum and a tarball asset.
pub struct Proton {
    status: proton_status,
    name: String,
    tarball_url: String,
    checksum_url: String,
}

pub open spec fn ends_with(s: Seq<char>, suffix: Seq<char>) -> bool {
    s.len() >= suffix.len() && s.subrange(s.len() - suffix.len(), s.len() as int) == suffix
}

pub open spec fn is_checksum_path(p: Seq<char>) -> bool {
    ends_with(p, ".sha512sum"@)
}

pub open spec fn is_tarball_path(p: Seq<char>) -> bool {
    !is_checksum_path(p) && ends_with(p, ".tar.gz"@)
}

/// The plain-HTTP URL the asset is fetched from.
pub open spec fn asset_url(a: AssetLink) -> Seq<char> {
    let host = match a.host {
        Some(h) => h@,
        None => Seq::empty(),
    };
    "http://"@ + host + a.path@
}

/// The index of the last of the first `n` assets whose path satisfies `f`.
pub open spec fn last_asset(assets: Seq<AssetLink>, n: int, f: spec_fn(Seq<char>) -> bool) -> Option<int>
    decreases n,
{
    if n <= 0 {
        None
    } else if f(assets[n - 1].path@) {
        Some(n - 1)
    } else {
        last_asset(assets, n - 1, f)
    }
}

pub open spec fn checksum_asset(assets: Seq<AssetLink>) -> Option<int> {
    last_asset(assets, assets.len() as int, |p: Seq<char>| is_checksum_path(p))
}

pub open spec fn tarball_asset(assets: Seq<AssetLink>) -> Option<int> {
    last_asset(assets, assets.len() as int, |p: Seq<char>| is_tarball_path(p))
}

/// Whether `s` ends with `suffix`.
pub fn str_ends_with(s: &str, suffix: &str) -> (r: bool)
    ensures
        r == ends_with(s@, suffix@),
{
    let n = s.unicode_len();
    let m = suffix.unicode_len();
    if n < m {
        return false;
    }
    let mut i: usize = 0;
    while i < m
        invariant
            n == s@.len(),
            m == suffix@.len(),
            m <= n,
            i <= m,
            forall|j: int| 0 <= j < i ==> s@[n - m + j] == suffix@[j],
        decreases m - i,
    {
        if s.get_char(n - m + i) != suffix.get_char(i) {
            assert(s@.subrange(n - m, n as int)[i as int] != suffix@[i as int]);
            return false;
        }
        i = i + 1;
    }
    assert(s@.subrange(n - m, n as int) =~= suffix@);
    true
}

fn asset_url_of(a: &AssetLink) -> (r: String)
    ensures
        r@ == asset_url(*a),
{
    let mut url = String::from_str("http://");
    match &a.host {
        Some(h) => url.append(h.as_str()),
        None => {},
    }
    url.append(a.path.as_str());
    assert(url@ =~= asset_url(*a));
    url
}

/// The tarball URL and the checksum URL of a release: those of the last
/// asset whose path ends in `.tar.gz` and of the last whose path ends in
/// `.sha512sum`. A release that lacks either is a configuration error.
pub fn get_proton_urls(release: &ReleaseInfo) -> (r: Result<(String, String), ErrorKind>)
    ensures
        match (tarball_asset(release.assets@), checksum_asset(release.assets@)) {
            (Some(t), Some(c)) => r matches Ok((tu, cu)) && tu@ == asset_url(release.assets@[t])
                && cu@ == asset_url(release.assets@[c]),
            _ => r == Err::<(String, String), ErrorKind>(ErrorKind::ConfigurationError),
        },
{
    let ghost ck = |p: Seq<char>| is_checksum_path(p);
    let ghost tb = |p: Seq<char>| is_tarball_path(p);
    let mut checksum_url = String::new();
    let mut tarball_url = String::new();
    let mut checksum_found = false;
    let mut tarball_found = false;
    let n = release.assets.len();
    let mut i: usize = 0;
    while i < n
        invariant
            n == release.assets@.len(),
            i <= n,
            ck == (|p: Seq<char>| is_checksum_path(p)),
            tb == (|p: Seq<char>| is_tarball_path(p)),
            checksum_found == last_asset(release.assets@, i as int, ck) is Some,
            checksum_found ==> checksum_url@ == asset_url(
                release.assets@[last_asset(release.assets@, i as int, ck)->0],
            ),
            tarball_found == last_asset(release.assets@, i as int, tb) is Some,
            tarball_found ==> tarball_url@ == asset_url(
                release.assets@[last_asset(release.assets@, i as int, tb)->0],
            ),
        decreases n - i,
    {
        let item = &release.assets[i];
        let is_ck = str_ends_with(item.path.as_str(), ".sha512sum");
        let is_tb = str_ends_with(item.path.as_str(), ".tar.gz");
        if is_ck {
            checksum_url = asset_url_of(item);
            checksum_found = true;
        } else if is_tb {
            tarball_url = asset_url_of(item);
            tarball_found = true;
        }
        i = i + 1;
    }
    if tarball_found && checksum_found {
        Ok((tarball_url, checksum_url))
    } else {
        Err(ErrorKind::ConfigurationError)
    }
}

impl Proton {
    /// A release ready to be installed, or `ConfigurationError` where it
    /// lacks a checksum or a tarball asset.
    pub fn new(release: ReleaseInfo, installed: bool) -> (r: Result<Proton, ErrorKind>)
        ensures
            match (tarball_asset(release.assets@), checksum_asset(release.assets@)) {
                (Some(t), Some(c)) => r matches Ok(p) && p.spec_name() == release.tag_name@
                    && p.spec_tarball_url() == asset_url(release.assets@[t])
                    && p.spec_checksum_url() == asset_url(release.assets@[c]) && p.spec_status() == (if installed {
                    proton_status::Installed
                } else {
                    proton_status::Uninstalled
                }),
                _ => r is Err && r->Err_0 == ErrorKind::ConfigurationError,
            },
    {
        match get_proton_urls(&release) {
            Ok((tarball_url, checksum_url)) => Ok(Proton {
                status: if installed {
                    proton_status::Installed
                } else {
                    proton_status::Uninstalled
                },
                name: release.tag_name,
                tarball_url,
                checksum_url,
            }),
            Err(e) => Err(e),
        }
    }

    pub closed spec fn spec_name(&self) -> Seq<char> {
        self.name@
    }

    pub closed spec fn spec_tarball_url(&self) -> Seq<char> {
        self.tarball_url@
    }

    pub closed spec fn spec_checksum_url(&self) -> Seq<char> {
        self.checksum_url@
    }

    pub closed spec fn spec_status(&self) -> proton_status {
        self.status
    }

    pub fn get_tarball_url(&self) -> (r: String)
        ensures
            r@ == self.spec_tarball_url(),
    {
        self.tarball_url.clone()
    }

    pub fn get_checksum_url(&self) -> (r: String)
        ensures
            r@ == self.spec_checksum_url(),
    {
        self.checksum_url.clone()
    }

    pub fn get_status(&self) -> (r: &proton_status)
        ensures
            *r == self.spec_status(),
    {
        &self.status
    }

    pub fn get_name(&self) -> (r: String)
        ensures
            r@ == self.spec_name(),
    {
        self.name.clone()
    }
}

} // verus!
