use dd_ftp::config::{bookmark_ready, DefaultSiteError, SiteConfig};
use dd_ftp::model::ConnectionInfo;

fn site(name: &str, host: &str, user: &str, port: u16) -> ConnectionInfo {
    ConnectionInfo {
        name: name.to_string(),
        host: host.to_string(),
        port,
        username: user.to_string(),
        ..ConnectionInfo::default()
    }
}

#[test]
fn bookmark_needs_name_host_user_and_port() {
    assert!(bookmark_ready(&site("a", "h", "u", 22)));
    assert!(!bookmark_ready(&site("  ", "h", "u", 22)));
    assert!(!bookmark_ready(&site("a", "", "u", 22)));
    assert!(!bookmark_ready(&site("a", "h", " \t", 22)));
    assert!(!bookmark_ready(&site("a", "h", "u", 0)));
}

#[test]
fn upsert_adds_new_sites_and_sets_the_first_default() {
    let mut cfg = SiteConfig::default();
    assert_eq!(cfg.upsert(site("a", "h1", "u", 22)), 0);
    assert_eq!(cfg.default_site, Some(0));
    assert_eq!(cfg.upsert(site("b", "h2", "u", 22)), 1);
    assert_eq!(cfg.sites.len(), 2);
    assert_eq!(cfg.default_site, Some(0));
}

#[test]
fn upsert_replaces_the_same_host_user_and_port() {
    let mut cfg = SiteConfig::default();
    cfg.upsert(site("a", "h1", "u", 22));
    cfg.upsert(site("b", "h2", "u", 22));
    cfg.default_site = None;
    assert_eq!(cfg.upsert(site("renamed", "h2", "u", 22)), 1);
    assert_eq!(cfg.sites.len(), 2);
    assert_eq!(cfg.sites[1].name, "renamed");
    assert_eq!(cfg.default_site, Some(1));
    assert_eq!(cfg.upsert(site("c", "h2", "u", 2222)), 2);
}

#[test]
fn remove_named_shifts_the_default() {
    let mut cfg = SiteConfig::default();
    cfg.upsert(site("a", "h1", "u", 22));
    cfg.upsert(site("b", "h2", "u", 22));
    cfg.upsert(site("c", "h3", "u", 22));
    cfg.default_site = Some(2);
    let removed = cfg.remove_named("a").unwrap();
    assert_eq!(removed.host, "h1");
    assert_eq!(cfg.default_site, Some(1));
    assert!(cfg.remove_named("zzz").is_none());
    assert_eq!(cfg.sites.len(), 2);
    cfg.remove_named("c");
    assert_eq!(cfg.default_site, Some(0));
    cfg.remove_named("b");
    assert_eq!(cfg.default_site, None);
    assert!(cfg.sites.is_empty());
}

#[test]
fn make_default_moves_the_site_to_the_front() {
    let mut cfg = SiteConfig::default();
    assert_eq!(cfg.make_default(0), Err(DefaultSiteError::NoSites));
    cfg.upsert(site("a", "h1", "u", 22));
    cfg.upsert(site("b", "h2", "u", 22));
    cfg.upsert(site("c", "h3", "u", 22));
    assert_eq!(cfg.make_default(3), Err(DefaultSiteError::InvalidSelection));
    assert_eq!(cfg.make_default(2), Ok(()));
    let names: Vec<&str> = cfg.sites.iter().map(|s| s.name.as_str()).collect();
    assert_eq!(names, vec!["c", "b", "a"]);
    assert_eq!(cfg.default_site, Some(0));
}
