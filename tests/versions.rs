use std::cmp::Ordering;
use teamspeak_updater::pipeline::{decide, UpdateDecision};
use teamspeak_updater::remote::{latest_version, parse_versions, versions, RemoteError};
use teamspeak_updater::version::{decimal_text, Version};

fn v(text: &str) -> Version {
    Version::parse(text).expect("valid version")
}

fn listing(links: &[&str]) -> String {
    let mut body = String::from("<html><body><h1>Index</h1><pre>");
    for l in links {
        body.push_str(&format!("<a href=\"{}/\">{}</a>\n", l, l));
    }
    body.push_str("</pre></body></html>");
    body
}

#[test]
fn latest_version_skips_non_versions() {
    let body = listing(&["3.13.7", "not-a-version", "3.13.8", "readme"]);
    let latest = latest_version(&body).expect("a version");
    assert_eq!(latest.to_text(), "3.13.8");
}

#[test]
fn latest_version_of_empty_listing_fails() {
    assert!(matches!(latest_version(""), Err(RemoteError::NoVersionsFound)));
    let body = listing(&[]);
    assert!(matches!(latest_version(&body), Err(RemoteError::NoVersionsFound)));
}

#[test]
fn latest_version_of_unparseable_listing_fails() {
    let body = listing(&["readme", "../", "v3", "latest"]);
    assert!(matches!(latest_version(&body), Err(RemoteError::NoVersionsFound)));
}

#[test]
fn latest_version_orders_numerically() {
    let body = listing(&["3.9.0", "3.13.0", "3.10.2", "3.13.0-beta.1"]);
    assert_eq!(latest_version(&body).unwrap().to_text(), "3.13.0");
}

#[test]
fn latest_version_counts_links_outside_pre() {
    let body = "<p><a>9.9.9</a></p><pre><a>1.0.0</a></pre>";
    assert_eq!(latest_version(body).unwrap().to_text(), "9.9.9");
}

#[test]
fn versions_reads_every_anchor() {
    let found = versions("<div><a href='3.13.8/'>3.13.8</a></div>");
    assert_eq!(found.len(), 1);
    assert_eq!(found[0].precedence(&Version::new(3, 13, 8)), Ordering::Equal);
    assert_eq!(found[0].to_text(), "3.13.8");
    let nested = versions("<ul><li><a><b>1.</b>2.3</a></li></ul><a>junk</a>");
    assert_eq!(nested.len(), 1);
    assert_eq!(nested[0].to_text(), "1.2.3");
}

#[test]
fn version_new_is_a_release() {
    let x = Version::new(3, 13, 8);
    assert_eq!((x.major(), x.minor(), x.patch()), (3, 13, 8));
    assert_eq!(x.pre(), "");
    assert_eq!(x.build(), "");
    assert_eq!(x.to_text(), "3.13.8");
    assert_eq!(v("3.13.8-beta.1").precedence(&x), Ordering::Less);
    assert_eq!(x.precedence(&v("3.13.8-beta.1")), Ordering::Greater);
    assert_eq!(x.precedence(&v("3.13.8")), Ordering::Equal);
}

#[test]
fn versions_keeps_document_order() {
    let body = listing(&["1.0.0", "x", "0.5.0", "2.0.0-rc.1"]);
    let found: Vec<String> = versions(&body).iter().map(|v| v.to_text()).collect();
    assert_eq!(found, vec!["1.0.0", "0.5.0", "2.0.0-rc.1"]);
}

#[test]
fn parse_versions_drops_bad_tokens() {
    let texts: Vec<String> = ["3.13.7", "not-a-version", "3.13.8", "readme"]
        .iter()
        .map(|s| s.to_string())
        .collect();
    let found: Vec<String> = parse_versions(&texts).iter().map(|v| v.to_text()).collect();
    assert_eq!(found, vec!["3.13.7", "3.13.8"]);
}

#[test]
fn version_fields_and_text() {
    let x = v("1.22.333-rc.1+build.5");
    assert_eq!(x.major(), 1);
    assert_eq!(x.minor(), 22);
    assert_eq!(x.patch(), 333);
    assert_eq!(x.pre(), "rc.1");
    assert_eq!(x.build(), "build.5");
    assert_eq!(x.to_text(), "1.22.333-rc.1+build.5");
    assert_eq!(v("0.0.0").to_text(), "0.0.0");
}

#[test]
fn version_parse_rejects() {
    assert!(Version::parse("").is_none());
    assert!(Version::parse("1.2").is_none());
    assert!(Version::parse("v1.2.3").is_none());
    assert!(Version::parse("1.2.3-").is_none());
}

#[test]
fn precedence_is_fieldwise() {
    assert_eq!(v("1.2.3").precedence(&v("2.0.0")), Ordering::Less);
    assert_eq!(v("1.10.0").precedence(&v("1.9.9")), Ordering::Greater);
    assert_eq!(v("1.2.3").precedence(&v("1.2.10")), Ordering::Less);
    assert_eq!(v("1.2.3").precedence(&v("1.2.3")), Ordering::Equal);
    assert_eq!(v("1.0.0-alpha").precedence(&v("1.0.0")), Ordering::Less);
    assert_eq!(v("1.0.0-alpha").precedence(&v("1.0.0-beta")), Ordering::Less);
    assert_eq!(v("1.0.0-2").precedence(&v("1.0.0-10")), Ordering::Less);
    assert_eq!(v("1.0.0-alpha.1").precedence(&v("1.0.0-alpha")), Ordering::Greater);
    assert_eq!(v("1.0.0+a").precedence(&v("1.0.0+b")), Ordering::Equal);
}

#[test]
fn is_older_than_matches_precedence() {
    assert!(v("3.13.7").is_older_than(&v("3.13.8")));
    assert!(!v("3.13.8").is_older_than(&v("3.13.7")));
    assert!(!v("3.13.8").is_older_than(&v("3.13.8")));
}

#[test]
fn decide_gates_on_strictly_older() {
    assert_eq!(decide(&v("3.13.7"), &v("3.13.8")), UpdateDecision::UpdateAvailable);
    assert_eq!(decide(&v("3.13.8"), &v("3.13.8")), UpdateDecision::UpToDate);
    assert_eq!(decide(&v("3.14.0"), &v("3.13.8")), UpdateDecision::UpToDate);
    assert_eq!(decide(&v("3.13.8-rc.1"), &v("3.13.8")), UpdateDecision::UpdateAvailable);
}

#[test]
fn decimal_rendering() {
    assert_eq!(decimal_text(0), "0");
    assert_eq!(decimal_text(7), "7");
    assert_eq!(decimal_text(10), "10");
    assert_eq!(decimal_text(1700000000), "1700000000");
    assert_eq!(decimal_text(u64::MAX), "18446744073709551615");
}
