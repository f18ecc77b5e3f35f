use clu::feed::ecosystem::{
    default_npm_enabled, default_pypi_enabled, Ecosystem, EcosystemsConfig, NpmRegistry, PackageRef,
    PyPIRegistry,
};
use clu::feed::npm::{
    changes_url_for, is_package_id, latest_version, npm_package_ref, semver_cmp, version_parts_of,
    NpmPackageMetadata,
};
use clu::feed::pypi::PythonPackage;
use clu::feed::{extract_package_name, serialize_packages, FeedItem};
use std::cmp::Ordering;

#[test]
fn test_semver_cmp() {
    assert_eq!(semver_cmp("1.0.0", "2.0.0"), Ordering::Less);
    assert_eq!(semver_cmp("2.0.0", "1.0.0"), Ordering::Greater);
    assert_eq!(semver_cmp("1.0.0", "1.0.0"), Ordering::Equal);
    assert_eq!(semver_cmp("1.2.3", "1.2.4"), Ordering::Less);
}

#[test]
fn test_semver_cmp_prefix_and_junk() {
    assert_eq!(semver_cmp("v1.2", "1.2"), Ordering::Equal);
    assert_eq!(semver_cmp("1.2", "1.2.0"), Ordering::Less);
    assert_eq!(semver_cmp("1.x.3", "1.3"), Ordering::Equal);
    assert_eq!(version_parts_of("vv10.0.beta.7"), vec![10, 0, 7]);
}

#[test]
fn test_latest_version_last_of_equals() {
    let v = vec!["1.0.0".to_string(), "2.0.0".to_string(), "1.5.0".to_string()];
    assert_eq!(latest_version(&v), Some("2.0.0".to_string()));
    let eq = vec!["v2.0".to_string(), "2.0".to_string()];
    assert_eq!(latest_version(&eq), Some("2.0".to_string()));
    assert_eq!(latest_version(&[]), None);
}

#[test]
fn test_npm_package_ref() {
    let meta = NpmPackageMetadata {
        name: Some("lodash".to_string()),
        description: Some("Lodash modular utilities".to_string()),
        versions: vec!["4.17.21".to_string(), "4.17.20".to_string()],
    };
    let r = npm_package_ref("lodash", Some(meta));
    assert_eq!(r.ecosystem, Ecosystem::Npm);
    assert_eq!(r.name, "lodash");
    assert_eq!(r.version, Some("4.17.21".to_string()));
    assert_eq!(r.link, Some("https://www.npmjs.com/package/lodash".to_string()));
    let missing = npm_package_ref("left-pad", None);
    assert_eq!(missing.name, "left-pad");
    assert_eq!(missing.title, Some("left-pad".to_string()));
    assert_eq!(missing.version, None);
}

#[test]
fn test_change_ids_and_urls() {
    assert!(!is_package_id("_design/app"));
    assert!(is_package_id("express"));
    assert_eq!(changes_url_for(Some("42")), "https://replicate.npmjs.com/_changes?since=42&limit=50");
    assert_eq!(changes_url_for(None), "https://replicate.npmjs.com/_changes?limit=50");
}

#[test]
fn test_extract_package_name() {
    assert_eq!(extract_package_name("requests added to PyPI"), "requests");
    assert_eq!(extract_package_name("  foo updated on PyPI"), "foo");
    assert_eq!(extract_package_name("bar added to the index"), "bar");
    assert_eq!(extract_package_name("baz updated"), "baz");
    assert_eq!(extract_package_name("  plain  "), "plain");
}

#[test]
fn test_serialize_packages() {
    let items = vec![FeedItem {
        title: Some("pkg added to PyPI".to_string()),
        link: Some("https://pypi.org/project/pkg/".to_string()),
        description: None,
        author: Some("someone".to_string()),
        pub_date: None,
    }];
    let pkgs = serialize_packages(items);
    assert_eq!(pkgs.len(), 1);
    assert_eq!(pkgs[0].title, Some("pkg".to_string()));
    assert_eq!(pkgs[0].author, Some("someone".to_string()));
}

#[test]
fn test_registries_and_defaults() {
    let r = PyPIRegistry::new("https://pypi.org/rss/packages.xml", "https://example.com/top.json");
    assert_eq!(r.feed_endpoint, "https://pypi.org/rss/packages.xml");
    assert_eq!(r.ecosystem(), Ecosystem::PyPI);
    assert_eq!(NpmRegistry::default().ecosystem(), Ecosystem::Npm);
    assert!(default_pypi_enabled());
    assert!(!default_npm_enabled());
    let c = EcosystemsConfig::default();
    assert!(c.pypi_enabled && !c.npm_enabled && c.npm_since_cursor.is_none());
}

#[test]
fn test_package_ref_from_python_package() {
    let p = PythonPackage {
        title: Some("pkg".to_string()),
        link: None,
        description: Some("d".to_string()),
        author: None,
        published_date: None,
    };
    let r = PackageRef::from_python_package(p);
    assert_eq!(r.pypi_name(), "pkg");
    assert_eq!(r.ecosystem, Ecosystem::PyPI);
    assert_eq!(r.description, Some("d".to_string()));
}

#[test]
fn semver_cmp_is_antisymmetric_and_transitive() {
    let vs = ["1.0", "v1.0.0", "1.10.0", "1.9.9", "0.0.1", "2", "1.x.2", "10.0.0"];
    for a in vs {
        for b in vs {
            assert_eq!(semver_cmp(a, b), semver_cmp(b, a).reverse());
            for c in vs {
                if semver_cmp(a, b) != Ordering::Greater && semver_cmp(b, c) != Ordering::Greater {
                    assert_ne!(semver_cmp(a, c), Ordering::Greater);
                }
            }
        }
    }
    assert_eq!(semver_cmp("1.10.0", "1.9.9"), Ordering::Greater);
}
