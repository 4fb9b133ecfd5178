use shardxl::models::{MinecraftVersion, VersionListResult};
use shardxl::versions::{filter_versions_by_type, release_versions, version_list_from_fetch, versions_of_type};

fn v(id: &str, ty: &str) -> MinecraftVersion {
    MinecraftVersion { id: id.to_string(), version_type: ty.to_string(), release_time: format!("t-{}", id) }
}

fn sample() -> Vec<MinecraftVersion> {
    vec![v("1.20.1", "release"), v("23w31a", "snapshot"), v("1.19", "release"), v("b1.7", "old_beta")]
}

fn ids(list: &[MinecraftVersion]) -> Vec<String> {
    list.iter().map(|m| m.id.clone()).collect()
}

#[test]
fn fetch_outcome_becomes_list() {
    let ok = version_list_from_fetch(Ok(sample()));
    assert!(ok.error.is_none());
    assert_eq!(ok.versions.len(), 4);
    let err = version_list_from_fetch(Err("network down".to_string()));
    assert!(err.versions.is_empty());
    assert_eq!(err.error.as_deref(), Some("network down"));
}

#[test]
fn release_filter_keeps_releases_in_order() {
    let r = release_versions(VersionListResult { versions: sample(), error: None });
    assert!(r.error.is_none());
    assert_eq!(ids(&r.versions), vec!["1.20.1", "1.19"]);
    assert_eq!(r.versions[1].release_time, "t-1.19");
}

#[test]
fn release_filter_is_type_release() {
    let a = release_versions(VersionListResult { versions: sample(), error: None });
    let b = versions_of_type(VersionListResult { versions: sample(), error: None }, "release");
    assert_eq!(ids(&a.versions), ids(&b.versions));
}

#[test]
fn filter_by_other_types() {
    assert_eq!(ids(&filter_versions_by_type(&sample(), "snapshot")), vec!["23w31a"]);
    assert_eq!(ids(&filter_versions_by_type(&sample(), "old_beta")), vec!["b1.7"]);
    assert!(filter_versions_by_type(&sample(), "old_alpha").is_empty());
    assert!(filter_versions_by_type(&sample(), "Release").is_empty());
}

#[test]
fn filter_twice_equals_once() {
    let once = filter_versions_by_type(&sample(), "release");
    let twice = filter_versions_by_type(&once, "release");
    assert_eq!(ids(&once), ids(&twice));
}

#[test]
fn errors_pass_through_filters() {
    let r = versions_of_type(
        VersionListResult { versions: sample(), error: Some("boom".to_string()) },
        "release",
    );
    assert_eq!(r.error.as_deref(), Some("boom"));
    assert_eq!(r.versions.len(), 4);
    let r = release_versions(version_list_from_fetch(Err("offline".to_string())));
    assert_eq!(r.error.as_deref(), Some("offline"));
    assert!(r.versions.is_empty());
}

#[test]
fn filter_of_joined_lists_is_joined_filters() {
    let first = sample();
    let second = vec![v("1.18", "release"), v("22w01a", "snapshot")];
    let mut joined = sample();
    joined.extend(vec![v("1.18", "release"), v("22w01a", "snapshot")]);
    let mut expected = ids(&filter_versions_by_type(&first, "release"));
    expected.extend(ids(&filter_versions_by_type(&second, "release")));
    assert_eq!(ids(&filter_versions_by_type(&joined, "release")), expected);
}
