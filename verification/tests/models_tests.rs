use shardxl::models::{LauncherSettings, MinecraftVersion};
use shardxl::text::{concat_str, text_equal};

#[test]
fn default_launcher_settings() {
    let s = LauncherSettings::default();
    assert_eq!(s.qualifier, "com");
    assert_eq!(s.organization, "ShardXL");
    assert_eq!(s.application, "Launcher");
    assert_eq!(s.game_directory, "");
    assert_eq!(s.java_directory, "");
}

#[test]
fn version_duplicate_copies_fields() {
    let v = MinecraftVersion { id: "1.0".to_string(), version_type: "release".to_string(), release_time: "t".to_string() };
    let d = v.duplicate();
    assert_eq!(d.id, "1.0");
    assert_eq!(d.version_type, "release");
    assert_eq!(d.release_time, "t");
}

#[test]
fn text_helpers() {
    assert_eq!(concat_str("ab", "cd"), "abcd");
    assert!(text_equal("é", "é"));
    assert!(!text_equal("ab", "abc"));
}
