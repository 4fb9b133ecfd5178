use shardxl::auth::{authenticate_offline, default_game_directory, game_directory_variable, Platform};
use shardxl::uuid::{generate_offline_uuid, name_based_uuid};

#[test]
fn offline_login_accepts_regular_name() {
    let r = authenticate_offline("Notch".to_string());
    assert!(r.success);
    assert!(r.error.is_none());
    let p = r.profile.expect("profile");
    assert_eq!(p.username, "Notch");
    assert_eq!(p.uuid, "b50ad385-829d-3141-a216-7e7d7539ba7f");
    assert_eq!(p.id, None);
    assert!(p.access_token.is_none());
    assert!(p.email.is_none());
    assert!(!p.email_verified);
    assert!(!p.banned);
}

#[test]
fn offline_login_rejects_empty_name() {
    let r = authenticate_offline(String::new());
    assert!(!r.success);
    assert!(r.profile.is_none());
    assert_eq!(r.error.as_deref(), Some("Username cannot be empty"));
}

#[test]
fn offline_login_rejects_short_and_long_names() {
    for name in ["ab", "a", "abcdefghijklmnopq"] {
        let r = authenticate_offline(name.to_string());
        assert!(!r.success);
        assert!(r.profile.is_none());
        assert_eq!(r.error.as_deref(), Some("Username must be between 3 and 16 characters"));
    }
}

#[test]
fn offline_login_length_bounds_are_inclusive() {
    assert!(authenticate_offline("abc".to_string()).success);
    assert!(authenticate_offline("abcdefghijklmnop".to_string()).success);
}

#[test]
fn offline_login_counts_bytes_not_characters() {
    // Six characters of two bytes each: twelve bytes, accepted.
    assert!(authenticate_offline("ääääää".to_string()).success);
    // Nine characters of two bytes each: eighteen bytes, refused.
    let r = authenticate_offline("ääääääääa".to_string());
    assert!(!r.success);
    assert_eq!(r.error.as_deref(), Some("Username must be between 3 and 16 characters"));
    // Two characters, three bytes: accepted.
    assert!(authenticate_offline("Äb".to_string()).success);
}

#[test]
fn offline_uuid_known_values() {
    assert_eq!(generate_offline_uuid("Steve"), "5627dd98-e6be-3c21-b8a8-e92344183641");
    assert_eq!(generate_offline_uuid("abc"), "3d5cec06-bd15-31fa-982f-5dac8c06f1c7");
    assert_eq!(generate_offline_uuid("Player_123"), "592ac8aa-a392-3300-916e-00427a650c3b");
    assert_eq!(generate_offline_uuid("Äbc"), "38fb159c-c009-30f9-8320-177d390194f7");
}

#[test]
fn offline_uuid_is_deterministic_and_version3() {
    let a = generate_offline_uuid("SomePlayer");
    let b = generate_offline_uuid("SomePlayer");
    assert_eq!(a, b);
    assert_ne!(a, generate_offline_uuid("OtherPlayer"));
    let chars: Vec<char> = a.chars().collect();
    assert_eq!(chars.len(), 36);
    for i in [8, 13, 18, 23] {
        assert_eq!(chars[i], '-');
    }
    assert_eq!(chars[14], '3');
    assert!(matches!(chars[19], '8' | '9' | 'a' | 'b'));
}

#[test]
fn default_directory_per_platform() {
    assert_eq!(
        default_game_directory(&Platform::Windows, Some("C:/Users/a/AppData/Roaming".to_string())),
        "C:/Users/a/AppData/Roaming/.minecraft"
    );
    assert_eq!(
        default_game_directory(&Platform::MacOs, Some("/Users/a".to_string())),
        "/Users/a/Library/Application Support/minecraft"
    );
    assert_eq!(default_game_directory(&Platform::Linux, Some("/home/a".to_string())), "/home/a/.minecraft");
    assert_eq!(default_game_directory(&Platform::Linux, None), "");
    assert_eq!(default_game_directory(&Platform::Other, Some("/home/a".to_string())), "");
}

#[test]
fn directory_variable_per_platform() {
    assert_eq!(game_directory_variable(&Platform::Windows).as_deref(), Some("APPDATA"));
    assert_eq!(game_directory_variable(&Platform::MacOs).as_deref(), Some("HOME"));
    assert_eq!(game_directory_variable(&Platform::Linux).as_deref(), Some("HOME"));
    assert_eq!(game_directory_variable(&Platform::Other), None);
}

#[test]
fn uuid_text_of_given_digests() {
    assert_eq!(name_based_uuid(&[0u8; 16]), "00000000-0000-3000-8000-000000000000");
    assert_eq!(name_based_uuid(&[0xffu8; 16]), "ffffffff-ffff-3fff-bfff-ffffffffffff");
    let counting: [u8; 16] = [0, 1, 2, 3, 4, 5, 6, 7, 8, 9, 10, 11, 12, 13, 14, 15];
    assert_eq!(name_based_uuid(&counting), "00010203-0405-3607-8809-0a0b0c0d0e0f");
}
