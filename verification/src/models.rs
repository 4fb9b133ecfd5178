//! Plain data records exchanged with the launcher front end.

use vstd::prelude::*;

verus! {

/// User profile returned after successful authentication.
#[derive(Debug)]
pub struct UserProfile {
    pub id: Option<u64>,
    pub username: String,
    pub uuid: String,
    pub access_token: Option<String>,
    pub email: Option<String>,
    pub email_verified: bool,
    pub banned: bool,
}

/// Minecraft version information, as listed in the version manifest.
#[derive(Debug)]
pub struct MinecraftVersion {
    pub id: String,
    pub version_type: String,
    pub release_time: String,
}

/// Abstract view of a [`MinecraftVersion`]: its three text fields.
#[verifier::ext_equal]
pub struct VersionRecord {
    pub id: Seq<char>,
    pub version_type: Seq<char>,
    pub release_time: Seq<char>,
}

impl View for MinecraftVersion {
    type V = VersionRecord;

    open spec fn view(&self) -> VersionRecord {
        VersionRecord { id: self.id@, version_type: self.version_type@, release_time: self.release_time@ }
    }
}

impl MinecraftVersion {
    /// A field-by-field copy of this record.
    pub fn duplicate(&self) -> (r: MinecraftVersion)
        ensures
            r == *self,
            r@ == self@,
    {
        MinecraftVersion {
            id: self.id.clone(),
            version_type: self.version_type.clone(),
            release_time: self.release_time.clone(),
        }
    }
}

/// Authentication result.
#[derive(Debug)]
pub struct AuthResult {
    pub success: bool,
    pub profile: Option<UserProfile>,
    pub error: Option<String>,
}

impl AuthResult {
    /// A successful result carries a profile and no error; a failed one
    /// carries an error and no profile.
    pub open spec fn well_formed(&self) -> bool {
        &&& self.success <==> self.profile.is_some()
        &&& self.success <==> self.error.is_none()
    }
}

/// Version list result.
#[derive(Debug)]
pub struct VersionListResult {
    pub versions: Vec<MinecraftVersion>,
    pub error: Option<String>,
}

/// Launch configuration.
#[derive(Debug)]
pub struct LaunchConfig {
    pub version: String,
    pub game_directory: String,
    pub java_path: Option<String>,
    pub memory_mb: u32,
    pub username: String,
    pub uuid: String,
    pub access_token: String,
    pub window_width: u32,
    pub window_height: u32,
    pub fullscreen: bool,
}

/// Launch result.
#[derive(Debug)]
pub struct LaunchResult {
    pub success: bool,
    pub pid: Option<u32>,
    pub error: Option<String>,
}

/// Installation result.
#[derive(Debug)]
pub struct InstallResult {
    pub success: bool,
    pub error: Option<String>,
}

impl InstallResult {
    /// Success exactly when no error is reported.
    pub open spec fn well_formed(&self) -> bool {
        self.success <==> self.error.is_none()
    }
}

/// Java distribution info.
#[derive(Debug)]
pub struct JavaInfo {
    pub path: String,
    pub version: String,
    pub major_version: u8,
}

/// Launcher settings.
#[derive(Debug)]
pub struct LauncherSettings {
    pub qualifier: String,
    pub organization: String,
    pub application: String,
    pub game_directory: String,
    pub java_directory: String,
}

impl Default for LauncherSettings {
    fn default() -> (s: Self)
        ensures
            s.qualifier@ == "com"@,
            s.organization@ == "ShardXL"@,
            s.application@ == "Launcher"@,
            s.game_directory@ == Seq::<char>::empty(),
            s.java_directory@ == Seq::<char>::empty(),
    {
        LauncherSettings {
            qualifier: String::from_str("com"),
            organization: String::from_str("ShardXL"),
            application: String::from_str("Launcher"),
            game_directory: String::new(),
            java_directory: String::new(),
        }
    }
}

} // verus!
