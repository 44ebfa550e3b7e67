//! Where the native profile lives, and what a load of it yields.

use vstd::prelude::*;
use crate::settings::{AppSettings, LoadedSettings, SettingsOrigin};

verus! {

/// The name of the settings document inside the profile directory.
pub const SETTINGS_FILE_NAME: &'static str = "settings-v1.json";

/// The application's directory inside the platform configuration directory.
pub const PROFILE_DIRECTORY_NAME: &'static str = "camlet";

/// Loaded settings plus the policy needed for future writes.
#[derive(Debug, Clone)]
pub struct NativeProfile {
    /// Recovered application settings.
    pub settings: AppSettings,
    /// Native settings document, if the platform exposes a configuration directory.
    pub settings_path: Option<String>,
    /// False for a future schema that this version must not overwrite.
    pub writable: bool,
    /// Stable description safe for diagnostics.
    pub origin: &'static str,
}

/// Where the settings document is: inside the override directory when one is given, else in
/// the application's directory of the platform configuration directory, if there is one.
pub open spec fn spec_settings_path(
    override_directory: Option<Seq<char>>,
    config_directory: Option<Seq<char>>,
) -> Option<Seq<char>> {
    match override_directory {
        Some(directory) => Some(crate::text::spec_join_path(directory, "settings-v1.json"@)),
        None => match config_directory {
            Some(config) => Some(
                crate::text::spec_join_path(
                    crate::text::spec_join_path(config, "camlet"@),
                    "settings-v1.json"@,
                ),
            ),
            None => None,
        },
    }
}

/// The text of an optional string slice.
pub open spec fn optional_text(text: Option<&str>) -> Option<Seq<char>> {
    match text {
        Some(t) => Some(t@),
        None => None,
    }
}

/// The text of an optional string.
pub open spec fn optional_string(text: Option<String>) -> Option<Seq<char>> {
    match text {
        Some(t) => Some(t@),
        None => None,
    }
}

/// Where the settings document is. An override keeps tests and automation isolated from the
/// normal profile.
pub fn settings_path(override_directory: Option<&str>, config_directory: Option<&str>) -> (path:
    Option<String>)
    ensures
        optional_string(path) == spec_settings_path(
            optional_text(override_directory),
            optional_text(config_directory),
        ),
{
    match override_directory {
        Some(directory) => Some(crate::text::join_path(directory, SETTINGS_FILE_NAME)),
        None => match config_directory {
            Some(config) => {
                let application = crate::text::join_path(config, PROFILE_DIRECTORY_NAME);
                Some(crate::text::join_path(application.as_str(), SETTINGS_FILE_NAME))
            },
            None => None,
        },
    }
}

/// The profile used when the platform has no configuration directory: defaults that are never
/// written.
pub fn without_config_directory() -> (profile: NativeProfile)
    ensures
        profile.settings == crate::settings::default_settings(),
        profile.settings_path is None,
        !profile.writable,
        profile.origin@ == "defaults-no-config-directory"@,
{
    NativeProfile {
        settings: AppSettings::default(),
        settings_path: None,
        writable: false,
        origin: "defaults-no-config-directory",
    }
}

/// The stable origin label of loaded settings.
pub open spec fn origin_label(origin: SettingsOrigin) -> Seq<char> {
    match origin {
        SettingsOrigin::Native => "native"@,
        SettingsOrigin::Defaults => "defaults"@,
    }
}

/// The profile made of a load of the settings document at `settings_path`: writable exactly
/// when the document may safely be replaced.
pub fn from_loaded(settings_path: String, loaded: LoadedSettings) -> (profile: NativeProfile)
    ensures
        profile.settings == loaded.parsed.settings,
        profile.settings_path == Some(settings_path),
        profile.writable == loaded.parsed.compatible_for_write,
        profile.origin@ == origin_label(loaded.origin),
{
    let origin = match loaded.origin {
        SettingsOrigin::Native => "native",
        SettingsOrigin::Defaults => "defaults",
    };
    NativeProfile {
        settings: loaded.parsed.settings,
        settings_path: Some(settings_path),
        writable: loaded.parsed.compatible_for_write,
        origin,
    }
}

/// The profile used after the settings document could not be loaded: defaults that are never
/// written.
pub fn after_load_error() -> (profile: NativeProfile)
    ensures
        profile.settings == crate::settings::default_settings(),
        profile.settings_path is None,
        !profile.writable,
        profile.origin@ == "defaults-after-error"@,
{
    NativeProfile {
        settings: AppSettings::default(),
        settings_path: None,
        writable: false,
        origin: "defaults-after-error",
    }
}

/// The profile a run starts with, and whether it starts on the startup-error panel: the
/// loaded profile, or after a load error the defaults of [`after_load_error`].
pub fn startup_profile(loaded: Option<NativeProfile>) -> (start: (NativeProfile, bool))
    ensures
        match loaded {
            Some(profile) => start == (profile, false),
            None => {
                &&& start.1
                &&& start.0.settings == crate::settings::default_settings()
                &&& start.0.settings_path is None
                &&& !start.0.writable
                &&& start.0.origin@ == "defaults-after-error"@
            },
        },
{
    match loaded {
        Some(profile) => (profile, false),
        None => (after_load_error(), true),
    }
}

} // verus!
