use vstd::prelude::*;

verus! {

/// Name of the file that holds the settings.
pub const SETTINGS_FILE_NAME: &'static str = "settings.json";

/// Name of the directory of the program under the configuration directory.
pub const CONFIG_DIR_NAME: &'static str = "ds4u";

/// What the front-end remembers between runs.
#[derive(Clone, Debug, PartialEq, Eq)]
pub struct Settings {
    pub theme_id: String,
    pub profile: String,
}

impl Default for Settings {
    /// The default theme and no profile.
    fn default() -> (settings: Settings)
        ensures
            settings.theme_id@ == "default"@,
            settings.profile@ == Seq::<char>::empty(),
    {
        Settings { theme_id: "default".to_owned(), profile: String::new() }
    }
}

} // verus!
