//! User preferences and where they live on disk.

use vstd::prelude::*;
use vstd::string::StringExecFns;

verus! {

/// What the user chose; one knob so far.
#[derive(Debug)]
pub struct Preferences {
    pub autostart_enabled: bool,
}

impl Default for Preferences {
    /// Autostart is off until chosen.
    fn default() -> (p: Self)
        ensures
            !p.autostart_enabled,
    {
        Preferences { autostart_enabled: false }
    }
}

/// The preferences file inside the given configuration directory.
pub fn get_preferences_path(config_dir: &str) -> (p: String)
    ensures
        p@ == config_dir@ + "/preferences.json"@,
{
    let mut p = config_dir.to_owned();
    p.append("/preferences.json");
    p
}

} // verus!
