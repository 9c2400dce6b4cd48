//! Global launcher configuration: the install path, the active profile,
//! the configured release sources and the window-minimizing flags.
//!
//! The settings are persisted as a whole file that every reader re-reads
//! and every writer overwrites; reading and writing the file, and its
//! serialized encoding, live outside the library. Here live the record
//! itself, its defaults, the mutations, and the location of the settings
//! file under the per-user data directory.

use vstd::prelude::*;
use crate::strutil::join_path;
use crate::strutil::str_eq;

verus! {

/// The process-wide launcher settings, persisted on every mutation.
pub struct Settings {
    /// Where the game installation lives; unset until the user picks it.
    pub install_path: Option<String>,
    /// Id of the profile that a launch will use.
    pub current_profile: i16,
    /// Release sources offered in the version picker, in display order.
    pub download_sources: Vec<String>,
    /// Hide the host window while the game runs; unset means yes.
    pub minimize_on_launch: Option<bool>,
    /// Hide instead of closing when the window is closed; unset means yes.
    pub minimize_on_close: Option<bool>,
}

/// `s` ends with the characters of `suffix`.
pub open spec fn ends_with(s: Seq<char>, suffix: Seq<char>) -> bool {
    s.len() >= suffix.len() && s.subrange(s.len() - suffix.len(), s.len() as int) == suffix
}

impl Settings {
    /// Relies on `dirs::data_dir`: the per-user data directory, if the
    /// platform defines one. Nothing is assumed about its value.
    #[verifier::external_body]
    fn platform_data_dir() -> (r: Option<String>)
    {
        dirs::data_dir().map(|p| p.to_string_lossy().into_owned())
    }

    /// The launcher's own directory: the fixed component "minlaunch"
    /// under the per-user data directory. `None` when the platform
    /// defines no data directory.
    pub fn settings_dir() -> (r: Option<String>)
        ensures
            r matches Some(d) ==> ends_with(d@, seq!['/'] + "minlaunch"@),
    {
        match Self::platform_data_dir() {
            None => None,
            Some(base) => {
                let d = join_path(base.as_str(), "minlaunch");
                proof {
                    assert(d@.subrange(
                        d@.len() - (seq!['/'] + "minlaunch"@).len(),
                        d@.len() as int,
                    ) =~= seq!['/'] + "minlaunch"@);
                }
                Some(d)
            },
        }
    }

    /// The settings file: "settings.toml" inside the launcher's directory.
    /// `None` when the platform defines no data directory.
    pub fn settings_path() -> (r: Option<String>)
        ensures
            r matches Some(p) ==> ends_with(p@, seq!['/'] + "settings.toml"@),
    {
        match Self::settings_dir() {
            None => None,
            Some(dir) => {
                let p = join_path(dir.as_str(), "settings.toml");
                proof {
                    assert(p@.subrange(
                        p@.len() - (seq!['/'] + "settings.toml"@).len(),
                        p@.len() as int,
                    ) =~= seq!['/'] + "settings.toml"@);
                }
                Some(p)
            },
        }
    }

    /// Selects `id` as the active profile. Every other setting is kept.
    pub fn set_current_profile(&mut self, id: i16)
        ensures
            final(self).current_profile == id,
            final(self).install_path == old(self).install_path,
            final(self).download_sources == old(self).download_sources,
            final(self).minimize_on_launch == old(self).minimize_on_launch,
            final(self).minimize_on_close == old(self).minimize_on_close,
    {
        self.current_profile = id;
    }

    /// Records where the game installation lives. Every other setting is
    /// kept.
    pub fn set_install_path(&mut self, path: String)
        ensures
            final(self).install_path == Some(path),
            final(self).current_profile == old(self).current_profile,
            final(self).download_sources == old(self).download_sources,
            final(self).minimize_on_launch == old(self).minimize_on_launch,
            final(self).minimize_on_close == old(self).minimize_on_close,
    {
        self.install_path = Some(path);
    }

    /// Sets the named boolean setting, and reports whether the name was
    /// recognized. An unknown name changes nothing.
    pub fn change_bool_setting(&mut self, setting: &str, value: bool) -> (known: bool)
        ensures
            known == (setting@ == "minimize_on_launch"@ || setting@ == "minimize_on_close"@),
            final(self).minimize_on_launch == if setting@ == "minimize_on_launch"@ {
                Some(value)
            } else {
                old(self).minimize_on_launch
            },
            final(self).minimize_on_close == if setting@ == "minimize_on_close"@ {
                Some(value)
            } else {
                old(self).minimize_on_close
            },
            final(self).install_path == old(self).install_path,
            final(self).current_profile == old(self).current_profile,
            final(self).download_sources == old(self).download_sources,
    {
        proof {
            reveal_strlit("minimize_on_launch");
            reveal_strlit("minimize_on_close");
            assert("minimize_on_launch"@.len() == 18);
            assert("minimize_on_close"@.len() == 17);
            assert("minimize_on_launch"@ != "minimize_on_close"@);
        }
        if str_eq(setting, "minimize_on_launch") {
            self.minimize_on_launch = Some(value);
            true
        } else if str_eq(setting, "minimize_on_close") {
            self.minimize_on_close = Some(value);
            true
        } else {
            false
        }
    }
}

impl Default for Settings {
    /// The state lazily created on first access: no install path, the
    /// first profile active, the two stock release sources, and both
    /// minimizing behaviors switched on.
    fn default() -> (r: Settings)
        ensures
            r.install_path is None,
            r.current_profile == 0,
            r.download_sources@.len() == 2,
            r.download_sources@[0]@ == "Anuken/Mindustry"@,
            r.download_sources@[1]@ == "Anuken/MindustryBuilds"@,
            r.minimize_on_launch == Some(true),
            r.minimize_on_close == Some(true),
    {
        Settings {
            install_path: None,
            current_profile: 0,
            download_sources: vec![
                "Anuken/Mindustry".to_owned(),
                "Anuken/MindustryBuilds".to_owned(),
            ],
            minimize_on_launch: Some(true),
            minimize_on_close: Some(true),
        }
    }
}

} // verus!
