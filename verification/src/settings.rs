//! What the user can configure.

use vstd::prelude::*;

verus! {

/// The user's settings: the peer whose round-trip time is measured while the
/// managed process runs.
#[derive(Clone, Debug)]
pub struct Settings {
    pub ping_host: String,
}

/// The host of the settings that are used when none are stored.
pub open spec fn default_ping_host() -> Seq<char> {
    "127.0.0.1"@
}

impl Default for Settings {
    /// The settings that are used when none are stored.
    fn default() -> (s: Settings)
        ensures
            s.ping_host@ == default_ping_host(),
    {
        Settings { ping_host: String::from_str("127.0.0.1") }
    }
}

impl Settings {
    /// The settings with `ping_host` in place of the host.
    pub fn with_ping_host(self, ping_host: String) -> (s: Settings)
        ensures
            s.ping_host == ping_host,
    {
        Settings { ping_host }
    }
}

/// What loading the settings has come to: the settings to use, and whether they
/// have to be written back to the store.
#[derive(Debug)]
pub struct Loaded {
    pub settings: Settings,
    pub persist: bool,
}

/// Settles what is used after an attempt to load the settings: what was read, if
/// the store held a record in order (`Some`); otherwise the defaults, which are
/// then to be written back.
pub fn settings_or_default(stored: Option<Settings>) -> (loaded: Loaded)
    ensures
        match stored {
            Some(s) => loaded.settings == s && !loaded.persist,
            None => loaded.settings.ping_host@ == default_ping_host() && loaded.persist,
        },
{
    match stored {
        Some(settings) => Loaded { settings, persist: false },
        None => Loaded { settings: Settings::default(), persist: true },
    }
}

} // verus!
