//! The configuration record, read once at startup and never changed.
use vstd::prelude::*;

verus! {

/// Where to send audio, how to authenticate, the hotkey, and the language.
#[derive(Clone, Debug, PartialEq, Eq)]
pub struct Config {
    pub api_url: String,
    pub api_token: String,
    pub hotkey: String,
    pub language: String,
}

/// The language assumed when the configuration names none.
pub fn default_language() -> (r: String)
    ensures
        r@ == "en"@,
{
    String::from_str("en")
}

impl Default for Config {
    /// The configuration written on first start: a local service, a placeholder
    /// token, Super+C, English.
    fn default() -> (r: Config)
        ensures
            r.api_url@ == "http://localhost:8000"@,
            r.api_token@ == "changeme"@,
            r.hotkey@ == "super+c"@,
            r.language@ == "en"@,
    {
        Config {
            api_url: String::from_str("http://localhost:8000"),
            api_token: String::from_str("changeme"),
            hotkey: String::from_str("super+c"),
            language: default_language(),
        }
    }
}

} // verus!
