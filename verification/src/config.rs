//! The settings that outlive a session.

use vstd::prelude::*;
use vstd::string::StrSliceExecFns;

verus! {

/// The credential for the search backend and the display flags.
#[derive(Clone, Debug, PartialEq, Eq)]
pub struct Config {
    pub api_key: String,
    pub title_text: bool,
}

impl Default for Config {
    /// No credential yet, and the title banner switched on.
    fn default() -> (c: Config)
        ensures
            c.api_key@ == Seq::<char>::empty(),
            c.title_text,
    {
        Config { api_key: String::new(), title_text: true }
    }
}

impl Config {
    /// These settings with another credential.
    pub fn with_api_key(self, api_key: String) -> (c: Config)
        ensures
            c.api_key == api_key,
            c.title_text == self.title_text,
    {
        Config { api_key, title_text: self.title_text }
    }

    /// Whether a credential has been stored.
    pub fn has_api_key(&self) -> (b: bool)
        ensures
            b == (self.api_key@.len() > 0),
    {
        self.api_key.as_str().unicode_len() > 0
    }
}

} // verus!
