//! Restricting a plugin to some capture modes.
//!
//! A configuration may list the capture modes it applies to, by name and in
//! any letter case.  A name is compared by its lowercase form, which
//! `str::to_lowercase` computes; the comparison itself is proved.

use vstd::prelude::*;
use crate::config::{BorderConfig, CaptureMode};
use crate::plugin::BordersPlugin;

verus! {

/// The lowercase form of a string, as Unicode defines it.
pub uninterp spec fn lowercase_of(s: Seq<char>) -> Seq<char>;

/// `str::to_lowercase`: the lowercase equivalent of a string slice, as a new
/// `String`.
#[verifier::external_body]
fn to_lowercase(s: &str) -> (lowered: String)
    ensures
        lowered@ == lowercase_of(s@),
{
    s.to_lowercase()
}

impl CaptureMode {
    /// The name a capture mode goes by in a configuration.
    pub open spec fn name(self) -> Seq<char> {
        match self {
            CaptureMode::FullScreen => "fullscreen"@,
            CaptureMode::Window => "window"@,
            CaptureMode::Region => "region"@,
            CaptureMode::Gif => "gif"@,
        }
    }

    /// The name a capture mode goes by in a configuration.
    pub fn as_str(self) -> (name: &'static str)
        ensures
            name@ == self.name(),
    {
        match self {
            CaptureMode::FullScreen => "fullscreen",
            CaptureMode::Window => "window",
            CaptureMode::Region => "region",
            CaptureMode::Gif => "gif",
        }
    }

    /// Whether `lowered` is this mode's name.
    pub fn is_named(self, lowered: &String) -> (yes: bool)
        ensures
            yes == (lowered@ == self.name()),
    {
        let name: String = self.as_str().to_owned();
        *lowered == name
    }
}

/// Whether one of the listed names is, in lowercase, the name of `mode`.
pub open spec fn mode_listed(names: Seq<String>, mode: CaptureMode) -> bool {
    exists|i: int| 0 <= i < names.len() && lowercase_of(#[trigger] names[i]@) == mode.name()
}

/// Whether a plugin restricted to `only_modes` handles captures of `mode`:
/// without a restriction it handles every mode, with one it handles the
/// modes whose names are listed.
pub open spec fn mode_allowed(only_modes: Option<Vec<String>>, mode: CaptureMode) -> bool {
    match only_modes {
        Some(names) => mode_listed(names@, mode),
        None => true,
    }
}

/// Decides `mode_allowed`.
pub fn is_mode_allowed(only_modes: &Option<Vec<String>>, mode: CaptureMode) -> (yes: bool)
    ensures
        yes == mode_allowed(*only_modes, mode),
{
    match only_modes {
        Some(names) => {
            let mut i: usize = 0;
            while i < names.len()
                invariant
                    i <= names.len(),
                    *only_modes == Some(*names),
                    forall|k: int| 0 <= k < i ==> lowercase_of(#[trigger] names@[k]@) != mode.name(),
                decreases names.len() - i,
            {
                let lowered = to_lowercase(names[i].as_str());
                if mode.is_named(&lowered) {
                    assert(lowercase_of(names@[i as int]@) == mode.name());
                    return true;
                }
                i = i + 1;
            }
            false
        },
        None => true,
    }
}

impl BorderConfig {
    /// Whether captures of `mode` get a border: the plugin is enabled and
    /// the mode is not excluded.
    pub open spec fn applies_to(&self, mode: CaptureMode) -> bool {
        self.enabled && mode_allowed(self.only_modes, mode)
    }
}

impl BordersPlugin {
    /// Whether captures of `mode` get a border.  A disabled plugin handles
    /// none.
    pub fn should_process(&self, mode: &CaptureMode) -> (yes: bool)
        ensures
            yes == self.settings().applies_to(*mode),
            !self.settings().enabled ==> !yes,
    {
        if !self.config().enabled {
            return false;
        }
        is_mode_allowed(&self.config().only_modes, *mode)
    }
}

} // verus!
