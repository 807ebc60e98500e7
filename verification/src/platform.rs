//! The host platforms the launcher knows about.

use crate::text::same_text;
use vstd::prelude::*;

verus! {

/// The operating system family the launcher runs on.
#[derive(Clone, Copy, Debug, PartialEq, Eq, Structural)]
pub enum Platform {
    Windows,
    MacOs,
    Linux,
}

/// The platform that an operating system name stands for, if it is one the
/// launcher knows: `"windows"`, `"macos"` or `"linux"`.
pub open spec fn platform_named(name: Seq<char>) -> Option<Platform> {
    if name == "windows"@ {
        Some(Platform::Windows)
    } else if name == "macos"@ {
        Some(Platform::MacOs)
    } else if name == "linux"@ {
        Some(Platform::Linux)
    } else {
        None
    }
}

impl Platform {
    /// Reads a platform from the name of an operating system.
    pub fn from_os_name(name: &str) -> (platform: Option<Platform>)
        ensures
            platform == platform_named(name@),
    {
        if same_text(name, "windows") {
            Some(Platform::Windows)
        } else if same_text(name, "macos") {
            Some(Platform::MacOs)
        } else if same_text(name, "linux") {
            Some(Platform::Linux)
        } else {
            None
        }
    }

    /// Whether a registered target must exist on disk before it is spawned.
    /// Linux targets are bare command names found through the search path,
    /// so they are never checked.
    pub open spec fn checks_paths(self) -> bool {
        self != Platform::Linux
    }

    /// Executable form of [`Platform::checks_paths`].
    pub fn must_check_path(self) -> (b: bool)
        ensures
            b == self.checks_paths(),
    {
        match self {
            Platform::Linux => false,
            _ => true,
        }
    }
}

} // verus!
