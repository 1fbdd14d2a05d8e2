//! The operating systems on which the editor runs.

use vstd::prelude::*;
use crate::paths::PathError;
use crate::text::same_text;

verus! {

/// The operating system families on which the editor runs.
#[derive(Clone, Copy, Debug, PartialEq, Eq, Structural)]
pub enum HostOs {
    Windows,
    MacOs,
    Linux,
}

/// The character that this library writes between two components of a path.
pub open spec fn separator(os: HostOs) -> char {
    if os == HostOs::Windows {
        '\\'
    } else {
        '/'
    }
}

/// Whether `c` separates components of a path on `os`.
pub open spec fn is_separator(os: HostOs, c: char) -> bool {
    c == '/' || (os == HostOs::Windows && c == '\\')
}

/// The system that the platform name `name` stands for.
pub open spec fn host_named(name: Seq<char>) -> Option<HostOs> {
    if name == "windows"@ {
        Some(HostOs::Windows)
    } else if name == "macos"@ {
        Some(HostOs::MacOs)
    } else if name == "linux"@ {
        Some(HostOs::Linux)
    } else {
        None
    }
}

impl HostOs {
    /// Whether `c` separates components of a path on this system.
    pub fn separates(self, c: char) -> (yes: bool)
        ensures
            yes == is_separator(self, c),
    {
        match self {
            HostOs::Windows => c == '/' || c == '\\',
            _ => c == '/',
        }
    }

    /// The system that the platform name `name` stands for: `windows`,
    /// `macos` or `linux`. Any other name is an unsupported system.
    pub fn from_name(name: &str) -> (result: Result<HostOs, PathError>)
        ensures
            match result {
                Ok(os) => host_named(name@) == Some(os),
                Err(error) => host_named(name@) is None && error == PathError::UnsupportedSystem,
            },
    {
        if same_text(name, "windows") {
            Ok(HostOs::Windows)
        } else if same_text(name, "macos") {
            Ok(HostOs::MacOs)
        } else if same_text(name, "linux") {
            Ok(HostOs::Linux)
        } else {
            Err(PathError::UnsupportedSystem)
        }
    }
}

} // verus!
