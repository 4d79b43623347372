//! The user-facing command vocabulary: the operation categories the input
//! loop can request, and the package managers it can name.

use vstd::prelude::*;

verus! {

/// The categories of operation a user can request.
#[derive(Clone, Copy, PartialEq, Eq, Hash, Structural, Debug)]
pub enum CommandType {
    Search,
    Config,
    Info,
    GeneralInfo,
    Healthcheck,
    Install,
    Uninstall,
    Update,
}

/// The package managers the command vocabulary can name.
#[derive(Clone, Copy, PartialEq, Eq, Structural, Debug)]
pub enum PackageManager {
    Homebrew,
}

impl PackageManager {
    pub open spec fn spec_name(self) -> Seq<char> {
        match self {
            PackageManager::Homebrew => "Homebrew"@,
        }
    }

    /// The manager's display name.
    pub fn name(&self) -> (r: &'static str)
        ensures
            r@ == self.spec_name(),
    {
        match self {
            PackageManager::Homebrew => "Homebrew",
        }
    }
}

} // verus!
