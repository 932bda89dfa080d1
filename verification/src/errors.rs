//! The failure taxonomy of the launch flow.

use vstd::prelude::*;

verus! {

/// Everything that can go wrong while preparing the server's launch command.
///
/// Each variant carries a human-readable message. `RegistryQueryFailed` and
/// `InstallFailed` come out of the package-installation step;
/// `MissingConfiguration` and `InvalidConfiguration` out of settings
/// validation.
#[derive(Debug, Clone, PartialEq, Eq)]
pub enum Error {
    /// A registry lookup (installed version or latest version) failed.
    RegistryQueryFailed(String),
    /// The install operation failed and no prior version was present.
    InstallFailed(String),
    /// The settings provider returned no settings object at all.
    MissingConfiguration(String),
    /// The settings object lacks a required field or has it at a wrong type.
    InvalidConfiguration(String),
}

impl Error {
    /// The message carried by the variant.
    pub fn message(&self) -> (r: &str)
        ensures
            r@ == self.spec_message(),
    {
        match self {
            Error::RegistryQueryFailed(m) => m.as_str(),
            Error::InstallFailed(m) => m.as_str(),
            Error::MissingConfiguration(m) => m.as_str(),
            Error::InvalidConfiguration(m) => m.as_str(),
        }
    }

    /// The message carried by the variant, as a sequence of characters.
    pub open spec fn spec_message(&self) -> Seq<char> {
        match self {
            Error::RegistryQueryFailed(m) => m@,
            Error::InstallFailed(m) => m@,
            Error::MissingConfiguration(m) => m@,
            Error::InvalidConfiguration(m) => m@,
        }
    }
}

} // verus!
