//! The fatal conditions of an install or lookup.

use vstd::prelude::*;

verus! {

/// Why a lookup or an install stopped.
#[derive(Debug, Clone, Copy, PartialEq, Eq, Structural)]
pub enum ModpmError {
    /// The registry knows no project, release or file hash of that name.
    NotFound,
    /// The instance runs without a modloader, so nothing can be installed.
    UnsupportedModloader,
    /// No release of the mod fits the instance.
    NoCompatibleVersion,
    /// The answer to a selection prompt named none of the offered releases.
    InvalidSelection,
    /// A release with several files flags none of them as primary.
    NoPrimaryFile,
    /// A required dependency has no release that fits the instance.
    NoDependencyVersion,
    /// A file could not be downloaded.
    DownloadFailed,
    /// The lockfile exists but does not hold a list of entries.
    CorruptLockfile,
    /// The lockfile already records a release of the project.
    AlreadyInstalled,
    /// The lockfile could not be written.
    LockfileWriteFailed,
}

impl ModpmError {
    /// The text of [`ModpmError::message`] for each condition.
    pub open spec fn message_text(self) -> Seq<char> {
        match self {
            ModpmError::NotFound => "Couldn't find mod"@,
            ModpmError::UnsupportedModloader => "This instance has no modloader"@,
            ModpmError::NoCompatibleVersion => "I couldn't find a version that matches that instance."@,
            ModpmError::InvalidSelection => "Couldn't find that version."@,
            ModpmError::NoPrimaryFile => "Couldn't find a mod version's primary file"@,
            ModpmError::NoDependencyVersion => "Couldn't find a dependency version that matches the instance"@,
            ModpmError::DownloadFailed => "Failed to download a mod file"@,
            ModpmError::CorruptLockfile => "Couldn't deserialize a lockfile"@,
            ModpmError::AlreadyInstalled => "you've already downloaded that mod from modpm in this instance - if you wanted to update it, please run modpm update."@,
            ModpmError::LockfileWriteFailed => "something went really really wrong while making a lockfile"@,
        }
    }

    /// A sentence for the user.
    pub fn message(&self) -> (r: String)
        ensures
            r@ == self.message_text(),
    {
        let text: &str = match self {
            ModpmError::NotFound => "Couldn't find mod",
            ModpmError::UnsupportedModloader => "This instance has no modloader",
            ModpmError::NoCompatibleVersion => "I couldn't find a version that matches that instance.",
            ModpmError::InvalidSelection => "Couldn't find that version.",
            ModpmError::NoPrimaryFile => "Couldn't find a mod version's primary file",
            ModpmError::NoDependencyVersion => "Couldn't find a dependency version that matches the instance",
            ModpmError::DownloadFailed => "Failed to download a mod file",
            ModpmError::CorruptLockfile => "Couldn't deserialize a lockfile",
            ModpmError::AlreadyInstalled => "you've already downloaded that mod from modpm in this instance - if you wanted to update it, please run modpm update.",
            ModpmError::LockfileWriteFailed => "something went really really wrong while making a lockfile",
        };
        String::from_str(text)
    }
}

} // verus!
