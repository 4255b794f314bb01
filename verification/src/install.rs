//! Build failures and the install-once discipline. A process holds one
//! explicit slot for its active logger; the first installation succeeds
//! and every later one fails deterministically, leaving the slot as it
//! was.

use vstd::prelude::*;

use crate::builder::Logger;

verus! {

/// The ways setup can fail. Setup is all-or-nothing: any of these aborts
/// the whole installation and no dispatch is attached.
#[derive(Clone, Copy, Debug, PartialEq, Eq, Structural)]
pub enum BuildError {
    /// The directory of a directory target could not be created.
    DirectoryCreation,
    /// Deleting the old backup or renaming the active file failed.
    Rotation,
    /// The active log file could not be opened for append.
    FileOpen,
    /// A logger is already installed in this process.
    DuplicateInstall,
}

/// The slot that holds a process's active logger: vacant until the first
/// installation, then occupied for good.
pub struct InstallSlot {
    pub active: Option<Logger>,
}

/// What installing `logger` into a slot holding `before` yields: the new
/// slot content and the reported outcome. A vacant slot accepts the
/// logger; an occupied one is left untouched and the attempt is refused.
pub open spec fn install_model(before: Option<Logger>, logger: Logger) -> (Option<Logger>, Result<
    (),
    BuildError,
>) {
    if before is None {
        (Some(logger), Ok(()))
    } else {
        (before, Err(BuildError::DuplicateInstall))
    }
}

impl InstallSlot {
    /// A fresh slot with no logger installed.
    pub fn new() -> (r: Self)
        ensures
            r.active is None,
    {
        Self { active: None }
    }

    /// Install a logger. Succeeds exactly once per slot; a second attempt
    /// fails with [`BuildError::DuplicateInstall`] and overwrites nothing.
    pub fn install(&mut self, logger: Logger) -> (r: Result<(), BuildError>)
        ensures
            (final(self).active, r) == install_model(old(self).active, logger),
    {
        match &self.active {
            None => {
                self.active = Some(logger);
                Ok(())
            },
            Some(_) => Err(BuildError::DuplicateInstall),
        }
    }

    /// Whether a logger has been installed.
    pub fn is_installed(&self) -> (b: bool)
        ensures
            b == (self.active is Some),
    {
        match &self.active {
            Some(_) => true,
            None => false,
        }
    }
}

/// Installing twice in one process yields success the first time and a
/// deterministic failure the second, with the first logger left in place.
pub proof fn lemma_second_install_fails(first: Logger, second: Logger)
    ensures
        ({
            let (s1, r1) = install_model(None, first);
            let (s2, r2) = install_model(s1, second);
            r1 == Ok::<(), BuildError>(()) && s1 == Some(first) && r2 == Err::<(), BuildError>(
                BuildError::DuplicateInstall,
            ) && s2 == s1
        }),
{
}

} // verus!
