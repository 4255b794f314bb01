//! The size-based rotation policy: an active log file that has grown
//! strictly past the configured threshold is moved to the backup name
//! before the next session appends to a fresh file; the previous backup,
//! if any, is discarded. The decision logic and its effect on the two
//! per-directory artifacts are verified here; the caller mirrors the
//! decided actions onto the real file system.

use vstd::prelude::*;

verus! {

/// An active log file of `size` bytes must rotate under threshold
/// `max_file_size` exactly when it is strictly larger: a file exactly at
/// the threshold stays.
pub open spec fn rotation_needed(size: int, max_file_size: int) -> bool {
    size > max_file_size
}

/// Decide whether a file of `size` bytes rotates under the threshold.
pub fn needs_rotation(size: u128, max_file_size: u128) -> (b: bool)
    ensures
        b == rotation_needed(size as int, max_file_size as int),
{
    size > max_file_size
}

/// What one rotation check decides to do to a directory target.
#[derive(Clone, Copy, Debug, PartialEq, Eq, Structural)]
pub enum RotationAction {
    /// Leave the active file untouched (or there is no active file).
    Leave,
    /// Move the active file to the backup name; when `delete_backup` is
    /// set, a backup is present and must be deleted first.
    Rotate { delete_backup: bool },
}

/// The rotation decision from what the file system shows: whether the
/// active file exists and its size, whether a backup exists, and the
/// configured threshold. A missing active file never rotates; an existing
/// one rotates exactly when strictly oversized.
pub fn rotation_plan(
    active_exists: bool,
    active_size: u128,
    backup_exists: bool,
    max_file_size: u128,
) -> (r: RotationAction)
    ensures
        r == (if active_exists && rotation_needed(active_size as int, max_file_size as int) {
            (RotationAction::Rotate { delete_backup: backup_exists })
        } else {
            RotationAction::Leave
        }),
{
    if active_exists && needs_rotation(active_size, max_file_size) {
        RotationAction::Rotate { delete_backup: backup_exists }
    } else {
        RotationAction::Leave
    }
}

/// The two artifacts of a directory target, by content: the active log
/// file and the single backup, each present or absent.
pub struct DirState {
    pub active: Option<Vec<u8>>,
    pub backup: Option<Vec<u8>>,
}

/// The mathematical content of a `DirState`.
#[verifier::ext_equal]
pub struct DirModel {
    pub active: Option<Seq<u8>>,
    pub backup: Option<Seq<u8>>,
}

impl View for DirState {
    type V = DirModel;

    open spec fn view(&self) -> DirModel {
        DirModel {
            active: match self.active {
                Some(v) => Some(v@),
                None => None,
            },
            backup: match self.backup {
                Some(v) => Some(v@),
                None => None,
            },
        }
    }
}

/// The effect of one rotation check on a directory holding `m`: an
/// oversized active file becomes the backup (replacing any previous one)
/// and the active name is left vacant; otherwise nothing changes.
pub open spec fn rotate_model(m: DirModel, max_file_size: u128) -> DirModel {
    if m.active is Some && rotation_needed(m.active->0.len() as int, max_file_size as int) {
        DirModel { active: None, backup: m.active }
    } else {
        m
    }
}

impl DirState {
    /// Run the rotation check on the directory contents.
    pub fn check_rotation(&mut self, max_file_size: u128)
        ensures
            final(self)@ == rotate_model(old(self)@, max_file_size),
    {
        let rotate: bool = match &self.active {
            Some(v) => needs_rotation(v.len() as u128, max_file_size),
            None => false,
        };
        if rotate {
            let content: Option<Vec<u8>> = self.active.take();
            self.backup = content;
        }
        proof {
            assert(self@ =~~= rotate_model(old(self)@, max_file_size));
        }
    }

    /// Append bytes to the active file, creating it empty first when it is
    /// missing — what a file sink's write does after setup.
    pub fn append_active(&mut self, data: &[u8])
        ensures
            final(self)@.backup == old(self)@.backup,
            final(self)@.active is Some,
            final(self)@.active->0 == (if old(self)@.active is Some {
                old(self)@.active->0
            } else {
                Seq::<u8>::empty()
            }) + data@,
    {
        let mut v: Vec<u8> = match self.active.take() {
            Some(v) => v,
            None => Vec::new(),
        };
        let ghost base: Seq<u8> = v@;
        let mut i: usize = 0;
        while i < data.len()
            invariant
                0 <= i <= data@.len(),
                v@ == base + data@.subrange(0, i as int),
            decreases data@.len() - i,
        {
            v.push(data[i]);
            i = i + 1;
            proof {
                assert(v@ =~= base + data@.subrange(0, i as int));
            }
        }
        proof {
            assert(v@ =~= base + data@);
        }
        self.active = Some(v);
    }
}

/// A rotation check on a missing active file is a no-op.
pub proof fn lemma_rotation_missing_active_no_op(m: DirModel, max_file_size: u128)
    requires
        m.active is None,
    ensures
        rotate_model(m, max_file_size) == m,
{
}

/// Rotating an oversized active file moves its exact content to the backup
/// name and vacates the active name; a second check against a
/// freshly-created, empty active file at the same path does not
/// re-trigger.
pub proof fn lemma_rotation_idempotent(m: DirModel, max_file_size: u128)
    requires
        m.active is Some,
        m.active->0.len() > max_file_size,
    ensures
        rotate_model(m, max_file_size).active is None,
        rotate_model(m, max_file_size).backup == m.active,
        rotate_model(
            (DirModel { active: Some(Seq::<u8>::empty()), backup: rotate_model(m, max_file_size).backup }),
            max_file_size,
        ) == (DirModel { active: Some(Seq::<u8>::empty()), backup: rotate_model(m, max_file_size).backup }),
{
}

/// When rotation triggers while a backup already exists, the old backup is
/// replaced whole by the active file's content, never appended to.
pub proof fn lemma_backup_overwritten(m: DirModel, max_file_size: u128)
    requires
        m.active is Some,
        m.active->0.len() > max_file_size,
        m.backup is Some,
    ensures
        rotate_model(m, max_file_size).backup == m.active,
        rotate_model(m, max_file_size).backup != m.backup || m.active == m.backup,
{
}

/// A file of size exactly the threshold does not rotate; one byte more
/// does.
pub proof fn lemma_rotation_boundary(t: u128)
    ensures
        !rotation_needed(t as int, t as int),
        rotation_needed(t as int + 1, t as int),
{
}

} // verus!
