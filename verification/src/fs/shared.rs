//! The names of the lock files that guard shared files.
//!
//! A shared file is guarded by an advisory lock on a second file, which
//! lies beside it. This module says what that second file is called.

use vstd::prelude::*;
use vstd::string::*;

verus! {

/// The default names: the name of the file between the prefix "." and the
/// suffix ".lock~".
pub struct DefaultSharedFileLockNameBuilder;

impl DefaultSharedFileLockNameBuilder {
    /// The prefix of the lock file.
    pub const LOCK_FILE_PREFIX: &'static str = ".";

    /// The suffix of the lock file.
    pub const LOCK_FILE_SUFFIX: &'static str = ".lock~";

    /// The name of the lock file for a file called `file_name`.
    pub open spec fn lock_file_name(file_name: Seq<char>) -> Seq<char> {
        Self::LOCK_FILE_PREFIX@ + file_name + Self::LOCK_FILE_SUFFIX@
    }

    /// Returns the name of the lock file for a file called `file_name`.
    pub fn create_lock_file_name(&self, file_name: &str) -> (name: String)
        ensures
            name@ == Self::lock_file_name(file_name@),
    {
        let mut lock_file_name = String::from_str(Self::LOCK_FILE_PREFIX);
        lock_file_name.append(file_name);
        lock_file_name.append(Self::LOCK_FILE_SUFFIX);
        lock_file_name
    }
}

} // verus!
