//! Where stored files are kept on the local file system.

use vstd::prelude::*;

verus! {

/// File storage below a directory of the local file system. Reading and
/// writing are the program's part; this type holds where.
#[derive(Debug)]
pub struct LocalStorage {
    base_path: String,
}

impl LocalStorage {
    /// The directory below which the files are kept.
    pub closed spec fn base(&self) -> Seq<char> {
        self.base_path@
    }

    /// Storage below `base_path`.
    pub fn new(base_path: &str) -> (storage: Self)
        ensures
            storage.base() == base_path@,
    {
        LocalStorage { base_path: String::from_str(base_path) }
    }

    /// The directory below which the files are kept.
    pub fn base_path(&self) -> (path: &str)
        ensures
            path@ == self.base(),
    {
        self.base_path.as_str()
    }
}

} // verus!
