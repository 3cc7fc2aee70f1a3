//! A store of files under a base directory. Reading and writing the files is
//! done outside the library; here is where a file of the store lies.
use vstd::prelude::*;
use crate::paths::{join_path, parent_dir, path_join, path_parent};
use crate::text::copy_str;

verus! {

/// A store of files under the directory `base_path`.
pub struct StorageService {
    base_path: String,
}

impl View for StorageService {
    type V = Seq<char>;

    /// The base directory.
    closed spec fn view(&self) -> Seq<char> {
        self.base_path@
    }
}

impl StorageService {
    /// A store under the directory `base_path`.
    pub fn new(base_path: &str) -> (res: Self)
        ensures
            res@ == base_path@,
    {
        Self { base_path: copy_str(base_path) }
    }

    /// The base directory.
    pub fn base_path(&self) -> (res: &str)
        ensures
            res@ == self@,
    {
        self.base_path.as_str()
    }

    /// Where the file `sub_path` of the store lies: `sub_path` joined to the base directory.
    pub fn full_path(&self, sub_path: &str) -> (res: String)
        ensures
            res@ == path_join(self@, sub_path@),
    {
        join_path(self.base_path.as_str(), sub_path)
    }

    /// The directory that holds the file `sub_path` of the store, if its full path has one.
    pub fn directory_of(&self, sub_path: &str) -> (res: Option<String>)
        ensures
            match path_parent(path_join(self@, sub_path@)) {
                Some(p) => res matches Some(r) && r@ == p,
                None => res is None,
            },
    {
        let full = self.full_path(sub_path);
        parent_dir(full.as_str())
    }
}

} // verus!
