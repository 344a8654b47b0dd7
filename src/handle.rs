use vstd::prelude::*;
use crate::options::{DirBuilder, DirConfig, OpenConfig, OpenOptions};

verus! {

/// The capability to work on the filesystem. It holds no state: copies of it
/// are interchangeable, and each call stands on its own.
#[derive(Clone, Copy, Debug)]
pub struct FS;

impl FS {
    /// A fresh builder for opening a file: every flag unset, no mode.
    pub fn new_openopts(&self) -> (r: OpenOptions)
        ensures
            r@ == OpenConfig::fresh(),
    {
        OpenOptions::new()
    }

    /// A fresh builder for creating a directory: not recursive, no mode.
    pub fn new_dirbuilder(&self) -> (r: DirBuilder)
        ensures
            r@ == DirConfig::fresh(),
    {
        DirBuilder::new()
    }
}

} // verus!
