//! Plain-value models of a filesystem capability: the builders that describe
//! how a file is opened and how a directory is created, the snapshots that a
//! metadata query yields, and the stateless handle that hands out fresh
//! builders. Each builder setter has an exact contract over the builder's view,
//! so code that configures an open or a directory creation can be reasoned
//! about before any call reaches the operating system.

pub mod handle;
pub mod metadata;
pub mod options;

pub use handle::FS;
pub use metadata::{EntryKind, FileType, Metadata, MetadataView, Permissions};
pub use options::{DirBuilder, DirConfig, OpenConfig, OpenOptions};
