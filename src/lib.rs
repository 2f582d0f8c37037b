//! Builder for throw-away directory trees used as test fixtures.
//!
//! The library decides everything about a fixture: where its root goes, which
//! directory is deleted when it is torn down, what each `create` or `remove`
//! does and what is recorded. The filesystem work itself is described by
//! [`FsOp`] values that the caller carries out.
pub mod content;
pub mod fixture;
pub mod path;
pub mod scope;

pub use content::{content, name_from, random_bytes, random_name, zero_bytes, FileType};
pub use fixture::{DirBuilder, EntryKind, FsOp, PathError, Setup, TestDir};
pub use path::{ancestors, is_absolute, join};
pub use scope::{boundary_index, TempDir};
