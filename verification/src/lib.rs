//! A safety-oriented core for resource handles owned by an external,
//! C-based event-loop library.
//!
//! The `handle` module is the heart of the crate: it manages the identity,
//! allocation and typed payload slot of native handle records, with the
//! record store modeled explicitly so that every lifecycle rule (freed
//! exactly once, never touched after release, payload overwrite semantics)
//! is stated and proved. The `eval_statusline` module holds an options
//! struct for the editor's statusline evaluation call, together with its
//! conversion to the C-compatible key/value record.

pub mod eval_statusline;
pub mod handle;
pub mod object;
