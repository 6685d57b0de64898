//! A typed layer over a platform heap.
//!
//! The platform offers three untyped primitives: allocate a block of bytes with
//! an alignment, resize a block, release a block. This crate holds the policy
//! that stands between a caller who thinks in "`count` elements of `T`" and
//! those primitives: which request goes to the platform, when none goes at
//! all, and what the platform's reply means for the caller.
//!
//! The crate never touches memory itself. Every operation is a decision: it
//! returns either a finished [`handle::Handle`] or the [`request::Request`] that
//! the embedding code has to carry to the platform, and
//! [`operations::complete`] turns the platform's reply into the operation's
//! result.
//!
//! - [`handle`]: typed addresses that are never null, and the sentinel.
//! - [`unique`]: the wrapper that marks a handle as exclusively owned.
//! - [`request`]: requests, errors, and the alignment strategies of platforms.
//! - [`operations`]: allocate, release, reallocate.
//! - [`platform`]: what the primitives are relied on to do, as a relation on
//!   the platform's blocks.
//! - [`laws`]: what follows for whole operations.

pub mod handle;
pub mod laws;
pub mod operations;
pub mod platform;
pub mod request;
pub mod unique;
