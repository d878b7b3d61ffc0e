//! Bulk rename of object-store keys by regular-expression substitution.
//!
//! An object store has no rename primitive: renaming means listing every key
//! under a prefix, applying a substitution rule to each key, copying each
//! object whose key actually changes, and deleting the source only after its
//! copy has succeeded.  This crate holds the verified core of that pipeline:
//! paginated enumeration, key transformation, grant and property translation,
//! the per-key state machine, and the copy-then-delete guard discipline.
//! The network calls themselves are issued by an unverified driver that feeds
//! their results back into the state machine as plain values.

pub mod acl;
pub mod config;
pub mod descriptor;
pub mod errors;
pub mod expr;
pub mod grants;
pub mod listing;
pub mod strutil;
pub mod task;
pub mod url;
