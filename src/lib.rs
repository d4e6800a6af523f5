//! Help requests: requesters post requests, helpers are bound to them, and each
//! request moves through the lifecycle `new`/`binding` -> `in_progress` -> `done`.
//!
//! The library holds the rules of that service: input validation, the status a
//! request starts in, what each mutation does to the stored rows, and the
//! soft-delete filter applied to every listing. The HTTP surface and the
//! database driver live outside it and hand it plain values.
pub mod record;
pub mod validate;
pub mod lifecycle;
pub mod store;
