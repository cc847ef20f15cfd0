//! The decisions behind a small desktop shell: the greeting it answers with,
//! and how its picture-in-picture window is shown, hidden and asked about.
//!
//! Nothing here touches a window. The shell looks the window up and makes the
//! calls; this crate says which calls to make, in which order, and what the
//! front end is told in the end.

pub mod greeting;
pub mod toggle;
pub mod window;
