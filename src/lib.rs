//! Keeps watched version-controlled checkouts in sync with their remote:
//! routing of file-change events, and the commit / merge / push pipeline
//! as a verified state machine driven by the caller.
pub mod messages;
pub mod raw_git;
pub mod router;
pub mod sync;
