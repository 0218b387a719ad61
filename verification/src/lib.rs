//! A one-shot supervisor for a bundled backend server process.
//!
//! The library models the whole life of the supervisor as a small state
//! machine: it sleeps briefly while the host shell finishes starting, asks for
//! the bundled resource directory, launches the backend from the `backend`
//! subdirectory with both output streams discarded, sleeps again while the
//! backend warms up, announces the launch, and then waits for the child to
//! exit. Any failure while resolving the resource directory or spawning the
//! child aborts the whole application; there is no retry and no restart path.
//!
//! The machine itself performs no I/O. A driver feeds it one [`supervisor::Event`]
//! at a time and carries out the [`supervisor::Action`]s it hands back, so every
//! decision the supervisor makes is checked here, while sleeping, spawning and
//! waiting stay with the driver.

pub mod command;
pub mod laws;
pub mod supervisor;
