//! Lifecycle of a local WebDriver run: the fixed capability descriptor a
//! headless session is opened with, and the orchestration of starting the
//! driver process, opening and closing the session, and stopping the process,
//! with the guarantee that no exit path leaks the driver process.

pub mod capabilities;
pub mod lifecycle;
