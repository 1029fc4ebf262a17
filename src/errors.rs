use vstd::prelude::*;

verus! {

#[verifier::external_type_specification]
#[verifier::external_body]
pub struct ExIoError(std::io::Error);

#[verifier::external_type_specification]
#[verifier::external_body]
pub struct ExJsonError(serde_json::Error);

#[verifier::external_type_specification]
#[verifier::external_body]
pub struct ExNotifyError(notify::Error);

/// A process' output indicates unsuccessful completion.
#[derive(Debug)]
pub struct ExitStatusUnsuccessfulError {
    pub code: Option<i32>,
    pub stderr: String,
}

/// Errors that might occur while starting to watch a package.
#[allow(inconsistent_fields)]
#[derive(Debug)]
pub enum WatchError {
    /// The path does not end with `Cargo.toml`.
    InvalidPath,
    /// The metadata query could not be run.
    Io { err: std::io::Error },
    /// The metadata query exited unsuccessfully.
    ExitStatusUnsuccessful { err: ExitStatusUnsuccessfulError },
    /// The metadata query printed something other than JSON.
    Json { err: serde_json::Error },
    /// The package has no dynamic library target.
    NoDylibTarget,
    /// The file-system watcher could not be set up.
    Notify { err: notify::Error },
}

/// Errors that might occur while building a library instance.
#[allow(inconsistent_fields)]
#[derive(Debug)]
pub enum BuildError {
    /// The build tool could not be run.
    Io { err: std::io::Error },
    /// The build tool exited unsuccessfully.
    ExitStatusUnsuccessful { err: ExitStatusUnsuccessfulError },
}

/// Errors that might occur while waiting for the next library instance.
#[derive(Debug)]
pub enum NextError {
    /// The channel that carries file-system events was closed.
    ChannelClosed,
    /// The file-system watcher reported an error.
    Notify { err: notify::Error },
}

} // verus!
