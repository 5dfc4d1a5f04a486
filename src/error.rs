use vstd::prelude::*;

verus! {

/// Why a build of an extension did not succeed.
#[derive(Debug)]
pub enum BuildFailure {
    /// The build tool could not be started at all.
    NotStarted { reason: String },
    /// The build tool ran and exited unsuccessfully; `code` is its exit code,
    /// absent where the process was ended by a signal.
    Exited { code: Option<i32> },
}

/// What can go wrong while building, finding and opening an extension.
/// Every variant carries what is needed to diagnose it without the source.
#[derive(Debug)]
pub enum ExtensionError {
    /// The build tool could not be run, or it failed; `command` is the full
    /// command line that was attempted.
    Build { command: String, failure: BuildFailure },
    /// No shared library exists at `path`: the extension was probably never
    /// built.
    ArtifactNotFound { path: String },
    /// The shared library at `path` exists but could not be opened.
    Load { path: String, reason: String },
    /// The shared library at `path` opened, but it exports no complete
    /// interface that the host knows; `symbol` is the last one that was
    /// missing.
    InterfaceResolution { path: String, symbol: String, reason: String },
}

impl ExtensionError {
    /// The diagnostic text of this error.
    pub open spec fn spec_message(&self) -> Seq<char> {
        match *self {
            ExtensionError::Build { command, failure: BuildFailure::NotStarted { reason } } =>
                "failed to execute "@ + command@ + ": "@ + reason@,
            ExtensionError::Build { command, failure: BuildFailure::Exited { .. } } =>
                "failed to compile procedural macro plugin: "@ + command@,
            ExtensionError::ArtifactNotFound { path } =>
                "shared library not found at "@ + path@ + " (was the extension built?)"@,
            ExtensionError::Load { path, reason } =>
                "failed to open shared library "@ + path@ + ": "@ + reason@,
            ExtensionError::InterfaceResolution { path, symbol, reason } =>
                "shared library "@ + path@ + " does not export "@ + symbol@ + ": "@ + reason@,
        }
    }

    /// The diagnostic text of this error: what failed, with the command,
    /// path or symbol concerned.
    pub fn message(&self) -> (r: String)
        ensures
            r@ == self.spec_message(),
    {
        match self {
            ExtensionError::Build { command, failure: BuildFailure::NotStarted { reason } } =>
                String::from_str("failed to execute ").concat(command.as_str()).concat(": ").concat(
                    reason.as_str(),
                ),
            ExtensionError::Build { command, failure: BuildFailure::Exited { .. } } =>
                String::from_str("failed to compile procedural macro plugin: ").concat(command.as_str()),
            ExtensionError::ArtifactNotFound { path } =>
                String::from_str("shared library not found at ").concat(path.as_str()).concat(
                    " (was the extension built?)",
                ),
            ExtensionError::Load { path, reason } =>
                String::from_str("failed to open shared library ").concat(path.as_str()).concat(
                    ": ",
                ).concat(reason.as_str()),
            ExtensionError::InterfaceResolution { path, symbol, reason } =>
                String::from_str("shared library ").concat(path.as_str()).concat(
                    " does not export ",
                ).concat(symbol.as_str()).concat(": ").concat(reason.as_str()),
        }
    }
}

} // verus!
