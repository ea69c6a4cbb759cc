use vstd::prelude::*;

verus! {

/// Every way the application can fail.
///
/// The first seven variants are startup failures: each is fatal, is logged,
/// and terminates the process with exit code 1 before any shard connection is
/// opened (for the asset and configuration variants) or immediately after a
/// failed discovery (for the bootstrap variant). `ShardStreamFailed` is the
/// one post-startup error: a single shard's connection ended with an error;
/// it is local to that shard's worker and never terminates the process by
/// itself.
#[derive(Clone, Copy, Debug, PartialEq, Eq, Structural)]
pub enum AppError {
    /// The assets directory path does not exist or is not a directory.
    AssetsDirInvalid,
    /// The assets directory holds no regular `config.toml` file.
    ConfigFileMissing,
    /// The assets directory holds no regular `token` file.
    TokenFileMissing,
    /// The configuration file is not a well-formed document, or a field in it
    /// has the wrong type.
    ConfigSyntax,
    /// The configuration file has no `intents` field.
    ConfigMissingIntents,
    /// The `intents` field is negative.
    ConfigIntentsOutOfRange,
    /// The `message_cache_size` field is negative or too large for this
    /// machine.
    ConfigCacheSizeOutOfRange,
    /// Shard discovery or the construction of a shard connection failed.
    GatewayBootstrapFailed,
    /// A shard's event stream terminated with an error after startup.
    ShardStreamFailed,
}

impl AppError {
    /// Whether this error is fatal at startup: every variant but a shard
    /// stream failure, which stays local to its worker.
    pub open spec fn spec_is_startup_fatal(self) -> bool {
        !(self is ShardStreamFailed)
    }

    /// Runtime test of `spec_is_startup_fatal`.
    pub fn is_startup_fatal(&self) -> (r: bool)
        ensures
            r == self.spec_is_startup_fatal(),
    {
        !matches!(self, AppError::ShardStreamFailed)
    }
}

} // verus!
