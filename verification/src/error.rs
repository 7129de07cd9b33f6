use vstd::prelude::*;

verus! {

/// Unified error type of the library.
///
/// The identifier-generator errors carry the offending values as plain
/// integers so that contracts can state exactly which error is returned on
/// which input; the remaining variants carry a human-readable description.
#[derive(Debug, Clone)]
pub enum ClamberError {
    /// Logging setup failed.
    LoggingError { message: String },
    /// A directory could not be created.
    DirectoryCreationError { path: String },
    /// A token operation failed for a reason not covered below.
    JwtError { message: String },
    /// The token signing key could not be built from the secret.
    JwtKeyError { details: String },
    /// Signing the claims failed.
    JwtSignError { details: String },
    /// The token's signature or framing did not verify.
    JwtVerifyError { details: String },
    /// The token's expiry time has passed.
    JwtExpiredError,
    /// A required claim is missing from the token.
    JwtMissingFieldError { field: String },
    /// The worker identifier is outside the accepted range.
    InvalidWorkerId { worker_id: u64 },
    /// The clock moved backward relative to the last issued timestamp.
    ClockRollback { now_millis: u64, last_timestamp_millis: u64 },
    /// The elapsed time since the epoch does not fit the timestamp field.
    TimestampOverflow { now_millis: u64, epoch_millis: u64 },
    /// The guard serialising access to a shared generator is unusable.
    LockAcquisitionFailure,
    /// A generator could not be initialised.
    SnowflakeInitError { details: String },
    /// Identifier generation failed for a reason other than rollback or
    /// overflow, such as a clock that never advances.
    SnowflakeGenerateError { details: String },
    /// A generator-related value could not be read or validated.
    SnowflakeConfigError { details: String },
    /// Loading configuration sources failed.
    ConfigLoadError { details: String },
    /// A configuration file does not exist.
    ConfigFileNotFoundError { path: String },
    /// Configuration data could not be parsed.
    ConfigParseError { details: String },
    /// Configuration data failed validation.
    ConfigValidationError { details: String },
    /// An environment variable could not be interpreted.
    EnvVarParseError { details: String },
    /// Serialisation failed.
    SerializationError { details: String },
    /// Deserialisation failed.
    DeserializationError { details: String },
    /// An input/output operation failed.
    IoError { details: String },
    /// Any other failure.
    Other { message: String },
}

} // verus!
