use vstd::prelude::*;
use vstd::string::*;

verus! {

/// What can go wrong while a workload runs or the engine is set up.
#[derive(Debug, Clone)]
pub enum BurnInError {
    HardwareFailure(String),
    InsufficientResources(String),
    PermissionDenied(String),
    TestTimeout(String),
    SystemUnstable(String),
    /// An I/O failure, held as the text of the underlying error.
    IoError(String),
    ConfigError(String),
    TestExecutionError(String),
    UnexpectedError(String),
}

pub type Result<T> = std::result::Result<T, BurnInError>;

impl BurnInError {
    /// The words that introduce each kind of error in its message.
    pub open spec fn spec_prefix(self) -> Seq<char> {
        match self {
            BurnInError::HardwareFailure(_) => "Hardware failure: "@,
            BurnInError::InsufficientResources(_) => "Insufficient resources: "@,
            BurnInError::PermissionDenied(_) => "Permission denied: "@,
            BurnInError::TestTimeout(_) => "Test timeout: "@,
            BurnInError::SystemUnstable(_) => "System unstable: "@,
            BurnInError::IoError(_) => "IO error: "@,
            BurnInError::ConfigError(_) => "Configuration error: "@,
            BurnInError::TestExecutionError(_) => "Test execution error: "@,
            BurnInError::UnexpectedError(_) => "Unexpected error: "@,
        }
    }

    /// The detail that the error carries.
    pub open spec fn spec_detail(self) -> Seq<char> {
        match self {
            BurnInError::HardwareFailure(s) => s@,
            BurnInError::InsufficientResources(s) => s@,
            BurnInError::PermissionDenied(s) => s@,
            BurnInError::TestTimeout(s) => s@,
            BurnInError::SystemUnstable(s) => s@,
            BurnInError::IoError(s) => s@,
            BurnInError::ConfigError(s) => s@,
            BurnInError::TestExecutionError(s) => s@,
            BurnInError::UnexpectedError(s) => s@,
        }
    }

    /// The full message: the kind's prefix followed by the detail.
    pub open spec fn spec_message(self) -> Seq<char> {
        self.spec_prefix() + self.spec_detail()
    }

    /// The human-readable message of the error.
    pub fn message(&self) -> (s: String)
        ensures
            s@ == self.spec_message(),
    {
        match self {
            BurnInError::HardwareFailure(d) => String::from_str("Hardware failure: ").concat(d.as_str()),
            BurnInError::InsufficientResources(d) => String::from_str("Insufficient resources: ").concat(d.as_str()),
            BurnInError::PermissionDenied(d) => String::from_str("Permission denied: ").concat(d.as_str()),
            BurnInError::TestTimeout(d) => String::from_str("Test timeout: ").concat(d.as_str()),
            BurnInError::SystemUnstable(d) => String::from_str("System unstable: ").concat(d.as_str()),
            BurnInError::IoError(d) => String::from_str("IO error: ").concat(d.as_str()),
            BurnInError::ConfigError(d) => String::from_str("Configuration error: ").concat(d.as_str()),
            BurnInError::TestExecutionError(d) => String::from_str("Test execution error: ").concat(d.as_str()),
            BurnInError::UnexpectedError(d) => String::from_str("Unexpected error: ").concat(d.as_str()),
        }
    }
}

} // verus!
