//! Error values of the toolkit, each with the text it is reported under.

use vstd::prelude::*;
use vstd::string::*;

verus! {

/// Failures while reading or writing the stored configuration.
#[derive(Debug, Clone, PartialEq, Eq)]
pub enum ConfigError {
    FileNotFound(String),
    Serialization(String),
    Io(String),
}

/// Failures of one group's scan.
#[derive(Debug, Clone, PartialEq, Eq)]
pub enum ScannerError {
    /// The range expression is blank or in neither supported form.
    NetworkRangeInvalid(String),
    /// The consumer went away while events were still being sent.
    ChannelClosed,
    /// The background task that probes the hosts failed.
    ThreadError(String),
    /// No background execution context could be had.
    RuntimeError(String),
}

/// Failures while talking to a single, known miner.
#[derive(Debug, Clone, PartialEq, Eq)]
pub enum FetchError {
    RuntimeCreation(String),
    FactoryCreation(String),
    MinerNotFound(String),
    MinerDataError(String),
}

pub type ConfigResult<T> = Result<T, ConfigError>;

pub type ScannerResult<T> = Result<T, ScannerError>;

pub type FetchResult<T> = Result<T, FetchError>;

/// `prefix` followed by `detail`.
fn prefixed(prefix: &str, detail: &String) -> (text: String)
    ensures
        text@ == prefix@ + detail@,
{
    let mut text = String::from_str(prefix);
    text.append(detail.as_str());
    text
}

impl ConfigError {
    /// The text this error is reported under.
    pub open spec fn message_text(self) -> Seq<char> {
        match self {
            ConfigError::FileNotFound(path) => "Config file not found: "@ + path@,
            ConfigError::Serialization(detail) => "Config serialization error: "@ + detail@,
            ConfigError::Io(detail) => "IO error: "@ + detail@,
        }
    }

    /// Renders the error for display.
    pub fn message(&self) -> (text: String)
        ensures
            text@ == self.message_text(),
    {
        match self {
            ConfigError::FileNotFound(path) => prefixed("Config file not found: ", path),
            ConfigError::Serialization(detail) => prefixed("Config serialization error: ", detail),
            ConfigError::Io(detail) => prefixed("IO error: ", detail),
        }
    }
}

impl ScannerError {
    /// The text this error is reported under.
    pub open spec fn message_text(self) -> Seq<char> {
        match self {
            ScannerError::NetworkRangeInvalid(reason) => "Invalid network range: "@ + reason@,
            ScannerError::ChannelClosed => "Communication channel closed"@,
            ScannerError::ThreadError(detail) => "Thread execution error: "@ + detail@,
            ScannerError::RuntimeError(detail) => "Runtime creation failed: "@ + detail@,
        }
    }

    /// Renders the error for display.
    pub fn message(&self) -> (text: String)
        ensures
            text@ == self.message_text(),
    {
        match self {
            ScannerError::NetworkRangeInvalid(reason) => prefixed(
                "Invalid network range: ",
                reason,
            ),
            ScannerError::ChannelClosed => String::from_str("Communication channel closed"),
            ScannerError::ThreadError(detail) => prefixed("Thread execution error: ", detail),
            ScannerError::RuntimeError(detail) => prefixed("Runtime creation failed: ", detail),
        }
    }
}

impl FetchError {
    /// The text this error is reported under.
    pub open spec fn message_text(self) -> Seq<char> {
        match self {
            FetchError::RuntimeCreation(detail) => "Failed to create Tokio runtime: "@ + detail@,
            FetchError::FactoryCreation(detail) => "Failed to create miner factory: "@ + detail@,
            FetchError::MinerNotFound(address) => "No miner found at "@ + address@,
            FetchError::MinerDataError(detail) => "Failed to get miner data: "@ + detail@,
        }
    }

    /// Renders the error for display.
    pub fn message(&self) -> (text: String)
        ensures
            text@ == self.message_text(),
    {
        match self {
            FetchError::RuntimeCreation(detail) => prefixed(
                "Failed to create Tokio runtime: ",
                detail,
            ),
            FetchError::FactoryCreation(detail) => prefixed(
                "Failed to create miner factory: ",
                detail,
            ),
            FetchError::MinerNotFound(address) => prefixed("No miner found at ", address),
            FetchError::MinerDataError(detail) => prefixed("Failed to get miner data: ", detail),
        }
    }
}

} // verus!
