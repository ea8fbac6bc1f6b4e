use btc_toolkit::errors::{ConfigError, FetchError, ScannerError};

#[test]
fn scanner_error_messages() {
    assert_eq!(
        ScannerError::NetworkRangeInvalid("bad".to_string()).message(),
        "Invalid network range: bad"
    );
    assert_eq!(ScannerError::ChannelClosed.message(), "Communication channel closed");
    assert_eq!(
        ScannerError::ThreadError("boom".to_string()).message(),
        "Thread execution error: boom"
    );
    assert_eq!(
        ScannerError::RuntimeError("none".to_string()).message(),
        "Runtime creation failed: none"
    );
}

#[test]
fn config_error_messages() {
    assert_eq!(
        ConfigError::FileNotFound("a.json".to_string()).message(),
        "Config file not found: a.json"
    );
    assert_eq!(
        ConfigError::Serialization("eof".to_string()).message(),
        "Config serialization error: eof"
    );
    assert_eq!(ConfigError::Io("denied".to_string()).message(), "IO error: denied");
}

#[test]
fn fetch_error_messages() {
    assert_eq!(
        FetchError::RuntimeCreation("x".to_string()).message(),
        "Failed to create Tokio runtime: x"
    );
    assert_eq!(
        FetchError::FactoryCreation("y".to_string()).message(),
        "Failed to create miner factory: y"
    );
    assert_eq!(
        FetchError::MinerNotFound("10.0.0.9".to_string()).message(),
        "No miner found at 10.0.0.9"
    );
    assert_eq!(
        FetchError::MinerDataError("z".to_string()).message(),
        "Failed to get miner data: z"
    );
}
