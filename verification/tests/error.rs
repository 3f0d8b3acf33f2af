use connect_util::error::ConnectUtilError as ErrorInModule;
use connect_util::ConnectUtilError;
use std::io::{Error as IoError, ErrorKind};

#[test]
fn test_error_creation() {
    let error = ConnectUtilError::Config("test error".to_string());
    assert!(error.to_string().contains("test error"));
}

#[test]
fn test_config_error() {
    let error = ConnectUtilError::Config("test config error".to_string());
    assert!(error.to_string().contains("Configuration error"));
    assert!(error.to_string().contains("test config error"));
}

#[test]
fn test_validation_error() {
    let error = ConnectUtilError::Validation("test validation error".to_string());
    assert!(error.to_string().contains("Validation error"));
    assert!(error.to_string().contains("test validation error"));
}

#[test]
fn test_terraform_error() {
    let error = ConnectUtilError::Terraform("test terraform error".to_string());
    assert!(error.to_string().contains("Terraform generation error"));
    assert!(error.to_string().contains("test terraform error"));
}

#[test]
fn test_user_input_error() {
    let error = ConnectUtilError::UserInput("test user input error".to_string());
    assert!(error.to_string().contains("User input error"));
    assert!(error.to_string().contains("test user input error"));
}

#[test]
fn test_io_error_conversion() {
    let io_error = IoError::new(ErrorKind::NotFound, "file not found");
    let connect_error: ConnectUtilError = io_error.into();

    match connect_error {
        ConnectUtilError::Io(err) => {
            assert_eq!(err.kind(), ErrorKind::NotFound);
            assert!(err.to_string().contains("file not found"));
        }
        _ => panic!("Expected Io error variant"),
    }
}

#[test]
fn test_json_error_conversion() {
    let json_error = serde_json::Error::io(IoError::new(ErrorKind::InvalidData, "invalid json"));
    let connect_error: ConnectUtilError = json_error.into();

    match connect_error {
        ConnectUtilError::Json(err) => {
            assert!(err.to_string().contains("invalid json"));
        }
        _ => panic!("Expected Json error variant"),
    }
}

#[test]
fn test_anyhow_error_conversion() {
    let anyhow_error = anyhow::Error::msg("anyhow error message");
    let connect_error: ConnectUtilError = anyhow_error.into();

    match connect_error {
        ConnectUtilError::Unknown(msg) => {
            assert!(msg.contains("anyhow error message"));
        }
        _ => panic!("Expected Unknown error variant"),
    }
}

#[test]
fn test_unknown_error() {
    let error = ConnectUtilError::Unknown("test unknown error".to_string());
    assert!(error.to_string().contains("Unknown error"));
    assert!(error.to_string().contains("test unknown error"));
}

#[test]
fn test_error_debug_trait() {
    let error = ConnectUtilError::Config("test error".to_string());
    let debug_string = format!("{:?}", error);
    assert!(debug_string.contains("Config"));
    assert!(debug_string.contains("test error"));
}

#[test]
fn test_error_display_trait() {
    let error = ConnectUtilError::Validation("validation failed".to_string());
    let display_string = error.to_string();
    assert!(display_string.contains("Validation error"));
    assert!(display_string.contains("validation failed"));
}

#[test]
fn each_kind_of_error_has_its_exact_message() {
    assert_eq!(ConnectUtilError::Config("a".to_string()).to_string(), "Configuration error: a");
    assert_eq!(ConnectUtilError::Validation("b".to_string()).to_string(), "Validation error: b");
    assert_eq!(
        ConnectUtilError::Terraform("c".to_string()).to_string(),
        "Terraform generation error: c"
    );
    assert_eq!(ConnectUtilError::UserInput("d".to_string()).to_string(), "User input error: d");
    assert_eq!(ConnectUtilError::Unknown("e".to_string()).to_string(), "Unknown error: e");
    assert_eq!(ErrorInModule::Config(String::new()).to_string(), "Configuration error: ");
}

#[test]
fn wrapped_errors_show_their_own_text_behind_the_kind() {
    let io: ConnectUtilError = IoError::new(ErrorKind::NotFound, "file not found").into();
    assert_eq!(io.to_string(), "File I/O error: file not found");
    let json: ConnectUtilError =
        serde_json::Error::io(IoError::new(ErrorKind::InvalidData, "invalid json")).into();
    assert_eq!(json.to_string(), "JSON serialization error: invalid json");
    let unknown: ConnectUtilError = anyhow::Error::msg("inner").context("outer").into();
    assert_eq!(unknown.to_string(), "Unknown error: outer");
}
