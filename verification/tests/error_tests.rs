use namefix_bridge::error::BridgeError;

#[test]
fn messages_of_the_errors() {
    assert_eq!(BridgeError::Timeout.message(), "bridge request timed out");
    assert_eq!(BridgeError::Disconnected.message(), "bridge disconnected");
    assert_eq!(BridgeError::ChannelClosed.message(), "bridge channel closed");
    assert_eq!(BridgeError::Deserialization.message(), "bridge reply has an unexpected shape");
    assert_eq!(BridgeError::ScriptNotFound.message(), "service bridge script not found");
    assert_eq!(
        BridgeError::BinaryNotFound.message(),
        "Node.js binary not found. Ensure Node is installed or set NAMEFIX_NODE."
    );
    assert_eq!(
        BridgeError::ParseFault("expected value at line 1 column 1".to_string()).message(),
        "bridge parse error: expected value at line 1 column 1"
    );
    assert_eq!(
        BridgeError::SpawnFailure("No such file".to_string()).message(),
        "failed to start the service bridge: No such file"
    );
    assert_eq!(
        BridgeError::WriteFailure("Broken pipe".to_string()).message(),
        "bridge write failed: Broken pipe"
    );
}

#[test]
fn rpc_error_carries_the_workers_text_verbatim() {
    assert_eq!(BridgeError::Rpc("disk full".to_string()).message(), "disk full");
    assert_eq!(BridgeError::Rpc("".to_string()).message(), "");
}

#[test]
fn only_construction_errors_are_fatal() {
    assert!(BridgeError::SpawnFailure("x".to_string()).is_fatal());
    assert!(BridgeError::BinaryNotFound.is_fatal());
    assert!(BridgeError::ScriptNotFound.is_fatal());
    for error in [
        BridgeError::WriteFailure("x".to_string()),
        BridgeError::Timeout,
        BridgeError::Rpc("x".to_string()),
        BridgeError::Deserialization,
        BridgeError::ParseFault("x".to_string()),
        BridgeError::Disconnected,
        BridgeError::ChannelClosed,
    ] {
        assert!(!error.is_fatal());
    }
}

#[test]
fn duplicate_equals_what_it_copies() {
    for error in [
        BridgeError::SpawnFailure("a".to_string()),
        BridgeError::BinaryNotFound,
        BridgeError::ScriptNotFound,
        BridgeError::WriteFailure("b".to_string()),
        BridgeError::Timeout,
        BridgeError::Rpc("c".to_string()),
        BridgeError::Deserialization,
        BridgeError::ParseFault("d".to_string()),
        BridgeError::Disconnected,
        BridgeError::ChannelClosed,
    ] {
        assert_eq!(error.duplicate(), error);
    }
}
