use persia_rpc::codec::block_outcome;
use persia_rpc::error::TransportPhase;
use persia_rpc::PersiaRpcError;

#[test]
fn serialization_failure_describes_itself() {
    let error = PersiaRpcError::serialization(String::from("unexpected end of input"));
    assert!(matches!(
        &error,
        PersiaRpcError::SerializationFailure { source } if source == "unexpected end of input"
    ));
    assert_eq!(error.message(), "serialization error");
}

#[test]
fn io_failure_describes_itself() {
    let error = block_outcome(Err(String::from("Compression failed"))).unwrap_err();
    assert!(matches!(
        &error,
        PersiaRpcError::IOFailure { source } if source == "Compression failed"
    ));
    assert_eq!(error.message(), "io error");
}

#[test]
fn block_outcome_keeps_bytes() {
    assert_eq!(block_outcome(Ok(vec![9, 8, 7])).unwrap(), vec![9u8, 8, 7]);
}

#[test]
fn transport_failure_while_sending() {
    let error = PersiaRpcError::transport(
        "forward",
        TransportPhase::Request,
        String::from("connection refused"),
    );
    match &error {
        PersiaRpcError::TransportError { msg, source } => {
            assert_eq!(msg, "call forward error");
            assert_eq!(source, "connection refused");
        }
        other => panic!("unexpected error: {:?}", other),
    }
    assert_eq!(
        error.message(),
        "transport error call forward error: connection refused"
    );
}

#[test]
fn transport_failure_while_receiving() {
    let error = PersiaRpcError::transport(
        "forward_compressed",
        TransportPhase::ResponseBody,
        String::from("connection reset"),
    );
    match &error {
        PersiaRpcError::TransportError { msg, source } => {
            assert_eq!(msg, "call forward_compressed recv bytes error");
            assert_eq!(source, "connection reset");
        }
        other => panic!("unexpected error: {:?}", other),
    }
    assert_eq!(
        error.message(),
        "transport error call forward_compressed recv bytes error: connection reset"
    );
}

#[test]
fn server_side_failure_carries_the_body() {
    let error = PersiaRpcError::server_side("forward", "handler panicked");
    match &error {
        PersiaRpcError::TransportServerSideError { msg } => {
            assert_eq!(msg, "call forward server side error: handler panicked");
        }
        other => panic!("unexpected error: {:?}", other),
    }
    assert_eq!(
        error.message(),
        "transport server side error call forward server side error: handler panicked"
    );
}

#[test]
fn address_failure_message_names_address_and_cause() {
    let error = PersiaRpcError::ServerAddrParseFailure {
        server_addr: String::from("a b:1"),
        source: String::from("invalid domain character"),
    };
    assert_eq!(
        error.message(),
        "server addr parse error from a b:1: invalid domain character"
    );
}
