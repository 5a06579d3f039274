use persia_rpc::address::{address_outcome, endpoint_path};
use persia_rpc::{PersiaRpcError, RpcClient};

#[test]
fn well_formed_address_is_accepted() {
    let client = RpcClient::new("localhost:8080").unwrap();
    assert_eq!(client.server_addr(), "http://localhost:8080/");
}

#[test]
fn numeric_address_is_accepted() {
    let client = RpcClient::new("127.0.0.1:9000").unwrap();
    assert_eq!(client.server_addr(), "http://127.0.0.1:9000/");
}

#[test]
fn empty_host_is_rejected() {
    match RpcClient::new("") {
        Err(PersiaRpcError::ServerAddrParseFailure { server_addr, source }) => {
            assert_eq!(server_addr, "");
            assert_eq!(source, "empty host");
        }
        other => panic!("unexpected outcome: {:?}", other),
    }
    assert!(matches!(
        RpcClient::new(":8080"),
        Err(PersiaRpcError::ServerAddrParseFailure { .. })
    ));
}

#[test]
fn whitespace_in_host_is_rejected() {
    match RpcClient::new("local host:8080") {
        Err(PersiaRpcError::ServerAddrParseFailure { server_addr, source }) => {
            assert_eq!(server_addr, "local host:8080");
            assert_eq!(source, "invalid international domain name");
        }
        other => panic!("unexpected outcome: {:?}", other),
    }
}

#[test]
fn bad_port_is_rejected() {
    match RpcClient::new("localhost:notaport") {
        Err(PersiaRpcError::ServerAddrParseFailure { server_addr, source }) => {
            assert_eq!(server_addr, "localhost:notaport");
            assert_eq!(source, "invalid port number");
        }
        other => panic!("unexpected outcome: {:?}", other),
    }
}

#[test]
fn address_failure_describes_itself() {
    let error = RpcClient::new("").unwrap_err();
    assert_eq!(error.message(), "server addr parse error from : empty host");
}

#[test]
fn endpoint_path_without_compression_is_the_name() {
    assert_eq!(endpoint_path("forward", false), "forward");
    assert_eq!(endpoint_path("", false), "");
}

#[test]
fn endpoint_path_with_compression_has_the_marker() {
    assert_eq!(endpoint_path("forward", true), "forward_compressed");
    assert_eq!(endpoint_path("", true), "_compressed");
    assert_ne!(endpoint_path("forward", true), endpoint_path("forward", false));
}

#[test]
fn endpoint_resolves_against_base() {
    let client = RpcClient::new("localhost:8080").unwrap();
    assert_eq!(
        client.resolve("forward", false).unwrap(),
        "http://localhost:8080/forward"
    );
    assert_eq!(
        client.resolve("forward", true).unwrap(),
        "http://localhost:8080/forward_compressed"
    );
}

#[test]
fn nested_endpoint_resolves_against_base() {
    let client = RpcClient::new("10.0.0.7:23333").unwrap();
    assert_eq!(
        client.resolve("embedding/lookup", false).unwrap(),
        "http://10.0.0.7:23333/embedding/lookup"
    );
}

#[test]
fn invalid_endpoint_name_is_rejected() {
    let client = RpcClient::new("localhost:8080").unwrap();
    match client.resolve("//[", false) {
        Err(PersiaRpcError::ServerAddrParseFailure { server_addr, source }) => {
            assert_eq!(server_addr, "//[");
            assert_eq!(source, "invalid IPv6 address");
        }
        other => panic!("unexpected outcome: {:?}", other),
    }
    match client.resolve("//[", true) {
        Err(PersiaRpcError::ServerAddrParseFailure { server_addr, .. }) => {
            assert_eq!(server_addr, "//[_compressed");
        }
        other => panic!("unexpected outcome: {:?}", other),
    }
}

#[test]
fn address_outcome_keeps_a_parsed_address() {
    let outcome = address_outcome("h:1", Ok(String::from("http://h:1/")));
    assert_eq!(outcome.unwrap(), "http://h:1/");
}

#[test]
fn address_outcome_names_what_was_attempted() {
    match address_outcome("h:1", Err(String::from("cause"))) {
        Err(PersiaRpcError::ServerAddrParseFailure { server_addr, source }) => {
            assert_eq!(server_addr, "h:1");
            assert_eq!(source, "cause");
        }
        other => panic!("unexpected outcome: {:?}", other),
    }
}
