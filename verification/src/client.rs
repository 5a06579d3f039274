//! The client of one remote service.

use vstd::prelude::*;
use vstd::string::*;
use crate::address::{
    address_outcome,
    address_outcome_spec,
    address_view,
    base_input,
    endpoint_path,
    endpoint_path_spec,
    join_url,
    parse_url,
    url_joined,
    url_parsed,
};
use crate::error::{PersiaRpcError, RpcErrorView};

verus! {

/// A client bound to the address of one service.
///
/// It holds the address as given and the base endpoint it was validated to,
/// and nothing that a call changes: any number of calls may share it.
#[derive(Debug, Clone)]
pub struct RpcClient {
    given: String,
    server_addr: String,
}

impl RpcClient {
    /// The address that the client was built from.
    pub closed spec fn given_addr(&self) -> Seq<char> {
        self.given@
    }

    /// The base endpoint, as a URL in text.
    pub closed spec fn base(&self) -> Seq<char> {
        self.server_addr@
    }

    /// The base endpoint is what the given address was validated to.
    pub open spec fn wf(&self) -> bool {
        url_parsed(base_input(self.given_addr())) == Ok::<Seq<char>, Seq<char>>(self.base())
    }

    /// What resolving `endpoint_name` against this client's base comes to.
    pub open spec fn resolved(&self, endpoint_name: Seq<char>, compress: bool) -> Result<
        Seq<char>,
        RpcErrorView,
    > {
        let path = endpoint_path_spec(endpoint_name, compress);
        address_outcome_spec(path, url_joined(self.base(), path))
    }

    /// Builds a client for the service at `server_addr`, written `host:port`.
    ///
    /// The address is read as a plain-HTTP URL. It is accepted exactly when
    /// that URL parses; a rejected address gives an address failure that
    /// names it.
    pub fn new(server_addr: &str) -> (res: Result<RpcClient, PersiaRpcError>)
        ensures
            match url_parsed(base_input(server_addr@)) {
                Ok(text) => res matches Ok(client) && client.wf() && client.given_addr()
                    == server_addr@ && client.base() == text,
                Err(cause) => res matches Err(error) && error@ == (
                RpcErrorView::ServerAddrParseFailure { server_addr: server_addr@, source: cause }),
            },
    {
        let input = String::from_str("http://").concat(server_addr);
        match address_outcome(server_addr, parse_url(input.as_str())) {
            Ok(text) => Ok(RpcClient { given: String::from_str(server_addr), server_addr: text }),
            Err(error) => Err(error),
        }
    }

    /// The base endpoint, as a URL in text.
    pub fn server_addr(&self) -> (res: &str)
        ensures
            res@ == self.base(),
    {
        self.server_addr.as_str()
    }

    /// Resolves the target of a call of `endpoint_name`: its path, joined to
    /// the base endpoint. A name that is no valid path gives an address
    /// failure that names the path.
    pub fn resolve(&self, endpoint_name: &str, compress: bool) -> (res: Result<
        String,
        PersiaRpcError,
    >)
        ensures
            address_view(res) == self.resolved(endpoint_name@, compress),
    {
        let path = endpoint_path(endpoint_name, compress);
        address_outcome(path.as_str(), join_url(self.server_addr.as_str(), path.as_str()))
    }
}

} // verus!
