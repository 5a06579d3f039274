//! The failures a call can end in.

use vstd::prelude::*;
use vstd::string::*;

verus! {

/// Why a client could not be built or a call did not yield a response.
///
/// Every failure is exactly one of these kinds. Causes reported by the layers
/// below are kept as text.
#[derive(Debug, Clone)]
pub enum PersiaRpcError {
    /// A request could not be encoded, or a response could not be decoded.
    SerializationFailure { source: String },
    /// A payload could not be compressed or decompressed.
    IOFailure { source: String },
    /// The server address, or an endpoint name resolved against it, is malformed.
    ServerAddrParseFailure { server_addr: String, source: String },
    /// The exchange failed below the protocol: no response, or its body was cut short.
    TransportError { msg: String, source: String },
    /// The remote side answered with a status other than success.
    TransportServerSideError { msg: String },
}

/// Mathematical model of a [`PersiaRpcError`].
pub enum RpcErrorView {
    SerializationFailure { source: Seq<char> },
    IOFailure { source: Seq<char> },
    ServerAddrParseFailure { server_addr: Seq<char>, source: Seq<char> },
    TransportError { msg: Seq<char>, source: Seq<char> },
    TransportServerSideError { msg: Seq<char> },
}

impl View for PersiaRpcError {
    type V = RpcErrorView;

    open spec fn view(&self) -> RpcErrorView {
        match self {
            PersiaRpcError::SerializationFailure { source } => RpcErrorView::SerializationFailure {
                source: source@,
            },
            PersiaRpcError::IOFailure { source } => RpcErrorView::IOFailure { source: source@ },
            PersiaRpcError::ServerAddrParseFailure {
                server_addr,
                source,
            } => RpcErrorView::ServerAddrParseFailure { server_addr: server_addr@, source: source@ },
            PersiaRpcError::TransportError { msg, source } => RpcErrorView::TransportError {
                msg: msg@,
                source: source@,
            },
            PersiaRpcError::TransportServerSideError {
                msg,
            } => RpcErrorView::TransportServerSideError { msg: msg@ },
        }
    }
}

/// Which step of an exchange a transport failure belongs to.
#[derive(Debug, Clone, Copy, PartialEq, Eq, Structural)]
pub enum TransportPhase {
    /// Sending the request and waiting for the response head.
    Request,
    /// Reading the response body to its end.
    ResponseBody,
}

/// Text that tags a transport failure of `phase` on `endpoint`.
pub open spec fn transport_msg(endpoint: Seq<char>, phase: TransportPhase) -> Seq<char> {
    match phase {
        TransportPhase::Request => "call "@ + endpoint + " error"@,
        TransportPhase::ResponseBody => "call "@ + endpoint + " recv bytes error"@,
    }
}

/// Text that reports a non-success answer of `endpoint` with the answer's body.
pub open spec fn server_side_msg(endpoint: Seq<char>, body: Seq<char>) -> Seq<char> {
    "call "@ + endpoint + " server side error: "@ + body
}

impl RpcErrorView {
    /// The line that describes the error to a reader.
    pub open spec fn message(self) -> Seq<char> {
        match self {
            RpcErrorView::SerializationFailure { .. } => "serialization error"@,
            RpcErrorView::IOFailure { .. } => "io error"@,
            RpcErrorView::ServerAddrParseFailure {
                server_addr,
                source,
            } => "server addr parse error from "@ + server_addr + ": "@ + source,
            RpcErrorView::TransportError { msg, source } => "transport error "@ + msg + ": "@
                + source,
            RpcErrorView::TransportServerSideError { msg } => "transport server side error "@
                + msg,
        }
    }
}

impl PersiaRpcError {
    /// The failure of the codec that turns values into bytes and back.
    pub fn serialization(cause: String) -> (res: PersiaRpcError)
        ensures
            res@ == (RpcErrorView::SerializationFailure { source: cause@ }),
    {
        PersiaRpcError::SerializationFailure { source: cause }
    }

    /// The failure of an exchange on `endpoint` during `phase`.
    pub fn transport(endpoint: &str, phase: TransportPhase, cause: String) -> (res: PersiaRpcError)
        ensures
            res@ == (RpcErrorView::TransportError {
                msg: transport_msg(endpoint@, phase),
                source: cause@,
            }),
    {
        let head = String::from_str("call ").concat(endpoint);
        let msg = match phase {
            TransportPhase::Request => head.concat(" error"),
            TransportPhase::ResponseBody => head.concat(" recv bytes error"),
        };
        PersiaRpcError::TransportError { msg, source: cause }
    }

    /// The failure reported by the remote side of `endpoint`, with the body it sent.
    pub fn server_side(endpoint: &str, body: &str) -> (res: PersiaRpcError)
        ensures
            res@ == (RpcErrorView::TransportServerSideError {
                msg: server_side_msg(endpoint@, body@),
            }),
    {
        let msg = String::from_str("call ").concat(endpoint).concat(" server side error: ").concat(
            body,
        );
        PersiaRpcError::TransportServerSideError { msg }
    }

    /// The line that describes this error to a reader.
    pub fn message(&self) -> (res: String)
        ensures
            res@ == self@.message(),
    {
        match self {
            PersiaRpcError::SerializationFailure { .. } => String::from_str("serialization error"),
            PersiaRpcError::IOFailure { .. } => String::from_str("io error"),
            PersiaRpcError::ServerAddrParseFailure { server_addr, source } => String::from_str(
                "server addr parse error from ",
            ).concat(server_addr.as_str()).concat(": ").concat(source.as_str()),
            PersiaRpcError::TransportError { msg, source } => String::from_str(
                "transport error ",
            ).concat(msg.as_str()).concat(": ").concat(source.as_str()),
            PersiaRpcError::TransportServerSideError { msg } => String::from_str(
                "transport server side error ",
            ).concat(msg.as_str()),
        }
    }
}

} // verus!
