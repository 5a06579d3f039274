//! One call, as a sequence of decisions.
//!
//! A call is a single line of steps: resolve the target, encode the request,
//! send it, check the status of the answer, read its body, decode it. The
//! steps that compute stand here; the steps that wait for the network belong
//! to the driver of the call, which performs each [`CallAction`] and reports
//! what happened as a [`CallEvent`]. A failure at any step ends the call.

use vstd::prelude::*;
use vstd::string::*;
use crate::address::address_view;
use crate::client::RpcClient;
use crate::codec::{carried, carries, decode_payload, encode_payload, MAX_BLOCK_INPUT};
use crate::error::{
    server_side_msg,
    transport_msg,
    PersiaRpcError,
    RpcErrorView,
    TransportPhase,
};

verus! {

/// The status that signals success.
pub const STATUS_OK: u16 = 200;

/// How far a call has come.
#[derive(Debug, Clone, Copy, PartialEq, Eq, Structural)]
pub enum CallPhase {
    /// The target is resolved; the request is being encoded.
    Encoding,
    /// The request is on its way; no answer has arrived.
    Sending,
    /// The answer reported success; its body is being read.
    Receiving,
    /// The call has ended, with a response to decode or with an error.
    Finished,
}

/// A call in progress. It belongs to one invocation and to nothing else.
#[derive(Debug)]
pub struct CallState {
    /// How far the call has come.
    pub phase: CallPhase,
    /// The path of the endpoint, with the marker of compression if any.
    pub endpoint: String,
    /// The resolved target of the exchange, as a URL in text.
    pub target: String,
    /// Whether bodies travel compressed.
    pub compress: bool,
}

/// What the driver of a call reports.
#[derive(Debug)]
pub enum CallEvent {
    /// The request was encoded into these bytes.
    Encoded { bytes: Vec<u8> },
    /// The request could not be encoded.
    EncodeFailed { cause: String },
    /// An answer arrived with this status. `body_text` is the answer's body
    /// as diagnostic text; it is read only when the status is not success.
    Responded { status: u16, body_text: String },
    /// No answer arrived.
    SendFailed { cause: String },
    /// The body of the answer was read to its end.
    BodyRead { bytes: Vec<u8> },
    /// The body of the answer could not be read to its end.
    BodyFailed { cause: String },
}

/// What the driver of a call does next.
#[derive(Debug)]
pub enum CallAction {
    /// Send `body` in a POST exchange to `uri` and report the answer.
    Send { uri: String, body: Vec<u8> },
    /// Read the body of the answer to its end and report it.
    ReadBody,
    /// Decode `bytes` into the response; the call has succeeded so far.
    Decode { bytes: Vec<u8> },
    /// Give up with `error`.
    Fail { error: PersiaRpcError },
}

/// Mathematical model of a [`CallState`].
pub struct CallStateView {
    pub phase: CallPhase,
    pub endpoint: Seq<char>,
    pub target: Seq<char>,
    pub compress: bool,
}

/// Mathematical model of a [`CallAction`].
pub enum CallActionView {
    Send { uri: Seq<char>, body: Seq<u8> },
    ReadBody,
    Decode { bytes: Seq<u8> },
    Fail { error: RpcErrorView },
}

impl View for CallState {
    type V = CallStateView;

    open spec fn view(&self) -> CallStateView {
        CallStateView {
            phase: self.phase,
            endpoint: self.endpoint@,
            target: self.target@,
            compress: self.compress,
        }
    }
}

impl View for CallAction {
    type V = CallActionView;

    open spec fn view(&self) -> CallActionView {
        match self {
            CallAction::Send { uri, body } => CallActionView::Send { uri: uri@, body: body@ },
            CallAction::ReadBody => CallActionView::ReadBody,
            CallAction::Decode { bytes } => CallActionView::Decode { bytes: bytes@ },
            CallAction::Fail { error } => CallActionView::Fail { error: error@ },
        }
    }
}

/// The model of an action that may be absent.
pub open spec fn action_view(action: Option<CallAction>) -> Option<CallActionView> {
    match action {
        Some(a) => Some(a@),
        None => None,
    }
}

/// The plain values behind the outcome of beginning a call.
pub open spec fn begin_view(r: Result<CallState, PersiaRpcError>) -> Result<
    CallStateView,
    RpcErrorView,
> {
    match r {
        Ok(state) => Ok(state@),
        Err(error) => Err(error@),
    }
}

impl CallStateView {
    /// This call, moved to `phase`.
    pub open spec fn at(self, phase: CallPhase) -> CallStateView {
        CallStateView { phase, ..self }
    }
}

/// Whether a call in `phase` waits for `event`.
pub open spec fn awaited(phase: CallPhase, event: CallEvent) -> bool {
    match phase {
        CallPhase::Encoding => event is Encoded || event is EncodeFailed,
        CallPhase::Sending => event is Responded || event is SendFailed,
        CallPhase::Receiving => event is BodyRead || event is BodyFailed,
        CallPhase::Finished => false,
    }
}

/// The action that ends a call with a response or with the error found in
/// the body.
pub open spec fn conclusion(body: Seq<u8>, compress: bool) -> CallActionView {
    match carried(body, compress) {
        Ok(bytes) => CallActionView::Decode { bytes },
        Err(error) => CallActionView::Fail { error },
    }
}

/// Whether a call in state `pre` that is told `event` may go on in state
/// `post` with `action`.
///
/// An event that the call does not wait for changes nothing and asks for
/// nothing. Every other event fixes the next state and the action, but for
/// the bytes of a compressed request, which are fixed only by what they
/// decompress to.
pub open spec fn step_allows(
    pre: CallStateView,
    event: CallEvent,
    post: CallStateView,
    action: Option<CallActionView>,
) -> bool {
    if !awaited(pre.phase, event) {
        post == pre && action is None
    } else {
        match event {
            CallEvent::Encoded { bytes } => if pre.compress && bytes@.len() > MAX_BLOCK_INPUT {
                &&& post == pre.at(CallPhase::Finished)
                &&& action matches Some(CallActionView::Fail { error })
                &&& error is IOFailure
            } else {
                &&& post == pre.at(CallPhase::Sending)
                &&& action matches Some(CallActionView::Send { uri, body })
                &&& uri == pre.target
                &&& carries(bytes@, pre.compress, body)
            },
            CallEvent::EncodeFailed { cause } => {
                &&& post == pre.at(CallPhase::Finished)
                &&& action == Some(
                    CallActionView::Fail {
                        error: RpcErrorView::SerializationFailure { source: cause@ },
                    },
                )
            },
            CallEvent::Responded { status, body_text } => if status == STATUS_OK {
                &&& post == pre.at(CallPhase::Receiving)
                &&& action == Some(CallActionView::ReadBody)
            } else {
                &&& post == pre.at(CallPhase::Finished)
                &&& action == Some(
                    CallActionView::Fail {
                        error: RpcErrorView::TransportServerSideError {
                            msg: server_side_msg(pre.endpoint, body_text@),
                        },
                    },
                )
            },
            CallEvent::SendFailed { cause } => {
                &&& post == pre.at(CallPhase::Finished)
                &&& action == Some(
                    CallActionView::Fail {
                        error: RpcErrorView::TransportError {
                            msg: transport_msg(pre.endpoint, TransportPhase::Request),
                            source: cause@,
                        },
                    },
                )
            },
            CallEvent::BodyRead { bytes } => {
                &&& post == pre.at(CallPhase::Finished)
                &&& action == Some(conclusion(bytes@, pre.compress))
            },
            CallEvent::BodyFailed { cause } => {
                &&& post == pre.at(CallPhase::Finished)
                &&& action == Some(
                    CallActionView::Fail {
                        error: RpcErrorView::TransportError {
                            msg: transport_msg(pre.endpoint, TransportPhase::ResponseBody),
                            source: cause@,
                        },
                    },
                )
            },
        }
    }
}

impl RpcClient {
    /// What beginning a call of `endpoint_name` comes to: a call that waits
    /// for the encoded request, or the address failure of its target.
    pub open spec fn begun(&self, endpoint_name: Seq<char>, compress: bool) -> Result<
        CallStateView,
        RpcErrorView,
    > {
        match self.resolved(endpoint_name, compress) {
            Ok(target) => Ok(
                CallStateView {
                    phase: CallPhase::Encoding,
                    endpoint: crate::address::endpoint_path_spec(endpoint_name, compress),
                    target,
                    compress,
                },
            ),
            Err(error) => Err(error),
        }
    }

    /// Begins a call of `endpoint_name`: resolves its target before anything
    /// is encoded or sent. The driver then encodes the request and reports
    /// the outcome.
    pub fn begin_call(&self, endpoint_name: &str, compress: bool) -> (res: Result<
        CallState,
        PersiaRpcError,
    >)
        ensures
            begin_view(res) == self.begun(endpoint_name@, compress),
    {
        match self.resolve(endpoint_name, compress) {
            Ok(target) => Ok(
                CallState {
                    phase: CallPhase::Encoding,
                    endpoint: crate::address::endpoint_path(endpoint_name, compress),
                    target,
                    compress,
                },
            ),
            Err(error) => Err(error),
        }
    }
}

impl CallState {
    /// Whether the call has ended.
    pub fn is_finished(&self) -> (res: bool)
        ensures
            res == (self.phase == CallPhase::Finished),
    {
        match self.phase {
            CallPhase::Finished => true,
            _ => false,
        }
    }

    /// This call in another phase.
    fn moved(self, phase: CallPhase) -> (res: CallState)
        ensures
            res@ == self@.at(phase),
    {
        CallState {
            phase,
            endpoint: self.endpoint,
            target: self.target,
            compress: self.compress,
        }
    }

    /// Ends this call with `error`.
    fn failed(self, error: PersiaRpcError) -> (res: (CallState, Option<CallAction>))
        ensures
            res.0@ == self@.at(CallPhase::Finished),
            action_view(res.1) == Some(CallActionView::Fail { error: error@ }),
    {
        (self.moved(CallPhase::Finished), Some(CallAction::Fail { error }))
    }

    /// Takes the encoded request and asks for the exchange, or ends the call
    /// where the request cannot be compressed.
    fn on_encoded(self, bytes: Vec<u8>) -> (res: (CallState, Option<CallAction>))
        requires
            self.phase == CallPhase::Encoding,
        ensures
            step_allows(self@, CallEvent::Encoded { bytes }, res.0@, action_view(res.1)),
    {
        let uri = self.target.clone();
        match encode_payload(bytes, self.compress) {
            Ok(body) => (self.moved(CallPhase::Sending), Some(CallAction::Send { uri, body })),
            Err(error) => self.failed(error),
        }
    }

    /// Takes the status of the answer: success asks for the body, anything
    /// else ends the call with what the remote side said.
    fn on_responded(self, status: u16, body_text: String) -> (res: (CallState, Option<CallAction>))
        requires
            self.phase == CallPhase::Sending,
        ensures
            step_allows(
                self@,
                CallEvent::Responded { status, body_text },
                res.0@,
                action_view(res.1),
            ),
    {
        if status == STATUS_OK {
            (self.moved(CallPhase::Receiving), Some(CallAction::ReadBody))
        } else {
            let error = PersiaRpcError::server_side(self.endpoint.as_str(), body_text.as_str());
            self.failed(error)
        }
    }

    /// Takes the body of the answer and ends the call with the response to
    /// decode, or with the failure to decompress it.
    fn on_body(self, bytes: Vec<u8>) -> (res: (CallState, Option<CallAction>))
        requires
            self.phase == CallPhase::Receiving,
        ensures
            step_allows(self@, CallEvent::BodyRead { bytes }, res.0@, action_view(res.1)),
    {
        match decode_payload(bytes, self.compress) {
            Ok(payload) => (
                self.moved(CallPhase::Finished),
                Some(CallAction::Decode { bytes: payload }),
            ),
            Err(error) => self.failed(error),
        }
    }

    /// Ends the call with the transport failure of `phase`.
    fn on_transport_failure(self, phase: TransportPhase, cause: String) -> (res: (
        CallState,
        Option<CallAction>,
    ))
        ensures
            res.0@ == self@.at(CallPhase::Finished),
            action_view(res.1) == Some(
                CallActionView::Fail {
                    error: RpcErrorView::TransportError {
                        msg: transport_msg(self@.endpoint, phase),
                        source: cause@,
                    },
                },
            ),
    {
        let error = PersiaRpcError::transport(self.endpoint.as_str(), phase, cause);
        self.failed(error)
    }

    /// Advances the call by one event.
    ///
    /// Returns the call's next state and what the driver does next. An event
    /// that the call does not wait for leaves it as it was and asks for
    /// nothing.
    pub fn step(self, event: CallEvent) -> (res: (CallState, Option<CallAction>))
        ensures
            step_allows(self@, event, res.0@, action_view(res.1)),
    {
        match self.phase {
            CallPhase::Encoding => match event {
                CallEvent::Encoded { bytes } => self.on_encoded(bytes),
                CallEvent::EncodeFailed { cause } => {
                    let error = PersiaRpcError::serialization(cause);
                    self.failed(error)
                },
                _ => (self, None),
            },
            CallPhase::Sending => match event {
                CallEvent::Responded { status, body_text } => self.on_responded(status, body_text),
                CallEvent::SendFailed { cause } => self.on_transport_failure(
                    TransportPhase::Request,
                    cause,
                ),
                _ => (self, None),
            },
            CallPhase::Receiving => match event {
                CallEvent::BodyRead { bytes } => self.on_body(bytes),
                CallEvent::BodyFailed { cause } => self.on_transport_failure(
                    TransportPhase::ResponseBody,
                    cause,
                ),
                _ => (self, None),
            },
            CallPhase::Finished => (self, None),
        }
    }
}

/// A call whose request comes back as the answer ends with that request to
/// decode, with compression and without it.
///
/// The three steps of a successful exchange are taken in turn: the request
/// is encoded and sent, the answer reports success, and the body read is the
/// body sent.
pub proof fn lemma_echo_round_trip(
    s0: CallStateView,
    request: Vec<u8>,
    s1: CallStateView,
    sent: Seq<u8>,
    s2: CallStateView,
    body_text: String,
    received: Vec<u8>,
    s3: CallStateView,
    last: Option<CallActionView>,
)
    requires
        s0.phase == CallPhase::Encoding,
        step_allows(
            s0,
            CallEvent::Encoded { bytes: request },
            s1,
            Some(CallActionView::Send { uri: s0.target, body: sent }),
        ),
        step_allows(
            s1,
            CallEvent::Responded { status: STATUS_OK, body_text },
            s2,
            Some(CallActionView::ReadBody),
        ),
        received@ == sent,
        step_allows(s2, CallEvent::BodyRead { bytes: received }, s3, last),
    ensures
        last == Some(CallActionView::Decode { bytes: request@ }),
        s3 == s0.at(CallPhase::Finished),
{
}

/// An answer without the status of success ends the call with the remote
/// side's error, which carries the endpoint and the answer's body; the body
/// is never decoded, and the call takes no further event.
pub proof fn lemma_failed_status_ends_call(
    pre: CallStateView,
    status: u16,
    body_text: String,
    post: CallStateView,
    action: Option<CallActionView>,
    later: CallEvent,
    after: CallStateView,
    reply: Option<CallActionView>,
)
    requires
        pre.phase == CallPhase::Sending,
        status != STATUS_OK,
        step_allows(pre, CallEvent::Responded { status, body_text }, post, action),
        step_allows(post, later, after, reply),
    ensures
        action == Some(
            CallActionView::Fail {
                error: RpcErrorView::TransportServerSideError {
                    msg: server_side_msg(pre.endpoint, body_text@),
                },
            },
        ),
        post.phase == CallPhase::Finished,
        after == post,
        reply is None,
{
}

/// A call never goes on after a failure, and it ends only with a failure or
/// with a response to decode.
pub proof fn lemma_failure_is_final(
    pre: CallStateView,
    event: CallEvent,
    post: CallStateView,
    action: Option<CallActionView>,
)
    requires
        step_allows(pre, event, post, action),
    ensures
        action matches Some(CallActionView::Fail { .. }) ==> post.phase == CallPhase::Finished,
        pre.phase != CallPhase::Finished && post.phase == CallPhase::Finished ==> (action matches Some(
            a,
        ) && (a is Fail || a is Decode)),
        post.endpoint == pre.endpoint && post.target == pre.target && post.compress
            == pre.compress,
{
}

} // verus!
