//! Client side of a small remote-procedure-call protocol.
//!
//! A call names an endpoint on a remote service, carries an encoded request
//! as the body of a POST exchange, optionally block-compressed, and yields the
//! bytes of the encoded response or one error of a closed taxonomy. The crate
//! holds the rules of that protocol: address resolution, the payload codec,
//! status handling and the order of the steps. Sending and receiving are left
//! to the code that drives a call.

pub mod address;
pub mod call;
pub mod client;
pub mod codec;
pub mod dlpack;
pub mod error;

pub use crate::call::{CallAction, CallEvent, CallPhase, CallState};
pub use crate::client::RpcClient;
pub use crate::dlpack::{DLDataType, DLDataTypeCode, DLDevice, DLDeviceType};
pub use crate::error::PersiaRpcError;
