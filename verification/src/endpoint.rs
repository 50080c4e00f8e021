//! Endpoint logic: flow correlation, the control responder and bus-owner discovery.
pub mod context;
pub mod discovery;
pub mod error;
pub mod flow_laws;
pub mod responder;
pub mod types;

pub use self::error::Error;
pub use self::types::{FlowTable, MsgFlowTag};
