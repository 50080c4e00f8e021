//! Base protocol layer: the transport header, the packed-layout codec traits and its errors.
pub mod bitfield;
pub mod buffer;
pub mod errors;
pub mod models;
pub mod traits;

pub use self::errors::{MctpBaseLibEmptyResult, MctpBaseLibError, MctpBaseLibResult};
pub use self::models::{TransportHeader, MCTP_BASE_PROTOCOL_SUPPORTED_HDR_VERSION};
pub use self::traits::{FromBinary, U8Enum};
