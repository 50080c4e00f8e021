//! Physical transport layers that carry MCTP packets.
pub mod error;
pub mod pec;
pub mod smbus_netdev;
pub mod smbus_types;

pub use self::error::Error;
