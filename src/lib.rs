//! Core of a Bluetooth Low Energy host: the ATT PDU codec, the GATT attribute
//! database, the advertising-data codec and the advertisement normalizer.
//!
//! Every multibyte field handled here is little-endian. Nothing here blocks:
//! the controller transport and the locking around a shared table belong to
//! the caller.

pub mod address;
pub mod advertise;
pub mod att;
pub mod attribute;
pub mod codec;
pub mod connection;
pub mod cursor;
pub mod error;
pub mod normalize;
pub mod table;
pub mod uuid;

pub use address::Address;
pub use error::{AdapterError, Error};
