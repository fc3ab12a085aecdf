//! A safety layer around a native USB transfer descriptor.
//!
//! A transfer is armed for one endpoint and one direction at a time. Which
//! operations are legal is decided by the type of the value in hand: an
//! unfilled transfer can only be filled, a filled one can only be cleared.
//! Everything that can be refused is refused when a value is built, so that
//! filling never fails.

mod buffer;
pub mod bytes;
pub mod device_handle;
pub mod error;
pub mod fields;
pub mod native;
pub mod setup;
pub mod transfer;
pub mod values;
