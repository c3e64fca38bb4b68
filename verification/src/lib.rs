//! Verified core of the Keysas USB data-diode station.
//!
//! The crate covers the security-critical logic of the station: the hybrid
//! (classical + post-quantum) key store and certificate engine, the on-device
//! signature codec, the signature verifier that decides whether a plugged USB
//! device is a trusted egress medium, the device-set state machine of the
//! udev event loop, the transfer planning rules, and the admin store queries.
//! All I/O (device reads, mounts, sockets, files) lives outside the library;
//! callers hand in plain values and get plain values back.

pub mod authorization;
pub mod cert;
pub mod codec;
pub mod crypto;
pub mod device;
pub mod keys;
pub mod report;
pub mod store;
pub mod transfer;
pub mod usb;

pub use authorization::FileUpdateMessage;
pub use authorization::KeysasAuthorization;
