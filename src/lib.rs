//! Userspace client for the Android binder driver: wire records, the parcel
//! codec, the driver's return-protocol interpreter and the servicemanager
//! request/reply marshalling.
pub mod binder;
pub mod error;
pub mod parcel;
pub mod service_manager;
pub mod types;
pub mod wire;
