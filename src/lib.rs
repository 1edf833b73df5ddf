//! Universal Serial Rust: host-side access to USB devices.
//!
//! The library keeps the platform-independent parts of USB access verified:
//! the error taxonomy, request encoding, device selection, the device and host
//! facades that route calls to a backend, the single-completion future, and the
//! resource model and decision logic of the macOS backend.

pub mod backend;
pub mod convenience;
pub mod device;
pub mod error;
pub mod futures;
pub mod host;
pub mod request;

pub use convenience::create_read_buffer;
pub use device::{Device, DeviceInformation, DeviceSelector};
pub use error::{Error, UsbResult};
pub use host::{all_devices, device, devices, open, Host};
