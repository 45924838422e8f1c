//! Logic for a volume-button hold detector on Linux input devices.
//!
//! The crate covers the device-independent core: composing ioctl request
//! codes, decoding capability bitmaps, driving the growing-buffer probe
//! protocol, selecting the most specific device per button, the fixed-layout
//! input-event codec, and the per-button hold state machine. The thin shell
//! that touches device nodes, the JVM and the async runtime lives outside
//! the verified library.

pub mod event;
pub mod ioc;
pub mod probe;
pub mod select;
pub mod hold;

pub use ioc::eviocgbit;
pub use ioc::ioc;
pub use ioc::_eviocgkey;
