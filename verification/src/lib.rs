//! Host layer of a KDE Connect stack: peer identities, the pairing store, and
//! the LAN link.
//!
//! Nothing here touches a file, a socket or a clock. Work that needs one is a
//! step machine: a step names the request to perform, the caller performs it and
//! hands the reply back, and gets the following step.
//!
//! The modules whose names end in `_laws` state what holds across calls.
pub mod device;
pub mod dir_laws;
pub mod disk;
pub mod error;
pub mod event;
pub mod identity;
pub mod identity_laws;
pub mod lan;
pub mod lan_laws;
pub mod lookup_laws;
pub mod open_laws;
pub mod open_step_laws;
pub mod opening;
pub mod pairing;
pub mod path;
pub mod peer;
pub mod save_laws;
pub mod saving;
pub mod send_laws;
pub mod sign_laws;
pub mod signing;
pub mod store_laws;

pub use device::DeviceRecord;
pub use error::HostError;
pub use event::HostEvent;
pub use lan::LanConnection;
pub use pairing::PairingStore;
pub use peer::PeerId;
