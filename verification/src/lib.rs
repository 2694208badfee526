//! The core of an audio capture device lister: when the media subsystem has
//! to be started and stopped, and what is kept of an enumeration and of a
//! device's name once the platform has answered.
//!
//! The crate decides; it never touches the platform. Whoever drives it asks
//! what is due ([`platform::Initialization::needs_startup`],
//! [`platform::Host::needs_enumeration`], [`platform::Host::name_query_due`]),
//! makes that native call, and hands its outcome in with the request: what
//! the call gave, or the result code of its failure, or `None` where no call
//! was due. A shutdown is due when [`platform::Initialization::release`] says
//! so.
//!
//! Two choices hold throughout. A failure is handed back at once and nothing
//! is kept of it, so that a later request may bring a new outcome with it;
//! only what succeeded is kept, and then for good. And an enumeration without
//! devices is a list without devices, not an error.

mod error;
pub mod platform;
pub mod traits;

pub use error::{NativeCall, PlatformError, VoiceLibError};
