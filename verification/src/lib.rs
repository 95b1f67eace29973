//! Resolution, acquisition and launch of a Zig language server binary.
//!
//! The library decides; its caller performs the host operations. Every
//! request the library makes of the host and every reply it accepts is a
//! plain value, so the whole decision procedure is stated and proved here.
//!
//! [`extension`] holds the controller, which takes the replies of the host
//! one at a time; [`pass`] says what a whole pass comes to and shows that
//! the controller arrives there. [`provider`] holds the providers and the
//! resolution of versions, [`settings`] the configuration, [`host`] the
//! requests and replies, [`json`] and [`util`] the reading of documents,
//! URLs and version identifiers.

pub mod error;
pub mod extension;
pub mod host;
pub mod json;
pub mod pass;
pub mod platform;
pub mod provider;
pub mod settings;
pub mod text;
pub mod util;

pub use extension::ZigExtension;
