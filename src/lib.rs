//! Client-side codec and exchange logic for the noise-cancellation protocol of
//! a wireless earbud accessory.
//!
//! Requests are fixed frames; responses are parsed at fixed offsets, with one
//! data-dependent length (the firmware version string). The radio transport is
//! not part of this crate: an [`session::Exchange`] says what to write and how
//! many bytes to read, and the caller hands back what the channel delivered.
pub mod anc;
pub mod codec;
pub mod frames;
pub mod session;
