//! Core of a proxy between Ethernet frames and a length-framed byte stream.
//!
//! The proxy captures frames on the peer end of a virtual interface pair and
//! relays them, and lines typed on the console, to a backend behind a local
//! stream socket. This library is the part of it that decides: it performs no
//! input or output itself.
//!
//! - [`framing`]: the wire format spoken to the backend.
//! - [`event_loop`]: the event loop as a state machine, from the outcome of
//!   one operation to the next operation.
//! - [`link`]: the link-layer address to which the frame source is bound.
//! - [`veth`]: the interface pair, the commands that set it up and remove it,
//!   and what is learnt of its peer.
//! - [`mac`]: hardware addresses in text form.
//! - [`text`]: decimal numerals and the characters of a string.

pub mod event_loop;
pub mod framing;
pub mod link;
pub mod mac;
pub mod text;
pub mod veth;
