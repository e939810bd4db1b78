//! Telemetry and mesh-routing records for a rocket's APRS beacon.
//!
//! The crate packs a snapshot of flight telemetry into the comment field of an
//! APRS compressed position report and unpacks it again, bit for bit:
//!
//! * [`quantize`] narrows a physical quantity to a code of a few bits and
//!   widens it again;
//! * [`ads`] does so for the state vector of the active drag system;
//! * [`comment`] packs the routing header and that state vector into the 256
//!   bits of the comment record;
//! * [`envelope`] assembles the position report around the comment record;
//! * [`sensors`], [`gps`] and [`navsat`] hold the latest readings on board;
//! * [`receiver`] takes over what the u-blox receiver reports.
//!
//! The contracts are stated over integers and over a big-endian bit-stream
//! model of the wire bytes (see [`bits`]), and are proved with Verus.  What
//! the library takes on trust of the `ublox` crate is gathered in
//! [`receiver`].  Floating point is left to the caller: a quantity that is
//! computed with is a fixed-point integer, and a reading that is only kept is
//! the bit pattern of its float.

pub mod ads;
pub mod bits;
pub mod comment;
pub mod envelope;
pub mod error;
pub mod gps;
pub mod navsat;
pub mod protocol;
pub mod quantize;
pub mod receiver;
pub mod sensors;
