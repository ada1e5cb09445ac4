//! Two independent cursors on Wayland, each driven by a mouse of its own.
//!
//! The library decides; it does no I/O. What the mice and the compositor say comes in
//! as plain values, and what is to be done about it goes out as plain requests.
//!
//! * `input` turns the events of a mouse into messages, and `discovery` tells which
//!   devices are mice.
//! * `image` turns PNG files into pixels, and `shm` lays them out in shared memory.
//! * `socket` searches for the compositor, and `protocol` holds what is said to it and
//!   heard from it.
//! * `model` says what the program's state is and how it changes, and `state` carries
//!   that out.
//! * `virtual_mouse` and `attributes` set up the devices that click in place of the
//!   physical mice.
//! * `effects` states what each event does, and `laws` what holds of the program as a
//!   whole.
pub mod attributes;
pub mod discovery;
pub mod effects;
pub mod image;
pub mod input;
pub mod laws;
pub mod model;
pub mod protocol;
pub mod shm;
pub mod socket;
pub mod state;
pub mod text;
pub mod virtual_mouse;
