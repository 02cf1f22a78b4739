//! An input device for virtual machines, served over vhost-user.
//!
//! - [`vhu_input`] is the device: its state, its configuration space, and the way of events to
//!   the guest.
//! - [`delivery`] says what the guest is owed, and states the laws of it.
//! - [`vring`] is the virtqueue, with the record of what is asked of the guest.
//! - [`event`], [`config`], [`features`] and [`error`] hold what these speak of.
//! - [`daemon`] is the service: its arguments, and the course of its workers.
//! - [`text`] holds the operations on text that it needs.

pub mod config;
pub mod daemon;
pub mod delivery;
pub mod error;
pub mod event;
pub mod features;
pub mod text;
pub mod vhu_input;
pub mod vring;
