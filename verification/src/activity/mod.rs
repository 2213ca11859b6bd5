//! The activity resource group: events, feeds, notifications, starring and
//! watching.

pub mod common;
pub mod events;
pub mod feeds;
pub mod notifications;
pub mod starring;
pub mod watching;
