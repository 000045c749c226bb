//! Classification and reporting of kernel routing-netlink change notifications.

pub mod classify;
pub mod envelope;
pub mod event;
pub mod groups;
pub mod monitor;
pub mod netlink;
pub mod sink;

pub use envelope::Envelope;
pub use event::{Action, Event, Variant};
pub use monitor::{Command, Input, Monitor, Phase};
