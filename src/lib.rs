//! Forwards USB hotplug events from the host to running virtual machines
//! over their QMP control sockets.

pub mod text;
pub mod usb;
pub mod commands;
pub mod response;
pub mod routing;
pub mod monitor;
pub mod pipeline;
