//! Early-boot network bring-up for a minimal init process.
//!
//! The crate holds the decisions of the bring-up and none of its I/O: it
//! builds and parses DHCP frames, plans the kernel control calls that
//! configure an interface, reads the kernel command line, and orders the
//! mounts of the boot sequence. The caller performs each step and reports
//! back how it ended.

pub mod checksum;
pub mod cmdline;
pub mod dhcp;
pub mod err;
pub mod frame;
pub mod iface;
pub mod iface_config;
pub mod message;
pub mod mount;
pub mod networkd;
pub mod service;
pub mod text;
