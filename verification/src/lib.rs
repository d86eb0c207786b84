//! Host-side kernel ABI for a guest module booted as a small multi-core machine.
//!
//! The guest is a bytecode module that expects a narrow kernel interface: a
//! console, a hardware description, monotonic time, an interrupt flag, worker
//! threads and secondary CPUs. This crate holds what the host decides:
//!
//! - [`sections`]: the named data sections of the guest image;
//! - [`config`]: the sections file;
//! - [`devicetree`]: the hardware description and its blob, written through
//!   the writer specified in [`fdt`];
//! - [`memory`]: ranges of the guest's linear memory and the model of it;
//! - [`abi`]: the host calls, one function each;
//! - [`clock`]: the time since boot as the guest gets it;
//! - [`debugger`]: whether a debugger is attached to the host;
//! - [`lifecycle`]: the phases of an execution context and what follows its
//!   end;
//! - [`boot`]: the steps of a boot and what a run is set up with;
//! - [`text`]: names and lines that the host writes;
//! - [`error`]: what can go wrong.
//!
//! The engine that runs the guest, the threads, the files and the process
//! belong to the program around this crate.

pub mod abi;
pub mod boot;
pub mod clock;
pub mod config;
pub mod debugger;
pub mod devicetree;
pub mod error;
pub mod fdt;
pub mod lifecycle;
pub mod memory;
pub mod sections;
pub mod text;
