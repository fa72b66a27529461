//! Creation and configuration of TUN/TAP interfaces through the Linux
//! control-request ABI.
//!
//! The library builds every control request as an exact byte image, decides
//! each configuration step from the kernel's answers, and checks the packet
//! I/O preconditions. The system calls themselves are made by the caller,
//! which hands the kernel's answers back as plain bytes.
pub mod abi;
pub mod config;
pub mod error;
pub mod name;
pub mod packet;
pub mod session;
