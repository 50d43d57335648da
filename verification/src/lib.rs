//! Drives the UPX packer for a desktop program: builds the arguments of a
//! call, says what to do next for a job, reads what the packer printed and
//! reports on it, and tells whether a later release of the program is out.
//! The library decides and computes; running the packer, reading files and
//! asking the network are left to its caller.

pub mod args;
pub mod config;
pub mod decode;
pub mod icons;
pub mod job;
pub mod locate;
pub mod output;
pub mod scan;
pub mod size;
pub mod text;
pub mod update;
pub mod version;
