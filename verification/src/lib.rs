//! Turns the button presses of a paired game controller into key clicks on a
//! synthetic keyboard, and plans the confinement and privilege drop of the
//! daemon that does so.
//!
//! The crate holds the decisions of that daemon: which system calls it may
//! still make once confined, which input reports become clicks, which kernel
//! events announce the controller, and the order in which the daemon creates
//! its keyboard, confines itself, gives up its privileges and then follows
//! the controller through disconnects. Talking to the kernel is left to the
//! caller, which performs the actions that the functions here hand out.

pub mod clicker;
pub mod confinement;
pub mod joycon;
pub mod landlock;
pub mod lifecycle;
pub mod seccomp;
pub mod translate;
pub mod user_parser;
