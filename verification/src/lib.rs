//! The core of a tray application that supervises one VPN client process: it
//! decides whether the process can be started and how, keeps the one record of
//! what runs, derives the tray menu from that record, and plans what redeeming
//! an invite writes into the application's directory.
//!
//! The library reads no file, starts no process and opens no connection. Its
//! callers do that and hand it plain values: which files exist, what a process
//! printed, the bytes that a server sent. Every function here is verified
//! against its contract; the few items that rest on code outside this crate say
//! so in their documentation.
//!
//! - [`readiness`]: whether everything that the process needs is there.
//! - [`binary`]: where the managed executable is, and its version.
//! - [`launch`]: the invocation of the managed process.
//! - [`supervisor`]: the shared record and the steps that change it.
//! - [`probe`]: the health prober's ticks and the reading of its answers.
//! - [`tray`]: the tray menu and the commands of its items.
//! - [`provision`], [`archive`]: redeeming an invite.
//! - [`paths`], [`settings`], [`log`], [`errors`], [`text`]: what the others share.

pub mod archive;
pub mod binary;
pub mod errors;
pub mod launch;
pub mod log;
pub mod paths;
pub mod probe;
pub mod provision;
pub mod readiness;
pub mod settings;
pub mod supervisor;
pub mod text;
pub mod tray;
