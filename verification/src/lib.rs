//! The decisions behind a front end for the OpenOCD debugger, verified.
//!
//! The front end starts the debugger with the configuration scripts that
//! the user chose, shows what it prints, and ends it again; and it finds the
//! scripts that an installation of the debugger offers. All of that touches
//! the machine: processes, the file system, the search path. This library
//! does none of it. It holds what is decided on the way, as functions from
//! what was observed to what is to be done, each with a contract that Verus
//! proves:
//!
//! - `app`: the one slot for the one debugger session, and the messages
//!   that a session sends to the user interface;
//! - `openocd::proc`: the arguments that start the debugger, and which
//!   process to end in order to end it;
//! - `openocd::paths` and `openocd::resolver`: where the debugger is
//!   installed and where its scripts lie;
//! - `openocd::config` and `openocd`: the scripts found in a directory,
//!   each under its name;
//! - `pathname` and `text`: path names and texts as sequences of
//!   characters.
//!
//! One outside computation is relied on without proof: the search of a
//! text with a regular expression, in `openocd::paths`.

pub mod api;
pub mod app;
pub mod config;
pub mod error;
pub mod gitpod;
pub mod listing;
pub mod notification;
pub mod openocd;
pub mod pathname;
pub mod text;
