//! Notices for the user.

use vstd::prelude::*;
use crate::api::TauriEvent;

verus! {

/// How serious a notice is.
#[derive(Clone, Copy, Debug, PartialEq, Eq, Structural)]
pub enum Level {
    Info,
    Warn,
    Error,
}

impl Level {
    /// The number that stands for this level on the wire.
    pub open spec fn number(self) -> u8 {
        match self {
            Level::Info => 0,
            Level::Warn => 1,
            Level::Error => 2,
        }
    }

    /// The number that stands for this level on the wire.
    pub fn code(&self) -> (n: u8)
        ensures
            n == self.number(),
    {
        match self {
            Level::Info => 0,
            Level::Warn => 1,
            Level::Error => 2,
        }
    }
}

/// A notice for the user: a text and how serious it is.
#[derive(Debug)]
pub struct Notification {
    pub level: Level,
    pub message: String,
}

impl Notification {
    /// A notice that informs.
    pub fn info(msg: String) -> (r: Self)
        ensures
            r.level == Level::Info,
            r.message == msg,
    {
        Self { message: msg, level: Level::Info }
    }

    /// A notice that warns.
    pub fn warn(msg: String) -> (r: Self)
        ensures
            r.level == Level::Warn,
            r.message == msg,
    {
        Self { message: msg, level: Level::Warn }
    }

    /// A notice of an error.
    pub fn error(msg: String) -> (r: Self)
        ensures
            r.level == Level::Error,
            r.message == msg,
    {
        Self { message: msg, level: Level::Error }
    }
}

impl Clone for Notification {
    fn clone(&self) -> (r: Self)
        ensures
            r.level == self.level,
            r.message@ == self.message@,
    {
        Notification { level: self.level, message: self.message.clone() }
    }
}

impl TauriEvent for Notification {
    open spec fn topic_text(&self) -> Seq<char> {
        "app://notification"@
    }

    fn topic(&self) -> (t: &'static str) {
        "app://notification"
    }
}

} // verus!
