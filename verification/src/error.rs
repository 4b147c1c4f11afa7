//! The library's error type. Each variant carries its message as text.

use vstd::prelude::*;

use crate::text::concat_str;

verus! {

broadcast use vstd::string::group_string_axioms;

/// What went wrong, by area.
#[derive(Debug, Clone)]
pub enum Error {
    Config(String),
    Device(String),
    Audio(String),
    Soundboard(String),
    Io(String),
    Json(String),
    Hotkey(String),
    Tray(String),
}

/// Shorthand for results whose error is [`Error`].
pub type Result<T> = std::result::Result<T, Error>;

/// The label that the error's text starts with, before `": "`.
pub open spec fn error_label(e: Error) -> Seq<char> {
    match e {
        Error::Config(_) => "config"@,
        Error::Device(_) => "device"@,
        Error::Audio(_) => "audio"@,
        Error::Soundboard(_) => "soundboard"@,
        Error::Io(_) => "io"@,
        Error::Json(_) => "json"@,
        Error::Hotkey(_) => "hotkey"@,
        Error::Tray(_) => "tray"@,
    }
}

/// The message that the error carries.
pub open spec fn error_message(e: Error) -> Seq<char> {
    match e {
        Error::Config(m) => m@,
        Error::Device(m) => m@,
        Error::Audio(m) => m@,
        Error::Soundboard(m) => m@,
        Error::Io(m) => m@,
        Error::Json(m) => m@,
        Error::Hotkey(m) => m@,
        Error::Tray(m) => m@,
    }
}

impl Error {
    /// A configuration error with message `msg`.
    pub fn config(msg: &str) -> (e: Self)
        ensures
            e is Config,
            error_message(e) == msg@,
    {
        Error::Config(msg.to_string())
    }

    /// A device error with message `msg`.
    pub fn device(msg: &str) -> (e: Self)
        ensures
            e is Device,
            error_message(e) == msg@,
    {
        Error::Device(msg.to_string())
    }

    /// An audio error with message `msg`.
    pub fn audio(msg: &str) -> (e: Self)
        ensures
            e is Audio,
            error_message(e) == msg@,
    {
        Error::Audio(msg.to_string())
    }

    /// A soundboard error with message `msg`.
    pub fn soundboard(msg: &str) -> (e: Self)
        ensures
            e is Soundboard,
            error_message(e) == msg@,
    {
        Error::Soundboard(msg.to_string())
    }

    /// The error as text: its label, `": "`, then its message.
    pub fn describe(&self) -> (s: String)
        ensures
            s@ == error_label(*self) + ": "@ + error_message(*self),
    {
        let (label, msg) = match self {
            Error::Config(m) => ("config: ", m),
            Error::Device(m) => ("device: ", m),
            Error::Audio(m) => ("audio: ", m),
            Error::Soundboard(m) => ("soundboard: ", m),
            Error::Io(m) => ("io: ", m),
            Error::Json(m) => ("json: ", m),
            Error::Hotkey(m) => ("hotkey: ", m),
            Error::Tray(m) => ("tray: ", m),
        };
        proof {
            reveal_strlit("config: ");
            reveal_strlit("device: ");
            reveal_strlit("audio: ");
            reveal_strlit("soundboard: ");
            reveal_strlit("io: ");
            reveal_strlit("json: ");
            reveal_strlit("hotkey: ");
            reveal_strlit("tray: ");
            reveal_strlit("config");
            reveal_strlit("device");
            reveal_strlit("audio");
            reveal_strlit("soundboard");
            reveal_strlit("io");
            reveal_strlit("json");
            reveal_strlit("hotkey");
            reveal_strlit("tray");
            reveal_strlit(": ");
        }
        let s = concat_str(label, msg.as_str());
        assert(s@ =~= error_label(*self) + ": "@ + error_message(*self));
        s
    }
}

} // verus!
