//! The library's error type.

use vstd::prelude::*;

verus! {

/// The character of one decimal digit.
pub open spec fn digit_char(d: nat) -> char
    recommends
        d < 10,
{
    (0x30 + d) as char
}

/// A number written in decimal, without leading zeros.
pub open spec fn decimal_digits(n: nat) -> Seq<char>
    decreases n,
{
    if n < 10 {
        seq![digit_char(n)]
    } else {
        decimal_digits(n / 10).push(digit_char(n % 10))
    }
}

/// `format!` with two `{}` places, for a string and an unsigned number: the
/// string, then the number as `Display` writes it, which is in decimal.
#[verifier::external_body]
pub(crate) fn text_with_number(text: &str, value: u64) -> (s: String)
    ensures
        s@ == text@ + decimal_digits(value as nat),
{
    format!("{}{}", text, value)
}

/// What can go wrong, by kind, each with a message.
#[derive(Debug)]
pub enum Error {
    /// Network or transport failure.
    Transport(String),
    /// The peer broke the wire protocol.
    Protocol(String),
    /// Bad configuration.
    Config(String),
    /// Screen capture failed (sending side).
    Capture(String),
    /// Encoding failed.
    Encode(String),
    /// Decoding failed.
    Decode(String),
    /// Rendering failed (receiving side).
    Render(String),
    /// An I/O operation failed; the message is that of the operating system.
    Io(String),
    /// Anything else.
    Other(String),
}

impl Error {
    /// The message that the error carries.
    pub open spec fn message(self) -> Seq<char> {
        match self {
            Error::Transport(m) => m@,
            Error::Protocol(m) => m@,
            Error::Config(m) => m@,
            Error::Capture(m) => m@,
            Error::Encode(m) => m@,
            Error::Decode(m) => m@,
            Error::Render(m) => m@,
            Error::Io(m) => m@,
            Error::Other(m) => m@,
        }
    }

    /// What stands before the message when the error is shown.
    pub open spec fn prefix(self) -> Seq<char> {
        match self {
            Error::Transport(_) => "Transport error: "@,
            Error::Protocol(_) => "Protocol error: "@,
            Error::Config(_) => "Configuration error: "@,
            Error::Capture(_) => "Capture error: "@,
            Error::Encode(_) => "Encoding error: "@,
            Error::Decode(_) => "Decoding error: "@,
            Error::Render(_) => "Render error: "@,
            Error::Io(_) => "IO error: "@,
            Error::Other(_) => ""@,
        }
    }

    /// A transport error with the given message.
    pub fn transport(msg: &str) -> (e: Error)
        ensures
            e is Transport,
            e.message() == msg@,
    {
        Error::Transport(String::from_str(msg))
    }

    /// A protocol error with the given message.
    pub fn protocol(msg: &str) -> (e: Error)
        ensures
            e is Protocol,
            e.message() == msg@,
    {
        Error::Protocol(String::from_str(msg))
    }

    /// A configuration error with the given message.
    pub fn config(msg: &str) -> (e: Error)
        ensures
            e is Config,
            e.message() == msg@,
    {
        Error::Config(String::from_str(msg))
    }

    /// The error as text: the prefix of its kind, then its message.
    pub fn to_string(&self) -> (s: String)
        ensures
            s@ == self.prefix() + self.message(),
    {
        match self {
            Error::Transport(m) => String::from_str("Transport error: ").concat(m.as_str()),
            Error::Protocol(m) => String::from_str("Protocol error: ").concat(m.as_str()),
            Error::Config(m) => String::from_str("Configuration error: ").concat(m.as_str()),
            Error::Capture(m) => String::from_str("Capture error: ").concat(m.as_str()),
            Error::Encode(m) => String::from_str("Encoding error: ").concat(m.as_str()),
            Error::Decode(m) => String::from_str("Decoding error: ").concat(m.as_str()),
            Error::Render(m) => String::from_str("Render error: ").concat(m.as_str()),
            Error::Io(m) => String::from_str("IO error: ").concat(m.as_str()),
            Error::Other(m) => String::from_str("").concat(m.as_str()),
        }
    }
}

} // verus!
