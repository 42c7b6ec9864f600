//! Error kinds of the daemon.
//!
//! Every error is fatal: the refresh loop never retries, it surfaces the
//! error and the process terminates.

use vstd::prelude::*;
use vstd::string::StringExecFns;

verus! {

/// The error categories that end the daemon.
#[derive(Debug)]
pub enum Error {
    /// A wake-event channel failed (a sender was dropped).
    Crossbeam(String),
    /// The login exchange with the identity provider failed.
    Http(String),
    /// Reading or writing a file failed.
    Io(String),
    /// Signing the login assertion or decoding a token claim failed.
    Jwt(String),
    /// Filesystem observation could not be established or broke down.
    Notify(String),
}

impl Error {
    /// The detail text carried by the error.
    pub open spec fn detail(self) -> Seq<char> {
        match self {
            Error::Crossbeam(s) => s@,
            Error::Http(s) => s@,
            Error::Io(s) => s@,
            Error::Jwt(s) => s@,
            Error::Notify(s) => s@,
        }
    }

    /// The fixed category text of the error.
    pub open spec fn spec_category(self) -> Seq<char> {
        match self {
            Error::Crossbeam(_) => "Internal message channel error"@,
            Error::Http(_) => "Http error"@,
            Error::Io(_) => "IO error"@,
            Error::Jwt(_) => "JWT generation error"@,
            Error::Notify(_) => "Token file notification error"@,
        }
    }

    /// A stable category name for diagnostics.
    pub fn category(&self) -> (r: &'static str)
        ensures
            r@ == self.spec_category(),
    {
        match self {
            Error::Crossbeam(_) => "Internal message channel error",
            Error::Http(_) => "Http error",
            Error::Io(_) => "IO error",
            Error::Jwt(_) => "JWT generation error",
            Error::Notify(_) => "Token file notification error",
        }
    }

    /// The full diagnostic line: the category, a separator, and the detail.
    pub fn message(&self) -> (r: String)
        ensures
            r@ == self.spec_category() + ": "@ + self.detail(),
    {
        let mut line = String::from_str(self.category());
        line.append(": ");
        let detail = match self {
            Error::Crossbeam(s) => s,
            Error::Http(s) => s,
            Error::Io(s) => s,
            Error::Jwt(s) => s,
            Error::Notify(s) => s,
        };
        line.append(detail.as_str());
        line
    }
}

} // verus!
