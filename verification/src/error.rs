//! Error values of the library.

use vstd::prelude::*;
use crate::text::{append_str, to_owned_string};

verus! {

/// A configuration file that exists but does not hold valid JSON.
#[derive(Debug)]
pub struct ConfigCorruptError {
    pub path: String,
    pub cause: String,
}

/// A configuration file that could not be read or written.
#[derive(Debug)]
pub struct ConfigAccessError {
    pub path: String,
    pub cause: String,
}

/// Every failure the library reports.
#[derive(Debug)]
pub enum AppError {
    Corrupt(ConfigCorruptError),
    Access(ConfigAccessError),
    Other(String),
}

/// `prefix + middle + suffix`.
pub fn concat3(prefix: &str, middle: &str, suffix: &str) -> (r: String)
    ensures
        r@ == prefix@ + middle@ + suffix@,
{
    let mut s = to_owned_string(prefix);
    append_str(&mut s, middle);
    append_str(&mut s, suffix);
    s
}

/// `a + b + c + d`.
pub fn concat4(a: &str, b: &str, c: &str, d: &str) -> (r: String)
    ensures
        r@ == a@ + b@ + c@ + d@,
{
    let mut s = concat3(a, b, c);
    append_str(&mut s, d);
    s
}

impl ConfigCorruptError {
    /// The text shown for this error.
    pub open spec fn message_spec(&self) -> Seq<char> {
        "Config file at "@ + self.path@ + " is not valid JSON: "@ + self.cause@
    }

    /// The text shown for this error.
    pub fn message(&self) -> (r: String)
        ensures
            r@ == self.message_spec(),
    {
        concat4("Config file at ", self.path.as_str(), " is not valid JSON: ", self.cause.as_str())
    }
}

impl ConfigAccessError {
    /// The text shown for this error.
    pub open spec fn message_spec(&self) -> Seq<char> {
        "Cannot access config file at "@ + self.path@ + ": "@ + self.cause@
    }

    /// The text shown for this error.
    pub fn message(&self) -> (r: String)
        ensures
            r@ == self.message_spec(),
    {
        concat4("Cannot access config file at ", self.path.as_str(), ": ", self.cause.as_str())
    }
}

impl AppError {
    /// The text shown for this error.
    pub open spec fn message_spec(&self) -> Seq<char> {
        match self {
            AppError::Corrupt(e) => e.message_spec(),
            AppError::Access(e) => e.message_spec(),
            AppError::Other(s) => s@,
        }
    }

    /// The text shown for this error.
    pub fn message(&self) -> (r: String)
        ensures
            r@ == self.message_spec(),
    {
        match self {
            AppError::Corrupt(e) => e.message(),
            AppError::Access(e) => e.message(),
            AppError::Other(s) => to_owned_string(s.as_str()),
        }
    }
}

impl From<ConfigCorruptError> for AppError {
    fn from(e: ConfigCorruptError) -> (r: Self) {
        AppError::Corrupt(e)
    }
}

impl vstd::std_specs::convert::FromSpecImpl<ConfigCorruptError> for AppError {
    open spec fn obeys_from_spec() -> bool {
        true
    }

    open spec fn from_spec(e: ConfigCorruptError) -> Self {
        AppError::Corrupt(e)
    }
}

impl From<ConfigAccessError> for AppError {
    fn from(e: ConfigAccessError) -> (r: Self) {
        AppError::Access(e)
    }
}

impl vstd::std_specs::convert::FromSpecImpl<ConfigAccessError> for AppError {
    open spec fn obeys_from_spec() -> bool {
        true
    }

    open spec fn from_spec(e: ConfigAccessError) -> Self {
        AppError::Access(e)
    }
}

} // verus!
