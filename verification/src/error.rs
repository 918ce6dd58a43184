//! Errors of the prompts, and the traits through which prompts give values.
use std::borrow::Cow;
use vstd::prelude::*;

verus! {

#[verifier::external_type_specification]
#[verifier::external_body]
pub struct ExIoError(std::io::Error);

/// Why a prompt gave no value.
#[derive(Debug)]
pub enum Error {
    Cancel,
    InvalidInput,
    InvalidCount { expected: usize, actual: usize },
    ValidationFail,
    Message(Cow<'static, str>),
    Io(std::io::Error),
}

impl From<std::io::Error> for Error {
    /// An I/O failure, as an error of the prompts.
    fn from(x: std::io::Error) -> (r: Self) {
        Error::Io(x)
    }
}

impl vstd::std_specs::convert::FromSpecImpl<std::io::Error> for Error {
    open spec fn obeys_from_spec() -> bool {
        true
    }

    open spec fn from_spec(x: std::io::Error) -> Self {
        Error::Io(x)
    }
}

/// A prompt whose state can be read as a value.
pub trait Valuable {
    type Output;

    /// The state admits a reading.
    spec fn can_value(&self) -> bool;

    /// The value that the prompt's state stands for.
    fn value(&self) -> Result<Self::Output, Error>
        requires
            self.can_value(),
    ;
}

/// A prompt whose state can be set from a value.
pub trait SetValue {
    type Output;

    fn set_value(&mut self, value: Self::Output) -> Result<(), Error>;
}

} // verus!
