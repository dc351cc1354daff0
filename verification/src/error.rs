use vstd::prelude::*;
use vstd::string::StringExecFns;

verus! {

/// What the graph engine reported when it refused a request: the text of the
/// exception it threw.
#[derive(Debug)]
pub struct EngineException {
    pub what: String,
}

/// Errors of this library.
#[derive(Debug)]
pub enum Error {
    /// The graph engine refused a request.
    Cxx(EngineException),
    /// An input was refused before it reached the engine.
    InvalidInput(String),
}

/// Results of this library.
pub type Result<T> = std::result::Result<T, Error>;

impl From<EngineException> for Error {
    fn from(value: EngineException) -> (res: Self) {
        Error::Cxx(value)
    }
}

impl vstd::std_specs::convert::FromSpecImpl<EngineException> for Error {
    open spec fn obeys_from_spec() -> bool {
        true
    }

    open spec fn from_spec(v: EngineException) -> Self {
        Error::Cxx(v)
    }
}

impl Error {
    /// The text of this error, as it is shown to a user.
    pub fn message(&self) -> (res: String)
        ensures
            res@ == match self {
                Error::Cxx(e) => e.what@,
                Error::InvalidInput(m) => m@,
            },
    {
        match self {
            Error::Cxx(e) => String::from_str(e.what.as_str()),
            Error::InvalidInput(m) => String::from_str(m.as_str()),
        }
    }
}

/// Builds the error for a refused input from its message.
pub fn invalid_input(message: String) -> (res: Error)
    ensures
        res == Error::InvalidInput(message),
{
    Error::InvalidInput(message)
}

/// Turns the engine's reply to a request into a result of this library: a
/// value passes through, an engine exception becomes `Error::Cxx`.
pub open spec fn lifted<T>(reply: std::result::Result<T, EngineException>) -> Result<T> {
    match reply {
        Ok(v) => Ok(v),
        Err(e) => Err(Error::Cxx(e)),
    }
}

/// Executable form of [`lifted`].
pub fn lift<T>(reply: std::result::Result<T, EngineException>) -> (res: Result<T>)
    ensures
        res == lifted(reply),
{
    match reply {
        Ok(v) => Ok(v),
        Err(e) => Err(Error::from(e)),
    }
}

} // verus!
