use vstd::prelude::*;
use vstd::string::StringExecFns;

verus! {

/// What went wrong, by severity.
///
/// `Warn` is informational, `Error` aborts the current flow, and `Fatal`
/// means that talking to the engine is fundamentally broken.
#[derive(Debug, PartialEq, Eq)]
pub enum Failure {
    Warn(String),
    Error(String),
    Fatal(String),
}

/// A failure as contracts speak of it: the severity and the text.
pub enum Problem {
    Warn(Seq<char>),
    Error(Seq<char>),
    Fatal(Seq<char>),
}

impl View for Failure {
    type V = Problem;

    open spec fn view(&self) -> Problem {
        match *self {
            Failure::Warn(m) => Problem::Warn(m@),
            Failure::Error(m) => Problem::Error(m@),
            Failure::Fatal(m) => Problem::Fatal(m@),
        }
    }
}

impl Failure {
    /// The text carried by the failure, whatever its severity.
    pub open spec fn spec_message(self) -> Seq<char> {
        match self {
            Failure::Warn(m) => m@,
            Failure::Error(m) => m@,
            Failure::Fatal(m) => m@,
        }
    }

    /// The text carried by the failure.
    pub fn message(&self) -> (text: &str)
        ensures
            text@ == self.spec_message(),
    {
        match self {
            Failure::Warn(m) => m.as_str(),
            Failure::Error(m) => m.as_str(),
            Failure::Fatal(m) => m.as_str(),
        }
    }

    /// An `Error` that carries `text`.
    pub fn error(text: &str) -> (failure: Failure)
        ensures
            failure@ == Problem::Error(text@),
    {
        Failure::Error(String::from_str(text))
    }

    /// A `Fatal` that carries `text`.
    pub fn fatal(text: &str) -> (failure: Failure)
        ensures
            failure@ == Problem::Fatal(text@),
    {
        Failure::Fatal(String::from_str(text))
    }

    /// A `Warn` that carries `text`.
    pub fn warn(text: &str) -> (failure: Failure)
        ensures
            failure@ == Problem::Warn(text@),
    {
        Failure::Warn(String::from_str(text))
    }

    /// A copy of the failure: same severity, same text.
    pub fn duplicate(&self) -> (copy: Failure)
        ensures
            copy@ == self@,
    {
        match self {
            Failure::Warn(m) => Failure::Warn(m.clone()),
            Failure::Error(m) => Failure::Error(m.clone()),
            Failure::Fatal(m) => Failure::Fatal(m.clone()),
        }
    }
}

} // verus!
