//! What can go wrong at the boundaries of the library.

use vstd::prelude::*;

verus! {

/// The kinds of failure. A missing or mistyped field of a record is none of
/// them: it gets its default.
#[derive(Debug, Clone, PartialEq, Eq)]
pub enum RalphError {
    /// A record is there but is of no shape that can be read as one: a
    /// number, say, where an object was expected.
    InputShape(String),
    /// Reading or writing a file failed.
    Io { path: String, cause: String },
    /// A text or a stored snapshot could not be read back.
    Parse(String),
    /// A setting names something that is not there to choose.
    Configuration(String),
}

impl RalphError {
    /// A line of text that names the kind of the error and gives its
    /// message.
    pub fn describe(&self) -> (s: String)
        ensures
            s@ == describe_spec(*self),
    {
        match self {
            RalphError::InputShape(m) => {
                let mut s = "input shape error: ".to_owned();
                s.append(m.as_str());
                s
            },
            RalphError::Io { path, cause } => {
                let mut s = "i/o error at ".to_owned();
                s.append(path.as_str());
                s.append(": ");
                s.append(cause.as_str());
                s
            },
            RalphError::Parse(m) => {
                let mut s = "parse error: ".to_owned();
                s.append(m.as_str());
                s
            },
            RalphError::Configuration(m) => {
                let mut s = "configuration error: ".to_owned();
                s.append(m.as_str());
                s
            },
        }
    }
}

/// The text of `RalphError::describe`.
pub open spec fn describe_spec(e: RalphError) -> Seq<char> {
    match e {
        RalphError::InputShape(m) => "input shape error: "@ + m@,
        RalphError::Io { path, cause } => "i/o error at "@ + path@ + ": "@ + cause@,
        RalphError::Parse(m) => "parse error: "@ + m@,
        RalphError::Configuration(m) => "configuration error: "@ + m@,
    }
}

} // verus!
